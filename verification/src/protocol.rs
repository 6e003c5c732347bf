//! Wire protocol codec.
//!
//! Every frame starts with a packed little-endian header of 8 bytes:
//! command opcode (`u8`), body length (`u16`), unique id (`u32`) and
//! transaction id (`u8`); the body layout is opcode-specific. The request
//! builders here are proved to emit exactly the specified bytes, and the
//! response parsers are proved to accept exactly the well-formed frames and
//! to report, for every other input, which validation step failed.

use vstd::prelude::*;

verus! {

/// Size in bytes of the packed frame header.
pub const HEADER_SIZE: usize = 8;

/// Fixed bytes of a write frame before its payload: the header, the
/// object key, the offset and the final-fragment flag.
pub const CMD_WRITE_DATA_OVERHEAD: u16 = 15;

// Request opcodes, sent from the host to the remote.
pub const CMD_GET_VERSION: u8 = 0x00;
pub const CMD_PROP_VALUE_GET: u8 = 0x04;
pub const CMD_WRITE_DATA: u8 = 0x06;
pub const CMD_READ_DATA: u8 = 0x08;
pub const CMD_GET_OBJECT_INFO: u8 = 0x0A;
pub const CMD_READ_COUNTER: u8 = 0x0C;
pub const CMD_WRITE_COUNTER: u8 = 0x0E;
pub const CMD_INCREMENT_COUNTER: u8 = 0x0F;
pub const CMD_DELETE_OBJECT: u8 = 0x10;
pub const CMD_ENUMERATE_OBJECTS: u8 = 0x11;
pub const CMD_GET_OBJECT_COUNT: u8 = 0x13;

// Response opcodes, sent from the remote to the host.
pub const CMD_VERSION_IS: u8 = 0x01;
pub const CMD_STATUS_IS: u8 = 0x02;
pub const CMD_PROP_VALUE_IS: u8 = 0x05;
pub const CMD_READ_DATA_IS: u8 = 0x09;
pub const CMD_OBJECT_INFO_IS: u8 = 0x0B;
pub const CMD_COUNTER_IS: u8 = 0x0D;
pub const CMD_ENUMERATE_OBJECTS_IS: u8 = 0x12;
pub const CMD_OBJECT_COUNT_IS: u8 = 0x14;

/// Response opcodes as an enumeration; [`SecondaryCmd::from_wire`] decodes
/// the leading byte of a received frame.
#[derive(Debug, Clone, Copy, PartialEq, Eq, Structural)]
pub enum SecondaryCmd {
    CmdVersionIs,
    CmdStatusIs,
    CmdPropValueIs,
    CmdReadDataIs,
    CmdObjectInfoIs,
    CmdCounterIs,
    CmdEnumerateObjectsIs,
    CmdObjectCountIs,
    UnsupportedCmdIs,
}

impl SecondaryCmd {
    /// Decodes a response opcode byte; unrecognized bytes map to
    /// [`SecondaryCmd::UnsupportedCmdIs`].
    pub fn from_wire(value: u8) -> (r: Self)
        ensures
            r == Self::spec_from_wire(value),
    {
        match value {
            0x01 => SecondaryCmd::CmdVersionIs,
            0x02 => SecondaryCmd::CmdStatusIs,
            0x05 => SecondaryCmd::CmdPropValueIs,
            0x09 => SecondaryCmd::CmdReadDataIs,
            0x0B => SecondaryCmd::CmdObjectInfoIs,
            0x0D => SecondaryCmd::CmdCounterIs,
            0x12 => SecondaryCmd::CmdEnumerateObjectsIs,
            0x14 => SecondaryCmd::CmdObjectCountIs,
            _ => SecondaryCmd::UnsupportedCmdIs,
        }
    }

    /// What [`SecondaryCmd::from_wire`] returns, as a specification.
    pub open spec fn spec_from_wire(value: u8) -> Self {
        if value == 0x01 {
            SecondaryCmd::CmdVersionIs
        } else if value == 0x02 {
            SecondaryCmd::CmdStatusIs
        } else if value == 0x05 {
            SecondaryCmd::CmdPropValueIs
        } else if value == 0x09 {
            SecondaryCmd::CmdReadDataIs
        } else if value == 0x0B {
            SecondaryCmd::CmdObjectInfoIs
        } else if value == 0x0D {
            SecondaryCmd::CmdCounterIs
        } else if value == 0x12 {
            SecondaryCmd::CmdEnumerateObjectsIs
        } else if value == 0x14 {
            SecondaryCmd::CmdObjectCountIs
        } else {
            SecondaryCmd::UnsupportedCmdIs
        }
    }
}

/// Discriminator byte of a status frame: which family the 32-bit status
/// code that follows belongs to.
#[derive(Debug, Clone, Copy, PartialEq, Eq, Structural)]
pub enum StatusIsResponseType {
    ResponseTypeSlStatus,
    ResponseTypeEcode,
    ResponseTypeUnknown,
}

impl StatusIsResponseType {
    /// Decodes the discriminator byte (0 names the generic status family,
    /// 1 the storage-error family; everything else is unknown).
    pub fn from_wire(value: u8) -> (r: Self)
        ensures
            r == Self::spec_from_wire(value),
    {
        match value {
            0 => StatusIsResponseType::ResponseTypeSlStatus,
            1 => StatusIsResponseType::ResponseTypeEcode,
            _ => StatusIsResponseType::ResponseTypeUnknown,
        }
    }

    /// What [`StatusIsResponseType::from_wire`] returns, as a specification.
    pub open spec fn spec_from_wire(value: u8) -> Self {
        if value == 0 {
            StatusIsResponseType::ResponseTypeSlStatus
        } else if value == 1 {
            StatusIsResponseType::ResponseTypeEcode
        } else {
            StatusIsResponseType::ResponseTypeUnknown
        }
    }
}

/// Generic status family carried by a status frame with discriminator 0.
#[derive(Debug, Clone, Copy, PartialEq, Eq, Structural)]
pub enum SlStatus {
    Success,
    Fail,
    Busy,
    Unknown,
}

impl SlStatus {
    /// Decodes a 32-bit generic status code (0 is success, 1 failure,
    /// 4 busy; everything else is surfaced as unknown).
    pub fn from_wire(value: u32) -> (r: Self)
        ensures
            r == Self::spec_from_wire(value),
    {
        match value {
            0 => SlStatus::Success,
            1 => SlStatus::Fail,
            4 => SlStatus::Busy,
            _ => SlStatus::Unknown,
        }
    }

    /// What [`SlStatus::from_wire`] returns, as a specification.
    pub open spec fn spec_from_wire(value: u32) -> Self {
        if value == 0 {
            SlStatus::Success
        } else if value == 1 {
            SlStatus::Fail
        } else if value == 4 {
            SlStatus::Busy
        } else {
            SlStatus::Unknown
        }
    }

    /// Short description of the status, for messages.
    pub fn message(self) -> &'static str {
        match self {
            SlStatus::Success => "Success",
            SlStatus::Fail => "Failure",
            SlStatus::Busy => "Busy",
            SlStatus::Unknown => "Unknown",
        }
    }
}

/// Storage-error family carried by a status frame with discriminator 1.
#[derive(Debug, Clone, Copy, PartialEq, Eq, Structural)]
pub enum ECode {
    Success,
    AlignmentInvalid,
    SizeTooSmall,
    NoValidPages,
    PageSizeNotSupported,
    ObjectSizeNotSupported,
    StorageFull,
    NotOpened,
    OpenedWithOtherParameters,
    Parameter,
    KeyInvalid,
    KeyNotFound,
    ObjectIsNotData,
    ObjectIsNotACounter,
    EraseFailed,
    WriteDataSize,
    WriteFailed,
    ReadDataSize,
    ReadFailed,
    InitWithFullNvm,
    ResizeParameter,
    ResizeNotEnoughSpace,
    EraseCountError,
    AddressRange,
    NvmAccess,
    Unknown,
}

impl ECode {
    /// Decodes a 32-bit storage-error code; codes outside the recognized
    /// set are surfaced as [`ECode::Unknown`].
    pub fn from_wire(value: u32) -> (r: Self)
        ensures
            r == Self::spec_from_wire(value),
    {
        match value {
            0 => ECode::Success,
            0xF000E001 => ECode::AlignmentInvalid,
            0xF000E002 => ECode::SizeTooSmall,
            0xF000E003 => ECode::NoValidPages,
            0xF000E004 => ECode::PageSizeNotSupported,
            0xF000E005 => ECode::ObjectSizeNotSupported,
            0xF000E006 => ECode::StorageFull,
            0xF000E007 => ECode::NotOpened,
            0xF000E008 => ECode::OpenedWithOtherParameters,
            0xF000E009 => ECode::Parameter,
            0xF000E00A => ECode::KeyInvalid,
            0xF000E00B => ECode::KeyNotFound,
            0xF000E00C => ECode::ObjectIsNotData,
            0xF000E00D => ECode::ObjectIsNotACounter,
            0xF000E00E => ECode::EraseFailed,
            0xF000E00F => ECode::WriteDataSize,
            0xF000E010 => ECode::WriteFailed,
            0xF000E011 => ECode::ReadDataSize,
            0xF000E012 => ECode::ReadFailed,
            0xF000E013 => ECode::InitWithFullNvm,
            0xF000E014 => ECode::ResizeParameter,
            0xF000E015 => ECode::ResizeNotEnoughSpace,
            0xF000E016 => ECode::EraseCountError,
            0xF000E017 => ECode::AddressRange,
            0xF000E019 => ECode::NvmAccess,
            _ => ECode::Unknown,
        }
    }

    /// What [`ECode::from_wire`] returns, as a specification.
    pub open spec fn spec_from_wire(value: u32) -> Self {
        if value == 0 {
            ECode::Success
        } else if value == 0xF000E001 {
            ECode::AlignmentInvalid
        } else if value == 0xF000E002 {
            ECode::SizeTooSmall
        } else if value == 0xF000E003 {
            ECode::NoValidPages
        } else if value == 0xF000E004 {
            ECode::PageSizeNotSupported
        } else if value == 0xF000E005 {
            ECode::ObjectSizeNotSupported
        } else if value == 0xF000E006 {
            ECode::StorageFull
        } else if value == 0xF000E007 {
            ECode::NotOpened
        } else if value == 0xF000E008 {
            ECode::OpenedWithOtherParameters
        } else if value == 0xF000E009 {
            ECode::Parameter
        } else if value == 0xF000E00A {
            ECode::KeyInvalid
        } else if value == 0xF000E00B {
            ECode::KeyNotFound
        } else if value == 0xF000E00C {
            ECode::ObjectIsNotData
        } else if value == 0xF000E00D {
            ECode::ObjectIsNotACounter
        } else if value == 0xF000E00E {
            ECode::EraseFailed
        } else if value == 0xF000E00F {
            ECode::WriteDataSize
        } else if value == 0xF000E010 {
            ECode::WriteFailed
        } else if value == 0xF000E011 {
            ECode::ReadDataSize
        } else if value == 0xF000E012 {
            ECode::ReadFailed
        } else if value == 0xF000E013 {
            ECode::InitWithFullNvm
        } else if value == 0xF000E014 {
            ECode::ResizeParameter
        } else if value == 0xF000E015 {
            ECode::ResizeNotEnoughSpace
        } else if value == 0xF000E016 {
            ECode::EraseCountError
        } else if value == 0xF000E017 {
            ECode::AddressRange
        } else if value == 0xF000E019 {
            ECode::NvmAccess
        } else {
            ECode::Unknown
        }
    }

    /// Short description of the storage error, for messages.
    pub fn message(self) -> &'static str {
        match self {
            ECode::Success => "Operation successful",
            ECode::AlignmentInvalid => "Invalid data alignment",
            ECode::SizeTooSmall => "Insufficient memory specified",
            ECode::NoValidPages => "No valid pages found during initialization",
            ECode::PageSizeNotSupported => "Unsupported page size",
            ECode::ObjectSizeNotSupported => "Unsupported object size",
            ECode::StorageFull => "Storage is full",
            ECode::NotOpened => "Module not successfully opened",
            ECode::OpenedWithOtherParameters => "Module already opened with different parameters",
            ECode::Parameter => "Illegal parameter in operation",
            ECode::KeyInvalid => "Invalid key value",
            ECode::KeyNotFound => "Key not found",
            ECode::ObjectIsNotData => "Accessing data object as counter object",
            ECode::ObjectIsNotACounter => "Accessing counter object as data object",
            ECode::EraseFailed => "Failed to erase data",
            ECode::WriteDataSize => "Data object too large",
            ECode::WriteFailed => "Failed to write data",
            ECode::ReadDataSize => "Attempted to read data with incorrect length",
            ECode::ReadFailed => "Failed to read data",
            ECode::InitWithFullNvm => "Initialized with full memory",
            ECode::ResizeParameter => "Illegal resize parameter",
            ECode::ResizeNotEnoughSpace => "Not enough space to complete resize",
            ECode::EraseCountError => "Invalid erase counts",
            ECode::AddressRange => "Address and size out of range",
            ECode::NvmAccess => "Failed memory access",
            ECode::Unknown => "Unknown error",
        }
    }
}

/// The decoded body of a status frame: a status code of one of the two
/// recognized families, or an unknown discriminator.
#[derive(Debug, Clone, Copy, PartialEq, Eq, Structural)]
pub enum StatusCode {
    SlStatus(SlStatus),
    ECode(ECode),
    Unknown,
}

/// Decoded status body with discriminator byte `response_type` and code
/// word `value`, as the parser produces it.
pub open spec fn spec_status_code(response_type: u8, value: u32) -> StatusCode {
    if response_type == 0 {
        StatusCode::SlStatus(SlStatus::spec_from_wire(value))
    } else if response_type == 1 {
        StatusCode::ECode(ECode::spec_from_wire(value))
    } else {
        StatusCode::Unknown
    }
}

/// Recognized property identifiers of the property-get exchange.
#[derive(Debug, Clone, Copy, PartialEq, Eq, Structural)]
pub enum PropertyType {
    MaxObjectSize,
    MaxWriteSize,
    Unknown,
}

impl PropertyType {
    /// Wire byte of the property identifier.
    pub fn wire(self) -> (r: u8)
        ensures
            r == self.spec_wire(),
    {
        match self {
            PropertyType::MaxObjectSize => 0x01,
            PropertyType::MaxWriteSize => 0x02,
            PropertyType::Unknown => 0xFF,
        }
    }

    /// What [`PropertyType::wire`] returns, as a specification.
    pub open spec fn spec_wire(self) -> u8 {
        match self {
            PropertyType::MaxObjectSize => 0x01,
            PropertyType::MaxWriteSize => 0x02,
            PropertyType::Unknown => 0xFF,
        }
    }
}

/// A property value as reported by the remote, tagged with its identifier.
#[derive(Debug, Clone, Copy, PartialEq, Eq, Structural)]
pub enum PropertyValue {
    MaxObjectSize(u16),
    MaxWriteSize(u16),
    Unknown,
}

/// What can go wrong while a received frame is decoded and validated.
/// A wrong opcode, unique id or transaction id means the frame belongs to
/// some other exchange and is dropped; the other variants are protocol
/// failures surfaced to the caller.
#[derive(Debug)]
pub enum ProtocolError {
    UnknownProcotolError,
    DeserializationError(&'static str),
    SerializationError(&'static str),
    /// Expected, then received transaction id.
    InvalidTransactionId(u8, u8),
    Bug(&'static str),
    InvalidCommandId,
    /// Expected, then received unique id.
    InvalidUniqueId(u32, u32),
    /// Expected, then received body length.
    InvalidResponseLen(usize, u16),
}

/// Per-instance transaction tag: an 8-bit counter incremented, with wrap,
/// before every outgoing command.
#[derive(Debug, Clone, Copy, PartialEq, Eq, Structural)]
pub struct TransactionId {
    pub value: u8,
}

/// The transaction id that follows `t`: one more, wrapping from 0xFF
/// around to 0.
pub open spec fn wrap_inc(t: u8) -> u8 {
    if t == 0xFF {
        0u8
    } else {
        (t + 1) as u8
    }
}

impl TransactionId {
    /// Advances the instance counter and tags the new command with the
    /// advanced value: ids run 1, 2, ..., 255, 0, 1, ... from a fresh
    /// counter at 0.
    pub fn new(transaction_id: &mut u8) -> (r: Self)
        ensures
            *final(transaction_id) == wrap_inc(*old(transaction_id)),
            r.value == *final(transaction_id),
    {
        if *transaction_id == 0xFF {
            *transaction_id = 0;
        } else {
            *transaction_id = *transaction_id + 1;
        }
        TransactionId { value: *transaction_id }
    }
}

/// The packed frame header: opcode, body length, unique id, transaction id.
#[derive(Debug, Clone, Copy, PartialEq, Eq, Structural)]
pub struct Header {
    pub cmd: u8,
    pub len: u16,
    pub unique_id: u32,
    pub transaction_id: u8,
}

/// The header encoded in the first 8 bytes of `input`.
pub open spec fn spec_header_of(input: Seq<u8>) -> Header
    recommends
        input.len() >= 8,
{
    Header {
        cmd: input[0],
        len: spec_le_u16(input[1], input[2]),
        unique_id: spec_le_u32(input[3], input[4], input[5], input[6]),
        transaction_id: input[7],
    }
}

/// Validation outcome of [`Header::validate`], by field and with the
/// expected and received values, as a specification.
pub open spec fn spec_validate(
    h: Header,
    expected_cmd: u8,
    expected_len: usize,
    expected_unique_id: u32,
    expected_transaction_id: u8,
) -> Result<(), ProtocolError> {
    if h.cmd != expected_cmd {
        Err(ProtocolError::InvalidCommandId)
    } else if h.len != expected_len as u16 {
        Err(ProtocolError::InvalidResponseLen(expected_len, h.len))
    } else if h.unique_id != expected_unique_id {
        Err(ProtocolError::InvalidUniqueId(expected_unique_id, h.unique_id))
    } else if h.transaction_id != expected_transaction_id {
        Err(ProtocolError::InvalidTransactionId(expected_transaction_id, h.transaction_id))
    } else {
        Ok(())
    }
}

impl Header {
    /// A header with the given fields.
    pub fn new(cmd: u8, len: u16, unique_id: u32, transaction_id: TransactionId) -> (r: Self)
        ensures
            r == (Header { cmd, len, unique_id, transaction_id: transaction_id.value }),
    {
        Header { cmd, len, unique_id, transaction_id: transaction_id.value }
    }

    /// Checks this header against the outstanding command's expectation,
    /// in the order opcode, length, unique id, transaction id; the first
    /// mismatch decides the error.
    pub fn validate(
        &self,
        expected_cmd: u8,
        expected_len: usize,
        expected_unique_id: u32,
        expected_transaction_id: u8,
    ) -> (r: Result<(), ProtocolError>)
        ensures
            r == spec_validate(
                *self,
                expected_cmd,
                expected_len,
                expected_unique_id,
                expected_transaction_id,
            ),
    {
        if self.cmd != expected_cmd {
            return Err(ProtocolError::InvalidCommandId);
        }
        if self.len != expected_len as u16 {
            return Err(ProtocolError::InvalidResponseLen(expected_len, self.len));
        }
        if self.unique_id != expected_unique_id {
            return Err(ProtocolError::InvalidUniqueId(expected_unique_id, self.unique_id));
        }
        if self.transaction_id != expected_transaction_id {
            return Err(ProtocolError::InvalidTransactionId(
                expected_transaction_id,
                self.transaction_id,
            ));
        }
        Ok(())
    }
}

/// Little-endian bytes of a `u16`, low byte first.
pub open spec fn spec_u16_le(v: u16) -> Seq<u8> {
    seq![(v % 0x100) as u8, (v / 0x100) as u8]
}

/// Little-endian bytes of a `u32`, low byte first.
pub open spec fn spec_u32_le(v: u32) -> Seq<u8> {
    seq![
        (v % 0x100) as u8,
        ((v / 0x100) % 0x100) as u8,
        ((v / 0x10000) % 0x100) as u8,
        (v / 0x1000000) as u8,
    ]
}

/// The `u16` with the given little-endian bytes.
pub open spec fn spec_le_u16(b0: u8, b1: u8) -> u16 {
    (b0 + b1 * 0x100) as u16
}

/// The `u32` with the given little-endian bytes.
pub open spec fn spec_le_u32(b0: u8, b1: u8, b2: u8, b3: u8) -> u32 {
    (b0 + b1 * 0x100 + b2 * 0x10000 + b3 * 0x1000000) as u32
}

/// Appends the little-endian bytes of `x` to `out`.
pub fn push_u16_le(out: &mut Vec<u8>, x: u16)
    ensures
        final(out)@ == old(out)@ + spec_u16_le(x),
{
    out.push((x % 0x100) as u8);
    out.push((x / 0x100) as u8);
    assert(out@ =~= old(out)@ + spec_u16_le(x));
}

/// Appends the little-endian bytes of `x` to `out`.
pub fn push_u32_le(out: &mut Vec<u8>, x: u32)
    ensures
        final(out)@ == old(out)@ + spec_u32_le(x),
{
    out.push((x % 0x100) as u8);
    out.push(((x / 0x100) % 0x100) as u8);
    out.push(((x / 0x10000) % 0x100) as u8);
    out.push((x / 0x1000000) as u8);
    assert(out@ =~= old(out)@ + spec_u32_le(x));
}

/// Reads the `u16` at `offset` in `input`, little-endian.
pub fn read_u16_le(input: &[u8], offset: usize) -> (r: u16)
    requires
        offset + 2 <= input@.len(),
    ensures
        r == spec_le_u16(input@[offset as int], input@[offset + 1]),
{
    input[offset] as u16 + input[offset + 1] as u16 * 0x100
}

/// Reads the `u32` at `offset` in `input`, little-endian.
pub fn read_u32_le(input: &[u8], offset: usize) -> (r: u32)
    requires
        offset + 4 <= input@.len(),
    ensures
        r == spec_le_u32(
            input@[offset as int],
            input@[offset + 1],
            input@[offset + 2],
            input@[offset + 3],
        ),
{
    input[offset] as u32 + input[offset + 1] as u32 * 0x100 + input[offset + 2] as u32 * 0x10000
        + input[offset + 3] as u32 * 0x1000000
}

/// Reading back the two little-endian bytes of a `u16` gives the value.
pub proof fn lemma_u16_le_round_trip(v: u16)
    ensures
        spec_le_u16(spec_u16_le(v)[0], spec_u16_le(v)[1]) == v,
{
}

/// Reading back the four little-endian bytes of a `u32` gives the value.
pub proof fn lemma_u32_le_round_trip(v: u32)
    ensures
        spec_le_u32(spec_u32_le(v)[0], spec_u32_le(v)[1], spec_u32_le(v)[2], spec_u32_le(v)[3])
            == v,
{
    assert(v == v % 0x100 + (v / 0x100 % 0x100) * 0x100 + (v / 0x10000 % 0x100) * 0x10000 + (v
        / 0x1000000) * 0x1000000) by (bit_vector);
}

/// A whole frame: opcode, body length, unique id, transaction id, body.
pub open spec fn spec_frame(cmd: u8, unique_id: u32, transaction_id: u8, body: Seq<u8>) -> Seq<u8>
    recommends
        body.len() <= 0xFFFF,
{
    seq![cmd] + spec_u16_le(body.len() as u16) + spec_u32_le(unique_id) + seq![transaction_id]
        + body
}

/// Decodes the header of a received frame and validates it against the
/// outstanding command's expectation. Frames shorter than a header are a
/// deserialization error; the expected body length is the received frame's
/// length past the header, so the length field must match what actually
/// arrived.
pub fn extract_and_validate_header(
    input: &[u8],
    expected_cmd: u8,
    expected_unique_id: u32,
    expected_transaction_id: u8,
) -> (r: Result<Header, ProtocolError>)
    ensures
        input@.len() < 8 ==> (r matches Err(ProtocolError::DeserializationError(_))),
        input@.len() >= 8 ==> r == spec_extract_header(
            input@,
            expected_cmd,
            expected_unique_id,
            expected_transaction_id,
        ),
{
    if input.len() < HEADER_SIZE {
        return Err(ProtocolError::DeserializationError("frame is shorter than a header"));
    }
    let header = Header {
        cmd: input[0],
        len: read_u16_le(input, 1),
        unique_id: read_u32_le(input, 3),
        transaction_id: input[7],
    };
    let expected_len = input.len() - HEADER_SIZE;
    match header.validate(expected_cmd, expected_len, expected_unique_id, expected_transaction_id)
    {
        Ok(_) => Ok(header),
        Err(e) => Err(e),
    }
}

/// What [`extract_and_validate_header`] returns on a frame of at least
/// header size, as a specification.
pub open spec fn spec_extract_header(
    input: Seq<u8>,
    expected_cmd: u8,
    expected_unique_id: u32,
    expected_transaction_id: u8,
) -> Result<Header, ProtocolError>
    recommends
        input.len() >= 8,
{
    let h = spec_header_of(input);
    match spec_validate(
        h,
        expected_cmd,
        (input.len() - 8) as usize,
        expected_unique_id,
        expected_transaction_id,
    ) {
        Ok(_) => Ok(h),
        Err(e) => Err(e),
    }
}

/// Copies the bytes of `input` from `offset` on into a fresh vector.
pub fn tail_to_vec(input: &[u8], offset: usize) -> (r: Vec<u8>)
    requires
        offset <= input@.len(),
    ensures
        r@ == input@.subrange(offset as int, input@.len() as int),
{
    let mut out: Vec<u8> = Vec::new();
    out.extend_from_slice(&input[offset..input.len()]);
    assert(out@ =~= input@.subrange(offset as int, input@.len() as int));
    out
}

/// Which validation step refused a received frame, as the specifications
/// state it. A frame with a wrong opcode, unique id or transaction id is
/// not ours and is dropped; a frame too short to decode, with a length
/// field that contradicts what arrived, or with a malformed body is a
/// protocol failure.
#[derive(Debug, Clone, Copy, PartialEq, Eq, Structural)]
pub enum ParseErr {
    /// The frame is shorter than a header.
    TooShort,
    /// The opcode is not the expected one.
    WrongCmd,
    /// The length field contradicts the received size: expected, received.
    WrongLen(usize, u16),
    /// The unique id is not ours: expected, received.
    WrongUid(u32, u32),
    /// The transaction id is not the outstanding one: expected, received.
    WrongTxn(u8, u8),
    /// The body is shorter than its layout needs, or malformed.
    BadBody,
}

impl ParseErr {
    /// Whether a frame refused for this reason is merely not ours: it is
    /// dropped and the read resumes, rather than failing the call.
    pub open spec fn is_dropped(self) -> bool {
        match self {
            ParseErr::WrongCmd => true,
            ParseErr::WrongUid(_, _) => true,
            ParseErr::WrongTxn(_, _) => true,
            _ => false,
        }
    }
}

/// How a parser reports the given refusal through [`ProtocolError`]:
/// mismatches carry their expected and received values, while a short or
/// malformed frame carries only a message.
pub open spec fn err_matches<T>(r: Result<T, ProtocolError>, k: ParseErr) -> bool {
    match k {
        ParseErr::TooShort => r matches Err(ProtocolError::DeserializationError(_)),
        ParseErr::BadBody => r matches Err(ProtocolError::DeserializationError(_)),
        ParseErr::WrongCmd => r == Err::<T, ProtocolError>(ProtocolError::InvalidCommandId),
        ParseErr::WrongLen(e, a) => r == Err::<T, ProtocolError>(
            ProtocolError::InvalidResponseLen(e, a),
        ),
        ParseErr::WrongUid(e, a) => r == Err::<T, ProtocolError>(
            ProtocolError::InvalidUniqueId(e, a),
        ),
        ParseErr::WrongTxn(e, a) => r == Err::<T, ProtocolError>(
            ProtocolError::InvalidTransactionId(e, a),
        ),
    }
}

/// Header-level validation of a received frame: size, opcode, length
/// field against received size, unique id, transaction id, in that order.
pub open spec fn spec_frame_check(
    input: Seq<u8>,
    expected_cmd: u8,
    expected_unique_id: u32,
    expected_transaction_id: u8,
) -> Result<(), ParseErr> {
    if input.len() < 8 {
        Err(ParseErr::TooShort)
    } else {
        let h = spec_header_of(input);
        let expected_len = (input.len() - 8) as usize;
        if h.cmd != expected_cmd {
            Err(ParseErr::WrongCmd)
        } else if h.len != expected_len as u16 {
            Err(ParseErr::WrongLen(expected_len, h.len))
        } else if h.unique_id != expected_unique_id {
            Err(ParseErr::WrongUid(expected_unique_id, h.unique_id))
        } else if h.transaction_id != expected_transaction_id {
            Err(ParseErr::WrongTxn(expected_transaction_id, h.transaction_id))
        } else {
            Ok(())
        }
    }
}

/// Full parse of a status frame: header validation, then a discriminator
/// byte and a 32-bit code.
pub open spec fn spec_parse_status(
    input: Seq<u8>,
    expected_unique_id: u32,
    expected_transaction_id: u8,
) -> Result<StatusCode, ParseErr> {
    match spec_frame_check(input, CMD_STATUS_IS, expected_unique_id, expected_transaction_id) {
        Err(k) => Err(k),
        Ok(_) => if input.len() < 13 {
            Err(ParseErr::BadBody)
        } else {
            Ok(
                spec_status_code(
                    input[8],
                    spec_le_u32(input[9], input[10], input[11], input[12]),
                ),
            )
        },
    }
}

/// Full parse of a version frame: header validation, then major, minor
/// and patch bytes.
pub open spec fn spec_parse_version(
    input: Seq<u8>,
    expected_unique_id: u32,
    expected_transaction_id: u8,
) -> Result<(u8, u8, u8), ParseErr> {
    match spec_frame_check(input, CMD_VERSION_IS, expected_unique_id, expected_transaction_id) {
        Err(k) => Err(k),
        Ok(_) => if input.len() < 11 {
            Err(ParseErr::BadBody)
        } else {
            Ok((input[8], input[9], input[10]))
        },
    }
}

/// Full parse of a property frame: header validation, then a property
/// identifier and, for the recognized identifiers, a 16-bit value. An
/// unrecognized identifier is a malformed body.
pub open spec fn spec_parse_prop_value(
    input: Seq<u8>,
    expected_unique_id: u32,
    expected_transaction_id: u8,
) -> Result<PropertyValue, ParseErr> {
    match spec_frame_check(input, CMD_PROP_VALUE_IS, expected_unique_id, expected_transaction_id) {
        Err(k) => Err(k),
        Ok(_) => if input.len() < 9 {
            Err(ParseErr::BadBody)
        } else if input[8] == 0x01 && input.len() >= 11 {
            Ok(PropertyValue::MaxObjectSize(spec_le_u16(input[9], input[10])))
        } else if input[8] == 0x02 && input.len() >= 11 {
            Ok(PropertyValue::MaxWriteSize(spec_le_u16(input[9], input[10])))
        } else {
            Err(ParseErr::BadBody)
        },
    }
}

/// Full parse of a read-data frame: header validation, then a final-
/// fragment flag and at least one payload byte.
pub open spec fn spec_parse_read_data_is(
    input: Seq<u8>,
    expected_unique_id: u32,
    expected_transaction_id: u8,
) -> Result<(Seq<u8>, bool), ParseErr> {
    match spec_frame_check(input, CMD_READ_DATA_IS, expected_unique_id, expected_transaction_id) {
        Err(k) => Err(k),
        Ok(_) => if input.len() < 10 {
            Err(ParseErr::BadBody)
        } else {
            Ok((input.subrange(9, input.len() as int), input[8] != 0))
        },
    }
}

/// Full parse of an enumeration frame: header validation, then a final-
/// fragment flag and at least one payload byte.
pub open spec fn spec_parse_enumerate_is(
    input: Seq<u8>,
    expected_unique_id: u32,
    expected_transaction_id: u8,
) -> Result<(Seq<u8>, bool), ParseErr> {
    match spec_frame_check(
        input,
        CMD_ENUMERATE_OBJECTS_IS,
        expected_unique_id,
        expected_transaction_id,
    ) {
        Err(k) => Err(k),
        Ok(_) => if input.len() < 10 {
            Err(ParseErr::BadBody)
        } else {
            Ok((input.subrange(9, input.len() as int), input[8] != 0))
        },
    }
}

/// Full parse of a counter frame: header validation, then a 32-bit value.
pub open spec fn spec_parse_counter_is(
    input: Seq<u8>,
    expected_unique_id: u32,
    expected_transaction_id: u8,
) -> Result<u32, ParseErr> {
    match spec_frame_check(input, CMD_COUNTER_IS, expected_unique_id, expected_transaction_id) {
        Err(k) => Err(k),
        Ok(_) => if input.len() < 12 {
            Err(ParseErr::BadBody)
        } else {
            Ok(spec_le_u32(input[8], input[9], input[10], input[11]))
        },
    }
}

/// Full parse of an object-info frame: header validation, then a type
/// byte and a 16-bit size.
pub open spec fn spec_parse_object_info_is(
    input: Seq<u8>,
    expected_unique_id: u32,
    expected_transaction_id: u8,
) -> Result<(crate::CpcNvm3ObjectType, u16), ParseErr> {
    match spec_frame_check(
        input,
        CMD_OBJECT_INFO_IS,
        expected_unique_id,
        expected_transaction_id,
    ) {
        Err(k) => Err(k),
        Ok(_) => if input.len() < 11 {
            Err(ParseErr::BadBody)
        } else {
            Ok(
                (
                    crate::CpcNvm3ObjectType::spec_from_wire(input[8]),
                    spec_le_u16(input[9], input[10]),
                ),
            )
        },
    }
}

/// Full parse of an object-count frame: header validation, then a 16-bit
/// count.
pub open spec fn spec_parse_object_count_is(
    input: Seq<u8>,
    expected_unique_id: u32,
    expected_transaction_id: u8,
) -> Result<u16, ParseErr> {
    match spec_frame_check(
        input,
        CMD_OBJECT_COUNT_IS,
        expected_unique_id,
        expected_transaction_id,
    ) {
        Err(k) => Err(k),
        Ok(_) => if input.len() < 10 {
            Err(ParseErr::BadBody)
        } else {
            Ok(spec_le_u16(input[8], input[9]))
        },
    }
}

/// The decoded body of a status frame.
pub struct StatusIs {
    pub status_code: StatusCode,
}

impl StatusIs {
    /// Decodes and validates a status frame.
    pub fn deserialize(
        input: &[u8],
        expected_transaction_id: u8,
        expected_unique_id: u32,
    ) -> (r: Result<Self, ProtocolError>)
        ensures
            match spec_parse_status(input@, expected_unique_id, expected_transaction_id) {
                Ok(s) => r matches Ok(x) && x.status_code == s,
                Err(k) => err_matches(r, k),
            },
    {
        match extract_and_validate_header(
            input,
            CMD_STATUS_IS,
            expected_unique_id,
            expected_transaction_id,
        ) {
            Ok(_) => {},
            Err(e) => {
                return Err(e);
            },
        }
        if input.len() < 13 {
            return Err(ProtocolError::DeserializationError("status body is too short"));
        }
        let response_type = input[8];
        let value = read_u32_le(input, 9);
        let status_code = if response_type == 0 {
            StatusCode::SlStatus(SlStatus::from_wire(value))
        } else if response_type == 1 {
            StatusCode::ECode(ECode::from_wire(value))
        } else {
            StatusCode::Unknown
        };
        Ok(StatusIs { status_code })
    }
}

/// Decodes a status frame and hands back its status code.
pub fn parse_status_response(
    expected_transaction_id: u8,
    expected_unique_id: u32,
    input: &[u8],
) -> (r: Result<StatusCode, ProtocolError>)
    ensures
        match spec_parse_status(input@, expected_unique_id, expected_transaction_id) {
            Ok(s) => r == Ok::<StatusCode, ProtocolError>(s),
            Err(k) => err_matches(r, k),
        },
{
    match StatusIs::deserialize(input, expected_transaction_id, expected_unique_id) {
        Ok(response) => Ok(response.status_code),
        Err(e) => Err(e),
    }
}

/// The decoded body of a version frame.
pub struct VersionIs {
    pub header: Header,
    pub major_version: u8,
    pub minor_version: u8,
    pub patch_version: u8,
}

impl VersionIs {
    /// Decodes and validates a version frame.
    pub fn deserialize(
        input: &[u8],
        expected_transaction_id: u8,
        expected_unique_id: u32,
    ) -> (r: Result<Self, ProtocolError>)
        ensures
            match spec_parse_version(input@, expected_unique_id, expected_transaction_id) {
                Ok(v) => r matches Ok(x) && x.major_version == v.0 && x.minor_version == v.1
                    && x.patch_version == v.2,
                Err(k) => err_matches(r, k),
            },
    {
        let header = match extract_and_validate_header(
            input,
            CMD_VERSION_IS,
            expected_unique_id,
            expected_transaction_id,
        ) {
            Ok(h) => h,
            Err(e) => {
                return Err(e);
            },
        };
        if input.len() < 11 {
            return Err(ProtocolError::DeserializationError("version body is too short"));
        }
        Ok(
            VersionIs {
                header,
                major_version: input[8],
                minor_version: input[9],
                patch_version: input[10],
            },
        )
    }

    /// Size in bytes of a whole version frame.
    pub fn len(&self) -> (r: u16)
        ensures
            r == 11,
    {
        11
    }
}

/// The decoded body of a property frame.
pub struct PropValueIs {
    pub header: Header,
    pub property_type: PropertyType,
    pub property_value: PropertyValue,
}

impl PropValueIs {
    /// Decodes and validates a property frame.
    pub fn deserialize(
        input: &[u8],
        expected_transaction_id: u8,
        expected_unique_id: u32,
    ) -> (r: Result<Self, ProtocolError>)
        ensures
            match spec_parse_prop_value(input@, expected_unique_id, expected_transaction_id) {
                Ok(v) => r matches Ok(x) && x.property_value == v,
                Err(k) => err_matches(r, k),
            },
    {
        let header = match extract_and_validate_header(
            input,
            CMD_PROP_VALUE_IS,
            expected_unique_id,
            expected_transaction_id,
        ) {
            Ok(h) => h,
            Err(e) => {
                return Err(e);
            },
        };
        if input.len() < 9 {
            return Err(ProtocolError::DeserializationError("property body is too short"));
        }
        let property_type = PropertyType::from_wire(input[8]);
        match property_type {
            PropertyType::MaxObjectSize => {
                if input.len() < 11 {
                    return Err(
                        ProtocolError::DeserializationError("property value is too short"),
                    );
                }
                let value = read_u16_le(input, 9);
                Ok(
                    PropValueIs {
                        header,
                        property_type,
                        property_value: PropertyValue::MaxObjectSize(value),
                    },
                )
            },
            PropertyType::MaxWriteSize => {
                if input.len() < 11 {
                    return Err(
                        ProtocolError::DeserializationError("property value is too short"),
                    );
                }
                let value = read_u16_le(input, 9);
                Ok(
                    PropValueIs {
                        header,
                        property_type,
                        property_value: PropertyValue::MaxWriteSize(value),
                    },
                )
            },
            PropertyType::Unknown => Err(
                ProtocolError::DeserializationError("unknown property type"),
            ),
        }
    }
}

impl PropertyType {
    /// Decodes a property identifier byte.
    pub fn from_wire(value: u8) -> (r: Self)
        ensures
            r == Self::spec_from_wire(value),
    {
        match value {
            0x01 => PropertyType::MaxObjectSize,
            0x02 => PropertyType::MaxWriteSize,
            _ => PropertyType::Unknown,
        }
    }

    /// What [`PropertyType::from_wire`] returns, as a specification.
    pub open spec fn spec_from_wire(value: u8) -> Self {
        if value == 0x01 {
            PropertyType::MaxObjectSize
        } else if value == 0x02 {
            PropertyType::MaxWriteSize
        } else {
            PropertyType::Unknown
        }
    }
}

/// The final-fragment flag of a read-data frame.
pub struct CmdReadDataIsHeader {
    pub last_frag: bool,
}

/// The decoded body of a read-data frame: a flag and the payload bytes.
pub struct CmdReadDataIs {
    pub header: Header,
    pub cmd_read_data_header: CmdReadDataIsHeader,
    pub data: Vec<u8>,
}

impl CmdReadDataIs {
    /// Decodes and validates a read-data frame. An empty payload is
    /// refused: the remote always returns at least one byte per fragment.
    pub fn deserialize(
        input: &[u8],
        expected_transaction_id: u8,
        expected_unique_id: u32,
    ) -> (r: Result<Self, ProtocolError>)
        ensures
            match spec_parse_read_data_is(input@, expected_unique_id, expected_transaction_id) {
                Ok(v) => r matches Ok(x) && x.data@ == v.0 && x.cmd_read_data_header.last_frag
                    == v.1,
                Err(k) => err_matches(r, k),
            },
    {
        let header = match extract_and_validate_header(
            input,
            CMD_READ_DATA_IS,
            expected_unique_id,
            expected_transaction_id,
        ) {
            Ok(h) => h,
            Err(e) => {
                return Err(e);
            },
        };
        if input.len() < 10 {
            return Err(ProtocolError::DeserializationError("read-data body is too short"));
        }
        let last_frag = input[8] != 0;
        let data = tail_to_vec(input, 9);
        Ok(CmdReadDataIs { header, cmd_read_data_header: CmdReadDataIsHeader { last_frag }, data })
    }

    /// Fixed bytes of a read-data frame before the payload: the header
    /// and the final-fragment flag.
    pub fn get_overhead() -> (r: u16)
        ensures
            r == 9,
    {
        9
    }
}

/// The decoded body of an enumeration frame: a flag and the key bytes.
pub struct CmdEnumerateObjectsIs {
    pub header: Header,
    pub last_frag: bool,
    pub data: Vec<u8>,
}

impl CmdEnumerateObjectsIs {
    /// Decodes and validates an enumeration frame. An empty payload is
    /// refused: the remote always returns at least one byte per fragment.
    pub fn deserialize(
        input: &[u8],
        expected_transaction_id: u8,
        expected_unique_id: u32,
    ) -> (r: Result<Self, ProtocolError>)
        ensures
            match spec_parse_enumerate_is(input@, expected_unique_id, expected_transaction_id) {
                Ok(v) => r matches Ok(x) && x.data@ == v.0 && x.last_frag == v.1,
                Err(k) => err_matches(r, k),
            },
    {
        let header = match extract_and_validate_header(
            input,
            CMD_ENUMERATE_OBJECTS_IS,
            expected_unique_id,
            expected_transaction_id,
        ) {
            Ok(h) => h,
            Err(e) => {
                return Err(e);
            },
        };
        if input.len() < 10 {
            return Err(ProtocolError::DeserializationError("enumeration body is too short"));
        }
        let last_frag = input[8] != 0;
        let data = tail_to_vec(input, 9);
        Ok(CmdEnumerateObjectsIs { header, last_frag, data })
    }

    /// Fixed bytes of an enumeration frame before the payload: the header
    /// and the final-fragment flag.
    pub fn get_overhead() -> (r: u16)
        ensures
            r == 9,
    {
        9
    }
}

/// The decoded body of an object-info frame.
pub struct ObjectInfoIs {
    pub header: Header,
    pub object_type: crate::CpcNvm3ObjectType,
    pub object_size: u16,
}

impl ObjectInfoIs {
    /// Decodes and validates an object-info frame.
    pub fn deserialize(
        input: &[u8],
        expected_transaction_id: u8,
        expected_unique_id: u32,
    ) -> (r: Result<Self, ProtocolError>)
        ensures
            match spec_parse_object_info_is(input@, expected_unique_id, expected_transaction_id) {
                Ok(v) => r matches Ok(x) && x.object_type == v.0 && x.object_size == v.1,
                Err(k) => err_matches(r, k),
            },
    {
        let header = match extract_and_validate_header(
            input,
            CMD_OBJECT_INFO_IS,
            expected_unique_id,
            expected_transaction_id,
        ) {
            Ok(h) => h,
            Err(e) => {
                return Err(e);
            },
        };
        if input.len() < 11 {
            return Err(ProtocolError::DeserializationError("object-info body is too short"));
        }
        let object_type = crate::CpcNvm3ObjectType::from_wire(input[8]);
        let object_size = read_u16_le(input, 9);
        Ok(ObjectInfoIs { header, object_type, object_size })
    }

    /// Size in bytes of a whole object-info frame.
    pub fn len(&self) -> (r: u16)
        ensures
            r == 11,
    {
        11
    }
}

/// The decoded body of a counter frame.
pub struct CounterIs {
    pub header: Header,
    pub data: u32,
}

impl CounterIs {
    /// Decodes and validates a counter frame.
    pub fn deserialize(
        input: &[u8],
        expected_transaction_id: u8,
        expected_unique_id: u32,
    ) -> (r: Result<Self, ProtocolError>)
        ensures
            match spec_parse_counter_is(input@, expected_unique_id, expected_transaction_id) {
                Ok(v) => r matches Ok(x) && x.data == v,
                Err(k) => err_matches(r, k),
            },
    {
        let header = match extract_and_validate_header(
            input,
            CMD_COUNTER_IS,
            expected_unique_id,
            expected_transaction_id,
        ) {
            Ok(h) => h,
            Err(e) => {
                return Err(e);
            },
        };
        if input.len() < 12 {
            return Err(ProtocolError::DeserializationError("counter body is too short"));
        }
        let data = read_u32_le(input, 8);
        Ok(CounterIs { header, data })
    }

    /// Size in bytes of a whole counter frame.
    pub fn len(&self) -> (r: u16)
        ensures
            r == 12,
    {
        12
    }
}

/// The decoded body of an object-count frame.
pub struct ObjectCountIs {
    pub header: Header,
    pub object_count: u16,
}

impl ObjectCountIs {
    /// Decodes and validates an object-count frame.
    pub fn deserialize(
        input: &[u8],
        expected_transaction_id: u8,
        expected_unique_id: u32,
    ) -> (r: Result<Self, ProtocolError>)
        ensures
            match spec_parse_object_count_is(input@, expected_unique_id, expected_transaction_id) {
                Ok(v) => r matches Ok(x) && x.object_count == v,
                Err(k) => err_matches(r, k),
            },
    {
        let header = match extract_and_validate_header(
            input,
            CMD_OBJECT_COUNT_IS,
            expected_unique_id,
            expected_transaction_id,
        ) {
            Ok(h) => h,
            Err(e) => {
                return Err(e);
            },
        };
        if input.len() < 10 {
            return Err(ProtocolError::DeserializationError("object-count body is too short"));
        }
        let object_count = read_u16_le(input, 8);
        Ok(ObjectCountIs { header, object_count })
    }

    /// Size in bytes of a whole object-count frame.
    pub fn len(&self) -> (r: u16)
        ensures
            r == 10,
    {
        10
    }
}

/// Prefix of a frame before the body: opcode, body length, unique id and
/// transaction id, packed little-endian.
pub fn begin_frame(cmd: u8, body_len: u16, unique_id: u32, transaction_id: u8) -> (out: Vec<u8>)
    ensures
        out@ == seq![cmd] + spec_u16_le(body_len) + spec_u32_le(unique_id) + seq![transaction_id],
{
    let mut out: Vec<u8> = Vec::new();
    out.push(cmd);
    push_u16_le(&mut out, body_len);
    push_u32_le(&mut out, unique_id);
    out.push(transaction_id);
    assert(out@ =~= seq![cmd] + spec_u16_le(body_len) + spec_u32_le(unique_id) + seq![
        transaction_id,
    ]);
    out
}

/// The version-request frame: an empty body.
pub open spec fn spec_get_version_frame(unique_id: u32, transaction_id: u8) -> Seq<u8> {
    spec_frame(CMD_GET_VERSION, unique_id, transaction_id, Seq::empty())
}

/// The property-request frame: the property identifier byte.
pub open spec fn spec_prop_value_get_frame(
    unique_id: u32,
    transaction_id: u8,
    property_type: PropertyType,
) -> Seq<u8> {
    spec_frame(CMD_PROP_VALUE_GET, unique_id, transaction_id, seq![property_type.spec_wire()])
}

/// One write fragment: object key, byte offset, final-fragment flag and
/// the fragment's payload.
pub open spec fn spec_write_data_frame(
    unique_id: u32,
    transaction_id: u8,
    object_key: u32,
    offset: u16,
    last_frag: u8,
    data: Seq<u8>,
) -> Seq<u8> {
    spec_frame(
        CMD_WRITE_DATA,
        unique_id,
        transaction_id,
        spec_u32_le(object_key) + spec_u16_le(offset) + seq![last_frag] + data,
    )
}

/// The read-request frame: object key and the caller's capacity.
pub open spec fn spec_read_data_frame(
    unique_id: u32,
    transaction_id: u8,
    object_key: u32,
    max_read_size: u16,
) -> Seq<u8> {
    spec_frame(
        CMD_READ_DATA,
        unique_id,
        transaction_id,
        spec_u32_le(object_key) + spec_u16_le(max_read_size),
    )
}

/// The enumeration-request frame: the caller's key capacity.
pub open spec fn spec_enumerate_objects_frame(
    unique_id: u32,
    transaction_id: u8,
    max_objects: u16,
) -> Seq<u8> {
    spec_frame(CMD_ENUMERATE_OBJECTS, unique_id, transaction_id, spec_u16_le(max_objects))
}

/// The counter-read frame: the object key.
pub open spec fn spec_read_counter_frame(
    unique_id: u32,
    transaction_id: u8,
    object_key: u32,
) -> Seq<u8> {
    spec_frame(CMD_READ_COUNTER, unique_id, transaction_id, spec_u32_le(object_key))
}

/// The counter-write frame: the object key and the value.
pub open spec fn spec_write_counter_frame(
    unique_id: u32,
    transaction_id: u8,
    object_key: u32,
    value: u32,
) -> Seq<u8> {
    spec_frame(
        CMD_WRITE_COUNTER,
        unique_id,
        transaction_id,
        spec_u32_le(object_key) + spec_u32_le(value),
    )
}

/// The counter-increment frame: the object key.
pub open spec fn spec_increment_counter_frame(
    unique_id: u32,
    transaction_id: u8,
    object_key: u32,
) -> Seq<u8> {
    spec_frame(CMD_INCREMENT_COUNTER, unique_id, transaction_id, spec_u32_le(object_key))
}

/// The object-info request frame: the object key.
pub open spec fn spec_get_object_info_frame(
    unique_id: u32,
    transaction_id: u8,
    object_key: u32,
) -> Seq<u8> {
    spec_frame(CMD_GET_OBJECT_INFO, unique_id, transaction_id, spec_u32_le(object_key))
}

/// The object-count request frame: an empty body.
pub open spec fn spec_get_object_count_frame(unique_id: u32, transaction_id: u8) -> Seq<u8> {
    spec_frame(CMD_GET_OBJECT_COUNT, unique_id, transaction_id, Seq::empty())
}

/// The delete-request frame: the object key.
pub open spec fn spec_delete_object_frame(
    unique_id: u32,
    transaction_id: u8,
    object_key: u32,
) -> Seq<u8> {
    spec_frame(CMD_DELETE_OBJECT, unique_id, transaction_id, spec_u32_le(object_key))
}

/// Which reply shapes the outstanding command accepts.
#[derive(Debug, Clone, Copy, PartialEq, Eq, Structural)]
pub enum ReplyKind {
    /// Only a status frame.
    KindStatus,
    /// A status frame or a read-data fragment.
    KindReadData,
    /// A status frame or an enumeration fragment.
    KindEnumerate,
    /// A status frame or a counter value.
    KindCounter,
    /// A status frame or an object-info record.
    KindObjectInfo,
    /// A status frame or an object count.
    KindObjectCount,
    /// Only a version record.
    KindVersion,
    /// A status frame or a property value.
    KindPropValue,
}

/// A decoded reply, whatever its shape.
pub enum Reply {
    Status(StatusCode),
    Data(Vec<u8>, bool),
    Counter(u32),
    Info(crate::CpcNvm3ObjectType, u16),
    Count(u16),
    Version(u8, u8, u8),
    Prop(PropertyValue),
}

/// A decoded reply at the specification level: payload bytes appear as
/// sequences.
pub enum ReplySpec {
    Status(StatusCode),
    Data(Seq<u8>, bool),
    Counter(u32),
    Info(crate::CpcNvm3ObjectType, u16),
    Count(u16),
    Version(u8, u8, u8),
    Prop(PropertyValue),
}

/// The specification-level value of a decoded reply.
pub open spec fn reply_view(r: Reply) -> ReplySpec {
    match r {
        Reply::Status(s) => ReplySpec::Status(s),
        Reply::Data(d, l) => ReplySpec::Data(d@, l),
        Reply::Counter(v) => ReplySpec::Counter(v),
        Reply::Info(t, n) => ReplySpec::Info(t, n),
        Reply::Count(n) => ReplySpec::Count(n),
        Reply::Version(a, b, c) => ReplySpec::Version(a, b, c),
        Reply::Prop(p) => ReplySpec::Prop(p),
    }
}

/// Decodes one received frame against the outstanding command: which
/// reply it is, or why it is refused. For a command with two reply
/// shapes the leading opcode byte picks the shape; any other opcode is a
/// wrong command, so the frame is dropped and the read resumes.
pub open spec fn spec_parse_reply(
    kind: ReplyKind,
    input: Seq<u8>,
    expected_unique_id: u32,
    expected_transaction_id: u8,
) -> Result<ReplySpec, ParseErr> {
    match kind {
        ReplyKind::KindStatus => match spec_parse_status(
            input,
            expected_unique_id,
            expected_transaction_id,
        ) {
            Ok(s) => Ok(ReplySpec::Status(s)),
            Err(k) => Err(k),
        },
        ReplyKind::KindVersion => if input.len() < 1 {
            Err(ParseErr::TooShort)
        } else if input[0] == CMD_VERSION_IS {
            match spec_parse_version(input, expected_unique_id, expected_transaction_id) {
                Ok(v) => Ok(ReplySpec::Version(v.0, v.1, v.2)),
                Err(k) => Err(k),
            }
        } else {
            Err(ParseErr::WrongCmd)
        },
        ReplyKind::KindReadData => if input.len() < 1 {
            Err(ParseErr::TooShort)
        } else if input[0] == CMD_STATUS_IS {
            match spec_parse_status(input, expected_unique_id, expected_transaction_id) {
                Ok(s) => Ok(ReplySpec::Status(s)),
                Err(k) => Err(k),
            }
        } else if input[0] == CMD_READ_DATA_IS {
            match spec_parse_read_data_is(input, expected_unique_id, expected_transaction_id) {
                Ok(v) => Ok(ReplySpec::Data(v.0, v.1)),
                Err(k) => Err(k),
            }
        } else {
            Err(ParseErr::WrongCmd)
        },
        ReplyKind::KindEnumerate => if input.len() < 1 {
            Err(ParseErr::TooShort)
        } else if input[0] == CMD_STATUS_IS {
            match spec_parse_status(input, expected_unique_id, expected_transaction_id) {
                Ok(s) => Ok(ReplySpec::Status(s)),
                Err(k) => Err(k),
            }
        } else if input[0] == CMD_ENUMERATE_OBJECTS_IS {
            match spec_parse_enumerate_is(input, expected_unique_id, expected_transaction_id) {
                Ok(v) => Ok(ReplySpec::Data(v.0, v.1)),
                Err(k) => Err(k),
            }
        } else {
            Err(ParseErr::WrongCmd)
        },
        ReplyKind::KindCounter => if input.len() < 1 {
            Err(ParseErr::TooShort)
        } else if input[0] == CMD_STATUS_IS {
            match spec_parse_status(input, expected_unique_id, expected_transaction_id) {
                Ok(s) => Ok(ReplySpec::Status(s)),
                Err(k) => Err(k),
            }
        } else if input[0] == CMD_COUNTER_IS {
            match spec_parse_counter_is(input, expected_unique_id, expected_transaction_id) {
                Ok(v) => Ok(ReplySpec::Counter(v)),
                Err(k) => Err(k),
            }
        } else {
            Err(ParseErr::WrongCmd)
        },
        ReplyKind::KindObjectInfo => if input.len() < 1 {
            Err(ParseErr::TooShort)
        } else if input[0] == CMD_STATUS_IS {
            match spec_parse_status(input, expected_unique_id, expected_transaction_id) {
                Ok(s) => Ok(ReplySpec::Status(s)),
                Err(k) => Err(k),
            }
        } else if input[0] == CMD_OBJECT_INFO_IS {
            match spec_parse_object_info_is(input, expected_unique_id, expected_transaction_id) {
                Ok(v) => Ok(ReplySpec::Info(v.0, v.1)),
                Err(k) => Err(k),
            }
        } else {
            Err(ParseErr::WrongCmd)
        },
        ReplyKind::KindObjectCount => if input.len() < 1 {
            Err(ParseErr::TooShort)
        } else if input[0] == CMD_STATUS_IS {
            match spec_parse_status(input, expected_unique_id, expected_transaction_id) {
                Ok(s) => Ok(ReplySpec::Status(s)),
                Err(k) => Err(k),
            }
        } else if input[0] == CMD_OBJECT_COUNT_IS {
            match spec_parse_object_count_is(input, expected_unique_id, expected_transaction_id) {
                Ok(v) => Ok(ReplySpec::Count(v)),
                Err(k) => Err(k),
            }
        } else {
            Err(ParseErr::WrongCmd)
        },
        ReplyKind::KindPropValue => if input.len() < 1 {
            Err(ParseErr::TooShort)
        } else if input[0] == CMD_STATUS_IS {
            match spec_parse_status(input, expected_unique_id, expected_transaction_id) {
                Ok(s) => Ok(ReplySpec::Status(s)),
                Err(k) => Err(k),
            }
        } else if input[0] == CMD_PROP_VALUE_IS {
            match spec_parse_prop_value(input, expected_unique_id, expected_transaction_id) {
                Ok(v) => Ok(ReplySpec::Prop(v)),
                Err(k) => Err(k),
            }
        } else {
            Err(ParseErr::WrongCmd)
        },
    }
}

/// Decodes one received frame against the outstanding command.
pub fn parse_reply(
    kind: ReplyKind,
    input: &[u8],
    expected_unique_id: u32,
    expected_transaction_id: u8,
) -> (r: Result<Reply, ProtocolError>)
    ensures
        match spec_parse_reply(kind, input@, expected_unique_id, expected_transaction_id) {
            Ok(s) => r matches Ok(x) && reply_view(x) == s,
            Err(k) => err_matches(r, k),
        },
{
    match kind {
        ReplyKind::KindStatus => {
            match parse_status_response(expected_transaction_id, expected_unique_id, input) {
                Ok(s) => Ok(Reply::Status(s)),
                Err(e) => Err(e),
            }
        },
        ReplyKind::KindVersion => {
            if input.len() < 1 {
                return Err(ProtocolError::DeserializationError("empty frame"));
            }
            if input[0] == CMD_VERSION_IS {
                match VersionIs::deserialize(input, expected_transaction_id, expected_unique_id) {
                    Ok(v) => Ok(Reply::Version(v.major_version, v.minor_version, v.patch_version)),
                    Err(e) => Err(e),
                }
            } else {
                Err(ProtocolError::InvalidCommandId)
            }
        },
        ReplyKind::KindReadData => {
            if input.len() < 1 {
                return Err(ProtocolError::DeserializationError("empty frame"));
            }
            if input[0] == CMD_STATUS_IS {
                match parse_status_response(expected_transaction_id, expected_unique_id, input) {
                    Ok(s) => Ok(Reply::Status(s)),
                    Err(e) => Err(e),
                }
            } else if input[0] == CMD_READ_DATA_IS {
                match CmdReadDataIs::deserialize(input, expected_transaction_id, expected_unique_id)
                {
                    Ok(v) => Ok(Reply::Data(v.data, v.cmd_read_data_header.last_frag)),
                    Err(e) => Err(e),
                }
            } else {
                Err(ProtocolError::InvalidCommandId)
            }
        },
        ReplyKind::KindEnumerate => {
            if input.len() < 1 {
                return Err(ProtocolError::DeserializationError("empty frame"));
            }
            if input[0] == CMD_STATUS_IS {
                match parse_status_response(expected_transaction_id, expected_unique_id, input) {
                    Ok(s) => Ok(Reply::Status(s)),
                    Err(e) => Err(e),
                }
            } else if input[0] == CMD_ENUMERATE_OBJECTS_IS {
                match CmdEnumerateObjectsIs::deserialize(
                    input,
                    expected_transaction_id,
                    expected_unique_id,
                ) {
                    Ok(v) => Ok(Reply::Data(v.data, v.last_frag)),
                    Err(e) => Err(e),
                }
            } else {
                Err(ProtocolError::InvalidCommandId)
            }
        },
        ReplyKind::KindCounter => {
            if input.len() < 1 {
                return Err(ProtocolError::DeserializationError("empty frame"));
            }
            if input[0] == CMD_STATUS_IS {
                match parse_status_response(expected_transaction_id, expected_unique_id, input) {
                    Ok(s) => Ok(Reply::Status(s)),
                    Err(e) => Err(e),
                }
            } else if input[0] == CMD_COUNTER_IS {
                match CounterIs::deserialize(input, expected_transaction_id, expected_unique_id) {
                    Ok(v) => Ok(Reply::Counter(v.data)),
                    Err(e) => Err(e),
                }
            } else {
                Err(ProtocolError::InvalidCommandId)
            }
        },
        ReplyKind::KindObjectInfo => {
            if input.len() < 1 {
                return Err(ProtocolError::DeserializationError("empty frame"));
            }
            if input[0] == CMD_STATUS_IS {
                match parse_status_response(expected_transaction_id, expected_unique_id, input) {
                    Ok(s) => Ok(Reply::Status(s)),
                    Err(e) => Err(e),
                }
            } else if input[0] == CMD_OBJECT_INFO_IS {
                match ObjectInfoIs::deserialize(input, expected_transaction_id, expected_unique_id)
                {
                    Ok(v) => Ok(Reply::Info(v.object_type, v.object_size)),
                    Err(e) => Err(e),
                }
            } else {
                Err(ProtocolError::InvalidCommandId)
            }
        },
        ReplyKind::KindObjectCount => {
            if input.len() < 1 {
                return Err(ProtocolError::DeserializationError("empty frame"));
            }
            if input[0] == CMD_STATUS_IS {
                match parse_status_response(expected_transaction_id, expected_unique_id, input) {
                    Ok(s) => Ok(Reply::Status(s)),
                    Err(e) => Err(e),
                }
            } else if input[0] == CMD_OBJECT_COUNT_IS {
                match ObjectCountIs::deserialize(input, expected_transaction_id, expected_unique_id)
                {
                    Ok(v) => Ok(Reply::Count(v.object_count)),
                    Err(e) => Err(e),
                }
            } else {
                Err(ProtocolError::InvalidCommandId)
            }
        },
        ReplyKind::KindPropValue => {
            if input.len() < 1 {
                return Err(ProtocolError::DeserializationError("empty frame"));
            }
            if input[0] == CMD_STATUS_IS {
                match parse_status_response(expected_transaction_id, expected_unique_id, input) {
                    Ok(s) => Ok(Reply::Status(s)),
                    Err(e) => Err(e),
                }
            } else if input[0] == CMD_PROP_VALUE_IS {
                match PropValueIs::deserialize(input, expected_transaction_id, expected_unique_id)
                {
                    Ok(v) => Ok(Reply::Prop(v.property_value)),
                    Err(e) => Err(e),
                }
            } else {
                Err(ProtocolError::InvalidCommandId)
            }
        },
    }
}

/// The version request.
pub struct GetVersion {
    pub header: Header,
}

impl GetVersion {
    /// Builds a version request, advancing the transaction counter.
    pub fn new(unique_id: u32, transaction_id: &mut u8) -> (r: Self)
        ensures
            *final(transaction_id) == wrap_inc(*old(transaction_id)),
            r.header == (Header {
                cmd: CMD_GET_VERSION,
                len: 0,
                unique_id,
                transaction_id: wrap_inc(*old(transaction_id)),
            }),
    {
        GetVersion {
            header: Header::new(CMD_GET_VERSION, 0, unique_id, TransactionId::new(transaction_id)),
        }
    }

    /// Emits the request's bytes.
    pub fn serialize(&self) -> (r: Vec<u8>)
        ensures
            r@ == spec_get_version_frame(self.header.unique_id, self.header.transaction_id),
    {
        let out = begin_frame(CMD_GET_VERSION, 0, self.header.unique_id, self.header.transaction_id);
        assert(out@ =~= spec_get_version_frame(self.header.unique_id, self.header.transaction_id));
        out
    }

    /// Decodes the reply to this request: only a version record is
    /// accepted; anything else is a wrong command.
    pub fn parse_response(&self, input: &[u8]) -> (r: Result<VersionIs, ProtocolError>)
        ensures
            match spec_parse_reply(
                ReplyKind::KindVersion,
                input@,
                self.header.unique_id,
                self.header.transaction_id,
            ) {
                Ok(s) => r matches Ok(v) && ReplySpec::Version(
                    v.major_version,
                    v.minor_version,
                    v.patch_version,
                ) == s,
                Err(k) => err_matches(r, k),
            },
    {
        if input.len() < 1 {
            return Err(ProtocolError::DeserializationError("empty frame"));
        }
        if input[0] == CMD_VERSION_IS {
            VersionIs::deserialize(input, self.header.transaction_id, self.header.unique_id)
        } else {
            Err(ProtocolError::InvalidCommandId)
        }
    }
}

/// The reply to a property request.
pub enum PropValueGetResponse {
    Value(PropertyValue),
    StatusCode(StatusCode),
}

/// The specification-level value of a property reply.
pub open spec fn prop_value_get_response_view(r: PropValueGetResponse) -> ReplySpec {
    match r {
        PropValueGetResponse::Value(v) => ReplySpec::Prop(v),
        PropValueGetResponse::StatusCode(s) => ReplySpec::Status(s),
    }
}

/// The property request.
pub struct PropValueGet {
    pub header: Header,
    pub property_type: PropertyType,
}

impl PropValueGet {
    /// Builds a property request, advancing the transaction counter.
    pub fn new(unique_id: u32, transaction_id: &mut u8, property_type: PropertyType) -> (r: Self)
        ensures
            *final(transaction_id) == wrap_inc(*old(transaction_id)),
            r.header == (Header {
                cmd: CMD_PROP_VALUE_GET,
                len: 1,
                unique_id,
                transaction_id: wrap_inc(*old(transaction_id)),
            }),
            r.property_type == property_type,
    {
        PropValueGet {
            header: Header::new(
                CMD_PROP_VALUE_GET,
                1,
                unique_id,
                TransactionId::new(transaction_id),
            ),
            property_type,
        }
    }

    /// Emits the request's bytes.
    pub fn serialize(&self) -> (r: Vec<u8>)
        ensures
            r@ == spec_prop_value_get_frame(
                self.header.unique_id,
                self.header.transaction_id,
                self.property_type,
            ),
    {
        let mut out = begin_frame(
            CMD_PROP_VALUE_GET,
            1,
            self.header.unique_id,
            self.header.transaction_id,
        );
        out.push(self.property_type.wire());
        assert(out@ =~= spec_prop_value_get_frame(
            self.header.unique_id,
            self.header.transaction_id,
            self.property_type,
        ));
        out
    }

    /// Decodes the reply to this request: a property value or a status.
    pub fn parse_response(&self, input: &[u8]) -> (r: Result<PropValueGetResponse, ProtocolError>)
        ensures
            match spec_parse_reply(
                ReplyKind::KindPropValue,
                input@,
                self.header.unique_id,
                self.header.transaction_id,
            ) {
                Ok(s) => r matches Ok(x) && prop_value_get_response_view(x) == s,
                Err(k) => err_matches(r, k),
            },
    {
        match parse_reply(
            ReplyKind::KindPropValue,
            input,
            self.header.unique_id,
            self.header.transaction_id,
        ) {
            Ok(Reply::Status(s)) => Ok(PropValueGetResponse::StatusCode(s)),
            Ok(Reply::Prop(v)) => Ok(PropValueGetResponse::Value(v)),
            Ok(_) => Err(ProtocolError::Bug("property request answered out of shape")),
            Err(e) => Err(e),
        }
    }
}

/// The reply to a read request.
pub enum CmdReadDataResponse {
    Data(Vec<u8>, bool),
    StatusCode(StatusCode),
}

/// The specification-level value of a read reply.
pub open spec fn read_data_response_view(r: CmdReadDataResponse) -> ReplySpec {
    match r {
        CmdReadDataResponse::Data(d, l) => ReplySpec::Data(d@, l),
        CmdReadDataResponse::StatusCode(s) => ReplySpec::Status(s),
    }
}

/// The read request.
pub struct CmdReadData {
    pub header: Header,
    pub object_key: u32,
    pub max_read_size: u16,
}

impl CmdReadData {
    /// Builds a read request, advancing the transaction counter.
    pub fn new(
        unique_id: u32,
        transaction_id: &mut u8,
        object_key: u32,
        max_read_size: u16,
    ) -> (r: Self)
        ensures
            *final(transaction_id) == wrap_inc(*old(transaction_id)),
            r.header == (Header {
                cmd: CMD_READ_DATA,
                len: 6,
                unique_id,
                transaction_id: wrap_inc(*old(transaction_id)),
            }),
            r.object_key == object_key,
            r.max_read_size == max_read_size,
    {
        CmdReadData {
            header: Header::new(CMD_READ_DATA, 6, unique_id, TransactionId::new(transaction_id)),
            object_key,
            max_read_size,
        }
    }

    /// Emits the request's bytes.
    pub fn serialize(&self) -> (r: Vec<u8>)
        ensures
            r@ == spec_read_data_frame(
                self.header.unique_id,
                self.header.transaction_id,
                self.object_key,
                self.max_read_size,
            ),
    {
        let mut out = begin_frame(
            CMD_READ_DATA,
            6,
            self.header.unique_id,
            self.header.transaction_id,
        );
        push_u32_le(&mut out, self.object_key);
        push_u16_le(&mut out, self.max_read_size);
        assert(out@ =~= spec_read_data_frame(
            self.header.unique_id,
            self.header.transaction_id,
            self.object_key,
            self.max_read_size,
        ));
        out
    }

    /// Decodes the reply to this request: a data fragment or a status.
    pub fn parse_response(&self, input: &[u8]) -> (r: Result<CmdReadDataResponse, ProtocolError>)
        ensures
            match spec_parse_reply(
                ReplyKind::KindReadData,
                input@,
                self.header.unique_id,
                self.header.transaction_id,
            ) {
                Ok(s) => r matches Ok(x) && read_data_response_view(x) == s,
                Err(k) => err_matches(r, k),
            },
    {
        match parse_reply(
            ReplyKind::KindReadData,
            input,
            self.header.unique_id,
            self.header.transaction_id,
        ) {
            Ok(Reply::Status(s)) => Ok(CmdReadDataResponse::StatusCode(s)),
            Ok(Reply::Data(d, l)) => Ok(CmdReadDataResponse::Data(d, l)),
            Ok(_) => Err(ProtocolError::Bug("read request answered out of shape")),
            Err(e) => Err(e),
        }
    }
}

/// The reply to an enumeration request.
pub enum CmdEnumerateObjectsResponse {
    Data(Vec<u8>, bool),
    StatusCode(StatusCode),
}

/// The specification-level value of an enumeration reply.
pub open spec fn enumerate_objects_response_view(r: CmdEnumerateObjectsResponse) -> ReplySpec {
    match r {
        CmdEnumerateObjectsResponse::Data(d, l) => ReplySpec::Data(d@, l),
        CmdEnumerateObjectsResponse::StatusCode(s) => ReplySpec::Status(s),
    }
}

/// The enumeration request.
pub struct CmdEnumerateObjects {
    pub header: Header,
    pub max_objects: u16,
}

impl CmdEnumerateObjects {
    /// Builds an enumeration request, advancing the transaction counter.
    pub fn new(unique_id: u32, transaction_id: &mut u8, max_objects: u16) -> (r: Self)
        ensures
            *final(transaction_id) == wrap_inc(*old(transaction_id)),
            r.header == (Header {
                cmd: CMD_ENUMERATE_OBJECTS,
                len: 2,
                unique_id,
                transaction_id: wrap_inc(*old(transaction_id)),
            }),
            r.max_objects == max_objects,
    {
        CmdEnumerateObjects {
            header: Header::new(
                CMD_ENUMERATE_OBJECTS,
                2,
                unique_id,
                TransactionId::new(transaction_id),
            ),
            max_objects,
        }
    }

    /// Emits the request's bytes.
    pub fn serialize(&self) -> (r: Vec<u8>)
        ensures
            r@ == spec_enumerate_objects_frame(
                self.header.unique_id,
                self.header.transaction_id,
                self.max_objects,
            ),
    {
        let mut out = begin_frame(
            CMD_ENUMERATE_OBJECTS,
            2,
            self.header.unique_id,
            self.header.transaction_id,
        );
        push_u16_le(&mut out, self.max_objects);
        assert(out@ =~= spec_enumerate_objects_frame(
            self.header.unique_id,
            self.header.transaction_id,
            self.max_objects,
        ));
        out
    }

    /// Decodes the reply to this request: a key fragment or a status.
    pub fn parse_response(&self, input: &[u8]) -> (r: Result<
        CmdEnumerateObjectsResponse,
        ProtocolError,
    >)
        ensures
            match spec_parse_reply(
                ReplyKind::KindEnumerate,
                input@,
                self.header.unique_id,
                self.header.transaction_id,
            ) {
                Ok(s) => r matches Ok(x) && enumerate_objects_response_view(x) == s,
                Err(k) => err_matches(r, k),
            },
    {
        match parse_reply(
            ReplyKind::KindEnumerate,
            input,
            self.header.unique_id,
            self.header.transaction_id,
        ) {
            Ok(Reply::Status(s)) => Ok(CmdEnumerateObjectsResponse::StatusCode(s)),
            Ok(Reply::Data(d, l)) => Ok(CmdEnumerateObjectsResponse::Data(d, l)),
            Ok(_) => Err(ProtocolError::Bug("enumeration request answered out of shape")),
            Err(e) => Err(e),
        }
    }
}

/// The reply to a counter read or increment.
pub enum CmdCounterValueResponse {
    Data(u32),
    StatusCode(StatusCode),
}

/// The specification-level value of a counter reply.
pub open spec fn counter_value_response_view(r: CmdCounterValueResponse) -> ReplySpec {
    match r {
        CmdCounterValueResponse::Data(v) => ReplySpec::Counter(v),
        CmdCounterValueResponse::StatusCode(s) => ReplySpec::Status(s),
    }
}

/// Decodes the reply to a counter read or increment: a counter value or
/// a status.
fn parse_response_counter_read_response(
    expected_unique_id: u32,
    expected_transaction_id: u8,
    input: &[u8],
) -> (r: Result<CmdCounterValueResponse, ProtocolError>)
    ensures
        match spec_parse_reply(
            ReplyKind::KindCounter,
            input@,
            expected_unique_id,
            expected_transaction_id,
        ) {
            Ok(s) => r matches Ok(x) && counter_value_response_view(x) == s,
            Err(k) => err_matches(r, k),
        },
{
    match parse_reply(ReplyKind::KindCounter, input, expected_unique_id, expected_transaction_id) {
        Ok(Reply::Status(s)) => Ok(CmdCounterValueResponse::StatusCode(s)),
        Ok(Reply::Counter(v)) => Ok(CmdCounterValueResponse::Data(v)),
        Ok(_) => Err(ProtocolError::Bug("counter request answered out of shape")),
        Err(e) => Err(e),
    }
}

/// The counter-read request.
pub struct CmdReadCounter {
    pub header: Header,
    pub object_key: u32,
}

impl CmdReadCounter {
    /// Builds a counter-read request, advancing the transaction counter.
    pub fn new(unique_id: u32, transaction_id: &mut u8, object_key: u32) -> (r: Self)
        ensures
            *final(transaction_id) == wrap_inc(*old(transaction_id)),
            r.header == (Header {
                cmd: CMD_READ_COUNTER,
                len: 4,
                unique_id,
                transaction_id: wrap_inc(*old(transaction_id)),
            }),
            r.object_key == object_key,
    {
        CmdReadCounter {
            header: Header::new(CMD_READ_COUNTER, 4, unique_id, TransactionId::new(transaction_id)),
            object_key,
        }
    }

    /// Emits the request's bytes.
    pub fn serialize(&self) -> (r: Vec<u8>)
        ensures
            r@ == spec_read_counter_frame(
                self.header.unique_id,
                self.header.transaction_id,
                self.object_key,
            ),
    {
        let mut out = begin_frame(
            CMD_READ_COUNTER,
            4,
            self.header.unique_id,
            self.header.transaction_id,
        );
        push_u32_le(&mut out, self.object_key);
        assert(out@ =~= spec_read_counter_frame(
            self.header.unique_id,
            self.header.transaction_id,
            self.object_key,
        ));
        out
    }

    /// Decodes the reply to this request: a counter value or a status.
    pub fn parse_response(&self, input: &[u8]) -> (r: Result<
        CmdCounterValueResponse,
        ProtocolError,
    >)
        ensures
            match spec_parse_reply(
                ReplyKind::KindCounter,
                input@,
                self.header.unique_id,
                self.header.transaction_id,
            ) {
                Ok(s) => r matches Ok(x) && counter_value_response_view(x) == s,
                Err(k) => err_matches(r, k),
            },
    {
        parse_response_counter_read_response(
            self.header.unique_id,
            self.header.transaction_id,
            input,
        )
    }
}

/// The counter-write request.
pub struct CmdWriteCounter {
    pub header: Header,
    pub object_key: u32,
    pub data: u32,
}

impl CmdWriteCounter {
    /// Builds a counter-write request, advancing the transaction counter.
    pub fn new(unique_id: u32, transaction_id: &mut u8, object_key: u32, data: u32) -> (r: Self)
        ensures
            *final(transaction_id) == wrap_inc(*old(transaction_id)),
            r.header == (Header {
                cmd: CMD_WRITE_COUNTER,
                len: 8,
                unique_id,
                transaction_id: wrap_inc(*old(transaction_id)),
            }),
            r.object_key == object_key,
            r.data == data,
    {
        CmdWriteCounter {
            header: Header::new(
                CMD_WRITE_COUNTER,
                8,
                unique_id,
                TransactionId::new(transaction_id),
            ),
            object_key,
            data,
        }
    }

    /// Emits the request's bytes.
    pub fn serialize(&self) -> (r: Vec<u8>)
        ensures
            r@ == spec_write_counter_frame(
                self.header.unique_id,
                self.header.transaction_id,
                self.object_key,
                self.data,
            ),
    {
        let mut out = begin_frame(
            CMD_WRITE_COUNTER,
            8,
            self.header.unique_id,
            self.header.transaction_id,
        );
        push_u32_le(&mut out, self.object_key);
        push_u32_le(&mut out, self.data);
        assert(out@ =~= spec_write_counter_frame(
            self.header.unique_id,
            self.header.transaction_id,
            self.object_key,
            self.data,
        ));
        out
    }

    /// Decodes the reply to this request: only a status.
    pub fn parse_response(&self, input: &[u8]) -> (r: Result<StatusCode, ProtocolError>)
        ensures
            match spec_parse_status(input@, self.header.unique_id, self.header.transaction_id) {
                Ok(s) => r == Ok::<StatusCode, ProtocolError>(s),
                Err(k) => err_matches(r, k),
            },
    {
        parse_status_response(self.header.transaction_id, self.header.unique_id, input)
    }
}

/// The counter-increment request.
pub struct CmdIncrementCounter {
    pub header: Header,
    pub object_key: u32,
}

impl CmdIncrementCounter {
    /// Builds a counter-increment request, advancing the transaction
    /// counter.
    pub fn new(unique_id: u32, transaction_id: &mut u8, object_key: u32) -> (r: Self)
        ensures
            *final(transaction_id) == wrap_inc(*old(transaction_id)),
            r.header == (Header {
                cmd: CMD_INCREMENT_COUNTER,
                len: 4,
                unique_id,
                transaction_id: wrap_inc(*old(transaction_id)),
            }),
            r.object_key == object_key,
    {
        CmdIncrementCounter {
            header: Header::new(
                CMD_INCREMENT_COUNTER,
                4,
                unique_id,
                TransactionId::new(transaction_id),
            ),
            object_key,
        }
    }

    /// Emits the request's bytes.
    pub fn serialize(&self) -> (r: Vec<u8>)
        ensures
            r@ == spec_increment_counter_frame(
                self.header.unique_id,
                self.header.transaction_id,
                self.object_key,
            ),
    {
        let mut out = begin_frame(
            CMD_INCREMENT_COUNTER,
            4,
            self.header.unique_id,
            self.header.transaction_id,
        );
        push_u32_le(&mut out, self.object_key);
        assert(out@ =~= spec_increment_counter_frame(
            self.header.unique_id,
            self.header.transaction_id,
            self.object_key,
        ));
        out
    }

    /// Decodes the reply to this request: a counter value or a status.
    pub fn parse_response(&self, input: &[u8]) -> (r: Result<
        CmdCounterValueResponse,
        ProtocolError,
    >)
        ensures
            match spec_parse_reply(
                ReplyKind::KindCounter,
                input@,
                self.header.unique_id,
                self.header.transaction_id,
            ) {
                Ok(s) => r matches Ok(x) && counter_value_response_view(x) == s,
                Err(k) => err_matches(r, k),
            },
    {
        parse_response_counter_read_response(
            self.header.unique_id,
            self.header.transaction_id,
            input,
        )
    }
}

/// The reply to an object-info request.
pub enum CmdGetObjectInfoResponse {
    StatusCode(StatusCode),
    ObjectInfo { object_type: crate::CpcNvm3ObjectType, object_size: u16 },
}

/// The specification-level value of an object-info reply.
pub open spec fn get_object_info_response_view(r: CmdGetObjectInfoResponse) -> ReplySpec {
    match r {
        CmdGetObjectInfoResponse::StatusCode(s) => ReplySpec::Status(s),
        CmdGetObjectInfoResponse::ObjectInfo { object_type, object_size } => ReplySpec::Info(
            object_type,
            object_size,
        ),
    }
}

/// The object-info request.
pub struct CmdGetObjectInfo {
    pub header: Header,
    pub object_key: u32,
}

impl CmdGetObjectInfo {
    /// Builds an object-info request, advancing the transaction counter.
    pub fn new(unique_id: u32, transaction_id: &mut u8, object_key: u32) -> (r: Self)
        ensures
            *final(transaction_id) == wrap_inc(*old(transaction_id)),
            r.header == (Header {
                cmd: CMD_GET_OBJECT_INFO,
                len: 4,
                unique_id,
                transaction_id: wrap_inc(*old(transaction_id)),
            }),
            r.object_key == object_key,
    {
        CmdGetObjectInfo {
            header: Header::new(
                CMD_GET_OBJECT_INFO,
                4,
                unique_id,
                TransactionId::new(transaction_id),
            ),
            object_key,
        }
    }

    /// Emits the request's bytes.
    pub fn serialize(&self) -> (r: Vec<u8>)
        ensures
            r@ == spec_get_object_info_frame(
                self.header.unique_id,
                self.header.transaction_id,
                self.object_key,
            ),
    {
        let mut out = begin_frame(
            CMD_GET_OBJECT_INFO,
            4,
            self.header.unique_id,
            self.header.transaction_id,
        );
        push_u32_le(&mut out, self.object_key);
        assert(out@ =~= spec_get_object_info_frame(
            self.header.unique_id,
            self.header.transaction_id,
            self.object_key,
        ));
        out
    }

    /// Decodes the reply to this request: an object-info record or a
    /// status.
    pub fn parse_response(&self, input: &[u8]) -> (r: Result<
        CmdGetObjectInfoResponse,
        ProtocolError,
    >)
        ensures
            match spec_parse_reply(
                ReplyKind::KindObjectInfo,
                input@,
                self.header.unique_id,
                self.header.transaction_id,
            ) {
                Ok(s) => r matches Ok(x) && get_object_info_response_view(x) == s,
                Err(k) => err_matches(r, k),
            },
    {
        match parse_reply(
            ReplyKind::KindObjectInfo,
            input,
            self.header.unique_id,
            self.header.transaction_id,
        ) {
            Ok(Reply::Status(s)) => Ok(CmdGetObjectInfoResponse::StatusCode(s)),
            Ok(Reply::Info(object_type, object_size)) => Ok(
                CmdGetObjectInfoResponse::ObjectInfo { object_type, object_size },
            ),
            Ok(_) => Err(ProtocolError::Bug("object-info request answered out of shape")),
            Err(e) => Err(e),
        }
    }
}

/// The reply to an object-count request.
pub enum CmdGetObjectCountResponse {
    StatusCode(StatusCode),
    ObjectCount { object_count: u16 },
}

/// The specification-level value of an object-count reply.
pub open spec fn get_object_count_response_view(r: CmdGetObjectCountResponse) -> ReplySpec {
    match r {
        CmdGetObjectCountResponse::StatusCode(s) => ReplySpec::Status(s),
        CmdGetObjectCountResponse::ObjectCount { object_count } => ReplySpec::Count(object_count),
    }
}

/// The object-count request.
pub struct CmdGetObjectCount {
    pub header: Header,
}

impl CmdGetObjectCount {
    /// Builds an object-count request, advancing the transaction counter.
    pub fn new(unique_id: u32, transaction_id: &mut u8) -> (r: Self)
        ensures
            *final(transaction_id) == wrap_inc(*old(transaction_id)),
            r.header == (Header {
                cmd: CMD_GET_OBJECT_COUNT,
                len: 0,
                unique_id,
                transaction_id: wrap_inc(*old(transaction_id)),
            }),
    {
        CmdGetObjectCount {
            header: Header::new(
                CMD_GET_OBJECT_COUNT,
                0,
                unique_id,
                TransactionId::new(transaction_id),
            ),
        }
    }

    /// Emits the request's bytes.
    pub fn serialize(&self) -> (r: Vec<u8>)
        ensures
            r@ == spec_get_object_count_frame(self.header.unique_id, self.header.transaction_id),
    {
        let out = begin_frame(
            CMD_GET_OBJECT_COUNT,
            0,
            self.header.unique_id,
            self.header.transaction_id,
        );
        assert(out@ =~= spec_get_object_count_frame(
            self.header.unique_id,
            self.header.transaction_id,
        ));
        out
    }

    /// Decodes the reply to this request: an object count or a status.
    pub fn parse_response(&self, input: &[u8]) -> (r: Result<
        CmdGetObjectCountResponse,
        ProtocolError,
    >)
        ensures
            match spec_parse_reply(
                ReplyKind::KindObjectCount,
                input@,
                self.header.unique_id,
                self.header.transaction_id,
            ) {
                Ok(s) => r matches Ok(x) && get_object_count_response_view(x) == s,
                Err(k) => err_matches(r, k),
            },
    {
        match parse_reply(
            ReplyKind::KindObjectCount,
            input,
            self.header.unique_id,
            self.header.transaction_id,
        ) {
            Ok(Reply::Status(s)) => Ok(CmdGetObjectCountResponse::StatusCode(s)),
            Ok(Reply::Count(object_count)) => Ok(
                CmdGetObjectCountResponse::ObjectCount { object_count },
            ),
            Ok(_) => Err(ProtocolError::Bug("object-count request answered out of shape")),
            Err(e) => Err(e),
        }
    }
}

/// The write request for one fragment of a data object.
pub struct CmdWriteData {
    pub header: Header,
    pub object_key: u32,
    pub offset: u16,
    pub last_frag: u8,
    pub data: Vec<u8>,
}

impl CmdWriteData {
    /// Size in bytes of a write frame with an empty payload.
    pub fn base_size() -> (r: u16)
        ensures
            r == CMD_WRITE_DATA_OVERHEAD,
    {
        CMD_WRITE_DATA_OVERHEAD
    }

    /// Builds one write fragment, advancing the transaction counter.
    pub fn new(
        unique_id: u32,
        transaction_id: &mut u8,
        object_key: u32,
        offset: u16,
        last_frag: u8,
        data: Vec<u8>,
    ) -> (r: Self)
        requires
            data@.len() + 7 <= u16::MAX,
        ensures
            *final(transaction_id) == wrap_inc(*old(transaction_id)),
            r.header == (Header {
                cmd: CMD_WRITE_DATA,
                len: (data@.len() + 7) as u16,
                unique_id,
                transaction_id: wrap_inc(*old(transaction_id)),
            }),
            r.object_key == object_key,
            r.offset == offset,
            r.last_frag == last_frag,
            r.data == data,
    {
        let len = data.len() as u16 + 7;
        CmdWriteData {
            header: Header::new(CMD_WRITE_DATA, len, unique_id, TransactionId::new(transaction_id)),
            object_key,
            offset,
            last_frag,
            data,
        }
    }

    /// Fixed bytes of a write frame before the payload: the header, the
    /// object key, the offset and the final-fragment flag.
    pub fn get_overhead() -> (r: u16)
        ensures
            r == CMD_WRITE_DATA_OVERHEAD,
    {
        CMD_WRITE_DATA_OVERHEAD
    }

    /// Emits the request's bytes: the fixed part, then the payload
    /// verbatim.
    pub fn serialize(&self) -> (r: Vec<u8>)
        requires
            self.data@.len() + 7 <= u16::MAX,
        ensures
            r@ == spec_write_data_frame(
                self.header.unique_id,
                self.header.transaction_id,
                self.object_key,
                self.offset,
                self.last_frag,
                self.data@,
            ),
    {
        let len = self.data.len() as u16 + 7;
        let mut out = begin_frame(
            CMD_WRITE_DATA,
            len,
            self.header.unique_id,
            self.header.transaction_id,
        );
        push_u32_le(&mut out, self.object_key);
        push_u16_le(&mut out, self.offset);
        out.push(self.last_frag);
        out.extend_from_slice(self.data.as_slice());
        assert(out@ =~= spec_write_data_frame(
            self.header.unique_id,
            self.header.transaction_id,
            self.object_key,
            self.offset,
            self.last_frag,
            self.data@,
        ));
        out
    }

    /// Decodes the reply to this request: only a status.
    pub fn parse_response(&self, input: &[u8]) -> (r: Result<StatusCode, ProtocolError>)
        ensures
            match spec_parse_status(input@, self.header.unique_id, self.header.transaction_id) {
                Ok(s) => r == Ok::<StatusCode, ProtocolError>(s),
                Err(k) => err_matches(r, k),
            },
    {
        parse_status_response(self.header.transaction_id, self.header.unique_id, input)
    }
}

/// The delete request.
pub struct CmdDeleteObject {
    pub header: Header,
    pub object_key: u32,
}

impl CmdDeleteObject {
    /// Builds a delete request, advancing the transaction counter.
    pub fn new(unique_id: u32, transaction_id: &mut u8, object_key: u32) -> (r: Self)
        ensures
            *final(transaction_id) == wrap_inc(*old(transaction_id)),
            r.header == (Header {
                cmd: CMD_DELETE_OBJECT,
                len: 4,
                unique_id,
                transaction_id: wrap_inc(*old(transaction_id)),
            }),
            r.object_key == object_key,
    {
        CmdDeleteObject {
            header: Header::new(
                CMD_DELETE_OBJECT,
                4,
                unique_id,
                TransactionId::new(transaction_id),
            ),
            object_key,
        }
    }

    /// Emits the request's bytes.
    pub fn serialize(&self) -> (r: Vec<u8>)
        ensures
            r@ == spec_delete_object_frame(
                self.header.unique_id,
                self.header.transaction_id,
                self.object_key,
            ),
    {
        let mut out = begin_frame(
            CMD_DELETE_OBJECT,
            4,
            self.header.unique_id,
            self.header.transaction_id,
        );
        push_u32_le(&mut out, self.object_key);
        assert(out@ =~= spec_delete_object_frame(
            self.header.unique_id,
            self.header.transaction_id,
            self.object_key,
        ));
        out
    }

    /// Decodes the reply to this request: only a status.
    pub fn parse_response(&self, input: &[u8]) -> (r: Result<StatusCode, ProtocolError>)
        ensures
            match spec_parse_status(input@, self.header.unique_id, self.header.transaction_id) {
                Ok(s) => r == Ok::<StatusCode, ProtocolError>(s),
                Err(k) => err_matches(r, k),
            },
    {
        parse_status_response(self.header.transaction_id, self.header.unique_id, input)
    }
}

} // verus!
