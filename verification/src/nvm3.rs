//! Instance engine and registry.
//!
//! An instance talks to the remote storage service over an in-order
//! datagram link. The link is modeled here as it presents itself to the
//! engine: a queue of received frames, read in order, and a log of
//! written frames. Reading from an exhausted queue is the read timing
//! out. The real transport is input/output and stands outside the
//! verified core; a thin adapter feeds this model.

use vstd::prelude::*;

use crate::protocol::{
    parse_reply, read_u32_le, reply_view, spec_le_u32, spec_parse_reply, wrap_inc,
    CmdCounterValueResponse, CmdDeleteObject, CmdEnumerateObjects, CmdGetObjectCount,
    CmdGetObjectInfo, CmdIncrementCounter, CmdReadCounter, CmdReadData, CmdWriteCounter,
    CmdWriteData, ECode, GetVersion, ParseErr, PropValueGet, PropertyType, PropertyValue,
    ProtocolError, Reply, ReplyKind, ReplySpec, SlStatus, StatusCode, CMD_WRITE_DATA_OVERHEAD,
};
use crate::protocol::{
    spec_delete_object_frame, spec_enumerate_objects_frame, spec_get_object_count_frame,
    spec_get_object_info_frame, spec_get_version_frame, spec_increment_counter_frame,
    spec_prop_value_get_frame, spec_read_counter_frame, spec_read_data_frame,
    spec_write_counter_frame, spec_write_data_frame,
};
use crate::CpcNvm3ErrorCodes;
use crate::CpcNvm3ObjectType;

verus! {

/// Major version of the protocol this host speaks; the remote's major
/// version must equal it for `open` to succeed.
pub const CPC_NVM3_MAJOR_VERSION: u8 = 1;

/// Minor version of the protocol this host speaks.
pub const CPC_NVM3_MINOR_VERSION: u8 = 0;

/// Patch version of the protocol this host speaks.
pub const CPC_NVM3_PATCH_VERSION: u8 = 0;

/// Size in bytes of one object key on the wire.
pub const CPC_NVM3_OBJECT_KEY_SIZE: usize = 4;

/// Default read timeout, in seconds, configured at `open`.
pub const CPC_NVM3_READ_TIMEOUT_S: i32 = 5;

/// The default frame-size cap of a freshly modeled link: what the
/// endpoint accepts per write.
pub const CPC_NVM3_MAX_WRITE_CAPABILITY: u16 = 256;

/// Handle naming one instance in the registry.
#[allow(non_camel_case_types)]
pub type cpc_nvm3_handle_t = u32;

/// Key of one stored object.
#[allow(non_camel_case_types)]
pub type cpc_nvm3_object_key_t = u32;

/// Result of every operation: success, or a code with a message for the
/// log.
#[derive(Debug)]
pub enum CpcNvm3Error {
    ErrorCodeWithContext(CpcNvm3ErrorCodes, &'static str),
}

/// The code that an error carries.
pub open spec fn err_code(e: CpcNvm3Error) -> CpcNvm3ErrorCodes {
    match e {
        CpcNvm3Error::ErrorCodeWithContext(c, _) => c,
    }
}

impl CpcNvm3Error {
    /// The code that this error carries.
    pub fn error_code(&self) -> (r: CpcNvm3ErrorCodes)
        ensures
            r == err_code(*self),
    {
        match self {
            CpcNvm3Error::ErrorCodeWithContext(c, _) => *c,
        }
    }
}

/// Relates an operation's result to its specification: the same success
/// value, or an error carrying the specified code.
pub open spec fn res_matches<T>(
    r: Result<T, CpcNvm3Error>,
    m: Result<T, CpcNvm3ErrorCodes>,
) -> bool {
    match m {
        Ok(v) => r matches Ok(x) && x == v,
        Err(c) => r matches Err(e) && err_code(e) == c,
    }
}

/// Maps a frame-validation failure to the caller-visible error, as the
/// engine does: a short or contradictory frame is a protocol failure.
pub fn cpc_error_from_protocol(e: ProtocolError) -> (r: CpcNvm3Error)
    ensures
        match e {
            ProtocolError::Bug(_) => err_code(r) == CpcNvm3ErrorCodes::CPC_NVM3_UNKNOWN_ERROR,
            ProtocolError::UnknownProcotolError => err_code(r)
                == CpcNvm3ErrorCodes::CPC_NVM3_UNKNOWN_ERROR,
            _ => err_code(r) == CpcNvm3ErrorCodes::CPC_NVM3_FAILURE,
        },
{
    match e {
        ProtocolError::Bug(_) => CpcNvm3Error::ErrorCodeWithContext(
            CpcNvm3ErrorCodes::CPC_NVM3_UNKNOWN_ERROR,
            "protocol layer reported a bug",
        ),
        ProtocolError::UnknownProcotolError => CpcNvm3Error::ErrorCodeWithContext(
            CpcNvm3ErrorCodes::CPC_NVM3_UNKNOWN_ERROR,
            "unknown protocol error",
        ),
        ProtocolError::InvalidTransactionId(_, _) => CpcNvm3Error::ErrorCodeWithContext(
            CpcNvm3ErrorCodes::CPC_NVM3_FAILURE,
            "received a response with an invalid transaction id",
        ),
        ProtocolError::InvalidCommandId => CpcNvm3Error::ErrorCodeWithContext(
            CpcNvm3ErrorCodes::CPC_NVM3_FAILURE,
            "received a response with an invalid command id",
        ),
        ProtocolError::InvalidUniqueId(_, _) => CpcNvm3Error::ErrorCodeWithContext(
            CpcNvm3ErrorCodes::CPC_NVM3_FAILURE,
            "received a response with an invalid unique id",
        ),
        ProtocolError::InvalidResponseLen(_, _) => CpcNvm3Error::ErrorCodeWithContext(
            CpcNvm3ErrorCodes::CPC_NVM3_FAILURE,
            "received a response with an invalid length field",
        ),
        ProtocolError::SerializationError(_) => CpcNvm3Error::ErrorCodeWithContext(
            CpcNvm3ErrorCodes::CPC_NVM3_FAILURE,
            "failed to serialize a command",
        ),
        ProtocolError::DeserializationError(_) => CpcNvm3Error::ErrorCodeWithContext(
            CpcNvm3ErrorCodes::CPC_NVM3_FAILURE,
            "failed to deserialize a response",
        ),
    }
}

/// The byte sequences of a queue of frames.
pub open spec fn frames_view(frames: Seq<Vec<u8>>) -> Seq<Seq<u8>> {
    Seq::new(frames.len(), |i: int| frames[i]@)
}

/// Appending a frame to a queue appends its bytes to the view.
pub proof fn lemma_frames_view_push(frames: Seq<Vec<u8>>, f: Vec<u8>)
    ensures
        frames_view(frames.push(f)) == frames_view(frames) + seq![f@],
{
    assert(frames_view(frames.push(f)) =~= frames_view(frames) + seq![f@]);
}

/// Removing the front frame of a queue drops the front of the view.
pub proof fn lemma_frames_view_remove(frames: Seq<Vec<u8>>)
    requires
        frames.len() > 0,
    ensures
        frames_view(frames.remove(0)) == frames_view(frames).drop_first(),
{
    assert(frames_view(frames.remove(0)) =~= frames_view(frames).drop_first());
}

/// The link as the engine sees it: an in-order queue of received frames,
/// a log of written frames, the link's frame-size cap and the configured
/// read timeout.
pub struct Endpoint {
    pub rx: Vec<Vec<u8>>,
    pub tx: Vec<Vec<u8>>,
    pub max_write_size: u16,
    pub timeout_seconds: i32,
    pub timeout_microseconds: i32,
}

impl Endpoint {
    /// The byte sequences waiting to be read.
    pub open spec fn rx_frames(self) -> Seq<Seq<u8>> {
        frames_view(self.rx@)
    }

    /// The byte sequences written so far, oldest first.
    pub open spec fn tx_frames(self) -> Seq<Seq<u8>> {
        frames_view(self.tx@)
    }

    /// A fresh link with nothing queued, the given frame-size cap and
    /// the default read timeout.
    pub fn new(max_write_size: u16) -> (r: Self)
        ensures
            r.rx@.len() == 0,
            r.tx@.len() == 0,
            r.max_write_size == max_write_size,
            r.timeout_seconds == CPC_NVM3_READ_TIMEOUT_S,
            r.timeout_microseconds == 0,
    {
        Endpoint {
            rx: Vec::new(),
            tx: Vec::new(),
            max_write_size,
            timeout_seconds: CPC_NVM3_READ_TIMEOUT_S,
            timeout_microseconds: 0,
        }
    }

    /// Queues a frame as received from the remote.
    pub fn push_rx(&mut self, rx_data: Vec<u8>)
        ensures
            final(self).rx_frames() == old(self).rx_frames() + seq![rx_data@],
            final(self).tx == old(self).tx,
            final(self).max_write_size == old(self).max_write_size,
            final(self).timeout_seconds == old(self).timeout_seconds,
            final(self).timeout_microseconds == old(self).timeout_microseconds,
    {
        proof {
            lemma_frames_view_push(self.rx@, rx_data);
        }
        self.rx.push(rx_data);
    }

    /// Hands a frame to the link for the remote.
    pub fn write(&mut self, data: Vec<u8>)
        ensures
            final(self).tx_frames() == old(self).tx_frames() + seq![data@],
            final(self).rx == old(self).rx,
            final(self).max_write_size == old(self).max_write_size,
            final(self).timeout_seconds == old(self).timeout_seconds,
            final(self).timeout_microseconds == old(self).timeout_microseconds,
    {
        proof {
            lemma_frames_view_push(self.tx@, data);
        }
        self.tx.push(data);
    }

    /// Takes the next received frame, or reports that the read timed out
    /// because nothing is queued.
    pub fn read(&mut self) -> (r: Result<Vec<u8>, CpcNvm3Error>)
        ensures
            final(self).tx == old(self).tx,
            final(self).max_write_size == old(self).max_write_size,
            final(self).timeout_seconds == old(self).timeout_seconds,
            final(self).timeout_microseconds == old(self).timeout_microseconds,
            old(self).rx@.len() == 0 ==> (r matches Err(e) && err_code(e)
                == CpcNvm3ErrorCodes::CPC_NVM3_TRY_AGAIN) && final(self).rx == old(self).rx,
            old(self).rx@.len() > 0 ==> (r matches Ok(f) && f@ == old(self).rx_frames()[0])
                && final(self).rx_frames() == old(self).rx_frames().drop_first()
                && final(self).rx@.len() == old(self).rx@.len() - 1,
    {
        if self.rx.len() == 0 {
            return Err(
                CpcNvm3Error::ErrorCodeWithContext(
                    CpcNvm3ErrorCodes::CPC_NVM3_TRY_AGAIN,
                    "CPC communication timed out, try again.",
                ),
            );
        }
        proof {
            lemma_frames_view_remove(self.rx@);
        }
        let f = self.rx.remove(0);
        Ok(f)
    }
}

/// The reply that ends one read loop, and what of the queue is left
/// after it: frames that are not ours are dropped along the way, the
/// first decisive frame decides, and an exhausted queue is a timeout.
pub open spec fn spec_wait_reply(
    kind: ReplyKind,
    rx: Seq<Seq<u8>>,
    unique_id: u32,
    transaction_id: u8,
) -> (Result<ReplySpec, CpcNvm3ErrorCodes>, Seq<Seq<u8>>)
    decreases rx.len(),
{
    if rx.len() == 0 {
        (Err(CpcNvm3ErrorCodes::CPC_NVM3_TRY_AGAIN), rx)
    } else {
        match spec_parse_reply(kind, rx[0], unique_id, transaction_id) {
            Ok(s) => (Ok(s), rx.drop_first()),
            Err(k) => if k.is_dropped() {
                spec_wait_reply(kind, rx.drop_first(), unique_id, transaction_id)
            } else {
                (Err(CpcNvm3ErrorCodes::CPC_NVM3_FAILURE), rx.drop_first())
            },
        }
    }
}

/// Reads frames until one decides the outstanding command: a frame with
/// a wrong opcode, unique id or transaction id is dropped and the read
/// resumes; a frame that fails protocol validation fails the call; an
/// exhausted queue is a timed-out read.
pub fn get_response(
    endpoint: &mut Endpoint,
    kind: ReplyKind,
    unique_id: u32,
    transaction_id: u8,
) -> (r: Result<Reply, CpcNvm3Error>)
    ensures
        final(endpoint).tx == old(endpoint).tx,
        final(endpoint).max_write_size == old(endpoint).max_write_size,
        final(endpoint).timeout_seconds == old(endpoint).timeout_seconds,
        final(endpoint).timeout_microseconds == old(endpoint).timeout_microseconds,
        ({
            let m = spec_wait_reply(kind, old(endpoint).rx_frames(), unique_id, transaction_id);
            &&& final(endpoint).rx_frames() == m.1
            &&& match m.0 {
                Ok(s) => r matches Ok(x) && reply_view(x) == s,
                Err(c) => r matches Err(e) && err_code(e) == c,
            }
        }),
    decreases endpoint.rx@.len(),
{
    let frame = match endpoint.read() {
        Ok(f) => f,
        Err(e) => {
            return Err(e);
        },
    };
    match parse_reply(kind, frame.as_slice(), unique_id, transaction_id) {
        Ok(reply) => Ok(reply),
        Err(e) => {
            let dropped = match &e {
                ProtocolError::InvalidCommandId => true,
                ProtocolError::InvalidTransactionId(_, _) => true,
                ProtocolError::InvalidUniqueId(_, _) => true,
                _ => false,
            };
            if dropped {
                get_response(endpoint, kind, unique_id, transaction_id)
            } else {
                Err(cpc_error_from_protocol(e))
            }
        },
    }
}

/// How a write acknowledges: success continues the write, busy asks the
/// caller to retry, a rejected key and everything else end it.
pub open spec fn spec_write_data_status(sc: StatusCode) -> Result<(), CpcNvm3ErrorCodes> {
    match sc {
        StatusCode::SlStatus(SlStatus::Success) => Ok(()),
        StatusCode::SlStatus(SlStatus::Fail) => Err(CpcNvm3ErrorCodes::CPC_NVM3_FAILURE),
        StatusCode::SlStatus(SlStatus::Busy) => Err(CpcNvm3ErrorCodes::CPC_NVM3_TRY_AGAIN),
        StatusCode::SlStatus(SlStatus::Unknown) => Err(CpcNvm3ErrorCodes::CPC_NVM3_FAILURE),
        StatusCode::ECode(ECode::KeyInvalid) => Err(
            CpcNvm3ErrorCodes::CPC_NVM3_INVALID_OBJECT_KEY,
        ),
        StatusCode::ECode(_) => Err(CpcNvm3ErrorCodes::CPC_NVM3_UNKNOWN_ERROR),
        StatusCode::Unknown => Err(CpcNvm3ErrorCodes::CPC_NVM3_UNKNOWN_ERROR),
    }
}

/// How a counter write acknowledges: success completes it, a busy
/// remote asks the caller to retry, everything else ends it.
pub open spec fn spec_write_counter_status(sc: StatusCode) -> Result<(), CpcNvm3ErrorCodes> {
    match sc {
        StatusCode::SlStatus(SlStatus::Success) => Ok(()),
        StatusCode::SlStatus(SlStatus::Busy) => Err(CpcNvm3ErrorCodes::CPC_NVM3_TRY_AGAIN),
        StatusCode::SlStatus(_) => Err(CpcNvm3ErrorCodes::CPC_NVM3_FAILURE),
        StatusCode::ECode(ECode::KeyInvalid) => Err(
            CpcNvm3ErrorCodes::CPC_NVM3_INVALID_OBJECT_KEY,
        ),
        StatusCode::ECode(_) => Err(CpcNvm3ErrorCodes::CPC_NVM3_UNKNOWN_ERROR),
        StatusCode::Unknown => Err(CpcNvm3ErrorCodes::CPC_NVM3_UNKNOWN_ERROR),
    }
}

/// How a deletion acknowledges: success completes it, a busy remote
/// asks the caller to retry, everything else ends it.
pub open spec fn spec_delete_object_status(sc: StatusCode) -> Result<(), CpcNvm3ErrorCodes> {
    match sc {
        StatusCode::SlStatus(SlStatus::Success) => Ok(()),
        StatusCode::SlStatus(SlStatus::Busy) => Err(CpcNvm3ErrorCodes::CPC_NVM3_TRY_AGAIN),
        StatusCode::SlStatus(_) => Err(CpcNvm3ErrorCodes::CPC_NVM3_FAILURE),
        StatusCode::ECode(ECode::KeyInvalid) => Err(
            CpcNvm3ErrorCodes::CPC_NVM3_INVALID_OBJECT_KEY,
        ),
        StatusCode::ECode(ECode::KeyNotFound) => Err(
            CpcNvm3ErrorCodes::CPC_NVM3_INVALID_OBJECT_KEY,
        ),
        StatusCode::ECode(_) => Err(CpcNvm3ErrorCodes::CPC_NVM3_UNKNOWN_ERROR),
        StatusCode::Unknown => Err(CpcNvm3ErrorCodes::CPC_NVM3_UNKNOWN_ERROR),
    }
}

/// What a status in place of read data means: every status ends the
/// read.
pub open spec fn spec_read_data_status(sc: StatusCode) -> CpcNvm3ErrorCodes {
    match sc {
        StatusCode::SlStatus(SlStatus::Busy) => CpcNvm3ErrorCodes::CPC_NVM3_TRY_AGAIN,
        StatusCode::SlStatus(_) => CpcNvm3ErrorCodes::CPC_NVM3_FAILURE,
        StatusCode::ECode(ECode::KeyNotFound) => CpcNvm3ErrorCodes::CPC_NVM3_INVALID_OBJECT_KEY,
        StatusCode::ECode(ECode::ReadDataSize) => CpcNvm3ErrorCodes::CPC_NVM3_BUFFER_TOO_SMALL,
        StatusCode::ECode(ECode::SizeTooSmall) => CpcNvm3ErrorCodes::CPC_NVM3_BUFFER_TOO_SMALL,
        StatusCode::ECode(_) => CpcNvm3ErrorCodes::CPC_NVM3_FAILURE,
        StatusCode::Unknown => CpcNvm3ErrorCodes::CPC_NVM3_UNKNOWN_ERROR,
    }
}

/// What a status in place of an enumeration fragment means.
pub open spec fn spec_enumerate_status(sc: StatusCode) -> CpcNvm3ErrorCodes {
    match sc {
        StatusCode::SlStatus(SlStatus::Busy) => CpcNvm3ErrorCodes::CPC_NVM3_TRY_AGAIN,
        StatusCode::SlStatus(_) => CpcNvm3ErrorCodes::CPC_NVM3_FAILURE,
        StatusCode::ECode(_) => CpcNvm3ErrorCodes::CPC_NVM3_FAILURE,
        StatusCode::Unknown => CpcNvm3ErrorCodes::CPC_NVM3_UNKNOWN_ERROR,
    }
}

/// What a status in place of a counter value means: a busy remote is
/// transient, a missing key names the key, everything else fails.
pub open spec fn spec_counter_status(sc: StatusCode) -> CpcNvm3ErrorCodes {
    match sc {
        StatusCode::SlStatus(SlStatus::Busy) => CpcNvm3ErrorCodes::CPC_NVM3_TRY_AGAIN,
        StatusCode::SlStatus(_) => CpcNvm3ErrorCodes::CPC_NVM3_FAILURE,
        StatusCode::ECode(ECode::KeyNotFound) => CpcNvm3ErrorCodes::CPC_NVM3_INVALID_OBJECT_KEY,
        StatusCode::ECode(_) => CpcNvm3ErrorCodes::CPC_NVM3_FAILURE,
        StatusCode::Unknown => CpcNvm3ErrorCodes::CPC_NVM3_UNKNOWN_ERROR,
    }
}

/// What a status in place of an object-info record means.
pub open spec fn spec_object_info_status(sc: StatusCode) -> CpcNvm3ErrorCodes {
    spec_counter_status(sc)
}

/// What a status in place of an object count means.
pub open spec fn spec_object_count_status(sc: StatusCode) -> CpcNvm3ErrorCodes {
    spec_counter_status(sc)
}

/// One instance: the transaction counter, the tag this process puts in
/// every header, the caps negotiated at `open`, and the link while open.
pub struct CpcNvm3Instance {
    pub transaction_id: u8,
    pub unique_id: u32,
    pub maximum_write_fragment_size: Option<u16>,
    pub maximum_write_size: Option<u16>,
    pub cpc_endpoint: Option<Endpoint>,
}

impl CpcNvm3Instance {
    /// Whether the instance holds an open link.
    pub open spec fn is_open(self) -> bool {
        self.cpc_endpoint is Some
    }

    /// The open link.
    pub open spec fn ep(self) -> Endpoint
        recommends
            self.is_open(),
    {
        self.cpc_endpoint->Some_0
    }

    /// A negotiated fragment cap always leaves room for the fixed bytes
    /// of a write frame in a 16-bit length field.
    pub open spec fn wf(self) -> bool {
        self.maximum_write_fragment_size matches Some(f) ==> f + 7 <= u16::MAX
    }

    /// A fresh instance: counter at zero, no caps, link closed.
    pub fn new() -> (r: Self)
        ensures
            r == (CpcNvm3Instance {
                transaction_id: 0u8,
                unique_id: 0u32,
                maximum_write_fragment_size: None::<u16>,
                maximum_write_size: None::<u16>,
                cpc_endpoint: None::<Endpoint>,
            }),
    {
        CpcNvm3Instance {
            transaction_id: 0,
            unique_id: 0,
            maximum_write_fragment_size: None,
            maximum_write_size: None,
            cpc_endpoint: None,
        }
    }

    /// Closes the link. The negotiated caps stay until `deinit`.
    pub fn close(&mut self) -> (r: Result<(), CpcNvm3Error>)
        ensures
            old(self).is_open() ==> r is Ok && *final(self) == (CpcNvm3Instance {
                cpc_endpoint: None::<Endpoint>,
                ..*old(self)
            }),
            !old(self).is_open() ==> (r matches Err(e) && err_code(e)
                == CpcNvm3ErrorCodes::CPC_NVM3_NOT_OPEN) && *final(self) == *old(self),
    {
        if self.cpc_endpoint.is_some() {
            self.cpc_endpoint = None;
            Ok(())
        } else {
            Err(
                CpcNvm3Error::ErrorCodeWithContext(
                    CpcNvm3ErrorCodes::CPC_NVM3_NOT_OPEN,
                    "The CPC endpoint is not initialized. Call cpc_nvm3_open first.",
                ),
            )
        }
    }

    /// The maximum object size a write may carry, once negotiated.
    pub fn get_maximum_write_size(&self) -> (r: Result<u16, CpcNvm3Error>)
        ensures
            match self.maximum_write_size {
                Some(v) => r == Ok::<u16, CpcNvm3Error>(v),
                None => r matches Err(e) && err_code(e) == CpcNvm3ErrorCodes::CPC_NVM3_NOT_OPEN,
            },
    {
        match self.maximum_write_size {
            Some(v) => Ok(v),
            None => Err(
                CpcNvm3Error::ErrorCodeWithContext(
                    CpcNvm3ErrorCodes::CPC_NVM3_NOT_OPEN,
                    "Could not get maximum write size since the CPC NVM3 instance is not opened",
                ),
            ),
        }
    }

    /// The per-frame payload cap, once computed at `open`.
    pub fn get_maximum_write_fragment_size(&self) -> (r: Result<u16, CpcNvm3Error>)
        ensures
            match self.maximum_write_fragment_size {
                Some(v) => r == Ok::<u16, CpcNvm3Error>(v),
                None => r matches Err(e) && err_code(e) == CpcNvm3ErrorCodes::CPC_NVM3_NOT_OPEN,
            },
    {
        match self.maximum_write_fragment_size {
            Some(v) => Ok(v),
            None => Err(
                CpcNvm3Error::ErrorCodeWithContext(
                    CpcNvm3ErrorCodes::CPC_NVM3_NOT_OPEN,
                    "Could not get maximum write size since the CPC NVM3 instance is not opened",
                ),
            ),
        }
    }
}

/// The registry of instances of this process. A handle, once assigned,
/// names its slot forever: `deinit` empties the slot and the handle is
/// never reused.
pub struct CpcNvm3Registry {
    pub instances: Vec<Option<CpcNvm3Instance>>,
}

impl CpcNvm3Registry {
    /// Whether `h` names a live instance.
    pub open spec fn spec_contains(self, h: u32) -> bool {
        2 <= h && h - 2 < self.instances@.len() && self.instances@[h as int - 2] is Some
    }

    /// The live instance that `h` names.
    pub open spec fn spec_instance(self, h: u32) -> CpcNvm3Instance
        recommends
            self.spec_contains(h),
    {
        self.instances@[h as int - 2]->Some_0
    }

    /// The handle the next `init` will assign.
    pub open spec fn spec_fresh_handle(self) -> int {
        self.instances@.len() + 2int
    }

    /// Every live instance is well-formed.
    pub open spec fn wf(self) -> bool {
        forall|i: int|
            0 <= i < self.instances@.len() && self.instances@[i] is Some ==> (
            #[trigger] self.instances@[i])->Some_0.wf()
    }

    /// Instances other than `h` are exactly as they were.
    pub open spec fn others_unchanged(self, prev: Self, h: u32) -> bool {
        &&& self.instances@.len() == prev.instances@.len()
        &&& forall|h2: u32|
            h2 != h ==> #[trigger] self.spec_contains(h2) == prev.spec_contains(h2)
        &&& forall|h2: u32|
            h2 != h && prev.spec_contains(h2) ==> #[trigger] self.spec_instance(h2)
                == prev.spec_instance(h2)
    }

    /// An empty registry.
    pub fn new() -> (r: Self)
        ensures
            r.instances@.len() == 0,
            r.wf(),
    {
        CpcNvm3Registry { instances: Vec::new() }
    }
}

/// The slot index of a live instance, if the handle names one.
fn find_slot(registry: &CpcNvm3Registry, cpc_nvm3_handle: u32) -> (r: Option<usize>)
    ensures
        r is Some <==> registry.spec_contains(cpc_nvm3_handle),
        r matches Some(i) ==> i == cpc_nvm3_handle - 2,
{
    if cpc_nvm3_handle < 2 {
        return None;
    }
    let idx = (cpc_nvm3_handle - 2) as usize;
    if idx >= registry.instances.len() {
        return None;
    }
    if registry.instances[idx].is_some() {
        Some(idx)
    } else {
        None
    }
}

/// Takes the instance out of its slot for the duration of an operation.
fn take_instance(registry: &mut CpcNvm3Registry, idx: usize) -> (inst: CpcNvm3Instance)
    requires
        idx < old(registry).instances@.len(),
        old(registry).instances@[idx as int] is Some,
    ensures
        inst == old(registry).instances@[idx as int]->Some_0,
        final(registry).instances@ == old(registry).instances@.update(
            idx as int,
            None::<CpcNvm3Instance>,
        ),
{
    let mut slot: Option<CpcNvm3Instance> = None;
    registry.instances.set_and_swap(idx, &mut slot);
    match slot {
        Some(inst) => inst,
        None => vstd::pervasive::unreached(),
    }
}

/// Puts an instance back into its slot.
fn put_instance(registry: &mut CpcNvm3Registry, idx: usize, inst: CpcNvm3Instance)
    requires
        idx < old(registry).instances@.len(),
    ensures
        final(registry).instances@ == old(registry).instances@.update(idx as int, Some(inst)),
{
    registry.instances.set(idx, Some(inst));
}

/// The error every operation returns when the handle names nothing.
fn not_initialized() -> (r: CpcNvm3Error)
    ensures
        err_code(r) == CpcNvm3ErrorCodes::CPC_NVM3_NOT_INITIALIZED,
{
    CpcNvm3Error::ErrorCodeWithContext(
        CpcNvm3ErrorCodes::CPC_NVM3_NOT_INITIALIZED,
        "Could not find the provided instance",
    )
}

/// The error every operation returns when it needs an open link and the
/// instance is closed.
fn not_open() -> (r: CpcNvm3Error)
    ensures
        err_code(r) == CpcNvm3ErrorCodes::CPC_NVM3_NOT_OPEN,
{
    CpcNvm3Error::ErrorCodeWithContext(
        CpcNvm3ErrorCodes::CPC_NVM3_NOT_OPEN,
        "The CPC endpoint is not initialized. Call cpc_nvm3_open first.",
    )
}

/// The handle the next `init` will assign, or a failure when the 32-bit
/// handle space is spent.
pub fn find_next_available_handle(registry: &CpcNvm3Registry) -> (r: Result<
    cpc_nvm3_handle_t,
    CpcNvm3Error,
>)
    ensures
        registry.spec_fresh_handle() <= u32::MAX ==> (r matches Ok(h) && h
            == registry.spec_fresh_handle()),
        registry.spec_fresh_handle() > u32::MAX ==> (r matches Err(e) && err_code(e)
            == CpcNvm3ErrorCodes::CPC_NVM3_FAILURE),
{
    let n = registry.instances.len();
    if n >= (u32::MAX - 1) as usize {
        Err(
            CpcNvm3Error::ErrorCodeWithContext(
                CpcNvm3ErrorCodes::CPC_NVM3_FAILURE,
                "Instance key could not be incremented. Limit reached.",
            ),
        )
    } else {
        Ok(n as u32 + 2)
    }
}

/// Creates a fresh, closed instance and hands back its handle. Handles
/// are assigned in increasing order and never reused, so two calls
/// never return the same handle. The unique id starts at zero; the
/// embedder records the process id through [`set_unique_id`], since
/// that value comes from outside the library.
pub fn init(registry: &mut CpcNvm3Registry) -> (r: Result<cpc_nvm3_handle_t, CpcNvm3Error>)
    requires
        old(registry).wf(),
    ensures
        final(registry).wf(),
        old(registry).spec_fresh_handle() <= u32::MAX ==> (r matches Ok(h) && h == old(registry).spec_fresh_handle() && final(registry).instances@ == old(registry).instances@.push(
            Some(
                CpcNvm3Instance {
                    transaction_id: 0u8,
                    unique_id: 0u32,
                    maximum_write_fragment_size: None::<u16>,
                    maximum_write_size: None::<u16>,
                    cpc_endpoint: None::<Endpoint>,
                },
            ),
        )),
        old(registry).spec_fresh_handle() > u32::MAX ==> (r matches Err(e) && err_code(e)
            == CpcNvm3ErrorCodes::CPC_NVM3_FAILURE) && final(registry).instances@ == old(registry).instances@,
        forall|h2: u32| #[trigger]
            old(registry).spec_contains(h2) ==> final(registry).spec_contains(h2) && final(registry).spec_instance(h2) == old(registry).spec_instance(h2),
{
    let handle = match find_next_available_handle(registry) {
        Ok(h) => h,
        Err(e) => {
            return Err(e);
        },
    };
    let instance = CpcNvm3Instance::new();
    registry.instances.push(Some(instance));
    Ok(handle)
}

/// Releases a handle. Only a closed instance can be released; after
/// success the handle names nothing and every later operation on it
/// reports that it is not initialized.
pub fn deinit(registry: &mut CpcNvm3Registry, cpc_nvm3_handle: cpc_nvm3_handle_t) -> (r: Result<
    (),
    CpcNvm3Error,
>)
    requires
        old(registry).wf(),
    ensures
        final(registry).wf(),
        final(registry).others_unchanged(*old(registry), cpc_nvm3_handle),
        !old(registry).spec_contains(cpc_nvm3_handle) ==> (r matches Err(e) && err_code(e)
            == CpcNvm3ErrorCodes::CPC_NVM3_NOT_INITIALIZED) && final(registry).instances@ == old(registry).instances@,
        old(registry).spec_contains(cpc_nvm3_handle) && old(registry).spec_instance(
            cpc_nvm3_handle,
        ).is_open() ==> (r matches Err(e) && err_code(e)
            == CpcNvm3ErrorCodes::CPC_NVM3_NOT_CLOSED) && final(registry).instances@ == old(registry).instances@,
        old(registry).spec_contains(cpc_nvm3_handle) && !old(registry).spec_instance(
            cpc_nvm3_handle,
        ).is_open() ==> r is Ok && !final(registry).spec_contains(cpc_nvm3_handle),
{
    let idx = match find_slot(registry, cpc_nvm3_handle) {
        Some(i) => i,
        None => {
            return Err(not_initialized());
        },
    };
    let inst = take_instance(registry, idx);
    if inst.cpc_endpoint.is_some() {
        put_instance(registry, idx, inst);
        proof {
            assert(registry.instances@ =~= old(registry).instances@);
        }
        return Err(
            CpcNvm3Error::ErrorCodeWithContext(
                CpcNvm3ErrorCodes::CPC_NVM3_NOT_CLOSED,
                "Failed to de-init NVM3 instance. It is still opened. Call cpc_nvm3_close first.",
            ),
        );
    }
    Ok(())
}

/// Closes the instance's link.
pub fn close(registry: &mut CpcNvm3Registry, cpc_nvm3_handle: cpc_nvm3_handle_t) -> (r: Result<
    (),
    CpcNvm3Error,
>)
    requires
        old(registry).wf(),
    ensures
        final(registry).wf(),
        final(registry).others_unchanged(*old(registry), cpc_nvm3_handle),
        !old(registry).spec_contains(cpc_nvm3_handle) ==> (r matches Err(e) && err_code(e)
            == CpcNvm3ErrorCodes::CPC_NVM3_NOT_INITIALIZED) && final(registry).instances@ == old(registry).instances@,
        old(registry).spec_contains(cpc_nvm3_handle) ==> final(registry).spec_contains(
            cpc_nvm3_handle,
        ) && {
            let inst = old(registry).spec_instance(cpc_nvm3_handle);
            &&& inst.is_open() ==> r is Ok && final(registry).spec_instance(cpc_nvm3_handle) == (
            CpcNvm3Instance { cpc_endpoint: None::<Endpoint>, ..inst })
            &&& !inst.is_open() ==> (r matches Err(e) && err_code(e)
                == CpcNvm3ErrorCodes::CPC_NVM3_NOT_OPEN) && final(registry).spec_instance(
                cpc_nvm3_handle,
            ) == inst
        },
{
    let idx = match find_slot(registry, cpc_nvm3_handle) {
        Some(i) => i,
        None => {
            return Err(not_initialized());
        },
    };
    let mut inst = take_instance(registry, idx);
    let r = inst.close();
    put_instance(registry, idx, inst);
    r
}

/// The link `e`, except that its queues hold `rx` and `tx`.
pub open spec fn ep_like(e: Endpoint, base: Endpoint, rx: Seq<Seq<u8>>, tx: Seq<Seq<u8>>) -> bool {
    &&& e.rx_frames() == rx
    &&& e.tx_frames() == tx
    &&& e.max_write_size == base.max_write_size
    &&& e.timeout_seconds == base.timeout_seconds
    &&& e.timeout_microseconds == base.timeout_microseconds
}

/// The instance `base` after an exchange: the transaction counter at
/// `txn`, the link's queues at `rx` and `tx`, everything else as it was.
pub open spec fn inst_like(
    i: CpcNvm3Instance,
    base: CpcNvm3Instance,
    txn: u8,
    rx: Seq<Seq<u8>>,
    tx: Seq<Seq<u8>>,
) -> bool {
    &&& i.transaction_id == txn
    &&& i.unique_id == base.unique_id
    &&& i.maximum_write_fragment_size == base.maximum_write_fragment_size
    &&& i.maximum_write_size == base.maximum_write_size
    &&& i.is_open()
    &&& ep_like(i.ep(), base.ep(), rx, tx)
}

/// Maps a write acknowledgement to the operation's result.
fn write_data_status_result(sc: StatusCode) -> (r: Result<(), CpcNvm3Error>)
    ensures
        res_matches(r, spec_write_data_status(sc)),
{
    match sc {
        StatusCode::SlStatus(SlStatus::Success) => Ok(()),
        StatusCode::SlStatus(SlStatus::Fail) => Err(
            CpcNvm3Error::ErrorCodeWithContext(
                CpcNvm3ErrorCodes::CPC_NVM3_FAILURE,
                "Writing to NVM3 instance failed",
            ),
        ),
        StatusCode::SlStatus(SlStatus::Busy) => Err(
            CpcNvm3Error::ErrorCodeWithContext(
                CpcNvm3ErrorCodes::CPC_NVM3_TRY_AGAIN,
                "NVM3 is busy with another write operation, try again",
            ),
        ),
        StatusCode::SlStatus(SlStatus::Unknown) => Err(
            CpcNvm3Error::ErrorCodeWithContext(
                CpcNvm3ErrorCodes::CPC_NVM3_FAILURE,
                "Received an unexpected sl_status code",
            ),
        ),
        StatusCode::ECode(ecode) => match ecode {
            ECode::KeyInvalid => Err(
                CpcNvm3Error::ErrorCodeWithContext(
                    CpcNvm3ErrorCodes::CPC_NVM3_INVALID_OBJECT_KEY,
                    ecode.message(),
                ),
            ),
            _ => Err(
                CpcNvm3Error::ErrorCodeWithContext(
                    CpcNvm3ErrorCodes::CPC_NVM3_UNKNOWN_ERROR,
                    ecode.message(),
                ),
            ),
        },
        StatusCode::Unknown => Err(
            CpcNvm3Error::ErrorCodeWithContext(
                CpcNvm3ErrorCodes::CPC_NVM3_UNKNOWN_ERROR,
                "Unknown response type received",
            ),
        ),
    }
}

/// Maps a counter-write acknowledgement to the operation's result.
fn write_counter_status_result(sc: StatusCode) -> (r: Result<(), CpcNvm3Error>)
    ensures
        res_matches(r, spec_write_counter_status(sc)),
{
    match sc {
        StatusCode::SlStatus(SlStatus::Success) => Ok(()),
        StatusCode::SlStatus(SlStatus::Fail) => Err(
            CpcNvm3Error::ErrorCodeWithContext(
                CpcNvm3ErrorCodes::CPC_NVM3_FAILURE,
                "Writing counter to NVM3 instance failed",
            ),
        ),
        StatusCode::SlStatus(SlStatus::Busy) => Err(
            CpcNvm3Error::ErrorCodeWithContext(
                CpcNvm3ErrorCodes::CPC_NVM3_TRY_AGAIN,
                "NVM3 is busy with another operation, try again",
            ),
        ),
        StatusCode::SlStatus(_) => Err(
            CpcNvm3Error::ErrorCodeWithContext(
                CpcNvm3ErrorCodes::CPC_NVM3_FAILURE,
                "Received an unexpected sl_status code",
            ),
        ),
        StatusCode::ECode(ecode) => match ecode {
            ECode::KeyInvalid => Err(
                CpcNvm3Error::ErrorCodeWithContext(
                    CpcNvm3ErrorCodes::CPC_NVM3_INVALID_OBJECT_KEY,
                    ecode.message(),
                ),
            ),
            _ => Err(
                CpcNvm3Error::ErrorCodeWithContext(
                    CpcNvm3ErrorCodes::CPC_NVM3_UNKNOWN_ERROR,
                    ecode.message(),
                ),
            ),
        },
        StatusCode::Unknown => Err(
            CpcNvm3Error::ErrorCodeWithContext(
                CpcNvm3ErrorCodes::CPC_NVM3_UNKNOWN_ERROR,
                "Unknown response type received",
            ),
        ),
    }
}

/// Maps a deletion acknowledgement to the operation's result.
fn delete_object_status_result(sc: StatusCode) -> (r: Result<(), CpcNvm3Error>)
    ensures
        res_matches(r, spec_delete_object_status(sc)),
{
    match sc {
        StatusCode::SlStatus(SlStatus::Success) => Ok(()),
        StatusCode::SlStatus(SlStatus::Fail) => Err(
            CpcNvm3Error::ErrorCodeWithContext(
                CpcNvm3ErrorCodes::CPC_NVM3_FAILURE,
                "Deletion of NVM3 object failed",
            ),
        ),
        StatusCode::SlStatus(SlStatus::Busy) => Err(
            CpcNvm3Error::ErrorCodeWithContext(
                CpcNvm3ErrorCodes::CPC_NVM3_TRY_AGAIN,
                "NVM3 is busy with another operation, try again",
            ),
        ),
        StatusCode::SlStatus(_) => Err(
            CpcNvm3Error::ErrorCodeWithContext(
                CpcNvm3ErrorCodes::CPC_NVM3_FAILURE,
                "Received an unexpected sl_status code",
            ),
        ),
        StatusCode::ECode(ecode) => match ecode {
            ECode::KeyInvalid | ECode::KeyNotFound => Err(
                CpcNvm3Error::ErrorCodeWithContext(
                    CpcNvm3ErrorCodes::CPC_NVM3_INVALID_OBJECT_KEY,
                    ecode.message(),
                ),
            ),
            _ => Err(
                CpcNvm3Error::ErrorCodeWithContext(
                    CpcNvm3ErrorCodes::CPC_NVM3_UNKNOWN_ERROR,
                    ecode.message(),
                ),
            ),
        },
        StatusCode::Unknown => Err(
            CpcNvm3Error::ErrorCodeWithContext(
                CpcNvm3ErrorCodes::CPC_NVM3_UNKNOWN_ERROR,
                "Unknown response type received",
            ),
        ),
    }
}

/// The error for a status received in place of a counter value, an
/// object-info record or an object count.
fn value_status_error(sc: StatusCode) -> (r: CpcNvm3Error)
    ensures
        err_code(r) == spec_counter_status(sc),
{
    match sc {
        StatusCode::SlStatus(SlStatus::Busy) => CpcNvm3Error::ErrorCodeWithContext(
            CpcNvm3ErrorCodes::CPC_NVM3_TRY_AGAIN,
            "NVM3 is busy with another operation, try again",
        ),
        StatusCode::SlStatus(_) => CpcNvm3Error::ErrorCodeWithContext(
            CpcNvm3ErrorCodes::CPC_NVM3_FAILURE,
            "Received an unexpected sl_status code",
        ),
        StatusCode::ECode(ecode) => match ecode {
            ECode::KeyNotFound => CpcNvm3Error::ErrorCodeWithContext(
                CpcNvm3ErrorCodes::CPC_NVM3_INVALID_OBJECT_KEY,
                ecode.message(),
            ),
            _ => CpcNvm3Error::ErrorCodeWithContext(
                CpcNvm3ErrorCodes::CPC_NVM3_FAILURE,
                "Read failed with an error status code",
            ),
        },
        StatusCode::Unknown => CpcNvm3Error::ErrorCodeWithContext(
            CpcNvm3ErrorCodes::CPC_NVM3_UNKNOWN_ERROR,
            "Unknown response type received",
        ),
    }
}

/// Maps the reply to a counter read or increment to the operation's
/// result: the counter's value, or the error the status stands for.
pub fn process_read_counter_response(response: CmdCounterValueResponse) -> (r: Result<
    u32,
    CpcNvm3Error,
>)
    ensures
        match response {
            CmdCounterValueResponse::Data(v) => r == Ok::<u32, CpcNvm3Error>(v),
            CmdCounterValueResponse::StatusCode(sc) => r matches Err(e) && err_code(e)
                == spec_counter_status(sc),
        },
{
    match response {
        CmdCounterValueResponse::Data(v) => Ok(v),
        CmdCounterValueResponse::StatusCode(sc) => Err(value_status_error(sc)),
    }
}

/// Writes a value to a counter object: one request, one status reply.
pub fn write_counter(
    registry: &mut CpcNvm3Registry,
    cpc_nvm3_handle: cpc_nvm3_handle_t,
    cpc_nvm3_object_key: cpc_nvm3_object_key_t,
    value: u32,
) -> (r: Result<(), CpcNvm3Error>)
    requires
        old(registry).wf(),
    ensures
        final(registry).wf(),
        final(registry).others_unchanged(*old(registry), cpc_nvm3_handle),
        !old(registry).spec_contains(cpc_nvm3_handle) ==> (r matches Err(e) && err_code(e)
            == CpcNvm3ErrorCodes::CPC_NVM3_NOT_INITIALIZED) && final(registry).instances@ == old(registry).instances@,
        old(registry).spec_contains(cpc_nvm3_handle) ==> final(registry).spec_contains(
            cpc_nvm3_handle,
        ) && ({
            let inst = old(registry).spec_instance(cpc_nvm3_handle);
            let txn1 = wrap_inc(inst.transaction_id);
            let fin = final(registry).spec_instance(cpc_nvm3_handle);
            &&& !inst.is_open() ==> (r matches Err(e) && err_code(e)
                == CpcNvm3ErrorCodes::CPC_NVM3_NOT_OPEN) && fin == (CpcNvm3Instance {
                transaction_id: txn1,
                ..inst
            })
            &&& inst.is_open() ==> ({
                let m = spec_wait_reply(
                    ReplyKind::KindStatus,
                    inst.ep().rx_frames(),
                    inst.unique_id,
                    txn1,
                );
                &&& inst_like(
                    fin,
                    inst,
                    txn1,
                    m.1,
                    inst.ep().tx_frames() + seq![
                        spec_write_counter_frame(
                            inst.unique_id,
                            txn1,
                            cpc_nvm3_object_key,
                            value,
                        ),
                    ],
                )
                &&& match m.0 {
                    Ok(ReplySpec::Status(sc)) => res_matches(r, spec_write_counter_status(sc)),
                    Ok(_) => r matches Err(e) && err_code(e)
                        == CpcNvm3ErrorCodes::CPC_NVM3_UNKNOWN_ERROR,
                    Err(c) => r matches Err(e) && err_code(e) == c,
                }
            })
        }),
{
    let idx = match find_slot(registry, cpc_nvm3_handle) {
        Some(i) => i,
        None => {
            return Err(not_initialized());
        },
    };
    let mut inst = take_instance(registry, idx);
    let command = CmdWriteCounter::new(
        inst.unique_id,
        &mut inst.transaction_id,
        cpc_nvm3_object_key,
        value,
    );
    match inst.cpc_endpoint.take() {
        None => {
            put_instance(registry, idx, inst);
            Err(not_open())
        },
        Some(mut ep) => {
            ep.write(command.serialize());
            let resp = get_response(
                &mut ep,
                ReplyKind::KindStatus,
                inst.unique_id,
                inst.transaction_id,
            );
            inst.cpc_endpoint = Some(ep);
            put_instance(registry, idx, inst);
            match resp {
                Ok(Reply::Status(sc)) => write_counter_status_result(sc),
                Ok(_) => Err(
                    CpcNvm3Error::ErrorCodeWithContext(
                        CpcNvm3ErrorCodes::CPC_NVM3_UNKNOWN_ERROR,
                        "counter-write request answered out of shape",
                    ),
                ),
                Err(e) => Err(e),
            }
        },
    }
}

/// Deletes an object: one request, one status reply.
pub fn delete_object(
    registry: &mut CpcNvm3Registry,
    cpc_nvm3_handle: cpc_nvm3_handle_t,
    cpc_nvm3_object_key: cpc_nvm3_object_key_t,
) -> (r: Result<(), CpcNvm3Error>)
    requires
        old(registry).wf(),
    ensures
        final(registry).wf(),
        final(registry).others_unchanged(*old(registry), cpc_nvm3_handle),
        !old(registry).spec_contains(cpc_nvm3_handle) ==> (r matches Err(e) && err_code(e)
            == CpcNvm3ErrorCodes::CPC_NVM3_NOT_INITIALIZED) && final(registry).instances@ == old(registry).instances@,
        old(registry).spec_contains(cpc_nvm3_handle) ==> final(registry).spec_contains(
            cpc_nvm3_handle,
        ) && ({
            let inst = old(registry).spec_instance(cpc_nvm3_handle);
            let txn1 = wrap_inc(inst.transaction_id);
            let fin = final(registry).spec_instance(cpc_nvm3_handle);
            &&& !inst.is_open() ==> (r matches Err(e) && err_code(e)
                == CpcNvm3ErrorCodes::CPC_NVM3_NOT_OPEN) && fin == (CpcNvm3Instance {
                transaction_id: txn1,
                ..inst
            })
            &&& inst.is_open() ==> ({
                let m = spec_wait_reply(
                    ReplyKind::KindStatus,
                    inst.ep().rx_frames(),
                    inst.unique_id,
                    txn1,
                );
                &&& inst_like(
                    fin,
                    inst,
                    txn1,
                    m.1,
                    inst.ep().tx_frames() + seq![
                        spec_delete_object_frame(inst.unique_id, txn1, cpc_nvm3_object_key),
                    ],
                )
                &&& match m.0 {
                    Ok(ReplySpec::Status(sc)) => res_matches(r, spec_delete_object_status(sc)),
                    Ok(_) => r matches Err(e) && err_code(e)
                        == CpcNvm3ErrorCodes::CPC_NVM3_UNKNOWN_ERROR,
                    Err(c) => r matches Err(e) && err_code(e) == c,
                }
            })
        }),
{
    let idx = match find_slot(registry, cpc_nvm3_handle) {
        Some(i) => i,
        None => {
            return Err(not_initialized());
        },
    };
    let mut inst = take_instance(registry, idx);
    let command = CmdDeleteObject::new(
        inst.unique_id,
        &mut inst.transaction_id,
        cpc_nvm3_object_key,
    );
    match inst.cpc_endpoint.take() {
        None => {
            put_instance(registry, idx, inst);
            Err(not_open())
        },
        Some(mut ep) => {
            ep.write(command.serialize());
            let resp = get_response(
                &mut ep,
                ReplyKind::KindStatus,
                inst.unique_id,
                inst.transaction_id,
            );
            inst.cpc_endpoint = Some(ep);
            put_instance(registry, idx, inst);
            match resp {
                Ok(Reply::Status(sc)) => delete_object_status_result(sc),
                Ok(_) => Err(
                    CpcNvm3Error::ErrorCodeWithContext(
                        CpcNvm3ErrorCodes::CPC_NVM3_UNKNOWN_ERROR,
                        "delete request answered out of shape",
                    ),
                ),
                Err(e) => Err(e),
            }
        },
    }
}

/// Reads a counter object's value: one request, one reply that is the
/// value or a status.
pub fn read_counter(
    registry: &mut CpcNvm3Registry,
    cpc_nvm3_handle: cpc_nvm3_handle_t,
    cpc_nvm3_object_key: cpc_nvm3_object_key_t,
) -> (r: Result<u32, CpcNvm3Error>)
    requires
        old(registry).wf(),
    ensures
        final(registry).wf(),
        final(registry).others_unchanged(*old(registry), cpc_nvm3_handle),
        !old(registry).spec_contains(cpc_nvm3_handle) ==> (r matches Err(e) && err_code(e)
            == CpcNvm3ErrorCodes::CPC_NVM3_NOT_INITIALIZED) && final(registry).instances@ == old(registry).instances@,
        old(registry).spec_contains(cpc_nvm3_handle) ==> final(registry).spec_contains(
            cpc_nvm3_handle,
        ) && ({
            let inst = old(registry).spec_instance(cpc_nvm3_handle);
            let txn1 = wrap_inc(inst.transaction_id);
            let fin = final(registry).spec_instance(cpc_nvm3_handle);
            &&& !inst.is_open() ==> (r matches Err(e) && err_code(e)
                == CpcNvm3ErrorCodes::CPC_NVM3_NOT_OPEN) && fin == (CpcNvm3Instance {
                transaction_id: txn1,
                ..inst
            })
            &&& inst.is_open() ==> ({
                let m = spec_wait_reply(
                    ReplyKind::KindCounter,
                    inst.ep().rx_frames(),
                    inst.unique_id,
                    txn1,
                );
                &&& inst_like(
                    fin,
                    inst,
                    txn1,
                    m.1,
                    inst.ep().tx_frames() + seq![
                        spec_read_counter_frame(inst.unique_id, txn1, cpc_nvm3_object_key),
                    ],
                )
                &&& match m.0 {
                    Ok(ReplySpec::Counter(v)) => r == Ok::<u32, CpcNvm3Error>(v),
                    Ok(ReplySpec::Status(sc)) => r matches Err(e) && err_code(e)
                        == spec_counter_status(sc),
                    Ok(_) => r matches Err(e) && err_code(e)
                        == CpcNvm3ErrorCodes::CPC_NVM3_UNKNOWN_ERROR,
                    Err(c) => r matches Err(e) && err_code(e) == c,
                }
            })
        }),
{
    let idx = match find_slot(registry, cpc_nvm3_handle) {
        Some(i) => i,
        None => {
            return Err(not_initialized());
        },
    };
    let mut inst = take_instance(registry, idx);
    let command = CmdReadCounter::new(
        inst.unique_id,
        &mut inst.transaction_id,
        cpc_nvm3_object_key,
    );
    match inst.cpc_endpoint.take() {
        None => {
            put_instance(registry, idx, inst);
            Err(not_open())
        },
        Some(mut ep) => {
            ep.write(command.serialize());
            let resp = get_response(
                &mut ep,
                ReplyKind::KindCounter,
                inst.unique_id,
                inst.transaction_id,
            );
            inst.cpc_endpoint = Some(ep);
            put_instance(registry, idx, inst);
            match resp {
                Ok(Reply::Counter(v)) => process_read_counter_response(
                    CmdCounterValueResponse::Data(v),
                ),
                Ok(Reply::Status(sc)) => process_read_counter_response(
                    CmdCounterValueResponse::StatusCode(sc),
                ),
                Ok(_) => Err(
                    CpcNvm3Error::ErrorCodeWithContext(
                        CpcNvm3ErrorCodes::CPC_NVM3_UNKNOWN_ERROR,
                        "counter-read request answered out of shape",
                    ),
                ),
                Err(e) => Err(e),
            }
        },
    }
}

/// Increments a counter object: one request, one reply that is the new
/// value or a status.
pub fn increment_counter(
    registry: &mut CpcNvm3Registry,
    cpc_nvm3_handle: cpc_nvm3_handle_t,
    cpc_nvm3_object_key: cpc_nvm3_object_key_t,
) -> (r: Result<u32, CpcNvm3Error>)
    requires
        old(registry).wf(),
    ensures
        final(registry).wf(),
        final(registry).others_unchanged(*old(registry), cpc_nvm3_handle),
        !old(registry).spec_contains(cpc_nvm3_handle) ==> (r matches Err(e) && err_code(e)
            == CpcNvm3ErrorCodes::CPC_NVM3_NOT_INITIALIZED) && final(registry).instances@ == old(registry).instances@,
        old(registry).spec_contains(cpc_nvm3_handle) ==> final(registry).spec_contains(
            cpc_nvm3_handle,
        ) && ({
            let inst = old(registry).spec_instance(cpc_nvm3_handle);
            let txn1 = wrap_inc(inst.transaction_id);
            let fin = final(registry).spec_instance(cpc_nvm3_handle);
            &&& !inst.is_open() ==> (r matches Err(e) && err_code(e)
                == CpcNvm3ErrorCodes::CPC_NVM3_NOT_OPEN) && fin == (CpcNvm3Instance {
                transaction_id: txn1,
                ..inst
            })
            &&& inst.is_open() ==> ({
                let m = spec_wait_reply(
                    ReplyKind::KindCounter,
                    inst.ep().rx_frames(),
                    inst.unique_id,
                    txn1,
                );
                &&& inst_like(
                    fin,
                    inst,
                    txn1,
                    m.1,
                    inst.ep().tx_frames() + seq![
                        spec_increment_counter_frame(inst.unique_id, txn1, cpc_nvm3_object_key),
                    ],
                )
                &&& match m.0 {
                    Ok(ReplySpec::Counter(v)) => r == Ok::<u32, CpcNvm3Error>(v),
                    Ok(ReplySpec::Status(sc)) => r matches Err(e) && err_code(e)
                        == spec_counter_status(sc),
                    Ok(_) => r matches Err(e) && err_code(e)
                        == CpcNvm3ErrorCodes::CPC_NVM3_UNKNOWN_ERROR,
                    Err(c) => r matches Err(e) && err_code(e) == c,
                }
            })
        }),
{
    let idx = match find_slot(registry, cpc_nvm3_handle) {
        Some(i) => i,
        None => {
            return Err(not_initialized());
        },
    };
    let mut inst = take_instance(registry, idx);
    let command = CmdIncrementCounter::new(
        inst.unique_id,
        &mut inst.transaction_id,
        cpc_nvm3_object_key,
    );
    match inst.cpc_endpoint.take() {
        None => {
            put_instance(registry, idx, inst);
            Err(not_open())
        },
        Some(mut ep) => {
            ep.write(command.serialize());
            let resp = get_response(
                &mut ep,
                ReplyKind::KindCounter,
                inst.unique_id,
                inst.transaction_id,
            );
            inst.cpc_endpoint = Some(ep);
            put_instance(registry, idx, inst);
            match resp {
                Ok(Reply::Counter(v)) => process_read_counter_response(
                    CmdCounterValueResponse::Data(v),
                ),
                Ok(Reply::Status(sc)) => process_read_counter_response(
                    CmdCounterValueResponse::StatusCode(sc),
                ),
                Ok(_) => Err(
                    CpcNvm3Error::ErrorCodeWithContext(
                        CpcNvm3ErrorCodes::CPC_NVM3_UNKNOWN_ERROR,
                        "counter-increment request answered out of shape",
                    ),
                ),
                Err(e) => Err(e),
            }
        },
    }
}

/// Asks how many objects the remote stores: one request, one reply that
/// is the count or a status.
pub fn get_object_count(
    registry: &mut CpcNvm3Registry,
    cpc_nvm3_handle: cpc_nvm3_handle_t,
) -> (r: Result<u16, CpcNvm3Error>)
    requires
        old(registry).wf(),
    ensures
        final(registry).wf(),
        final(registry).others_unchanged(*old(registry), cpc_nvm3_handle),
        !old(registry).spec_contains(cpc_nvm3_handle) ==> (r matches Err(e) && err_code(e)
            == CpcNvm3ErrorCodes::CPC_NVM3_NOT_INITIALIZED) && final(registry).instances@ == old(registry).instances@,
        old(registry).spec_contains(cpc_nvm3_handle) ==> final(registry).spec_contains(
            cpc_nvm3_handle,
        ) && ({
            let inst = old(registry).spec_instance(cpc_nvm3_handle);
            let txn1 = wrap_inc(inst.transaction_id);
            let fin = final(registry).spec_instance(cpc_nvm3_handle);
            &&& !inst.is_open() ==> (r matches Err(e) && err_code(e)
                == CpcNvm3ErrorCodes::CPC_NVM3_NOT_OPEN) && fin == (CpcNvm3Instance {
                transaction_id: txn1,
                ..inst
            })
            &&& inst.is_open() ==> ({
                let m = spec_wait_reply(
                    ReplyKind::KindObjectCount,
                    inst.ep().rx_frames(),
                    inst.unique_id,
                    txn1,
                );
                &&& inst_like(
                    fin,
                    inst,
                    txn1,
                    m.1,
                    inst.ep().tx_frames() + seq![
                        spec_get_object_count_frame(inst.unique_id, txn1),
                    ],
                )
                &&& match m.0 {
                    Ok(ReplySpec::Count(n)) => r == Ok::<u16, CpcNvm3Error>(n),
                    Ok(ReplySpec::Status(sc)) => r matches Err(e) && err_code(e)
                        == spec_object_count_status(sc),
                    Ok(_) => r matches Err(e) && err_code(e)
                        == CpcNvm3ErrorCodes::CPC_NVM3_UNKNOWN_ERROR,
                    Err(c) => r matches Err(e) && err_code(e) == c,
                }
            })
        }),
{
    let idx = match find_slot(registry, cpc_nvm3_handle) {
        Some(i) => i,
        None => {
            return Err(not_initialized());
        },
    };
    let mut inst = take_instance(registry, idx);
    let command = CmdGetObjectCount::new(inst.unique_id, &mut inst.transaction_id);
    match inst.cpc_endpoint.take() {
        None => {
            put_instance(registry, idx, inst);
            Err(not_open())
        },
        Some(mut ep) => {
            ep.write(command.serialize());
            let resp = get_response(
                &mut ep,
                ReplyKind::KindObjectCount,
                inst.unique_id,
                inst.transaction_id,
            );
            inst.cpc_endpoint = Some(ep);
            put_instance(registry, idx, inst);
            match resp {
                Ok(Reply::Count(n)) => Ok(n),
                Ok(Reply::Status(sc)) => Err(value_status_error(sc)),
                Ok(_) => Err(
                    CpcNvm3Error::ErrorCodeWithContext(
                        CpcNvm3ErrorCodes::CPC_NVM3_UNKNOWN_ERROR,
                        "object-count request answered out of shape",
                    ),
                ),
                Err(e) => Err(e),
            }
        },
    }
}

/// Asks for an object's size and kind: one request, one reply that is
/// the record or a status.
pub fn get_object_info(
    registry: &mut CpcNvm3Registry,
    cpc_nvm3_handle: cpc_nvm3_handle_t,
    cpc_nvm3_object_key: cpc_nvm3_object_key_t,
) -> (r: Result<(u16, CpcNvm3ObjectType), CpcNvm3Error>)
    requires
        old(registry).wf(),
    ensures
        final(registry).wf(),
        final(registry).others_unchanged(*old(registry), cpc_nvm3_handle),
        !old(registry).spec_contains(cpc_nvm3_handle) ==> (r matches Err(e) && err_code(e)
            == CpcNvm3ErrorCodes::CPC_NVM3_NOT_INITIALIZED) && final(registry).instances@ == old(registry).instances@,
        old(registry).spec_contains(cpc_nvm3_handle) ==> final(registry).spec_contains(
            cpc_nvm3_handle,
        ) && ({
            let inst = old(registry).spec_instance(cpc_nvm3_handle);
            let txn1 = wrap_inc(inst.transaction_id);
            let fin = final(registry).spec_instance(cpc_nvm3_handle);
            &&& !inst.is_open() ==> (r matches Err(e) && err_code(e)
                == CpcNvm3ErrorCodes::CPC_NVM3_NOT_OPEN) && fin == (CpcNvm3Instance {
                transaction_id: txn1,
                ..inst
            })
            &&& inst.is_open() ==> ({
                let m = spec_wait_reply(
                    ReplyKind::KindObjectInfo,
                    inst.ep().rx_frames(),
                    inst.unique_id,
                    txn1,
                );
                &&& inst_like(
                    fin,
                    inst,
                    txn1,
                    m.1,
                    inst.ep().tx_frames() + seq![
                        spec_get_object_info_frame(inst.unique_id, txn1, cpc_nvm3_object_key),
                    ],
                )
                &&& match m.0 {
                    Ok(ReplySpec::Info(t, n)) => r == Ok::<(u16, CpcNvm3ObjectType), CpcNvm3Error>(
                        (n, t),
                    ),
                    Ok(ReplySpec::Status(sc)) => r matches Err(e) && err_code(e)
                        == spec_object_info_status(sc),
                    Ok(_) => r matches Err(e) && err_code(e)
                        == CpcNvm3ErrorCodes::CPC_NVM3_UNKNOWN_ERROR,
                    Err(c) => r matches Err(e) && err_code(e) == c,
                }
            })
        }),
{
    let idx = match find_slot(registry, cpc_nvm3_handle) {
        Some(i) => i,
        None => {
            return Err(not_initialized());
        },
    };
    let mut inst = take_instance(registry, idx);
    let command = CmdGetObjectInfo::new(
        inst.unique_id,
        &mut inst.transaction_id,
        cpc_nvm3_object_key,
    );
    match inst.cpc_endpoint.take() {
        None => {
            put_instance(registry, idx, inst);
            Err(not_open())
        },
        Some(mut ep) => {
            ep.write(command.serialize());
            let resp = get_response(
                &mut ep,
                ReplyKind::KindObjectInfo,
                inst.unique_id,
                inst.transaction_id,
            );
            inst.cpc_endpoint = Some(ep);
            put_instance(registry, idx, inst);
            match resp {
                Ok(Reply::Info(object_type, object_size)) => Ok((object_size, object_type)),
                Ok(Reply::Status(sc)) => Err(value_status_error(sc)),
                Ok(_) => Err(
                    CpcNvm3Error::ErrorCodeWithContext(
                        CpcNvm3ErrorCodes::CPC_NVM3_UNKNOWN_ERROR,
                        "object-info request answered out of shape",
                    ),
                ),
                Err(e) => Err(e),
            }
        },
    }
}

/// The maximum object size a write may carry, negotiated at `open` and
/// kept until `deinit`.
pub fn get_maximum_write_size(
    registry: &mut CpcNvm3Registry,
    cpc_nvm3_handle: cpc_nvm3_handle_t,
) -> (r: Result<u16, CpcNvm3Error>)
    requires
        old(registry).wf(),
    ensures
        final(registry).wf(),
        final(registry).instances@ == old(registry).instances@,
        !old(registry).spec_contains(cpc_nvm3_handle) ==> (r matches Err(e) && err_code(e)
            == CpcNvm3ErrorCodes::CPC_NVM3_NOT_INITIALIZED),
        old(registry).spec_contains(cpc_nvm3_handle) ==> match old(registry).spec_instance(
            cpc_nvm3_handle,
        ).maximum_write_size {
            Some(v) => r == Ok::<u16, CpcNvm3Error>(v),
            None => r matches Err(e) && err_code(e) == CpcNvm3ErrorCodes::CPC_NVM3_NOT_OPEN,
        },
{
    let idx = match find_slot(registry, cpc_nvm3_handle) {
        Some(i) => i,
        None => {
            return Err(not_initialized());
        },
    };
    match &registry.instances[idx] {
        Some(inst) => inst.get_maximum_write_size(),
        None => vstd::pervasive::unreached(),
    }
}

/// The configured read timeout, as seconds and microseconds.
pub fn get_timeout(
    registry: &mut CpcNvm3Registry,
    cpc_nvm3_handle: cpc_nvm3_handle_t,
) -> (r: Result<(i32, i32), CpcNvm3Error>)
    requires
        old(registry).wf(),
    ensures
        final(registry).wf(),
        final(registry).instances@ == old(registry).instances@,
        !old(registry).spec_contains(cpc_nvm3_handle) ==> (r matches Err(e) && err_code(e)
            == CpcNvm3ErrorCodes::CPC_NVM3_NOT_INITIALIZED),
        old(registry).spec_contains(cpc_nvm3_handle) ==> ({
            let inst = old(registry).spec_instance(cpc_nvm3_handle);
            &&& inst.is_open() ==> r == Ok::<(i32, i32), CpcNvm3Error>(
                (inst.ep().timeout_seconds, inst.ep().timeout_microseconds),
            )
            &&& !inst.is_open() ==> (r matches Err(e) && err_code(e)
                == CpcNvm3ErrorCodes::CPC_NVM3_NOT_OPEN)
        }),
{
    let idx = match find_slot(registry, cpc_nvm3_handle) {
        Some(i) => i,
        None => {
            return Err(not_initialized());
        },
    };
    match &registry.instances[idx] {
        Some(inst) => match &inst.cpc_endpoint {
            Some(ep) => Ok((ep.timeout_seconds, ep.timeout_microseconds)),
            None => Err(not_open()),
        },
        None => vstd::pervasive::unreached(),
    }
}

/// Configures the read timeout on the open link.
pub fn set_timeout(
    registry: &mut CpcNvm3Registry,
    cpc_nvm3_handle: cpc_nvm3_handle_t,
    seconds: i32,
    microseconds: i32,
) -> (r: Result<(), CpcNvm3Error>)
    requires
        old(registry).wf(),
    ensures
        final(registry).wf(),
        final(registry).others_unchanged(*old(registry), cpc_nvm3_handle),
        !old(registry).spec_contains(cpc_nvm3_handle) ==> (r matches Err(e) && err_code(e)
            == CpcNvm3ErrorCodes::CPC_NVM3_NOT_INITIALIZED) && final(registry).instances@ == old(registry).instances@,
        old(registry).spec_contains(cpc_nvm3_handle) ==> final(registry).spec_contains(
            cpc_nvm3_handle,
        ) && ({
            let inst = old(registry).spec_instance(cpc_nvm3_handle);
            let fin = final(registry).spec_instance(cpc_nvm3_handle);
            &&& !inst.is_open() ==> (r matches Err(e) && err_code(e)
                == CpcNvm3ErrorCodes::CPC_NVM3_NOT_OPEN) && fin == inst
            &&& inst.is_open() ==> r is Ok && fin == (CpcNvm3Instance {
                cpc_endpoint: Some(
                    Endpoint {
                        timeout_seconds: seconds,
                        timeout_microseconds: microseconds,
                        ..inst.ep()
                    },
                ),
                ..inst
            })
        }),
{
    let idx = match find_slot(registry, cpc_nvm3_handle) {
        Some(i) => i,
        None => {
            return Err(not_initialized());
        },
    };
    let mut inst = take_instance(registry, idx);
    match inst.cpc_endpoint.take() {
        None => {
            put_instance(registry, idx, inst);
            Err(not_open())
        },
        Some(mut ep) => {
            ep.timeout_seconds = seconds;
            ep.timeout_microseconds = microseconds;
            inst.cpc_endpoint = Some(ep);
            put_instance(registry, idx, inst);
            Ok(())
        },
    }
}

/// Queues a frame on the instance's open link, as received from the
/// remote.
pub fn push_rx(
    registry: &mut CpcNvm3Registry,
    cpc_nvm3_handle: cpc_nvm3_handle_t,
    frame: Vec<u8>,
) -> (r: Result<(), CpcNvm3Error>)
    requires
        old(registry).wf(),
    ensures
        final(registry).wf(),
        final(registry).others_unchanged(*old(registry), cpc_nvm3_handle),
        !old(registry).spec_contains(cpc_nvm3_handle) ==> (r matches Err(e) && err_code(e)
            == CpcNvm3ErrorCodes::CPC_NVM3_NOT_INITIALIZED) && final(registry).instances@ == old(registry).instances@,
        old(registry).spec_contains(cpc_nvm3_handle) ==> final(registry).spec_contains(
            cpc_nvm3_handle,
        ) && ({
            let inst = old(registry).spec_instance(cpc_nvm3_handle);
            let fin = final(registry).spec_instance(cpc_nvm3_handle);
            &&& !inst.is_open() ==> (r matches Err(e) && err_code(e)
                == CpcNvm3ErrorCodes::CPC_NVM3_NOT_OPEN) && fin == inst
            &&& inst.is_open() ==> r is Ok && inst_like(
                fin,
                inst,
                inst.transaction_id,
                inst.ep().rx_frames() + seq![frame@],
                inst.ep().tx_frames(),
            )
        }),
{
    let idx = match find_slot(registry, cpc_nvm3_handle) {
        Some(i) => i,
        None => {
            return Err(not_initialized());
        },
    };
    let mut inst = take_instance(registry, idx);
    match inst.cpc_endpoint.take() {
        None => {
            put_instance(registry, idx, inst);
            Err(not_open())
        },
        Some(mut ep) => {
            ep.push_rx(frame);
            inst.cpc_endpoint = Some(ep);
            put_instance(registry, idx, inst);
            Ok(())
        },
    }
}

/// Sets the instance's transaction counter; the next command carries
/// the following id.
pub fn set_transaction_id(
    registry: &mut CpcNvm3Registry,
    cpc_nvm3_handle: cpc_nvm3_handle_t,
    value: u8,
) -> (r: Result<(), CpcNvm3Error>)
    requires
        old(registry).wf(),
    ensures
        final(registry).wf(),
        final(registry).others_unchanged(*old(registry), cpc_nvm3_handle),
        !old(registry).spec_contains(cpc_nvm3_handle) ==> (r matches Err(e) && err_code(e)
            == CpcNvm3ErrorCodes::CPC_NVM3_NOT_INITIALIZED) && final(registry).instances@ == old(registry).instances@,
        old(registry).spec_contains(cpc_nvm3_handle) ==> r is Ok && final(registry).spec_contains(cpc_nvm3_handle) && final(registry).spec_instance(cpc_nvm3_handle) == (
        CpcNvm3Instance {
            transaction_id: value,
            ..old(registry).spec_instance(cpc_nvm3_handle)
        }),
{
    let idx = match find_slot(registry, cpc_nvm3_handle) {
        Some(i) => i,
        None => {
            return Err(not_initialized());
        },
    };
    let mut inst = take_instance(registry, idx);
    inst.transaction_id = value;
    put_instance(registry, idx, inst);
    Ok(())
}

/// Sets the tag the instance puts in every outgoing header and expects
/// in every incoming one; it is fixed at creation from the process id.
pub fn set_unique_id(
    registry: &mut CpcNvm3Registry,
    cpc_nvm3_handle: cpc_nvm3_handle_t,
    value: u32,
) -> (r: Result<(), CpcNvm3Error>)
    requires
        old(registry).wf(),
    ensures
        final(registry).wf(),
        final(registry).others_unchanged(*old(registry), cpc_nvm3_handle),
        !old(registry).spec_contains(cpc_nvm3_handle) ==> (r matches Err(e) && err_code(e)
            == CpcNvm3ErrorCodes::CPC_NVM3_NOT_INITIALIZED) && final(registry).instances@ == old(registry).instances@,
        old(registry).spec_contains(cpc_nvm3_handle) ==> r is Ok && final(registry).spec_contains(cpc_nvm3_handle) && final(registry).spec_instance(cpc_nvm3_handle) == (
        CpcNvm3Instance {
            unique_id: value,
            ..old(registry).spec_instance(cpc_nvm3_handle)
        }),
{
    let idx = match find_slot(registry, cpc_nvm3_handle) {
        Some(i) => i,
        None => {
            return Err(not_initialized());
        },
    };
    let mut inst = take_instance(registry, idx);
    inst.unique_id = value;
    put_instance(registry, idx, inst);
    Ok(())
}

/// Copies `input[start..end]` into a fresh vector.
fn slice_to_vec(input: &[u8], start: usize, end: usize) -> (r: Vec<u8>)
    requires
        start <= end <= input@.len(),
    ensures
        r@ == input@.subrange(start as int, end as int),
{
    let mut out: Vec<u8> = Vec::new();
    out.extend_from_slice(&input[start..end]);
    assert(out@ =~= input@.subrange(start as int, end as int));
    out
}

/// Overwrites the front of `dst` with `src`, leaving the rest.
fn copy_prefix<T: Copy>(dst: &mut Vec<T>, src: &Vec<T>)
    requires
        src@.len() <= old(dst)@.len(),
    ensures
        final(dst)@ == src@ + old(dst)@.skip(src@.len() as int),
{
    let mut i: usize = 0;
    while i < src.len()
        invariant
            i <= src@.len() <= dst@.len(),
            dst@.len() == old(dst)@.len(),
            forall|j: int| 0 <= j < i ==> dst@[j] == src@[j],
            forall|j: int| i <= j < dst@.len() ==> dst@[j] == old(dst)@[j],
        decreases src@.len() - i,
    {
        let v = src[i];
        dst.set(i, v);
        i = i + 1;
    }
    assert(dst@ =~= src@ + old(dst)@.skip(src@.len() as int));
}

/// The transaction id the next command will carry.
fn next_transaction_id(t: u8) -> (r: u8)
    ensures
        r == wrap_inc(t),
{
    if t == 0xFF {
        0
    } else {
        t + 1
    }
}

/// The object keys packed little-endian in `b`, in order; a trailing
/// remainder shorter than one key is ignored.
pub open spec fn spec_keys_of(b: Seq<u8>) -> Seq<u32>
    decreases b.len(),
{
    if b.len() < 4 {
        Seq::empty()
    } else {
        seq![spec_le_u32(b[0], b[1], b[2], b[3])] + spec_keys_of(b.skip(4))
    }
}

/// The keys packed in `input` from `offset` on.
fn keys_from(input: &[u8], offset: usize) -> (r: Vec<u32>)
    requires
        offset <= input@.len(),
    ensures
        r@ == spec_keys_of(input@.skip(offset as int)),
    decreases input@.len() - offset,
{
    if input.len() - offset < 4 {
        let r: Vec<u32> = Vec::new();
        assert(r@ =~= spec_keys_of(input@.skip(offset as int)));
        r
    } else {
        let k = read_u32_le(input, offset);
        let mut rest = keys_from(input, offset + 4);
        let mut out: Vec<u32> = Vec::new();
        out.push(k);
        out.append(&mut rest);
        proof {
            let b = input@.skip(offset as int);
            assert(b[0] == input@[offset as int]);
            assert(b[1] == input@[offset + 1]);
            assert(b[2] == input@[offset + 2]);
            assert(b[3] == input@[offset + 3]);
            assert(b.skip(4) =~= input@.skip(offset + 4));
            assert(out@ =~= spec_keys_of(b));
        }
        out
    }
}

/// Splits a buffer of little-endian keys into the keys it packs.
pub fn extract_object_keys(input: &[u8]) -> (r: Vec<cpc_nvm3_object_key_t>)
    ensures
        r@ == spec_keys_of(input@),
{
    let r = keys_from(input, 0);
    assert(input@.skip(0) =~= input@);
    r
}

/// Packing keys four bytes each yields one key per four bytes.
pub proof fn lemma_keys_of_len(b: Seq<u8>)
    ensures
        spec_keys_of(b).len() == b.len() / 4,
    decreases b.len(),
{
    if b.len() < 4 {
    } else {
        lemma_keys_of_len(b.skip(4));
    }
}

/// One write: the fragments from `offset` on are sent one at a time,
/// each acknowledged by a status, until the final fragment or the first
/// error. Yields the result, the frames left unread, the transaction
/// counter after, and the frames sent.
pub open spec fn spec_write_rounds(
    rx: Seq<Seq<u8>>,
    txn: u8,
    unique_id: u32,
    object_key: u32,
    data: Seq<u8>,
    frag: nat,
    offset: nat,
) -> (Result<(), CpcNvm3ErrorCodes>, Seq<Seq<u8>>, u8, Seq<Seq<u8>>)
    decreases data.len() - offset,
{
    if frag == 0 {
        (Err(CpcNvm3ErrorCodes::CPC_NVM3_FAILURE), rx, txn, Seq::empty())
    } else {
        let txn1 = wrap_inc(txn);
        let last = data.len() - offset <= frag;
        let end = if data.len() < offset + frag {
            data.len() as int
        } else {
            (offset + frag) as int
        };
        let chunk = data.subrange(offset as int, end);
        let frame = spec_write_data_frame(
            unique_id,
            txn1,
            object_key,
            offset as u16,
            if last {
                1u8
            } else {
                0u8
            },
            chunk,
        );
        let m = spec_wait_reply(ReplyKind::KindStatus, rx, unique_id, txn1);
        match m.0 {
            Ok(ReplySpec::Status(sc)) => match spec_write_data_status(sc) {
                Ok(_) => if last {
                    (Ok(()), m.1, txn1, seq![frame])
                } else {
                    let t = spec_write_rounds(
                        m.1,
                        txn1,
                        unique_id,
                        object_key,
                        data,
                        frag,
                        offset + frag,
                    );
                    (t.0, t.1, t.2, seq![frame] + t.3)
                },
                Err(c) => (Err(c), m.1, txn1, seq![frame]),
            },
            Ok(_) => (Err(CpcNvm3ErrorCodes::CPC_NVM3_UNKNOWN_ERROR), m.1, txn1, seq![frame]),
            Err(c) => (Err(c), m.1, txn1, seq![frame]),
        }
    }
}

/// Sends the fragments of one write from `offset` on and awaits each
/// acknowledgement.
fn write_rounds(
    ep: &mut Endpoint,
    transaction_id: &mut u8,
    unique_id: u32,
    object_key: u32,
    data: &[u8],
    offset: usize,
    frag: usize,
) -> (r: Result<(), CpcNvm3Error>)
    requires
        0 < frag,
        frag + 7 <= u16::MAX,
        data@.len() <= u16::MAX,
        offset <= data@.len(),
    ensures
        final(ep).max_write_size == old(ep).max_write_size,
        final(ep).timeout_seconds == old(ep).timeout_seconds,
        final(ep).timeout_microseconds == old(ep).timeout_microseconds,
        ({
            let t = spec_write_rounds(
                old(ep).rx_frames(),
                *old(transaction_id),
                unique_id,
                object_key,
                data@,
                frag as nat,
                offset as nat,
            );
            &&& res_matches(r, t.0)
            &&& final(ep).rx_frames() == t.1
            &&& *final(transaction_id) == t.2
            &&& final(ep).tx_frames() == old(ep).tx_frames() + t.3
        }),
    decreases data@.len() - offset,
{
    let remaining = data.len() - offset;
    let last = remaining <= frag;
    let end = if data.len() < offset + frag {
        data.len()
    } else {
        offset + frag
    };
    let chunk = slice_to_vec(data, offset, end);
    let command = CmdWriteData::new(
        unique_id,
        transaction_id,
        object_key,
        offset as u16,
        if last {
            1
        } else {
            0
        },
        chunk,
    );
    ep.write(command.serialize());
    let resp = get_response(ep, ReplyKind::KindStatus, unique_id, *transaction_id);
    match resp {
        Ok(Reply::Status(sc)) => {
            match write_data_status_result(sc) {
                Ok(_) => {
                    if last {
                        Ok(())
                    } else {
                        let r = write_rounds(
                            ep,
                            transaction_id,
                            unique_id,
                            object_key,
                            data,
                            offset + frag,
                            frag,
                        );
                        proof {
                            let t = spec_write_rounds(
                                old(ep).rx_frames(),
                                *old(transaction_id),
                                unique_id,
                                object_key,
                                data@,
                                frag as nat,
                                offset as nat,
                            );
                            assert(final(ep).tx_frames() =~= old(ep).tx_frames() + t.3);
                        }
                        r
                    }
                },
                Err(e) => Err(e),
            }
        },
        Ok(_) => Err(
            CpcNvm3Error::ErrorCodeWithContext(
                CpcNvm3ErrorCodes::CPC_NVM3_UNKNOWN_ERROR,
                "write request answered out of shape",
            ),
        ),
        Err(e) => Err(e),
    }
}

/// One read: fragments are collected in order onto `acc` until the
/// final fragment; a status in their place ends the read with its
/// error; frames that are not ours are dropped. Yields the result (the
/// reassembled bytes) and the frames left unread.
pub open spec fn spec_read_rounds(
    rx: Seq<Seq<u8>>,
    unique_id: u32,
    transaction_id: u8,
    acc: Seq<u8>,
) -> (Result<Seq<u8>, CpcNvm3ErrorCodes>, Seq<Seq<u8>>)
    decreases rx.len(),
{
    if rx.len() == 0 {
        (Err(CpcNvm3ErrorCodes::CPC_NVM3_TRY_AGAIN), rx)
    } else {
        match spec_parse_reply(ReplyKind::KindReadData, rx[0], unique_id, transaction_id) {
            Ok(ReplySpec::Data(d, last)) => if last {
                (Ok(acc + d), rx.drop_first())
            } else {
                spec_read_rounds(rx.drop_first(), unique_id, transaction_id, acc + d)
            },
            Ok(ReplySpec::Status(sc)) => (Err(spec_read_data_status(sc)), rx.drop_first()),
            Ok(_) => (Err(CpcNvm3ErrorCodes::CPC_NVM3_UNKNOWN_ERROR), rx.drop_first()),
            Err(k) => if k.is_dropped() {
                spec_read_rounds(rx.drop_first(), unique_id, transaction_id, acc)
            } else {
                (Err(CpcNvm3ErrorCodes::CPC_NVM3_FAILURE), rx.drop_first())
            },
        }
    }
}

/// One enumeration: like a read, with key fragments and the
/// enumeration's status mapping.
pub open spec fn spec_enumerate_rounds(
    rx: Seq<Seq<u8>>,
    unique_id: u32,
    transaction_id: u8,
    acc: Seq<u8>,
) -> (Result<Seq<u8>, CpcNvm3ErrorCodes>, Seq<Seq<u8>>)
    decreases rx.len(),
{
    if rx.len() == 0 {
        (Err(CpcNvm3ErrorCodes::CPC_NVM3_TRY_AGAIN), rx)
    } else {
        match spec_parse_reply(ReplyKind::KindEnumerate, rx[0], unique_id, transaction_id) {
            Ok(ReplySpec::Data(d, last)) => if last {
                (Ok(acc + d), rx.drop_first())
            } else {
                spec_enumerate_rounds(rx.drop_first(), unique_id, transaction_id, acc + d)
            },
            Ok(ReplySpec::Status(sc)) => (Err(spec_enumerate_status(sc)), rx.drop_first()),
            Ok(_) => (Err(CpcNvm3ErrorCodes::CPC_NVM3_UNKNOWN_ERROR), rx.drop_first()),
            Err(k) => if k.is_dropped() {
                spec_enumerate_rounds(rx.drop_first(), unique_id, transaction_id, acc)
            } else {
                (Err(CpcNvm3ErrorCodes::CPC_NVM3_FAILURE), rx.drop_first())
            },
        }
    }
}

/// The error for a status received in place of read data.
fn read_data_status_error(sc: StatusCode) -> (r: CpcNvm3Error)
    ensures
        err_code(r) == spec_read_data_status(sc),
{
    match sc {
        StatusCode::SlStatus(SlStatus::Busy) => CpcNvm3Error::ErrorCodeWithContext(
            CpcNvm3ErrorCodes::CPC_NVM3_TRY_AGAIN,
            "NVM3 is busy with another operation, try again",
        ),
        StatusCode::SlStatus(_) => CpcNvm3Error::ErrorCodeWithContext(
            CpcNvm3ErrorCodes::CPC_NVM3_FAILURE,
            "Received an unexpected sl_status code",
        ),
        StatusCode::ECode(ecode) => match ecode {
            ECode::KeyNotFound => CpcNvm3Error::ErrorCodeWithContext(
                CpcNvm3ErrorCodes::CPC_NVM3_INVALID_OBJECT_KEY,
                ecode.message(),
            ),
            ECode::ReadDataSize | ECode::SizeTooSmall => CpcNvm3Error::ErrorCodeWithContext(
                CpcNvm3ErrorCodes::CPC_NVM3_BUFFER_TOO_SMALL,
                ecode.message(),
            ),
            _ => CpcNvm3Error::ErrorCodeWithContext(
                CpcNvm3ErrorCodes::CPC_NVM3_FAILURE,
                "Read failed with an error status code",
            ),
        },
        StatusCode::Unknown => CpcNvm3Error::ErrorCodeWithContext(
            CpcNvm3ErrorCodes::CPC_NVM3_UNKNOWN_ERROR,
            "Unknown response type received",
        ),
    }
}

/// The error for a status received in place of an enumeration fragment.
fn enumerate_status_error(sc: StatusCode) -> (r: CpcNvm3Error)
    ensures
        err_code(r) == spec_enumerate_status(sc),
{
    match sc {
        StatusCode::SlStatus(SlStatus::Busy) => CpcNvm3Error::ErrorCodeWithContext(
            CpcNvm3ErrorCodes::CPC_NVM3_TRY_AGAIN,
            "NVM3 is busy with another operation, try again",
        ),
        StatusCode::SlStatus(_) => CpcNvm3Error::ErrorCodeWithContext(
            CpcNvm3ErrorCodes::CPC_NVM3_FAILURE,
            "Received an unexpected sl_status code",
        ),
        StatusCode::ECode(_) => CpcNvm3Error::ErrorCodeWithContext(
            CpcNvm3ErrorCodes::CPC_NVM3_FAILURE,
            "list_objects failed with an error status code",
        ),
        StatusCode::Unknown => CpcNvm3Error::ErrorCodeWithContext(
            CpcNvm3ErrorCodes::CPC_NVM3_UNKNOWN_ERROR,
            "Unknown response type received",
        ),
    }
}

/// Collects the fragments of one read onto `acc`.
fn read_rounds(
    ep: &mut Endpoint,
    unique_id: u32,
    transaction_id: u8,
    acc: &mut Vec<u8>,
) -> (r: Result<(), CpcNvm3Error>)
    ensures
        final(ep).tx == old(ep).tx,
        final(ep).max_write_size == old(ep).max_write_size,
        final(ep).timeout_seconds == old(ep).timeout_seconds,
        final(ep).timeout_microseconds == old(ep).timeout_microseconds,
        ({
            let m = spec_read_rounds(
                old(ep).rx_frames(),
                unique_id,
                transaction_id,
                old(acc)@,
            );
            &&& final(ep).rx_frames() == m.1
            &&& match m.0 {
                Ok(s) => r is Ok && final(acc)@ == s,
                Err(c) => r matches Err(e) && err_code(e) == c,
            }
        }),
    decreases ep.rx@.len(),
{
    let frame = match ep.read() {
        Ok(f) => f,
        Err(e) => {
            return Err(e);
        },
    };
    match parse_reply(ReplyKind::KindReadData, frame.as_slice(), unique_id, transaction_id) {
        Ok(Reply::Data(mut d, last)) => {
            acc.append(&mut d);
            if last {
                Ok(())
            } else {
                read_rounds(ep, unique_id, transaction_id, acc)
            }
        },
        Ok(Reply::Status(sc)) => Err(read_data_status_error(sc)),
        Ok(_) => Err(
            CpcNvm3Error::ErrorCodeWithContext(
                CpcNvm3ErrorCodes::CPC_NVM3_UNKNOWN_ERROR,
                "read request answered out of shape",
            ),
        ),
        Err(e) => {
            let dropped = match &e {
                ProtocolError::InvalidCommandId => true,
                ProtocolError::InvalidTransactionId(_, _) => true,
                ProtocolError::InvalidUniqueId(_, _) => true,
                _ => false,
            };
            if dropped {
                read_rounds(ep, unique_id, transaction_id, acc)
            } else {
                Err(cpc_error_from_protocol(e))
            }
        },
    }
}

/// Collects the fragments of one enumeration onto `acc`.
fn enumerate_rounds(
    ep: &mut Endpoint,
    unique_id: u32,
    transaction_id: u8,
    acc: &mut Vec<u8>,
) -> (r: Result<(), CpcNvm3Error>)
    ensures
        final(ep).tx == old(ep).tx,
        final(ep).max_write_size == old(ep).max_write_size,
        final(ep).timeout_seconds == old(ep).timeout_seconds,
        final(ep).timeout_microseconds == old(ep).timeout_microseconds,
        ({
            let m = spec_enumerate_rounds(
                old(ep).rx_frames(),
                unique_id,
                transaction_id,
                old(acc)@,
            );
            &&& final(ep).rx_frames() == m.1
            &&& match m.0 {
                Ok(s) => r is Ok && final(acc)@ == s,
                Err(c) => r matches Err(e) && err_code(e) == c,
            }
        }),
    decreases ep.rx@.len(),
{
    let frame = match ep.read() {
        Ok(f) => f,
        Err(e) => {
            return Err(e);
        },
    };
    match parse_reply(ReplyKind::KindEnumerate, frame.as_slice(), unique_id, transaction_id) {
        Ok(Reply::Data(mut d, last)) => {
            acc.append(&mut d);
            if last {
                Ok(())
            } else {
                enumerate_rounds(ep, unique_id, transaction_id, acc)
            }
        },
        Ok(Reply::Status(sc)) => Err(enumerate_status_error(sc)),
        Ok(_) => Err(
            CpcNvm3Error::ErrorCodeWithContext(
                CpcNvm3ErrorCodes::CPC_NVM3_UNKNOWN_ERROR,
                "enumeration request answered out of shape",
            ),
        ),
        Err(e) => {
            let dropped = match &e {
                ProtocolError::InvalidCommandId => true,
                ProtocolError::InvalidTransactionId(_, _) => true,
                ProtocolError::InvalidUniqueId(_, _) => true,
                _ => false,
            };
            if dropped {
                enumerate_rounds(ep, unique_id, transaction_id, acc)
            } else {
                Err(cpc_error_from_protocol(e))
            }
        },
    }
}

/// Writes a data object. The payload is cut into fragments of at most
/// the negotiated fragment size; each fragment carries its byte offset
/// and the final one a flag, and each is acknowledged by a status
/// before the next is sent. A payload over the negotiated write size is
/// rejected before anything is sent.
pub fn write_data(
    registry: &mut CpcNvm3Registry,
    cpc_nvm3_handle: cpc_nvm3_handle_t,
    cpc_nvm3_object_key: cpc_nvm3_object_key_t,
    data: &[u8],
) -> (r: Result<(), CpcNvm3Error>)
    requires
        old(registry).wf(),
    ensures
        final(registry).wf(),
        final(registry).others_unchanged(*old(registry), cpc_nvm3_handle),
        !old(registry).spec_contains(cpc_nvm3_handle) ==> (r matches Err(e) && err_code(e)
            == CpcNvm3ErrorCodes::CPC_NVM3_NOT_INITIALIZED) && final(registry).instances@ == old(registry).instances@,
        old(registry).spec_contains(cpc_nvm3_handle) ==> final(registry).spec_contains(
            cpc_nvm3_handle,
        ) && ({
            let inst = old(registry).spec_instance(cpc_nvm3_handle);
            let fin = final(registry).spec_instance(cpc_nvm3_handle);
            &&& (inst.maximum_write_fragment_size is None || inst.maximum_write_size is None)
                ==> (r matches Err(e) && err_code(e) == CpcNvm3ErrorCodes::CPC_NVM3_NOT_OPEN)
                && fin == inst
            &&& (inst.maximum_write_fragment_size is Some && inst.maximum_write_size is Some)
                ==> ({
                let frag = inst.maximum_write_fragment_size->Some_0;
                let maxw = inst.maximum_write_size->Some_0;
                &&& data@.len() > maxw ==> (r matches Err(e) && err_code(e)
                    == CpcNvm3ErrorCodes::CPC_NVM3_INVALID_ARG) && fin == inst
                &&& data@.len() <= maxw ==> ({
                    &&& !inst.is_open() ==> (r matches Err(e) && err_code(e)
                        == CpcNvm3ErrorCodes::CPC_NVM3_NOT_OPEN) && fin == (CpcNvm3Instance {
                        transaction_id: wrap_inc(inst.transaction_id),
                        ..inst
                    })
                    &&& inst.is_open() ==> ({
                        let t = spec_write_rounds(
                            inst.ep().rx_frames(),
                            inst.transaction_id,
                            inst.unique_id,
                            cpc_nvm3_object_key,
                            data@,
                            frag as nat,
                            0,
                        );
                        &&& res_matches(r, t.0)
                        &&& inst_like(fin, inst, t.2, t.1, inst.ep().tx_frames() + t.3)
                    })
                })
            })
        }),
{
    let idx = match find_slot(registry, cpc_nvm3_handle) {
        Some(i) => i,
        None => {
            return Err(not_initialized());
        },
    };
    let mut inst = take_instance(registry, idx);
    let fragment_size = match inst.maximum_write_fragment_size {
        Some(f) => f,
        None => {
            put_instance(registry, idx, inst);
            return Err(not_open());
        },
    };
    let maximum_write_size = match inst.maximum_write_size {
        Some(m) => m,
        None => {
            put_instance(registry, idx, inst);
            return Err(not_open());
        },
    };
    if data.len() > maximum_write_size as usize {
        put_instance(registry, idx, inst);
        return Err(
            CpcNvm3Error::ErrorCodeWithContext(
                CpcNvm3ErrorCodes::CPC_NVM3_INVALID_ARG,
                "Requested a write that is larger than the maximum write size",
            ),
        );
    }
    match inst.cpc_endpoint.take() {
        None => {
            // The first fragment is built before the link refuses it, so
            // the transaction counter advances as a sent command would.
            inst.transaction_id = next_transaction_id(inst.transaction_id);
            put_instance(registry, idx, inst);
            Err(not_open())
        },
        Some(mut ep) => {
            if fragment_size == 0 {
                inst.cpc_endpoint = Some(ep);
                put_instance(registry, idx, inst);
                return Err(
                    CpcNvm3Error::ErrorCodeWithContext(
                        CpcNvm3ErrorCodes::CPC_NVM3_FAILURE,
                        "the negotiated fragment size is zero",
                    ),
                );
            }
            let r = write_rounds(
                &mut ep,
                &mut inst.transaction_id,
                inst.unique_id,
                cpc_nvm3_object_key,
                data,
                0,
                fragment_size as usize,
            );
            inst.cpc_endpoint = Some(ep);
            put_instance(registry, idx, inst);
            r
        },
    }
}

/// Reads a data object. The remote returns it in order, possibly in
/// several fragments; they are reassembled and, when they fit, copied
/// to the front of `buffer`, with the object's size in `data_size`. A
/// remote that returns more than the buffer holds is refused.
pub fn read_data(
    registry: &mut CpcNvm3Registry,
    cpc_nvm3_handle: cpc_nvm3_handle_t,
    cpc_nvm3_object_key: cpc_nvm3_object_key_t,
    buffer: &mut Vec<u8>,
    data_size: &mut u16,
) -> (r: Result<(), CpcNvm3Error>)
    requires
        old(registry).wf(),
        old(buffer)@.len() <= u16::MAX,
    ensures
        final(registry).wf(),
        final(registry).others_unchanged(*old(registry), cpc_nvm3_handle),
        r is Err ==> final(buffer)@ == old(buffer)@ && *final(data_size) == *old(data_size),
        !old(registry).spec_contains(cpc_nvm3_handle) ==> (r matches Err(e) && err_code(e)
            == CpcNvm3ErrorCodes::CPC_NVM3_NOT_INITIALIZED) && final(registry).instances@ == old(registry).instances@,
        old(registry).spec_contains(cpc_nvm3_handle) ==> final(registry).spec_contains(
            cpc_nvm3_handle,
        ) && ({
            let inst = old(registry).spec_instance(cpc_nvm3_handle);
            let txn1 = wrap_inc(inst.transaction_id);
            let fin = final(registry).spec_instance(cpc_nvm3_handle);
            &&& !inst.is_open() ==> (r matches Err(e) && err_code(e)
                == CpcNvm3ErrorCodes::CPC_NVM3_NOT_OPEN) && fin == (CpcNvm3Instance {
                transaction_id: txn1,
                ..inst
            })
            &&& inst.is_open() ==> ({
                let m = spec_read_rounds(
                    inst.ep().rx_frames(),
                    inst.unique_id,
                    txn1,
                    Seq::empty(),
                );
                &&& inst_like(
                    fin,
                    inst,
                    txn1,
                    m.1,
                    inst.ep().tx_frames() + seq![
                        spec_read_data_frame(
                            inst.unique_id,
                            txn1,
                            cpc_nvm3_object_key,
                            old(buffer)@.len() as u16,
                        ),
                    ],
                )
                &&& match m.0 {
                    Ok(s) => if s.len() <= old(buffer)@.len() {
                        r is Ok && final(buffer)@ == s + old(buffer)@.skip(s.len() as int)
                            && *final(data_size) == s.len()
                    } else {
                        r matches Err(e) && err_code(e)
                            == CpcNvm3ErrorCodes::CPC_NVM3_BUFFER_TOO_SMALL
                    },
                    Err(c) => r matches Err(e) && err_code(e) == c,
                }
            })
        }),
{
    let idx = match find_slot(registry, cpc_nvm3_handle) {
        Some(i) => i,
        None => {
            return Err(not_initialized());
        },
    };
    let mut inst = take_instance(registry, idx);
    let command = CmdReadData::new(
        inst.unique_id,
        &mut inst.transaction_id,
        cpc_nvm3_object_key,
        buffer.len() as u16,
    );
    match inst.cpc_endpoint.take() {
        None => {
            put_instance(registry, idx, inst);
            Err(not_open())
        },
        Some(mut ep) => {
            ep.write(command.serialize());
            let mut data: Vec<u8> = Vec::new();
            let rr = read_rounds(&mut ep, inst.unique_id, inst.transaction_id, &mut data);
            inst.cpc_endpoint = Some(ep);
            put_instance(registry, idx, inst);
            match rr {
                Ok(_) => {
                    if data.len() > buffer.len() {
                        return Err(
                            CpcNvm3Error::ErrorCodeWithContext(
                                CpcNvm3ErrorCodes::CPC_NVM3_BUFFER_TOO_SMALL,
                                "Read failed, provided buffer is too small",
                            ),
                        );
                    }
                    copy_prefix(buffer, &data);
                    *data_size = data.len() as u16;
                    Ok(())
                },
                Err(e) => Err(e),
            }
        },
    }
}

/// Lists the keys of the stored objects. The remote returns them packed
/// four bytes each, possibly in several fragments; they are reassembled,
/// split into keys, and, when they fit, copied to the front of
/// `cpc_nvm3_object_keys`, with their number in `object_count`.
pub fn list_objects(
    registry: &mut CpcNvm3Registry,
    cpc_nvm3_handle: cpc_nvm3_handle_t,
    cpc_nvm3_object_keys: &mut Vec<cpc_nvm3_object_key_t>,
    object_count: &mut u16,
) -> (r: Result<(), CpcNvm3Error>)
    requires
        old(registry).wf(),
        old(cpc_nvm3_object_keys)@.len() <= u16::MAX,
    ensures
        final(registry).wf(),
        final(registry).others_unchanged(*old(registry), cpc_nvm3_handle),
        r is Err ==> final(cpc_nvm3_object_keys)@ == old(cpc_nvm3_object_keys)@ && *final(object_count) == *old(object_count),
        !old(registry).spec_contains(cpc_nvm3_handle) ==> (r matches Err(e) && err_code(e)
            == CpcNvm3ErrorCodes::CPC_NVM3_NOT_INITIALIZED) && final(registry).instances@ == old(registry).instances@,
        old(registry).spec_contains(cpc_nvm3_handle) ==> final(registry).spec_contains(
            cpc_nvm3_handle,
        ) && ({
            let inst = old(registry).spec_instance(cpc_nvm3_handle);
            let txn1 = wrap_inc(inst.transaction_id);
            let fin = final(registry).spec_instance(cpc_nvm3_handle);
            &&& !inst.is_open() ==> (r matches Err(e) && err_code(e)
                == CpcNvm3ErrorCodes::CPC_NVM3_NOT_OPEN) && fin == (CpcNvm3Instance {
                transaction_id: txn1,
                ..inst
            })
            &&& inst.is_open() ==> ({
                let m = spec_enumerate_rounds(
                    inst.ep().rx_frames(),
                    inst.unique_id,
                    txn1,
                    Seq::empty(),
                );
                &&& inst_like(
                    fin,
                    inst,
                    txn1,
                    m.1,
                    inst.ep().tx_frames() + seq![
                        spec_enumerate_objects_frame(
                            inst.unique_id,
                            txn1,
                            old(cpc_nvm3_object_keys)@.len() as u16,
                        ),
                    ],
                )
                &&& match m.0 {
                    Ok(s) => if s.len() > old(cpc_nvm3_object_keys)@.len() * 4 {
                        r matches Err(e) && err_code(e)
                            == CpcNvm3ErrorCodes::CPC_NVM3_BUFFER_TOO_SMALL
                    } else if s.len() % 4 != 0 {
                        r matches Err(e) && err_code(e) == CpcNvm3ErrorCodes::CPC_NVM3_FAILURE
                    } else {
                        r is Ok && final(cpc_nvm3_object_keys)@ == spec_keys_of(s) + old(cpc_nvm3_object_keys)@.skip((s.len() / 4) as int) && *final(object_count) == s.len() / 4
                    },
                    Err(c) => r matches Err(e) && err_code(e) == c,
                }
            })
        }),
{
    let idx = match find_slot(registry, cpc_nvm3_handle) {
        Some(i) => i,
        None => {
            return Err(not_initialized());
        },
    };
    let mut inst = take_instance(registry, idx);
    let command = CmdEnumerateObjects::new(
        inst.unique_id,
        &mut inst.transaction_id,
        cpc_nvm3_object_keys.len() as u16,
    );
    match inst.cpc_endpoint.take() {
        None => {
            put_instance(registry, idx, inst);
            Err(not_open())
        },
        Some(mut ep) => {
            ep.write(command.serialize());
            let mut data: Vec<u8> = Vec::new();
            let rr = enumerate_rounds(&mut ep, inst.unique_id, inst.transaction_id, &mut data);
            inst.cpc_endpoint = Some(ep);
            put_instance(registry, idx, inst);
            match rr {
                Ok(_) => {
                    if data.len() > cpc_nvm3_object_keys.len() * CPC_NVM3_OBJECT_KEY_SIZE {
                        return Err(
                            CpcNvm3Error::ErrorCodeWithContext(
                                CpcNvm3ErrorCodes::CPC_NVM3_BUFFER_TOO_SMALL,
                                "list_objects failed, provided buffer is too small",
                            ),
                        );
                    }
                    let num_objects = data.len() / CPC_NVM3_OBJECT_KEY_SIZE;
                    if num_objects * CPC_NVM3_OBJECT_KEY_SIZE != data.len() {
                        return Err(
                            CpcNvm3Error::ErrorCodeWithContext(
                                CpcNvm3ErrorCodes::CPC_NVM3_FAILURE,
                                "The data length is not a multiple of the object size",
                            ),
                        );
                    }
                    let keys = extract_object_keys(data.as_slice());
                    proof {
                        lemma_keys_of_len(data@);
                    }
                    copy_prefix(cpc_nvm3_object_keys, &keys);
                    *object_count = num_objects as u16;
                    Ok(())
                },
                Err(e) => Err(e),
            }
        },
    }
}

/// The instance after a failed `open`: both caps cleared, the link
/// closed, the transaction counter wherever the handshake left it, the
/// unique id untouched.
pub open spec fn spec_open_failed(inst: CpcNvm3Instance, txn: u8) -> CpcNvm3Instance {
    CpcNvm3Instance {
        transaction_id: txn,
        maximum_write_fragment_size: None::<u16>,
        maximum_write_size: None::<u16>,
        cpc_endpoint: None::<Endpoint>,
        ..inst
    }
}

/// Opens an instance on the link the transport adapter brought up,
/// handed in with whatever frames have already arrived, and performs
/// the handshake: the read timeout is set to its default, the per-frame
/// payload cap is computed from the link's frame cap and the write
/// frame's fixed bytes, the remote's version is queried and its major
/// version must equal the host's, and the remote's maximum write size
/// is queried and recorded. On any failure both caps are cleared and
/// the instance stays closed.
pub fn open(
    registry: &mut CpcNvm3Registry,
    cpc_nvm3_handle: cpc_nvm3_handle_t,
    cpcd_instance_name: &str,
    enable_cpc_traces: bool,
    link: Endpoint,
) -> (r: Result<(), CpcNvm3Error>)
    requires
        old(registry).wf(),
    ensures
        final(registry).wf(),
        final(registry).others_unchanged(*old(registry), cpc_nvm3_handle),
        !old(registry).spec_contains(cpc_nvm3_handle) ==> (r matches Err(e) && err_code(e)
            == CpcNvm3ErrorCodes::CPC_NVM3_NOT_INITIALIZED) && final(registry).instances@ == old(registry).instances@,
        old(registry).spec_contains(cpc_nvm3_handle) ==> final(registry).spec_contains(
            cpc_nvm3_handle,
        ) && ({
            let inst = old(registry).spec_instance(cpc_nvm3_handle);
            let fin = final(registry).spec_instance(cpc_nvm3_handle);
            let uid = inst.unique_id;
            let t1 = wrap_inc(inst.transaction_id);
            let t2 = wrap_inc(t1);
            &&& inst.is_open() ==> (r matches Err(e) && err_code(e)
                == CpcNvm3ErrorCodes::CPC_NVM3_NOT_CLOSED) && fin == inst
            &&& !inst.is_open() && link.max_write_size < CMD_WRITE_DATA_OVERHEAD ==> (
            r matches Err(e) && err_code(e) == CpcNvm3ErrorCodes::CPC_NVM3_CPC_ENDPOINT_ERROR)
                && fin == spec_open_failed(inst, inst.transaction_id)
            &&& !inst.is_open() && link.max_write_size >= CMD_WRITE_DATA_OVERHEAD ==> ({
                let m1 = spec_wait_reply(ReplyKind::KindVersion, link.rx_frames(), uid, t1);
                match m1.0 {
                    Err(c) => (r matches Err(e) && err_code(e) == c) && fin == spec_open_failed(
                        inst,
                        t1,
                    ),
                    Ok(ReplySpec::Version(major, minor, patch)) => if major
                        != CPC_NVM3_MAJOR_VERSION {
                        (r matches Err(e) && err_code(e)
                            == CpcNvm3ErrorCodes::CPC_NVM3_INVALID_VERSION) && fin
                            == spec_open_failed(inst, t1)
                    } else {
                        let m2 = spec_wait_reply(ReplyKind::KindPropValue, m1.1, uid, t2);
                        match m2.0 {
                            Err(c) => (r matches Err(e) && err_code(e) == c) && fin
                                == spec_open_failed(inst, t2),
                            Ok(ReplySpec::Prop(PropertyValue::MaxWriteSize(v))) => r is Ok && ({
                                &&& fin.transaction_id == t2
                                &&& fin.unique_id == uid
                                &&& fin.maximum_write_fragment_size == Some(
                                    (link.max_write_size - CMD_WRITE_DATA_OVERHEAD) as u16,
                                )
                                &&& fin.maximum_write_size == Some(v)
                                &&& fin.is_open()
                                &&& fin.ep().rx_frames() == m2.1
                                &&& fin.ep().tx_frames() == link.tx_frames() + seq![
                                    spec_get_version_frame(uid, t1),
                                    spec_prop_value_get_frame(uid, t2, PropertyType::MaxWriteSize),
                                ]
                                &&& fin.ep().max_write_size == link.max_write_size
                                &&& fin.ep().timeout_seconds == CPC_NVM3_READ_TIMEOUT_S
                                &&& fin.ep().timeout_microseconds == 0
                            }),
                            Ok(ReplySpec::Prop(p)) => (r matches Err(e) && err_code(e)
                                == CpcNvm3ErrorCodes::CPC_NVM3_FAILURE) && fin == spec_open_failed(
                                inst,
                                t2,
                            ),
                            Ok(ReplySpec::Status(sc)) => (r matches Err(e) && err_code(e)
                                == CpcNvm3ErrorCodes::CPC_NVM3_FAILURE) && fin == spec_open_failed(
                                inst,
                                t2,
                            ),
                            Ok(p) => (r matches Err(e) && err_code(e)
                                == CpcNvm3ErrorCodes::CPC_NVM3_UNKNOWN_ERROR) && fin
                                == spec_open_failed(inst, t2),
                        }
                    },
                    Ok(v) => (r matches Err(e) && err_code(e)
                        == CpcNvm3ErrorCodes::CPC_NVM3_UNKNOWN_ERROR) && fin == spec_open_failed(
                        inst,
                        t1,
                    ),
                }
            })
        }),
{
    let idx = match find_slot(registry, cpc_nvm3_handle) {
        Some(i) => i,
        None => {
            return Err(not_initialized());
        },
    };
    let mut inst = take_instance(registry, idx);
    if inst.cpc_endpoint.is_some() {
        put_instance(registry, idx, inst);
        return Err(
            CpcNvm3Error::ErrorCodeWithContext(
                CpcNvm3ErrorCodes::CPC_NVM3_NOT_CLOSED,
                "Tried to open already opened instance",
            ),
        );
    }
    let unique_id = inst.unique_id;
    let mut ep = link;

    // The per-frame payload cap follows from the link's frame cap and
    // the fixed bytes of a write frame.
    if ep.max_write_size < CmdWriteData::get_overhead() {
        inst.maximum_write_fragment_size = None;
        inst.maximum_write_size = None;
        put_instance(registry, idx, inst);
        return Err(
            CpcNvm3Error::ErrorCodeWithContext(
                CpcNvm3ErrorCodes::CPC_NVM3_CPC_ENDPOINT_ERROR,
                "the link's frames cannot carry a write frame",
            ),
        );
    }
    let fragment_size = ep.max_write_size - CmdWriteData::get_overhead();
    inst.maximum_write_fragment_size = Some(fragment_size);

    // Configure the default read timeout on the link.
    ep.timeout_seconds = CPC_NVM3_READ_TIMEOUT_S;
    ep.timeout_microseconds = 0;

    // Query the remote's protocol version.
    let get_version_command = GetVersion::new(unique_id, &mut inst.transaction_id);
    ep.write(get_version_command.serialize());
    let version_response = get_response(&mut ep, ReplyKind::KindVersion, unique_id, inst.transaction_id);
    let secondary_major = match version_response {
        Ok(Reply::Version(major, _minor, _patch)) => major,
        Ok(_) => {
            inst.maximum_write_fragment_size = None;
            inst.maximum_write_size = None;
            put_instance(registry, idx, inst);
            return Err(
                CpcNvm3Error::ErrorCodeWithContext(
                    CpcNvm3ErrorCodes::CPC_NVM3_UNKNOWN_ERROR,
                    "the version handshake answered out of shape",
                ),
            );
        },
        Err(e) => {
            inst.maximum_write_fragment_size = None;
            inst.maximum_write_size = None;
            put_instance(registry, idx, inst);
            return Err(e);
        },
    };
    if secondary_major != CPC_NVM3_MAJOR_VERSION {
        inst.maximum_write_fragment_size = None;
        inst.maximum_write_size = None;
        put_instance(registry, idx, inst);
        return Err(
            CpcNvm3Error::ErrorCodeWithContext(
                CpcNvm3ErrorCodes::CPC_NVM3_INVALID_VERSION,
                "Major versions do not match",
            ),
        );
    }

    // Fetch the remote's maximum write size.
    let get_maximum_write_command = PropValueGet::new(
        unique_id,
        &mut inst.transaction_id,
        PropertyType::MaxWriteSize,
    );
    ep.write(get_maximum_write_command.serialize());
    let prop_response = get_response(&mut ep, ReplyKind::KindPropValue, unique_id, inst.transaction_id);
    match prop_response {
        Ok(Reply::Prop(PropertyValue::MaxWriteSize(value))) => {
            inst.maximum_write_size = Some(value);
        },
        Ok(Reply::Prop(_)) => {
            inst.maximum_write_fragment_size = None;
            inst.maximum_write_size = None;
            put_instance(registry, idx, inst);
            return Err(
                CpcNvm3Error::ErrorCodeWithContext(
                    CpcNvm3ErrorCodes::CPC_NVM3_FAILURE,
                    "Unexpected property value",
                ),
            );
        },
        Ok(Reply::Status(_)) => {
            inst.maximum_write_fragment_size = None;
            inst.maximum_write_size = None;
            put_instance(registry, idx, inst);
            return Err(
                CpcNvm3Error::ErrorCodeWithContext(
                    CpcNvm3ErrorCodes::CPC_NVM3_FAILURE,
                    "the write-size query answered with a status",
                ),
            );
        },
        Ok(_) => {
            inst.maximum_write_fragment_size = None;
            inst.maximum_write_size = None;
            put_instance(registry, idx, inst);
            return Err(
                CpcNvm3Error::ErrorCodeWithContext(
                    CpcNvm3ErrorCodes::CPC_NVM3_UNKNOWN_ERROR,
                    "the write-size handshake answered out of shape",
                ),
            );
        },
        Err(e) => {
            inst.maximum_write_fragment_size = None;
            inst.maximum_write_size = None;
            put_instance(registry, idx, inst);
            return Err(e);
        },
    }
    inst.cpc_endpoint = Some(ep);
    put_instance(registry, idx, inst);
    Ok(())
}



/// How the transport adapter categorizes a link fault: a read that ran
/// out of time, a fault a reconnect can heal (a reset, a broken pipe,
/// an interruption), or anything else.
#[derive(Debug, Clone, Copy, PartialEq, Eq, Structural)]
pub enum LinkErrorKind {
    WouldBlock,
    ReconnectEligible,
    Unrecoverable,
}

/// What a link fault surfaces as, as a specification: a timed-out read
/// and a healed connection both ask the caller to try again; everything
/// else is an endpoint error.
pub open spec fn spec_link_error_code(kind: LinkErrorKind, reconnected: bool) -> CpcNvm3ErrorCodes {
    match kind {
        LinkErrorKind::WouldBlock => CpcNvm3ErrorCodes::CPC_NVM3_TRY_AGAIN,
        LinkErrorKind::ReconnectEligible => if reconnected {
            CpcNvm3ErrorCodes::CPC_NVM3_TRY_AGAIN
        } else {
            CpcNvm3ErrorCodes::CPC_NVM3_CPC_ENDPOINT_ERROR
        },
        LinkErrorKind::Unrecoverable => CpcNvm3ErrorCodes::CPC_NVM3_CPC_ENDPOINT_ERROR,
    }
}

/// Decides what a fault of the real transport surfaces as.
/// `reconnected` reports whether the adapter's reconnect attempt, made
/// only for a reconnect-eligible fault, brought the link back; the
/// operation itself is never resubmitted here, the caller is asked to
/// try again on a fresh exchange.
pub fn classify_link_error(kind: LinkErrorKind, reconnected: bool) -> (r: CpcNvm3Error)
    ensures
        err_code(r) == spec_link_error_code(kind, reconnected),
{
    match kind {
        LinkErrorKind::WouldBlock => CpcNvm3Error::ErrorCodeWithContext(
            CpcNvm3ErrorCodes::CPC_NVM3_TRY_AGAIN,
            "CPC communication timed out, try again.",
        ),
        LinkErrorKind::ReconnectEligible => {
            if reconnected {
                CpcNvm3Error::ErrorCodeWithContext(
                    CpcNvm3ErrorCodes::CPC_NVM3_TRY_AGAIN,
                    "reconnected to the link, try again",
                )
            } else {
                CpcNvm3Error::ErrorCodeWithContext(
                    CpcNvm3ErrorCodes::CPC_NVM3_CPC_ENDPOINT_ERROR,
                    "the link could not be reconnected",
                )
            }
        },
        LinkErrorKind::Unrecoverable => CpcNvm3Error::ErrorCodeWithContext(
            CpcNvm3ErrorCodes::CPC_NVM3_CPC_ENDPOINT_ERROR,
            "the link encountered an unexpected error",
        ),
    }
}

} // verus!