//! Host-side client for a remote co-processor's non-volatile storage (NVM3)
//! service, reached over a packetized in-order datagram link.
//!
//! The crate is organised as the protocol goes:
//! - [`protocol`] holds the wire codec: the packed little-endian frame
//!   header, the request builders and the response parsers, each proved
//!   byte-exact against its specification;
//! - [`nvm3`] holds the instance engine (transaction counters, response
//!   matching, fragmentation and reassembly) and the registry of open
//!   instances.

use vstd::prelude::*;

pub mod protocol;
pub mod nvm3;
pub mod laws;

verus! {

/// Stable result codes of the public operations. Every operation reports
/// exactly one of these; [`CpcNvm3ErrorCodes::code`] gives the negative
/// integer each stands for at the foreign interface.
#[derive(Debug, Clone, Copy, PartialEq, Eq, Structural)]
#[allow(non_camel_case_types)]
pub enum CpcNvm3ErrorCodes {
    /// Generic failure: the remote reported a plain failure or a frame
    /// failed protocol-level validation.
    CPC_NVM3_FAILURE,
    /// The handle does not name a live instance.
    CPC_NVM3_NOT_INITIALIZED,
    /// The operation needs an open instance and the instance is closed.
    CPC_NVM3_NOT_OPEN,
    /// The operation needs a closed instance and the instance is open.
    CPC_NVM3_NOT_CLOSED,
    /// A status code outside the recognized sets came back.
    CPC_NVM3_UNKNOWN_ERROR,
    /// An argument was rejected before anything was sent.
    CPC_NVM3_INVALID_ARG,
    /// The remote speaks another major protocol version.
    CPC_NVM3_INVALID_VERSION,
    /// The remote rejected the object key.
    CPC_NVM3_INVALID_OBJECT_KEY,
    /// Transient condition (timeout, remote busy, fresh reconnect): the
    /// caller should submit the operation again.
    CPC_NVM3_TRY_AGAIN,
    /// The link failed in a way that is not recoverable here.
    CPC_NVM3_CPC_ENDPOINT_ERROR,
    /// The caller's buffer cannot hold what the remote returned.
    CPC_NVM3_BUFFER_TOO_SMALL,
}

impl CpcNvm3ErrorCodes {
    /// The negative integer this code stands for at the foreign interface.
    pub fn code(self) -> (r: i32)
        ensures
            r == self.spec_code(),
    {
        match self {
            CpcNvm3ErrorCodes::CPC_NVM3_FAILURE => -1,
            CpcNvm3ErrorCodes::CPC_NVM3_NOT_INITIALIZED => -2,
            CpcNvm3ErrorCodes::CPC_NVM3_NOT_OPEN => -3,
            CpcNvm3ErrorCodes::CPC_NVM3_NOT_CLOSED => -4,
            CpcNvm3ErrorCodes::CPC_NVM3_UNKNOWN_ERROR => -5,
            CpcNvm3ErrorCodes::CPC_NVM3_INVALID_ARG => -6,
            CpcNvm3ErrorCodes::CPC_NVM3_INVALID_VERSION => -7,
            CpcNvm3ErrorCodes::CPC_NVM3_INVALID_OBJECT_KEY => -8,
            CpcNvm3ErrorCodes::CPC_NVM3_TRY_AGAIN => -9,
            CpcNvm3ErrorCodes::CPC_NVM3_CPC_ENDPOINT_ERROR => -10,
            CpcNvm3ErrorCodes::CPC_NVM3_BUFFER_TOO_SMALL => -11,
        }
    }

    /// What [`CpcNvm3ErrorCodes::code`] returns, as a specification.
    pub open spec fn spec_code(self) -> i32 {
        match self {
            CpcNvm3ErrorCodes::CPC_NVM3_FAILURE => -1i32,
            CpcNvm3ErrorCodes::CPC_NVM3_NOT_INITIALIZED => -2i32,
            CpcNvm3ErrorCodes::CPC_NVM3_NOT_OPEN => -3i32,
            CpcNvm3ErrorCodes::CPC_NVM3_NOT_CLOSED => -4i32,
            CpcNvm3ErrorCodes::CPC_NVM3_UNKNOWN_ERROR => -5i32,
            CpcNvm3ErrorCodes::CPC_NVM3_INVALID_ARG => -6i32,
            CpcNvm3ErrorCodes::CPC_NVM3_INVALID_VERSION => -7i32,
            CpcNvm3ErrorCodes::CPC_NVM3_INVALID_OBJECT_KEY => -8i32,
            CpcNvm3ErrorCodes::CPC_NVM3_TRY_AGAIN => -9i32,
            CpcNvm3ErrorCodes::CPC_NVM3_CPC_ENDPOINT_ERROR => -10i32,
            CpcNvm3ErrorCodes::CPC_NVM3_BUFFER_TOO_SMALL => -11i32,
        }
    }
}

/// Kind of a stored object, as the remote reports it in an object-info
/// response (0 encodes a data object, 1 a counter, anything else is unknown).
#[derive(Debug, Clone, Copy, PartialEq, Eq, Structural)]
#[allow(non_camel_case_types)]
pub enum CpcNvm3ObjectType {
    /// The object is a counter.
    CPC_NVM3_OBJECT_TYPE_COUNTER,
    /// The object is a data object.
    CPC_NVM3_OBJECT_TYPE_DATA,
    /// The object's type byte is outside the recognized encoding.
    CPC_NVM3_OBJECT_TYPE_UNKNOWN,
}

impl CpcNvm3ObjectType {
    /// Decodes the wire type byte of an object-info response.
    pub fn from_wire(value: u8) -> (r: Self)
        ensures
            r == Self::spec_from_wire(value),
    {
        match value {
            0 => CpcNvm3ObjectType::CPC_NVM3_OBJECT_TYPE_DATA,
            1 => CpcNvm3ObjectType::CPC_NVM3_OBJECT_TYPE_COUNTER,
            _ => CpcNvm3ObjectType::CPC_NVM3_OBJECT_TYPE_UNKNOWN,
        }
    }

    /// What [`CpcNvm3ObjectType::from_wire`] returns, as a specification.
    pub open spec fn spec_from_wire(value: u8) -> Self {
        if value == 0 {
            CpcNvm3ObjectType::CPC_NVM3_OBJECT_TYPE_DATA
        } else if value == 1 {
            CpcNvm3ObjectType::CPC_NVM3_OBJECT_TYPE_COUNTER
        } else {
            CpcNvm3ObjectType::CPC_NVM3_OBJECT_TYPE_UNKNOWN
        }
    }

    /// Short name of the variant, for messages.
    pub fn as_str(self) -> &'static str {
        match self {
            CpcNvm3ObjectType::CPC_NVM3_OBJECT_TYPE_COUNTER => "COUNTER",
            CpcNvm3ObjectType::CPC_NVM3_OBJECT_TYPE_DATA => "DATA",
            CpcNvm3ObjectType::CPC_NVM3_OBJECT_TYPE_UNKNOWN => "UNKNOWN",
        }
    }
}

/// Verbosity levels of the library's logger. The logger itself is I/O
/// plumbing and lives outside the verified core; the level only rides along.
#[derive(Debug, Clone, Copy, PartialEq, Eq, Structural)]
#[allow(non_camel_case_types)]
pub enum CpcNvm3LogLevel {
    CPC_NVM3_LOG_OFF,
    CPC_NVM3_LOG_ERROR,
    CPC_NVM3_LOG_WARNING,
    CPC_NVM3_LOG_INFO,
    CPC_NVM3_LOG_DEBUG,
    CPC_NVM3_LOG_TRACE,
}

} // verus!
