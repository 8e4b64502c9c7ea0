//! Error taxonomy: native return codes are mapped into a structured error
//! with a kind (the fixed table of TEE client return codes) and an origin
//! (which layer produced the code).

use vstd::prelude::*;

verus! {

/// Native return code meaning success.
pub const TEEC_SUCCESS: u32 = 0;

pub const TEEC_ERROR_GENERIC: u32 = 0xFFFF0000;
pub const TEEC_ERROR_ACCESS_DENIED: u32 = 0xFFFF0001;
pub const TEEC_ERROR_CANCEL: u32 = 0xFFFF0002;
pub const TEEC_ERROR_ACCESS_CONFLICT: u32 = 0xFFFF0003;
pub const TEEC_ERROR_EXCESS_DATA: u32 = 0xFFFF0004;
pub const TEEC_ERROR_BAD_FORMAT: u32 = 0xFFFF0005;
pub const TEEC_ERROR_BAD_PARAMETERS: u32 = 0xFFFF0006;
pub const TEEC_ERROR_BAD_STATE: u32 = 0xFFFF0007;
pub const TEEC_ERROR_ITEM_NOT_FOUND: u32 = 0xFFFF0008;
pub const TEEC_ERROR_NOT_IMPLEMENTED: u32 = 0xFFFF0009;
pub const TEEC_ERROR_NOT_SUPPORTED: u32 = 0xFFFF000A;
pub const TEEC_ERROR_NO_DATA: u32 = 0xFFFF000B;
pub const TEEC_ERROR_OUT_OF_MEMORY: u32 = 0xFFFF000C;
pub const TEEC_ERROR_BUSY: u32 = 0xFFFF000D;
pub const TEEC_ERROR_COMMUNICATION: u32 = 0xFFFF000E;
pub const TEEC_ERROR_SECURITY: u32 = 0xFFFF000F;
pub const TEEC_ERROR_SHORT_BUFFER: u32 = 0xFFFF0010;
pub const TEEC_ERROR_EXTERNAL_CANCEL: u32 = 0xFFFF0011;
pub const TEEC_ERROR_TARGET_DEAD: u32 = 0xFFFF3024;

pub const TEEC_ORIGIN_API: u32 = 1;
pub const TEEC_ORIGIN_COMMS: u32 = 2;
pub const TEEC_ORIGIN_TEE: u32 = 3;
pub const TEEC_ORIGIN_TRUSTED_APP: u32 = 4;

/// The fixed table of TEE client return-code discriminants.
#[derive(Clone, Copy, Debug, PartialEq, Eq, Structural)]
pub enum ErrorKind {
    Generic,
    AccessDenied,
    Cancel,
    AccessConflict,
    ExcessData,
    BadFormat,
    BadParameters,
    BadState,
    ItemNotFound,
    NotImplemented,
    NotSupported,
    NoData,
    OutOfMemory,
    Busy,
    Communication,
    Security,
    ShortBuffer,
    ExternalCancel,
    TargetDead,
}

/// Which layer produced an error code.
#[derive(Clone, Copy, Debug, PartialEq, Eq, Structural)]
pub enum ErrorOrigin {
    Api,
    Comms,
    Tee,
    TrustedApp,
}

/// The table mapping a native return code to its discriminant; any code
/// outside the table falls back to the generic failure.
pub open spec fn spec_kind_from_raw(code: u32) -> ErrorKind {
    if code == TEEC_ERROR_GENERIC {
        ErrorKind::Generic
    } else if code == TEEC_ERROR_ACCESS_DENIED {
        ErrorKind::AccessDenied
    } else if code == TEEC_ERROR_CANCEL {
        ErrorKind::Cancel
    } else if code == TEEC_ERROR_ACCESS_CONFLICT {
        ErrorKind::AccessConflict
    } else if code == TEEC_ERROR_EXCESS_DATA {
        ErrorKind::ExcessData
    } else if code == TEEC_ERROR_BAD_FORMAT {
        ErrorKind::BadFormat
    } else if code == TEEC_ERROR_BAD_PARAMETERS {
        ErrorKind::BadParameters
    } else if code == TEEC_ERROR_BAD_STATE {
        ErrorKind::BadState
    } else if code == TEEC_ERROR_ITEM_NOT_FOUND {
        ErrorKind::ItemNotFound
    } else if code == TEEC_ERROR_NOT_IMPLEMENTED {
        ErrorKind::NotImplemented
    } else if code == TEEC_ERROR_NOT_SUPPORTED {
        ErrorKind::NotSupported
    } else if code == TEEC_ERROR_NO_DATA {
        ErrorKind::NoData
    } else if code == TEEC_ERROR_OUT_OF_MEMORY {
        ErrorKind::OutOfMemory
    } else if code == TEEC_ERROR_BUSY {
        ErrorKind::Busy
    } else if code == TEEC_ERROR_COMMUNICATION {
        ErrorKind::Communication
    } else if code == TEEC_ERROR_SECURITY {
        ErrorKind::Security
    } else if code == TEEC_ERROR_SHORT_BUFFER {
        ErrorKind::ShortBuffer
    } else if code == TEEC_ERROR_EXTERNAL_CANCEL {
        ErrorKind::ExternalCancel
    } else if code == TEEC_ERROR_TARGET_DEAD {
        ErrorKind::TargetDead
    } else {
        ErrorKind::Generic
    }
}

/// The table mapping a native origin code to its discriminant; any code
/// outside the table is attributed to the client API layer.
pub open spec fn spec_origin_from_raw(origin: u32) -> ErrorOrigin {
    if origin == TEEC_ORIGIN_API {
        ErrorOrigin::Api
    } else if origin == TEEC_ORIGIN_COMMS {
        ErrorOrigin::Comms
    } else if origin == TEEC_ORIGIN_TEE {
        ErrorOrigin::Tee
    } else if origin == TEEC_ORIGIN_TRUSTED_APP {
        ErrorOrigin::TrustedApp
    } else {
        ErrorOrigin::Api
    }
}

impl ErrorKind {
    /// Maps a native return code into the fixed table; every unmapped code
    /// yields the generic-failure discriminant, never a panic.
    pub fn from_raw(code: u32) -> (r: ErrorKind)
        ensures
            r == spec_kind_from_raw(code),
    {
        if code == TEEC_ERROR_GENERIC {
            ErrorKind::Generic
        } else if code == TEEC_ERROR_ACCESS_DENIED {
            ErrorKind::AccessDenied
        } else if code == TEEC_ERROR_CANCEL {
            ErrorKind::Cancel
        } else if code == TEEC_ERROR_ACCESS_CONFLICT {
            ErrorKind::AccessConflict
        } else if code == TEEC_ERROR_EXCESS_DATA {
            ErrorKind::ExcessData
        } else if code == TEEC_ERROR_BAD_FORMAT {
            ErrorKind::BadFormat
        } else if code == TEEC_ERROR_BAD_PARAMETERS {
            ErrorKind::BadParameters
        } else if code == TEEC_ERROR_BAD_STATE {
            ErrorKind::BadState
        } else if code == TEEC_ERROR_ITEM_NOT_FOUND {
            ErrorKind::ItemNotFound
        } else if code == TEEC_ERROR_NOT_IMPLEMENTED {
            ErrorKind::NotImplemented
        } else if code == TEEC_ERROR_NOT_SUPPORTED {
            ErrorKind::NotSupported
        } else if code == TEEC_ERROR_NO_DATA {
            ErrorKind::NoData
        } else if code == TEEC_ERROR_OUT_OF_MEMORY {
            ErrorKind::OutOfMemory
        } else if code == TEEC_ERROR_BUSY {
            ErrorKind::Busy
        } else if code == TEEC_ERROR_COMMUNICATION {
            ErrorKind::Communication
        } else if code == TEEC_ERROR_SECURITY {
            ErrorKind::Security
        } else if code == TEEC_ERROR_SHORT_BUFFER {
            ErrorKind::ShortBuffer
        } else if code == TEEC_ERROR_EXTERNAL_CANCEL {
            ErrorKind::ExternalCancel
        } else if code == TEEC_ERROR_TARGET_DEAD {
            ErrorKind::TargetDead
        } else {
            ErrorKind::Generic
        }
    }
}

impl ErrorOrigin {
    /// Maps a native origin code into the fixed table of origins.
    pub fn from_raw(origin: u32) -> (r: ErrorOrigin)
        ensures
            r == spec_origin_from_raw(origin),
    {
        if origin == TEEC_ORIGIN_API {
            ErrorOrigin::Api
        } else if origin == TEEC_ORIGIN_COMMS {
            ErrorOrigin::Comms
        } else if origin == TEEC_ORIGIN_TEE {
            ErrorOrigin::Tee
        } else if origin == TEEC_ORIGIN_TRUSTED_APP {
            ErrorOrigin::TrustedApp
        } else {
            ErrorOrigin::Api
        }
    }
}

/// A structured error: connection establishment failed, a session request
/// failed with a native code and origin, identifier text or bytes were
/// malformed, or plugin output could not be marshaled.
#[derive(Clone, Copy, Debug, PartialEq, Eq, Structural)]
pub enum Error {
    ConnectionError { code: u32 },
    SessionError { kind: ErrorKind, origin: ErrorOrigin },
    ParseError,
    MarshalError,
}

impl Error {
    /// Builds the structured session error for a native return code and the
    /// origin reported beside it.
    pub fn from_raw_error(code: u32, origin: u32) -> (r: Error)
        ensures
            r == (Error::SessionError {
                kind: spec_kind_from_raw(code),
                origin: spec_origin_from_raw(origin),
            }),
    {
        Error::SessionError { kind: ErrorKind::from_raw(code), origin: ErrorOrigin::from_raw(origin) }
    }
}

pub type Result<T> = core::result::Result<T, Error>;

} // verus!
