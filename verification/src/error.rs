//! The error taxonomy of the access layer and the translation of raw engine
//! codes into it.

use vstd::prelude::*;

verus! {

/// A raw failure code, exactly as the archive engine left it.
#[derive(Debug, Clone, Copy, PartialEq, Eq, Structural)]
pub struct ErrorCode(pub u32);

pub const ERROR_ACCESS_DENIED: u32 = 1;

pub const ERROR_FILE_NOT_FOUND: u32 = 2;

pub const ERROR_INVALID_HANDLE: u32 = 9;

pub const ERROR_NOT_ENOUGH_MEMORY: u32 = 12;

pub const ERROR_ALREADY_EXISTS: u32 = 17;

pub const ERROR_INVALID_PARAMETER: u32 = 22;

pub const ERROR_DISK_FULL: u32 = 28;

pub const ERROR_NOT_SUPPORTED: u32 = 95;

pub const ERROR_INSUFFICIENT_BUFFER: u32 = 105;

pub const ERROR_BAD_FORMAT: u32 = 1000;

pub const ERROR_NO_MORE_FILES: u32 = 1001;

pub const ERROR_HANDLE_EOF: u32 = 1002;

pub const ERROR_CAN_NOT_COMPLETE: u32 = 1003;

pub const ERROR_FILE_CORRUPT: u32 = 1004;

/// Everything an operation of the access layer can fail with.
///
/// The first fourteen kinds mirror the engine's own failure codes one to one,
/// `UnknownCode` keeps a code the layer has no kind for, and the last two are
/// raised by the layer itself before the engine is ever asked.
#[derive(Debug, Clone, Copy, PartialEq, Eq, Structural)]
pub enum StormError {
    FileNotFound,
    AccessDenied,
    InvalidHandle,
    NotEnoughMemory,
    NotSupported,
    InvalidParameter,
    DiskFull,
    AlreadyExists,
    InsufficientBuffer,
    BadFormat,
    NoMoreFiles,
    HandleEof,
    CanNotComplete,
    FileCorrupt,
    /// A code without a kind of its own; the raw value is kept as it came.
    UnknownCode(ErrorCode),
    /// The path cannot be written in the encoding the host platform asks
    /// for, or holds a terminator before its end.
    PathEncoding,
    /// A string argument other than a path, such as the name of an entry,
    /// holds a terminator.
    InteriorNul,
}

/// The kind that stands for a raw engine code.
pub open spec fn translate(code: u32) -> StormError {
    if code == ERROR_FILE_NOT_FOUND {
        StormError::FileNotFound
    } else if code == ERROR_ACCESS_DENIED {
        StormError::AccessDenied
    } else if code == ERROR_INVALID_HANDLE {
        StormError::InvalidHandle
    } else if code == ERROR_NOT_ENOUGH_MEMORY {
        StormError::NotEnoughMemory
    } else if code == ERROR_NOT_SUPPORTED {
        StormError::NotSupported
    } else if code == ERROR_INVALID_PARAMETER {
        StormError::InvalidParameter
    } else if code == ERROR_DISK_FULL {
        StormError::DiskFull
    } else if code == ERROR_ALREADY_EXISTS {
        StormError::AlreadyExists
    } else if code == ERROR_INSUFFICIENT_BUFFER {
        StormError::InsufficientBuffer
    } else if code == ERROR_BAD_FORMAT {
        StormError::BadFormat
    } else if code == ERROR_NO_MORE_FILES {
        StormError::NoMoreFiles
    } else if code == ERROR_HANDLE_EOF {
        StormError::HandleEof
    } else if code == ERROR_CAN_NOT_COMPLETE {
        StormError::CanNotComplete
    } else if code == ERROR_FILE_CORRUPT {
        StormError::FileCorrupt
    } else {
        StormError::UnknownCode(ErrorCode(code))
    }
}

/// Whether the engine has a kind of its own for `code`.
pub open spec fn is_known_code(code: u32) -> bool {
    code == ERROR_FILE_NOT_FOUND || code == ERROR_ACCESS_DENIED || code == ERROR_INVALID_HANDLE
        || code == ERROR_NOT_ENOUGH_MEMORY || code == ERROR_NOT_SUPPORTED || code
        == ERROR_INVALID_PARAMETER || code == ERROR_DISK_FULL || code == ERROR_ALREADY_EXISTS
        || code == ERROR_INSUFFICIENT_BUFFER || code == ERROR_BAD_FORMAT || code
        == ERROR_NO_MORE_FILES || code == ERROR_HANDLE_EOF || code == ERROR_CAN_NOT_COMPLETE
        || code == ERROR_FILE_CORRUPT
}

impl From<ErrorCode> for StormError {
    fn from(code: ErrorCode) -> (kind: StormError) {
        match code.0 {
            ERROR_FILE_NOT_FOUND => StormError::FileNotFound,
            ERROR_ACCESS_DENIED => StormError::AccessDenied,
            ERROR_INVALID_HANDLE => StormError::InvalidHandle,
            ERROR_NOT_ENOUGH_MEMORY => StormError::NotEnoughMemory,
            ERROR_NOT_SUPPORTED => StormError::NotSupported,
            ERROR_INVALID_PARAMETER => StormError::InvalidParameter,
            ERROR_DISK_FULL => StormError::DiskFull,
            ERROR_ALREADY_EXISTS => StormError::AlreadyExists,
            ERROR_INSUFFICIENT_BUFFER => StormError::InsufficientBuffer,
            ERROR_BAD_FORMAT => StormError::BadFormat,
            ERROR_NO_MORE_FILES => StormError::NoMoreFiles,
            ERROR_HANDLE_EOF => StormError::HandleEof,
            ERROR_CAN_NOT_COMPLETE => StormError::CanNotComplete,
            ERROR_FILE_CORRUPT => StormError::FileCorrupt,
            other => StormError::UnknownCode(ErrorCode(other)),
        }
    }
}

impl vstd::std_specs::convert::FromSpecImpl<ErrorCode> for StormError {
    open spec fn obeys_from_spec() -> bool {
        true
    }

    open spec fn from_spec(code: ErrorCode) -> StormError {
        translate(code.0)
    }
}

impl StormError {
    /// The raw engine code this kind stands for, if it stands for one.
    pub open spec fn raw_code(self) -> Option<u32> {
        match self {
            StormError::FileNotFound => Some(ERROR_FILE_NOT_FOUND),
            StormError::AccessDenied => Some(ERROR_ACCESS_DENIED),
            StormError::InvalidHandle => Some(ERROR_INVALID_HANDLE),
            StormError::NotEnoughMemory => Some(ERROR_NOT_ENOUGH_MEMORY),
            StormError::NotSupported => Some(ERROR_NOT_SUPPORTED),
            StormError::InvalidParameter => Some(ERROR_INVALID_PARAMETER),
            StormError::DiskFull => Some(ERROR_DISK_FULL),
            StormError::AlreadyExists => Some(ERROR_ALREADY_EXISTS),
            StormError::InsufficientBuffer => Some(ERROR_INSUFFICIENT_BUFFER),
            StormError::BadFormat => Some(ERROR_BAD_FORMAT),
            StormError::NoMoreFiles => Some(ERROR_NO_MORE_FILES),
            StormError::HandleEof => Some(ERROR_HANDLE_EOF),
            StormError::CanNotComplete => Some(ERROR_CAN_NOT_COMPLETE),
            StormError::FileCorrupt => Some(ERROR_FILE_CORRUPT),
            StormError::UnknownCode(code) => Some(code.0),
            StormError::PathEncoding => None,
            StormError::InteriorNul => None,
        }
    }
}

/// Translation loses nothing: the raw code can be read back from the kind it
/// was translated to, so two different codes never share a kind, and a code
/// without a kind of its own is carried along unchanged.
pub proof fn lemma_translate_keeps_code(code: u32)
    ensures
        translate(code).raw_code() == Some(code),
        !is_known_code(code) ==> translate(code) == StormError::UnknownCode(ErrorCode(code)),
        is_known_code(code) ==> !(translate(code) is UnknownCode),
        !(translate(code) is PathEncoding),
        !(translate(code) is InteriorNul),
{
}

} // verus!
