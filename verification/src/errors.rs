//! The error surface of the engine.
//!
//! Every operating-system failure is reported as an [`OsError`]. The engine
//! inspects only a handful of well-known conditions (a name collision, a
//! missing file, a refused ownership change, an unsupported creation flag);
//! everything else is carried through unchanged as a raw error code.

use vstd::prelude::*;

verus! {

/// The error code numbers of the Linux ABI that the engine's logic reads,
/// as errno(3) lists them.
pub const CODE_NOT_PERMITTED: i32 = 1;

pub const CODE_NOT_FOUND: i32 = 2;

pub const CODE_ALREADY_EXISTS: i32 = 17;

pub const CODE_IS_A_DIRECTORY: i32 = 21;

pub const CODE_NOT_SUPPORTED: i32 = 95;

/// A typed operating-system failure.
///
/// The named variants are the conditions the engine reacts to; any other
/// error code is preserved in `Other`. `WriteZero` is not an operating-system
/// code: it reports a write call that made no progress.
#[derive(Clone, Copy, Debug, PartialEq, Eq, Structural)]
pub enum OsError {
    /// The operation was not permitted (ownership changes by an unprivileged user).
    NotPermitted,
    /// The file does not exist (a benign race with a concurrent deleter).
    NotFound,
    /// The name already exists (a staging-name collision, retried transparently).
    AlreadyExists,
    /// The path names a directory, or has no usable file-name component.
    IsADirectory,
    /// The filesystem does not support the requested operation
    /// (anonymous temporary files on some filesystems).
    NotSupported,
    /// A write call reported no progress.
    WriteZero,
    /// Any other error code, kept verbatim.
    Other(i32),
}

/// The classification every raw error code receives.
pub open spec fn error_for_code(code: int) -> OsError {
    if code == CODE_NOT_PERMITTED as int {
        OsError::NotPermitted
    } else if code == CODE_NOT_FOUND as int {
        OsError::NotFound
    } else if code == CODE_ALREADY_EXISTS as int {
        OsError::AlreadyExists
    } else if code == CODE_IS_A_DIRECTORY as int {
        OsError::IsADirectory
    } else if code == CODE_NOT_SUPPORTED as int {
        OsError::NotSupported
    } else {
        OsError::Other(code as i32)
    }
}

/// Classifies a raw error code.
pub fn error_from_code(code: i32) -> (r: OsError)
    ensures
        r == error_for_code(code as int),
{
    if code == CODE_NOT_PERMITTED {
        OsError::NotPermitted
    } else if code == CODE_NOT_FOUND {
        OsError::NotFound
    } else if code == CODE_ALREADY_EXISTS {
        OsError::AlreadyExists
    } else if code == CODE_IS_A_DIRECTORY {
        OsError::IsADirectory
    } else if code == CODE_NOT_SUPPORTED {
        OsError::NotSupported
    } else {
        OsError::Other(code)
    }
}

} // verus!
