//! Copying the pre-existing file's mode and ownership onto the staged file.
//!
//! A mode-copy failure is always fatal to `open`. An ownership-copy refusal
//! is swallowed exactly when the policy is best-effort and the caller is
//! unprivileged, because then the failure is expected and non-actionable.
//! A target that vanished between path resolution and inspection is a
//! benign race with a concurrent deleter: there is simply nothing to copy.

use vstd::prelude::*;

use crate::dir::Dir;
use crate::errors::OsError;
use crate::options::OpenOptions;
use crate::options::Preserve;
use crate::sys;
use crate::sys::FileAttributes;

verus! {

/// The exact swallow rule for a refused ownership change: a not-permitted
/// error is forgiven only under the best-effort policy and only for an
/// unprivileged caller; every other outcome passes through unchanged.
pub open spec fn ownership_outcome(
    result: Result<(), OsError>,
    preserve: Preserve,
    euid_is_root: bool,
) -> Result<(), OsError> {
    if result == Err::<(), OsError>(OsError::NotPermitted) && preserve is Try && !euid_is_root {
        Ok(())
    } else {
        result
    }
}

/// Applies [`ownership_outcome`] to the result of an ownership change.
pub fn maybe_ignore_eperm(result: Result<(), OsError>, preserve: Preserve, euid_is_root: bool) -> (r:
    Result<(), OsError>)
    ensures
        r == ownership_outcome(result, preserve, euid_is_root),
{
    match result {
        Err(OsError::NotPermitted) => match preserve {
            Preserve::Try => {
                if euid_is_root {
                    result
                } else {
                    Ok(())
                }
            },
            _ => result,
        },
        _ => result,
    }
}

/// What a stat of the copy source means for the copy: a source that
/// vanished between path resolution and inspection is a benign race with a
/// concurrent deleter, so there is simply nothing to copy; a successful
/// stat hands its attributes on; every other stat failure is fatal.
pub open spec fn stat_copy_outcome(s: Result<FileAttributes, OsError>) -> Result<
    Option<FileAttributes>,
    OsError,
> {
    match s {
        Ok(attrs) => Ok(Some(attrs)),
        Err(e) => if e == OsError::NotFound {
            Ok(None)
        } else {
            Err(e)
        },
    }
}

/// Applies [`stat_copy_outcome`] to the result of inspecting the copy
/// source.
pub fn stat_outcome(s: Result<FileAttributes, OsError>) -> (r: Result<
    Option<FileAttributes>,
    OsError,
>)
    ensures
        r == stat_copy_outcome(s),
{
    match s {
        Ok(attrs) => Ok(Some(attrs)),
        Err(OsError::NotFound) => Ok(None),
        Err(e) => Err(e),
    }
}

/// Reads the attributes of `copy_from` relative to `dir` and applies, as
/// the options ask, its permission bits and ownership to the staged file
/// open at `fd`. A vanished source is nothing to copy; a refused ownership
/// change is judged by [`ownership_outcome`].
pub(crate) fn copy_file_perms(dir: &Dir, copy_from: &Vec<u8>, fd: i32, opts: &OpenOptions) -> (r:
    Result<(), OsError>) {
    let attrs = match stat_outcome(sys::sys_stat_at(dir.as_raw_fd(), copy_from)) {
        Ok(None) => {
            return Ok(());
        },
        Ok(Some(attrs)) => attrs,
        Err(e) => {
            return Err(e);
        },
    };
    if opts.preserve_mode {
        match sys::sys_fchmod(fd, attrs.mode) {
            Ok(()) => (),
            Err(e) => {
                return Err(e);
            },
        }
    }
    if opts.preserve_owner.is_yes() {
        let euid_is_root = sys::sys_effective_user_is_root();
        let changed = sys::sys_fchown(fd, attrs.uid, attrs.gid);
        match maybe_ignore_eperm(changed, opts.preserve_owner, euid_is_root) {
            Ok(()) => (),
            Err(e) => {
                return Err(e);
            },
        }
    }
    Ok(())
}

} // verus!
