//! The open directory descriptor that anchors one atomic-write operation.
//!
//! Every create, link, rename and unlink the engine issues for a staging
//! file is relative to this descriptor, never a fresh path lookup, so a
//! rename or replacement of the parent directory mid-operation cannot
//! redirect the operation elsewhere.

use vstd::prelude::*;

use crate::errors::OsError;
use crate::sys;

verus! {

/// An exclusively owned open directory descriptor. The only mutation it
/// supports is being closed when dropped; namespace operations merely name
/// it as their relative base.
#[derive(Debug)]
pub struct Dir {
    fd: i32,
}

impl Dir {
    /// The descriptor number.
    pub closed spec fn fd_spec(&self) -> int {
        self.fd as int
    }

    /// Opens `path` as a directory, with close-on-exec semantics, failing
    /// with the error the operating system reports when it is absent or not
    /// a directory.
    pub fn open(path: &Vec<u8>) -> (r: Result<Dir, OsError>)
        ensures
            r is Ok ==> r->Ok_0.fd_spec() >= 0,
    {
        let flags = sys::FLAG_DIRECTORY | sys::FLAG_CLOSE_ON_EXEC;
        match sys::sys_open(path, flags, 0) {
            Ok(fd) => Ok(Dir { fd }),
            Err(e) => Err(e),
        }
    }

    /// The raw descriptor number, for callers that want to issue their own
    /// directory operations, such as syncing the directory entry after a
    /// commit.
    pub fn as_raw_fd(&self) -> (r: i32)
        ensures
            r as int == self.fd_spec(),
        opens_invariants none
        no_unwind
    {
        self.fd
    }
}

impl Drop for Dir {
    /// Closes the descriptor; a failure to close is ignored, as nothing can
    /// be done about it here.
    fn drop(&mut self)
        opens_invariants none
        no_unwind
    {
        let _ = sys::sys_close(self.fd);
    }
}

/// A borrowed, read-only capability to the directory holding an in-progress
/// atomic write.
///
/// It exposes only the raw descriptor, so a caller can, for example, fsync
/// the directory itself to make the committed rename entry durable — the
/// engine never does that implicitly, since entry durability is the
/// caller's policy decision.
#[derive(Clone, Copy, Debug)]
pub struct Directory<'a> {
    inner: &'a Dir,
}

impl<'a> Directory<'a> {
    /// The descriptor number of the borrowed directory.
    pub closed spec fn fd_spec(&self) -> int {
        self.inner.fd_spec()
    }

    /// Wraps a borrowed directory handle.
    pub fn new(inner: &'a Dir) -> (r: Directory<'a>)
        ensures
            r.fd_spec() == inner.fd_spec(),
    {
        Directory { inner }
    }

    /// The raw descriptor number of the borrowed directory.
    pub fn as_raw_fd(&self) -> (r: i32)
        ensures
            r as int == self.fd_spec(),
    {
        self.inner.as_raw_fd()
    }
}

} // verus!
