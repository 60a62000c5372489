//! Atomic, crash-consistent replacement of a file's contents.
//!
//! Callers write to a private staging file and a single atomic rename makes
//! the new content visible under the target name. A reader that opens the
//! target path concurrently sees either the complete old content or the
//! complete new content, never a mixture; a crash before commit leaves the
//! target untouched.

use vstd::prelude::*;
use vstd::string::StringSliceAdditionalSpecFns;

pub mod dir;
pub mod errors;
pub mod name;
pub mod options;
pub mod path;
pub mod perms;
pub mod staging;
mod sys;

pub use dir::Directory;
pub use errors::OsError;
pub use options::OpenOptions;
pub use options::Preserve;
pub use staging::TemporaryFile;
pub use sys::FileAttributes;

use crate::path::file_part;
use crate::path::trimmed;
use crate::path::is_valid_file_name;

verus! {

/// The synchronous atomic-write handle: one staging file, plus the rule
/// that commit, discard and the drop-time safety net finalize it at most
/// once between them.
///
/// While the handle is open, reads, writes and seeks go straight to the
/// staged descriptor and are invisible at the target path; `commit` makes
/// them visible in one atomic step, `discard` (or dropping the handle)
/// throws them away.
#[derive(Debug)]
pub struct AtomicWriteFile {
    inner: Option<TemporaryFile>,
}

impl View for AtomicWriteFile {
    type V = Option<TemporaryFile>;

    /// The staging file still owned, or nothing once finalized.
    closed spec fn view(&self) -> Option<TemporaryFile> {
        self.inner
    }
}

impl AtomicWriteFile {
    /// A usable handle: if it still owns a staging file, that staging file
    /// is well formed.
    pub open spec fn wf(&self) -> bool {
        self@ is Some ==> self@->0.wf()
    }

    /// Opens an atomic write handle for `path` under the default options.
    pub fn open(path: &str) -> (r: Result<AtomicWriteFile, OsError>)
        requires
            path.spec_bytes().len() + 8 <= usize::MAX,
        ensures
            r is Ok ==> r->Ok_0.wf() && r->Ok_0@ is Some && r->Ok_0@->0.base_name() == file_part(
                trimmed(path.spec_bytes()),
            ),
            !is_valid_file_name(file_part(trimmed(path.spec_bytes()))) ==> r == Err::<
                AtomicWriteFile,
                OsError,
            >(OsError::IsADirectory),
    {
        AtomicWriteFile::options().open(path)
    }

    /// The default options, ready to be adjusted and then opened.
    pub fn options() -> (r: OpenOptions)
        ensures
            r.read == false,
            r.mode == 0o666u32,
            r.custom_flags == 0i32,
            r.preserve_mode == true,
            r.preserve_owner is Try,
    {
        OpenOptions::new()
    }

    /// Wraps an already-created staging file in a fresh, unfinalized
    /// handle.
    pub fn from_temporary_file(temporary_file: TemporaryFile) -> (r: AtomicWriteFile)
        requires
            temporary_file.wf(),
        ensures
            r.wf(),
            r@ == Some(temporary_file),
    {
        AtomicWriteFile { inner: Some(temporary_file) }
    }

    /// Moves the staging file out, leaving the handle finalized so that its
    /// drop-time safety net is a no-op: this is how another wrapper takes
    /// over an in-progress write without the transfer discarding it.
    pub fn into_temporary_file(self) -> (r: TemporaryFile)
        requires
            self.wf(),
            self@ is Some,
        ensures
            r == self@->0,
    {
        let mut this = self;
        match this.inner.take() {
            Some(tf) => tf,
            None => vstd::pervasive::unreached(),
        }
    }

    /// A borrowed, read-only capability to the directory holding the
    /// staging file, so the caller can, for example, fsync the directory
    /// entry after a commit; absent once the handle is finalized.
    pub fn directory(&self) -> (r: Option<Directory<'_>>)
        ensures
            (r is Some) == (self@ is Some),
            r is Some ==> r->0.fd_spec() == self@->0.dir_fd_spec(),
    {
        match &self.inner {
            Some(tf) => Some(tf.directory()),
            None => None,
        }
    }

    /// Writes all of `buf` to the staged file. Nothing becomes visible at
    /// the target path.
    pub fn write_all(&mut self, buf: &[u8]) -> (r: Result<(), OsError>)
        requires
            old(self).wf(),
            old(self)@ is Some,
        ensures
            *final(self) == *old(self),
    {
        let fd: i32 = match &self.inner {
            Some(tf) => tf.as_raw_fd(),
            None => vstd::pervasive::unreached(),
        };
        let total = buf.len();
        let mut written: usize = 0;
        while written < total
            invariant
                written <= total,
                total == buf@.len(),
            decreases total - written,
        {
            match sys::sys_write(fd, &buf[written..total]) {
                Ok(0) => {
                    return Err(OsError::WriteZero);
                },
                Ok(n) => {
                    written = written + n;
                },
                Err(e) => {
                    return Err(e);
                },
            }
        }
        Ok(())
    }

    /// Writes go straight to the staged descriptor, so there is nothing
    /// buffered to push down: flushing always succeeds.
    pub fn flush(&mut self) -> (r: Result<(), OsError>)
        requires
            old(self).wf(),
            old(self)@ is Some,
        ensures
            *final(self) == *old(self),
            r is Ok,
    {
        Ok(())
    }

    /// Moves the staged file's offset to `pos` bytes from its start and
    /// returns the resulting offset.
    pub fn seek_from_start(&mut self, pos: u64) -> (r: Result<u64, OsError>)
        requires
            old(self).wf(),
            old(self)@ is Some,
            pos <= i64::MAX as u64,
        ensures
            *final(self) == *old(self),
            r is Ok ==> r->Ok_0 == pos,
    {
        let fd: i32 = match &self.inner {
            Some(tf) => tf.as_raw_fd(),
            None => vstd::pervasive::unreached(),
        };
        match sys::sys_seek_from_start(fd, pos as i64) {
            Ok(off) => Ok(off as u64),
            Err(e) => Err(e),
        }
    }

    /// Moves the staged file's offset back to the start, for reading back
    /// what was written.
    pub fn rewind(&mut self) -> (r: Result<(), OsError>)
        requires
            old(self).wf(),
            old(self)@ is Some,
        ensures
            *final(self) == *old(self),
    {
        match self.seek_from_start(0) {
            Ok(_) => Ok(()),
            Err(e) => Err(e),
        }
    }

    /// Reads from the staged file's current offset to its end, appending
    /// onto `buf`, and returns how many bytes arrived.
    #[verifier::loop_isolation(false)]
    pub fn read_to_end(&mut self, buf: &mut Vec<u8>) -> (r: Result<usize, OsError>)
        requires
            old(self).wf(),
            old(self)@ is Some,
        ensures
            *final(self) == *old(self),
            (*final(buf))@.len() >= (*old(buf))@.len(),
            (*final(buf))@.subrange(0, (*old(buf))@.len() as int) == (*old(buf))@,
            r is Ok ==> r->Ok_0 == (*final(buf))@.len() - (*old(buf))@.len(),
    {
        let fd: i32 = match &self.inner {
            Some(tf) => tf.as_raw_fd(),
            None => vstd::pervasive::unreached(),
        };
        let ghost orig = buf@;
        let start = buf.len();
        let mut chunk: Vec<u8> = vec![0u8; 4096];
        loop
            invariant
                chunk@.len() == 4096,
                start == orig.len(),
                start <= buf@.len() <= usize::MAX,
                buf@.subrange(0, start as int) == orig,
            decreases usize::MAX - buf@.len(),
        {
            match sys::sys_read(fd, &mut chunk) {
                Ok(0) => {
                    return Ok(buf.len() - start);
                },
                Ok(n) => {
                    let ghost before = buf@;
                    buf.extend_from_slice(&chunk[0..n]);
                    let grown = buf.len();
                    proof {
                        assert(buf@.subrange(0, start as int) =~= before.subrange(
                            0,
                            start as int,
                        ));
                        assert(grown as int == buf@.len());
                    }
                },
                Err(e) => {
                    return Err(e);
                },
            }
        }
    }

    /// Flushes the staged data and metadata to stable storage.
    pub fn sync_all(&self) -> (r: Result<(), OsError>)
        requires
            self.wf(),
            self@ is Some,
    {
        match &self.inner {
            Some(tf) => tf.sync_all(),
            None => vstd::pervasive::unreached(),
        }
    }

    /// Finalizes in place for `commit`: a no-op returning success when the
    /// handle is already finalized; otherwise the handle becomes finalized
    /// once and for all — even if publishing fails, nothing is retried —
    /// the staged content is synced, and the strategy publishes it under
    /// the target name.
    pub fn _commit(&mut self) -> (r: Result<(), OsError>)
        requires
            old(self).wf(),
        ensures
            final(self).wf(),
            final(self)@ is None,
            old(self)@ is None ==> r is Ok && *final(self) == *old(self),
    {
        match self.inner.take() {
            None => Ok(()),
            Some(tf) => {
                match tf.sync_all() {
                    Ok(()) => tf.rename_file(),
                    Err(e) => Err(e),
                }
            },
        }
    }

    /// Finalizes in place for `discard`: a no-op returning success when the
    /// handle is already finalized; otherwise the handle becomes finalized
    /// and the strategy removes the staged content.
    pub fn _discard(&mut self) -> (r: Result<(), OsError>)
        requires
            old(self).wf(),
        ensures
            final(self).wf(),
            final(self)@ is None,
            old(self)@ is None ==> r is Ok && *final(self) == *old(self),
    {
        match self.inner.take() {
            None => Ok(()),
            Some(tf) => tf.remove_file(),
        }
    }

    /// Publishes the staged content under the target name and consumes the
    /// handle. After a successful commit every fresh open of the target
    /// sees the complete new content; on a handle that is already
    /// finalized there is nothing to publish and the call succeeds as a
    /// no-op.
    pub fn commit(self) -> (r: Result<(), OsError>)
        requires
            self.wf(),
        ensures
            self@ is None ==> r is Ok,
    {
        let mut this = self;
        this._commit()
    }

    /// Throws the staged content away and consumes the handle. The target
    /// path is left exactly as it was; on a handle that is already
    /// finalized there is nothing to remove and the call succeeds as a
    /// no-op.
    pub fn discard(self) -> (r: Result<(), OsError>)
        requires
            self.wf(),
        ensures
            self@ is None ==> r is Ok,
    {
        let mut this = self;
        this._discard()
    }
}

impl OpenOptions {
    /// Opens an atomic write handle for `path` under these options: pins
    /// the parent directory, creates the staging file, and applies the
    /// permission policy. A path without a usable file-name component is
    /// rejected as the directory-class error; any other failure is the
    /// operating system's answer, passed through.
    pub fn open(&self, path: &str) -> (r: Result<AtomicWriteFile, OsError>)
        requires
            path.spec_bytes().len() + 8 <= usize::MAX,
        ensures
            r is Ok ==> r->Ok_0.wf() && r->Ok_0@ is Some && r->Ok_0@->0.base_name() == file_part(
                trimmed(path.spec_bytes()),
            ),
            !is_valid_file_name(file_part(trimmed(path.spec_bytes()))) ==> r == Err::<
                AtomicWriteFile,
                OsError,
            >(OsError::IsADirectory),
    {
        let bytes = vstd::slice::slice_to_vec(path.as_bytes());
        match TemporaryFile::open(self, &bytes) {
            Ok(tf) => Ok(AtomicWriteFile { inner: Some(tf) }),
            Err(e) => Err(e),
        }
    }
}

impl Drop for AtomicWriteFile {
    /// The safety net: a handle abandoned without commit or discard — by an
    /// early return, an abrupt unwind, or plain forgetfulness — removes its
    /// staged content, ignoring any error, so no half-written target and no
    /// orphaned temporary entry survives it.
    fn drop(&mut self)
        opens_invariants none
        no_unwind
    {
        match &self.inner {
            Some(tf) => {
                let _ = tf.remove_file();
            },
            None => (),
        }
    }
}

} // verus!
