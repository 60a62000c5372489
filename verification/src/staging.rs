//! One in-progress replacement: the staging file and its two strategies.
//!
//! A staging file is created either *anonymously* — no directory entry at
//! all, the content reachable only through the open descriptor, so a crash
//! leaves zero cleanup — or under a *named* temporary entry produced by the
//! name generator, retried on collision. The strategy is probed once at
//! creation: if the filesystem refuses anonymous creation, the named
//! strategy takes over silently. Publishing renames the (possibly
//! just-linked) temporary entry onto the target name in one atomic step,
//! relative to the held directory descriptor.

use vstd::prelude::*;

use crate::dir::Dir;
use crate::dir::Directory;
use crate::errors::OsError;
use crate::name::is_staging_name;
use crate::name::RandomName;
use crate::name::DOT_BYTE;
use crate::options::OpenOptions;
use crate::path::file_part;
use crate::path::trimmed;
use crate::path::is_valid_file_name;
use crate::path::split_path;
use crate::perms::copy_file_perms;
use crate::sys;

verus! {

/// How many fresh candidate names a collision may consume before the
/// engine gives up. Collision probability decays geometrically, so this
/// bound is unreachable in practice; it exists so that every retry run is
/// finite.
pub const NAME_RETRY_LIMIT: u64 = 0xffff_ffff_ffff_ffff;

/// An exclusively owned open file descriptor, closed when dropped.
#[derive(Debug)]
pub struct FileDesc {
    fd: i32,
}

impl FileDesc {
    /// The descriptor number.
    pub closed spec fn fd_spec(&self) -> int {
        self.fd as int
    }

    /// Takes ownership of a descriptor returned by a creation call.
    pub(crate) fn from_fd(fd: i32) -> (r: FileDesc)
        ensures
            r.fd_spec() == fd as int,
    {
        FileDesc { fd }
    }

    /// The raw descriptor number.
    pub fn as_raw_fd(&self) -> (r: i32)
        ensures
            r as int == self.fd_spec(),
        opens_invariants none
        no_unwind
    {
        self.fd
    }
}

impl Drop for FileDesc {
    /// Closes the descriptor; a failure to close is ignored, as nothing can
    /// be done about it here.
    fn drop(&mut self)
        opens_invariants none
        no_unwind
    {
        let _ = sys::sys_close(self.fd);
    }
}

/// One in-progress replacement of the file `name` inside `dir`.
///
/// Exactly one of the two strategies is active for the whole lifetime of
/// the value: `staging_entry` names the temporary directory entry of the
/// named strategy, or is absent for the anonymous strategy.
#[derive(Debug)]
pub struct TemporaryFile {
    dir: Dir,
    file: FileDesc,
    name: Vec<u8>,
    temporary_name: Option<Vec<u8>>,
}

impl TemporaryFile {
    /// The base name the replacement will be published under.
    pub closed spec fn base_name(&self) -> Seq<u8> {
        self.name@
    }

    /// The temporary directory entry of the named strategy, if that
    /// strategy is active.
    pub closed spec fn staging_entry(&self) -> Option<Seq<u8>> {
        match self.temporary_name {
            Some(t) => Some(t@),
            None => None,
        }
    }

    /// Whether the anonymous strategy is active: no directory entry exists,
    /// so discarding has nothing to clean up.
    pub open spec fn is_anonymous(&self) -> bool {
        self.staging_entry() is None
    }

    /// The descriptor of the staged data.
    pub closed spec fn fd_spec(&self) -> int {
        self.file.fd_spec()
    }

    /// The descriptor of the directory the staging file lives in.
    pub closed spec fn dir_fd_spec(&self) -> int {
        self.dir.fd_spec()
    }

    /// A usable staging file: the base name can be a directory entry, it
    /// leaves room for the staging decoration, and a named temporary entry
    /// has exactly the generated shape.
    pub open spec fn wf(&self) -> bool {
        &&& is_valid_file_name(self.base_name())
        &&& self.base_name().len() + 8 <= usize::MAX
        &&& self.fd_spec() >= 0
        &&& self.dir_fd_spec() >= 0
        &&& match self.staging_entry() {
            Some(t) => is_staging_name(t, self.base_name()),
            None => true,
        }
    }

    /// Before publish, the only directory entry the engine may have created
    /// for this replacement is the staging entry, and that entry is never
    /// the target name itself: staging alone can never touch what a reader
    /// sees at the target path.
    pub proof fn lemma_staging_entry_is_not_target(self)
        requires
            self.wf(),
            !self.is_anonymous(),
        ensures
            self.staging_entry()->0 != self.base_name(),
    {
        crate::name::lemma_staging_name_differs(self.staging_entry()->0, self.base_name());
    }

    /// Creates the staging file for `path`, probing for anonymous-file
    /// support and falling back to the named strategy when the filesystem
    /// refuses it.
    pub fn open(opts: &OpenOptions, path: &Vec<u8>) -> (r: Result<TemporaryFile, OsError>)
        requires
            path@.len() + 8 <= usize::MAX,
        ensures
            r is Ok ==> r->Ok_0.wf() && r->Ok_0.base_name() == file_part(trimmed(path@)),
            !is_valid_file_name(file_part(trimmed(path@))) ==> r == Err::<TemporaryFile, OsError>(
                OsError::IsADirectory,
            ),
    {
        Self::open_impl(opts, path, true)
    }

    /// Creates the staging file for `path` with the named strategy
    /// unconditionally, as platforms without anonymous files do.
    pub fn open_named(opts: &OpenOptions, path: &Vec<u8>) -> (r: Result<TemporaryFile, OsError>)
        requires
            path@.len() + 8 <= usize::MAX,
        ensures
            r is Ok ==> r->Ok_0.wf() && r->Ok_0.base_name() == file_part(trimmed(path@))
                && !r->Ok_0.is_anonymous(),
            !is_valid_file_name(file_part(trimmed(path@))) ==> r == Err::<TemporaryFile, OsError>(
                OsError::IsADirectory,
            ),
    {
        Self::open_impl(opts, path, false)
    }

    /// The shared creation path: split the target, pin its directory, stage
    /// under the chosen strategy, then apply the permission policy.
    fn open_impl(opts: &OpenOptions, path: &Vec<u8>, allow_unnamed: bool) -> (r: Result<
        TemporaryFile,
        OsError,
    >)
        requires
            path@.len() + 8 <= usize::MAX,
        ensures
            r is Ok ==> r->Ok_0.wf() && r->Ok_0.base_name() == file_part(trimmed(path@)),
            r is Ok && !allow_unnamed ==> !r->Ok_0.is_anonymous(),
            !is_valid_file_name(file_part(trimmed(path@))) ==> r == Err::<TemporaryFile, OsError>(
                OsError::IsADirectory,
            ),
    {
        let (dir_path, name) = match split_path(path) {
            Ok(parts) => parts,
            Err(e) => {
                return Err(e);
            },
        };
        let dir = if dir_path.len() == 0 {
            let mut dot: Vec<u8> = Vec::new();
            dot.push(DOT_BYTE);
            Dir::open(&dot)
        } else {
            Dir::open(&dir_path)
        };
        let dir = match dir {
            Ok(dir) => dir,
            Err(e) => {
                return Err(e);
            },
        };

        let extra_flags = opts.custom_flags & !sys::FLAG_ACCESS_MODE;
        let (file, temporary_name) = if allow_unnamed {
            match create_unnamed(&dir, opts, extra_flags) {
                Ok(file) => (file, None),
                // The filesystem may report anonymous files as unsupported,
                // or, on older kernels, as the directory-class error: both
                // mean the named strategy must take over.
                Err(OsError::NotSupported) | Err(OsError::IsADirectory) => {
                    match create_named(&dir, opts, extra_flags, &name) {
                        Ok((file, t)) => (file, Some(t)),
                        Err(e) => {
                            return Err(e);
                        },
                    }
                },
                Err(e) => {
                    return Err(e);
                },
            }
        } else {
            match create_named(&dir, opts, extra_flags, &name) {
                Ok((file, t)) => (file, Some(t)),
                Err(e) => {
                    return Err(e);
                },
            }
        };

        if opts.preserve_mode || opts.preserve_owner.is_yes() {
            match copy_file_perms(&dir, &name, file.as_raw_fd(), opts) {
                Ok(()) => (),
                Err(e) => {
                    return Err(e);
                },
            }
        }

        Ok(TemporaryFile { dir, file, name, temporary_name })
    }

    /// Publishes the staged content: the named strategy renames its
    /// temporary entry onto the target; the anonymous strategy first links
    /// the descriptor into the namespace under a generated name, re-syncs
    /// it — some filesystems quietly ignore a sync issued while the file
    /// has no directory entry — and then renames that entry onto the
    /// target. The rename is the single atomic step after which readers see
    /// the new content.
    pub fn rename_file(&self) -> (r: Result<(), OsError>)
        requires
            self.wf(),
    {
        match &self.temporary_name {
            Some(t) => sys::sys_renameat(self.dir.as_raw_fd(), t, &self.name),
            None => self.rename_unnamed(),
        }
    }

    /// The anonymous strategy's publish: link, re-sync, rename.
    fn rename_unnamed(&self) -> (r: Result<(), OsError>)
        requires
            self.wf(),
    {
        let mut random_name = RandomName::new(&self.name);
        let mut attempts: u64 = NAME_RETRY_LIMIT;
        while attempts > 0
            invariant
                random_name.wf(),
            decreases attempts,
        {
            random_name.next();
            match sys::sys_link_fd_at(
                self.file.as_raw_fd(),
                self.dir.as_raw_fd(),
                random_name.bytes(),
            ) {
                Ok(()) => {
                    let linked = random_name.into_name();
                    match sys::sys_fdatasync(self.file.as_raw_fd()) {
                        Ok(()) => (),
                        Err(e) => {
                            return Err(e);
                        },
                    }
                    return sys::sys_renameat(self.dir.as_raw_fd(), &linked, &self.name);
                },
                Err(OsError::AlreadyExists) => {
                    attempts = attempts - 1;
                },
                Err(e) => {
                    return Err(e);
                },
            }
        }
        Err(OsError::AlreadyExists)
    }

    /// Discards the staged content. The anonymous strategy has nothing to
    /// remove — the descriptor is the only reference, and closing it
    /// reclaims the space — so removal always succeeds for it; the named
    /// strategy unlinks its temporary entry.
    pub fn remove_file(&self) -> (r: Result<(), OsError>)
        ensures
            self.is_anonymous() ==> r is Ok,
        opens_invariants none
        no_unwind
    {
        match &self.temporary_name {
            Some(t) => sys::sys_unlinkat(self.dir.as_raw_fd(), t),
            None => Ok(()),
        }
    }

    /// Flushes the staged data and metadata to stable storage.
    pub fn sync_all(&self) -> (r: Result<(), OsError>) {
        sys::sys_fsync(self.file.as_raw_fd())
    }

    /// A borrowed capability to the directory this staging file lives in.
    pub fn directory(&self) -> (r: Directory<'_>)
        ensures
            r.fd_spec() == self.dir_fd_spec(),
    {
        Directory::new(&self.dir)
    }

    /// The raw descriptor of the staged data, for read, write and seek
    /// passthrough.
    pub fn as_raw_fd(&self) -> (r: i32)
        ensures
            r as int == self.fd_spec(),
    {
        self.file.as_raw_fd()
    }

    /// The temporary directory entry, if the named strategy is active: it
    /// always has the generated `.name.` shape.
    pub fn staging_entry_name(&self) -> (r: Option<&Vec<u8>>)
        requires
            self.wf(),
        ensures
            match r {
                Some(t) => self.staging_entry() == Some(t@) && is_staging_name(
                    t@,
                    self.base_name(),
                ),
                None => self.is_anonymous(),
            },
    {
        match &self.temporary_name {
            Some(t) => Some(t),
            None => None,
        }
    }
}

/// Creates an anonymous staging file inside `dir`: a descriptor with no
/// directory entry at all.
fn create_unnamed(dir: &Dir, opts: &OpenOptions, extra_flags: i32) -> (r: Result<FileDesc, OsError>)
    ensures
        r is Ok ==> r->Ok_0.fd_spec() >= 0,
{
    let access = if opts.read {
        sys::FLAG_READ_WRITE
    } else {
        sys::FLAG_WRITE_ONLY
    };
    let flags = sys::FLAG_UNNAMED_TEMPORARY | access | sys::FLAG_CLOSE_ON_EXEC | extra_flags;
    let mut dot: Vec<u8> = Vec::new();
    dot.push(DOT_BYTE);
    match sys::sys_openat(dir.as_raw_fd(), &dot, flags, opts.mode) {
        Ok(fd) => Ok(FileDesc::from_fd(fd)),
        Err(e) => Err(e),
    }
}

/// Creates a named staging file inside `dir`, retrying with a fresh
/// generated candidate on every collision.
fn create_named(dir: &Dir, opts: &OpenOptions, extra_flags: i32, base: &Vec<u8>) -> (r: Result<
    (FileDesc, Vec<u8>),
    OsError,
>)
    requires
        base@.len() + 8 <= usize::MAX,
    ensures
        r is Ok ==> is_staging_name(r->Ok_0.1@, base@),
        r is Ok ==> r->Ok_0.0.fd_spec() >= 0,
{
    let access = if opts.read {
        sys::FLAG_READ_WRITE
    } else {
        sys::FLAG_WRITE_ONLY
    };
    let flags = access | sys::FLAG_CREATE | sys::FLAG_EXCLUSIVE | sys::FLAG_CLOSE_ON_EXEC
        | extra_flags;
    let mut random_name = RandomName::new(base);
    let mut attempts: u64 = NAME_RETRY_LIMIT;
    while attempts > 0
        invariant
            random_name.wf(),
            random_name.base() == base@,
        decreases attempts,
    {
        random_name.next();
        match sys::sys_openat(dir.as_raw_fd(), random_name.bytes(), flags, opts.mode) {
            Ok(fd) => {
                return Ok((FileDesc::from_fd(fd), random_name.into_name()));
            },
            Err(OsError::AlreadyExists) => {
                attempts = attempts - 1;
            },
            Err(e) => {
                return Err(e);
            },
        }
    }
    Err(OsError::AlreadyExists)
}

} // verus!
