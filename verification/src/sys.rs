//! Trusted wrappers around the operating-system calls the engine issues.
//!
//! Every namespace-mutating call takes an open directory descriptor and a
//! name relative to it, never a free-standing path, so that the engine is
//! immune to the parent directory being renamed or replaced mid-operation.
//!
//! Each wrapper holds exactly one call into the `nix` crate; its contract
//! states only what the underlying system call documents for every outcome.
//! Raw error codes are classified by the verified
//! [`error_from_code`](crate::errors::error_from_code).

use vstd::prelude::*;

use crate::errors::error_from_code;
use crate::errors::OsError;

verus! {

/// The flag bit values of the Linux ABI for open(2), as fcntl.h defines
/// them: the access modes, creation flags, and the mask that isolates the
/// access-mode bits.
pub const FLAG_WRITE_ONLY: i32 = 0o1;

pub const FLAG_READ_WRITE: i32 = 0o2;

pub const FLAG_ACCESS_MODE: i32 = 0o3;

pub const FLAG_CREATE: i32 = 0o100;

pub const FLAG_EXCLUSIVE: i32 = 0o200;

pub const FLAG_DIRECTORY: i32 = 0o200000;

pub const FLAG_CLOSE_ON_EXEC: i32 = 0o2000000;

/// An unnamed temporary file: reachable only through the returned
/// descriptor, with no directory entry. The value includes the
/// directory-flag bit, as fcntl.h defines it.
pub const FLAG_UNNAMED_TEMPORARY: i32 = 0o20200000;

/// The attributes of an existing file that the permission policy reads.
#[derive(Clone, Copy, Debug)]
pub struct FileAttributes {
    /// The permission bits, st_mode.
    pub mode: u32,
    /// The owning user id, st_uid.
    pub uid: u32,
    /// The owning group id, st_gid.
    pub gid: u32,
}

/// Relies on nix::fcntl::open: opens `path` with the given open(2) flag bits
/// and creation mode, returning the lowest-numbered free descriptor, which
/// is never negative.
#[verifier::external_body]
pub(crate) fn sys_open(path: &Vec<u8>, flags: i32, mode: u32) -> (r: Result<i32, OsError>)
    ensures
        r is Ok ==> r->Ok_0 >= 0,
{
    match nix::fcntl::open(
        &path[..],
        nix::fcntl::OFlag::from_bits_truncate(flags),
        nix::sys::stat::Mode::from_bits_truncate(mode),
    ) {
        Ok(fd) => Ok(fd),
        Err(e) => Err(error_from_code(e as i32)),
    }
}

/// Relies on nix::fcntl::openat: like open(2), but `path` is resolved
/// relative to the open directory `dirfd`. The returned descriptor is never
/// negative.
#[verifier::external_body]
pub(crate) fn sys_openat(dirfd: i32, path: &Vec<u8>, flags: i32, mode: u32) -> (r: Result<
    i32,
    OsError,
>)
    ensures
        r is Ok ==> r->Ok_0 >= 0,
{
    match nix::fcntl::openat(
        dirfd,
        &path[..],
        nix::fcntl::OFlag::from_bits_truncate(flags),
        nix::sys::stat::Mode::from_bits_truncate(mode),
    ) {
        Ok(fd) => Ok(fd),
        Err(e) => Err(error_from_code(e as i32)),
    }
}

/// Relies on nix::fcntl::renameat: atomically renames the entry `old_name`
/// to `new_name`, both relative to the open directory `dirfd`. On success
/// the new name refers to the renamed file and the old name is gone, in one
/// indivisible step.
#[verifier::external_body]
pub(crate) fn sys_renameat(dirfd: i32, old_name: &Vec<u8>, new_name: &Vec<u8>) -> (r: Result<
    (),
    OsError,
>) {
    match nix::fcntl::renameat(Some(dirfd), &old_name[..], Some(dirfd), &new_name[..]) {
        Ok(()) => Ok(()),
        Err(e) => Err(error_from_code(e as i32)),
    }
}

/// Relies on nix::unistd::unlinkat: removes the non-directory entry `name`
/// relative to the open directory `dirfd`.
#[verifier::external_body]
pub(crate) fn sys_unlinkat(dirfd: i32, name: &Vec<u8>) -> (r: Result<(), OsError>)
    opens_invariants none
    no_unwind
{
    match nix::unistd::unlinkat(Some(dirfd), &name[..], nix::unistd::UnlinkatFlags::NoRemoveDir) {
        Ok(()) => Ok(()),
        Err(e) => Err(error_from_code(e as i32)),
    }
}

/// Relies on nix::unistd::linkat: gives the file open at descriptor `fd` a
/// new directory entry `name` relative to the open directory `dirfd`, by
/// linking the descriptor's self-referential path with symlink-following, as
/// linkat(2) documents for turning an unnamed temporary file into a named
/// one.
#[verifier::external_body]
pub(crate) fn sys_link_fd_at(fd: i32, dirfd: i32, name: &Vec<u8>) -> (r: Result<(), OsError>) {
    let src = format!("/proc/self/fd/{fd}").into_bytes();
    match nix::unistd::linkat(
        None,
        &src[..],
        Some(dirfd),
        &name[..],
        nix::unistd::LinkatFlags::SymlinkFollow,
    ) {
        Ok(()) => Ok(()),
        Err(e) => Err(error_from_code(e as i32)),
    }
}

/// Relies on nix::unistd::fsync: flushes the data and metadata of the file
/// open at `fd` to stable storage.
#[verifier::external_body]
pub(crate) fn sys_fsync(fd: i32) -> (r: Result<(), OsError>) {
    match nix::unistd::fsync(fd) {
        Ok(()) => Ok(()),
        Err(e) => Err(error_from_code(e as i32)),
    }
}

/// Relies on nix::unistd::fdatasync: flushes the data of the file open at
/// `fd` to stable storage.
#[verifier::external_body]
pub(crate) fn sys_fdatasync(fd: i32) -> (r: Result<(), OsError>) {
    match nix::unistd::fdatasync(fd) {
        Ok(()) => Ok(()),
        Err(e) => Err(error_from_code(e as i32)),
    }
}

/// Relies on nix::unistd::close: closes the descriptor `fd`.
#[verifier::external_body]
pub(crate) fn sys_close(fd: i32) -> (r: Result<(), OsError>)
    opens_invariants none
    no_unwind
{
    match nix::unistd::close(fd) {
        Ok(()) => Ok(()),
        Err(e) => Err(error_from_code(e as i32)),
    }
}

/// Relies on nix::unistd::write: writes a prefix of `buf` to the file open
/// at `fd` and returns how many bytes were taken, which write(2) documents
/// to be at most the length of `buf`.
#[verifier::external_body]
pub(crate) fn sys_write(fd: i32, buf: &[u8]) -> (r: Result<usize, OsError>)
    ensures
        r is Ok ==> r->Ok_0 <= buf@.len(),
{
    match nix::unistd::write(fd, buf) {
        Ok(n) => Ok(n),
        Err(e) => Err(error_from_code(e as i32)),
    }
}

/// Relies on nix::unistd::read: reads into a prefix of `buf` from the file
/// open at `fd` and returns how many bytes were placed, which read(2)
/// documents to be at most the length of `buf`; zero means end of file.
#[verifier::external_body]
pub(crate) fn sys_read(fd: i32, buf: &mut Vec<u8>) -> (r: Result<usize, OsError>)
    ensures
        final(buf)@.len() == old(buf)@.len(),
        r is Ok ==> r->Ok_0 <= old(buf)@.len(),
{
    match nix::unistd::read(fd, buf.as_mut_slice()) {
        Ok(n) => Ok(n),
        Err(e) => Err(error_from_code(e as i32)),
    }
}

/// Relies on nix::unistd::lseek: sets the offset of the file open at `fd`
/// to `offset` bytes from the start, and returns the resulting offset, which
/// lseek(2) documents to equal the requested one.
#[verifier::external_body]
pub(crate) fn sys_seek_from_start(fd: i32, offset: i64) -> (r: Result<i64, OsError>)
    requires
        offset >= 0,
    ensures
        r is Ok ==> r->Ok_0 == offset,
{
    match nix::unistd::lseek(fd, offset, nix::unistd::Whence::SeekSet) {
        Ok(n) => Ok(n),
        Err(e) => Err(error_from_code(e as i32)),
    }
}

/// Relies on nix::sys::stat::fstatat: reads, without following a final
/// symbolic link, the attributes of the entry `name` relative to the open
/// directory `dirfd`.
#[verifier::external_body]
pub(crate) fn sys_stat_at(dirfd: i32, name: &Vec<u8>) -> (r: Result<FileAttributes, OsError>) {
    match nix::sys::stat::fstatat(dirfd, &name[..], nix::fcntl::AtFlags::AT_SYMLINK_NOFOLLOW) {
        Ok(st) => Ok(FileAttributes { mode: st.st_mode, uid: st.st_uid, gid: st.st_gid }),
        Err(e) => Err(error_from_code(e as i32)),
    }
}

/// Relies on nix::sys::stat::fchmod: sets the permission bits of the file
/// open at `fd`; bits outside the permission mask are ignored.
#[verifier::external_body]
pub(crate) fn sys_fchmod(fd: i32, mode: u32) -> (r: Result<(), OsError>) {
    match nix::sys::stat::fchmod(fd, nix::sys::stat::Mode::from_bits_truncate(mode)) {
        Ok(()) => Ok(()),
        Err(e) => Err(error_from_code(e as i32)),
    }
}

/// Relies on nix::unistd::fchown: sets the owning user and group of the
/// file open at `fd`.
#[verifier::external_body]
pub(crate) fn sys_fchown(fd: i32, uid: u32, gid: u32) -> (r: Result<(), OsError>) {
    match nix::unistd::fchown(
        fd,
        Some(nix::unistd::Uid::from_raw(uid)),
        Some(nix::unistd::Gid::from_raw(gid)),
    ) {
        Ok(()) => Ok(()),
        Err(e) => Err(error_from_code(e as i32)),
    }
}

/// Relies on nix::unistd::Uid::effective and is_root: reports whether the
/// calling process runs with the privileged user id. The answer depends on
/// the process, so nothing is stated of it.
#[verifier::external_body]
pub(crate) fn sys_effective_user_is_root() -> bool {
    nix::unistd::Uid::effective().is_root()
}

} // verus!
