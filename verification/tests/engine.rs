//! End-to-end behaviour of the atomic-write engine against a real
//! filesystem: atomicity, invisibility before commit, leftover-free
//! finalization, idempotent finalize, independent concurrent writers, and
//! the staging-name shape.

use atomic_write_file::errors::error_from_code;
use atomic_write_file::name::RandomName;
use atomic_write_file::perms::maybe_ignore_eperm;
use atomic_write_file::perms::stat_outcome;
use atomic_write_file::FileAttributes;
use atomic_write_file::AtomicWriteFile;
use atomic_write_file::OsError;
use atomic_write_file::OpenOptions;
use atomic_write_file::Preserve;
use atomic_write_file::TemporaryFile;

fn make_dir(path: &str) {
    match nix::unistd::mkdir(path, nix::sys::stat::Mode::from_bits_truncate(0o777)) {
        Ok(()) => (),
        Err(nix::errno::Errno::EEXIST) => (),
        Err(err) => panic!("failed to create directory {path}: {err}"),
    }
}

fn test_directory() -> String {
    make_dir("/tmp/atomic-write-file-tests");
    String::from("/tmp/atomic-write-file-tests")
}

fn test_file(name: &str) -> String {
    let path = format!("{}/{}", test_directory(), name);
    match nix::unistd::unlink(path.as_str()) {
        Ok(()) => (),
        Err(nix::errno::Errno::ENOENT) => (),
        Err(err) => panic!("failed to remove test file {path}: {err}"),
    }
    // A crashed earlier run may have stranded staging entries; start clean.
    for leftover in list_temporary_files(&path) {
        let leftover_path = format!("{}/{}", test_directory(), leftover);
        let _ = nix::unistd::unlink(leftover_path.as_str());
    }
    path
}

fn path_exists(path: &str) -> bool {
    nix::sys::stat::stat(path).is_ok()
}

fn read_file(path: &str) -> Vec<u8> {
    let fd = nix::fcntl::open(
        path,
        nix::fcntl::OFlag::O_RDONLY,
        nix::sys::stat::Mode::empty(),
    )
    .unwrap_or_else(|err| panic!("failed to open {path}: {err}"));
    let mut out = Vec::new();
    let mut chunk = vec![0u8; 4096];
    loop {
        let n = nix::unistd::read(fd, &mut chunk)
            .unwrap_or_else(|err| panic!("failed to read {path}: {err}"));
        if n == 0 {
            break;
        }
        out.extend_from_slice(&chunk[..n]);
    }
    let _ = nix::unistd::close(fd);
    out
}

fn write_file(path: &str, data: &[u8]) {
    let fd = nix::fcntl::open(
        path,
        nix::fcntl::OFlag::O_WRONLY | nix::fcntl::OFlag::O_CREAT | nix::fcntl::OFlag::O_TRUNC,
        nix::sys::stat::Mode::from_bits_truncate(0o666),
    )
    .unwrap_or_else(|err| panic!("failed to create {path}: {err}"));
    let mut written = 0;
    while written < data.len() {
        let n = nix::unistd::write(fd, &data[written..])
            .unwrap_or_else(|err| panic!("failed to write {path}: {err}"));
        assert!(n > 0, "no progress writing {path}");
        written += n;
    }
    let _ = nix::unistd::close(fd);
}

fn list_temporary_files(path: &str) -> Vec<String> {
    let slash = path.rfind('/').expect("test path has a parent");
    let dir_path = &path[..slash];
    let file_name = &path[slash + 1..];
    let prefix = format!(".{file_name}.");
    let mut dir = nix::dir::Dir::open(
        dir_path,
        nix::fcntl::OFlag::O_RDONLY | nix::fcntl::OFlag::O_DIRECTORY,
        nix::sys::stat::Mode::empty(),
    )
    .unwrap_or_else(|err| panic!("failed to list {dir_path}: {err}"));
    let mut found = Vec::new();
    for entry in dir.iter() {
        let entry = entry.expect("failed to read a directory entry");
        let entry_name = entry.file_name().to_string_lossy().into_owned();
        if entry_name.starts_with(&prefix) {
            found.push(entry_name);
        }
    }
    found
}

fn verify_no_leftovers(path: &str) {
    let leftovers = list_temporary_files(path);
    if !leftovers.is_empty() {
        panic!("found leftover files: {leftovers:?}");
    }
}

fn rewind_and_read(file: &mut AtomicWriteFile) -> Result<Vec<u8>, OsError> {
    let mut buf = Vec::new();
    assert_eq!(file.seek_from_start(0)?, 0);
    file.read_to_end(&mut buf)?;
    Ok(buf)
}

#[test]
fn create_new() -> Result<(), OsError> {
    let path = test_file("new");
    assert!(!path_exists(&path));

    let mut file = AtomicWriteFile::open(&path)?;
    assert!(!path_exists(&path));

    file.write_all(b"hello ")?;
    assert!(!path_exists(&path));
    file.flush()?;
    assert!(!path_exists(&path));
    file.write_all(b"world\n")?;
    assert!(!path_exists(&path));
    file.flush()?;
    assert!(!path_exists(&path));

    file.commit()?;

    assert!(path_exists(&path));
    assert_eq!(read_file(&path), b"hello world\n");

    verify_no_leftovers(&path);

    Ok(())
}

#[test]
fn overwrite_existing() -> Result<(), OsError> {
    let path = test_file("existing");
    write_file(&path, b"initial contents\n");
    assert_eq!(read_file(&path), b"initial contents\n");

    let mut file = AtomicWriteFile::open(&path)?;
    assert_eq!(read_file(&path), b"initial contents\n");

    file.write_all(b"hello ")?;
    assert_eq!(read_file(&path), b"initial contents\n");
    file.flush()?;
    assert_eq!(read_file(&path), b"initial contents\n");
    file.write_all(b"world\n")?;
    assert_eq!(read_file(&path), b"initial contents\n");
    file.flush()?;
    assert_eq!(read_file(&path), b"initial contents\n");

    file.commit()?;

    assert_eq!(read_file(&path), b"hello world\n");

    verify_no_leftovers(&path);

    Ok(())
}

#[test]
fn concurrency() -> Result<(), OsError> {
    let path = test_file("concurrency");
    write_file(&path, b"initial contents\n");
    assert_eq!(read_file(&path), b"initial contents\n");

    let mut file1 = AtomicWriteFile::options().read(true).open(&path)?;
    let mut file2 = AtomicWriteFile::options().read(true).open(&path)?;
    assert_eq!(read_file(&path), b"initial contents\n");

    file1.write_all(b"contents written to file1\n")?;
    file1.flush()?;
    assert_eq!(read_file(&path), b"initial contents\n");

    file2.write_all(b"contents written to file2\n")?;
    file2.flush()?;
    assert_eq!(read_file(&path), b"initial contents\n");

    assert_eq!(rewind_and_read(&mut file1)?, b"contents written to file1\n");
    assert_eq!(rewind_and_read(&mut file2)?, b"contents written to file2\n");

    Ok(())
}

#[test]
fn no_change_on_abandoned_handle() -> Result<(), OsError> {
    let path = test_file("abandoned");
    write_file(&path, b"initial contents\n");
    assert_eq!(read_file(&path), b"initial contents\n");

    let mut file = AtomicWriteFile::open(&path)?;
    file.write_all(b"new contents\n")?;
    file.flush()?;
    drop(file);

    assert_eq!(read_file(&path), b"initial contents\n");
    verify_no_leftovers(&path);

    Ok(())
}

#[test]
fn discard_leaves_target_untouched() -> Result<(), OsError> {
    let path = test_file("discarded");
    assert!(!path_exists(&path));

    let mut file = AtomicWriteFile::open(&path)?;
    file.write_all(b"never published\n")?;
    file.discard()?;

    assert!(!path_exists(&path));
    verify_no_leftovers(&path);

    Ok(())
}

#[test]
fn finalize_is_idempotent() -> Result<(), OsError> {
    let path = test_file("idempotent");
    write_file(&path, b"old\n");

    let mut file = AtomicWriteFile::open(&path)?;
    file.write_all(b"new\n")?;
    file._commit()?;
    assert_eq!(read_file(&path), b"new\n");

    // Every further finalize on the same handle is a successful no-op.
    file._commit()?;
    file._discard()?;
    file._commit()?;
    drop(file);

    assert_eq!(read_file(&path), b"new\n");
    verify_no_leftovers(&path);

    Ok(())
}

#[test]
fn creates_unnamed_temporary_files() -> Result<(), OsError> {
    let path = test_file("foo");
    let file = AtomicWriteFile::open(&path)?;
    assert_eq!(list_temporary_files(&path).first(), None);
    file.commit()
}

#[test]
fn creates_named_temporary_files() -> Result<(), OsError> {
    let path = test_file("foo");
    let options = AtomicWriteFile::options();
    let staged = TemporaryFile::open_named(&options, &path.clone().into_bytes())?;
    let file = AtomicWriteFile::from_temporary_file(staged);
    let temp_file_name = list_temporary_files(&path)
        .first()
        .expect("no temporary files found")
        .clone();
    assert!(temp_file_name.is_ascii());
    assert!(temp_file_name.starts_with(".foo."));
    assert_eq!(temp_file_name.len(), 1 + 3 + 1 + 6);
    file.commit()
}

#[test]
fn named_staging_file_is_removed_on_drop() -> Result<(), OsError> {
    let path = test_file("named-drop");
    write_file(&path, b"initial contents\n");

    let options = AtomicWriteFile::options();
    let staged = TemporaryFile::open_named(&options, &path.clone().into_bytes())?;
    let staging_name = String::from_utf8(
        staged
            .staging_entry_name()
            .expect("the named strategy has a staging entry")
            .clone(),
    )
    .expect("staging names are ASCII");
    let mut file = AtomicWriteFile::from_temporary_file(staged);
    assert_eq!(list_temporary_files(&path), [staging_name]);

    file.write_all(b"new contents\n")?;
    drop(file);

    assert_eq!(read_file(&path), b"initial contents\n");
    verify_no_leftovers(&path);

    Ok(())
}

#[test]
fn preserves_mode_of_existing_file() -> Result<(), OsError> {
    let path = test_file("modes");
    write_file(&path, b"secret\n");
    let fd = nix::fcntl::open(
        path.as_str(),
        nix::fcntl::OFlag::O_RDONLY,
        nix::sys::stat::Mode::empty(),
    )
    .expect("failed to reopen the test file");
    nix::sys::stat::fchmod(fd, nix::sys::stat::Mode::from_bits_truncate(0o640))
        .expect("failed to chmod the test file");
    let _ = nix::unistd::close(fd);

    let mut file = AtomicWriteFile::open(&path)?;
    file.write_all(b"replaced\n")?;
    file.commit()?;

    let stat = nix::sys::stat::stat(path.as_str()).expect("failed to stat the committed file");
    assert_eq!(stat.st_mode & 0o7777, 0o640);
    assert_eq!(read_file(&path), b"replaced\n");

    Ok(())
}

#[test]
fn directory_capability_survives_commit_via_dup() -> Result<(), OsError> {
    let path = test_file("dirfd");
    let mut file = AtomicWriteFile::open(&path)?;
    let dir_fd = file
        .directory()
        .expect("an open handle exposes its directory")
        .as_raw_fd();
    let kept = nix::unistd::dup(dir_fd).expect("failed to duplicate the directory fd");

    file.write_all(b"hello\n")?;
    file.commit()?;

    nix::unistd::fsync(kept).expect("directory sync failed");
    nix::unistd::close(kept).expect("closing directory failed");
    assert_eq!(read_file(&path), b"hello\n");

    Ok(())
}

#[test]
fn rejects_paths_without_file_name() {
    for path in [
        "",
        "/",
        ".",
        "..",
        "./",
        "/tmp/atomic-write-file-tests/..",
        "/tmp/atomic-write-file-tests/../",
    ] {
        match AtomicWriteFile::open(path) {
            Err(OsError::IsADirectory) => (),
            other => panic!("open({path:?}) was not rejected: {other:?}"),
        }
    }
}

#[test]
fn resolves_trailing_separators_and_self_references() -> Result<(), OsError> {
    let path = test_file("resolved");
    for spelling in [format!("{path}/"), format!("{path}//"), format!("{path}/."), format!("{path}/.//")] {
        let mut file = AtomicWriteFile::open(&spelling)?;
        file.write_all(b"via an unresolved spelling\n")?;
        file.commit()?;
        assert_eq!(read_file(&path), b"via an unresolved spelling\n");
        verify_no_leftovers(&path);
        let _ = nix::unistd::unlink(path.as_str());
    }
    Ok(())
}

#[test]
fn reports_missing_parent_directory() {
    match AtomicWriteFile::open("/tmp/atomic-write-file-tests/nonexistent-subdir/foo") {
        Err(OsError::NotFound) => (),
        other => panic!("open under a missing parent was not rejected: {other:?}"),
    }
}

#[test]
fn error_codes_are_classified() {
    assert_eq!(error_from_code(1), OsError::NotPermitted);
    assert_eq!(error_from_code(2), OsError::NotFound);
    assert_eq!(error_from_code(17), OsError::AlreadyExists);
    assert_eq!(error_from_code(21), OsError::IsADirectory);
    assert_eq!(error_from_code(95), OsError::NotSupported);
    assert_eq!(error_from_code(99), OsError::Other(99));
}

#[test]
fn ownership_refusals_follow_the_policy() {
    let refused: Result<(), OsError> = Err(OsError::NotPermitted);
    // Best-effort and unprivileged: the refusal is forgiven.
    assert_eq!(maybe_ignore_eperm(refused, Preserve::Try, false), Ok(()));
    // Privileged, or under the strict policy: the refusal stands.
    assert_eq!(maybe_ignore_eperm(refused, Preserve::Try, true), refused);
    assert_eq!(maybe_ignore_eperm(refused, Preserve::Yes, false), refused);
    assert_eq!(maybe_ignore_eperm(refused, Preserve::No, false), refused);
    // Any other error stands whatever the policy.
    let other: Result<(), OsError> = Err(OsError::Other(5));
    assert_eq!(maybe_ignore_eperm(other, Preserve::Try, false), other);
    // Success passes through.
    assert_eq!(maybe_ignore_eperm(Ok(()), Preserve::Try, false), Ok(()));
}

#[test]
fn candidate_names_have_the_documented_shape() {
    let base = b"foo".to_vec();
    let mut generator = RandomName::new(&base);
    for _ in 0..10 {
        generator.next();
        let candidate = generator.bytes();
        assert_eq!(candidate.len(), 3 + 8);
        assert_eq!(candidate[0], b'.');
        assert_eq!(&candidate[1..4], b"foo");
        assert_eq!(candidate[4], b'.');
        for suffix_byte in &candidate[5..] {
            assert!(suffix_byte.is_ascii_alphanumeric());
        }
    }
}

#[test]
fn ownership_policy_enables_the_copy() {
    assert!(!Preserve::No.is_yes());
    assert!(Preserve::Yes.is_yes());
    assert!(Preserve::Try.is_yes());
}

#[test]
fn options_start_from_the_documented_defaults() {
    for options in [OpenOptions::new(), OpenOptions::default(), AtomicWriteFile::options()] {
        assert!(!options.read);
        assert_eq!(options.mode, 0o666);
        assert_eq!(options.custom_flags, 0);
        assert!(options.preserve_mode);
        assert!(matches!(options.preserve_owner, Preserve::Try));
    }
}

#[test]
fn vanished_copy_source_is_nothing_to_copy() {
    let missing: Result<FileAttributes, OsError> = Err(OsError::NotFound);
    assert!(matches!(stat_outcome(missing), Ok(None)));

    let attrs = FileAttributes { mode: 0o640, uid: 7, gid: 8 };
    match stat_outcome(Ok(attrs)) {
        Ok(Some(got)) => {
            assert_eq!(got.mode, 0o640);
            assert_eq!(got.uid, 7);
            assert_eq!(got.gid, 8);
        }
        other => panic!("a successful stat was not handed on: {other:?}"),
    }

    assert!(matches!(
        stat_outcome(Err(OsError::Other(5))),
        Err(OsError::Other(5))
    ));
}
