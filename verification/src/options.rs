//! What `open` is asked to do: access mode, creation mode, extra open
//! flags, and how much of the pre-existing file's mode and ownership to
//! carry over onto the staged content.

use vstd::prelude::*;

verus! {

/// How hard to try to preserve the pre-existing file's ownership.
#[derive(Clone, Copy, Debug, PartialEq, Eq, Structural)]
pub enum Preserve {
    /// Do not copy ownership.
    No,
    /// Copy ownership; any failure is fatal to `open`.
    Yes,
    /// Copy ownership, but swallow a refused change when the caller is not
    /// privileged, since the failure is expected and non-actionable.
    Try,
}

impl Preserve {
    /// Whether an ownership copy is attempted at all.
    pub fn is_yes(&self) -> (r: bool)
        ensures
            r == (*self is Yes || *self is Try),
    {
        match self {
            Self::No => false,
            Self::Yes | Self::Try => true,
        }
    }
}

/// The options one `open` is evaluated under.
#[derive(Clone, Debug)]
pub struct OpenOptions {
    /// Open the staged file for reading as well as writing.
    pub read: bool,
    /// The creation mode bits, subject to the process umask.
    pub mode: u32,
    /// Extra open(2) flag bits merged into the creation call, with the
    /// access-mode bits masked out.
    pub custom_flags: i32,
    /// Copy the pre-existing file's permission bits; a failure is fatal.
    pub preserve_mode: bool,
    /// How to treat the pre-existing file's ownership.
    pub preserve_owner: Preserve,
}

impl OpenOptions {
    /// The defaults: write-only, mode `0o666`, no extra flags, preserve the
    /// mode, preserve ownership on a best-effort basis.
    pub fn new() -> (r: OpenOptions)
        ensures
            r.read == false,
            r.mode == 0o666u32,
            r.custom_flags == 0i32,
            r.preserve_mode == true,
            r.preserve_owner is Try,
    {
        OpenOptions {
            read: false,
            mode: 0o666,
            custom_flags: 0,
            preserve_mode: true,
            preserve_owner: Preserve::Try,
        }
    }

    /// Chooses between read-write and write-only access to the staged file.
    pub fn read(self, read: bool) -> (r: OpenOptions)
        ensures
            r == (OpenOptions { read, ..self }),
    {
        OpenOptions { read, ..self }
    }

    /// Sets the creation mode bits.
    pub fn mode(self, mode: u32) -> (r: OpenOptions)
        ensures
            r == (OpenOptions { mode, ..self }),
    {
        OpenOptions { mode, ..self }
    }

    /// Sets extra open(2) flag bits for the creation call.
    pub fn custom_flags(self, custom_flags: i32) -> (r: OpenOptions)
        ensures
            r == (OpenOptions { custom_flags, ..self }),
    {
        OpenOptions { custom_flags, ..self }
    }

    /// Chooses whether the pre-existing file's permission bits are copied.
    pub fn preserve_mode(self, preserve_mode: bool) -> (r: OpenOptions)
        ensures
            r == (OpenOptions { preserve_mode, ..self }),
    {
        OpenOptions { preserve_mode, ..self }
    }

    /// Chooses how the pre-existing file's ownership is treated.
    pub fn preserve_owner(self, preserve_owner: Preserve) -> (r: OpenOptions)
        ensures
            r == (OpenOptions { preserve_owner, ..self }),
    {
        OpenOptions { preserve_owner, ..self }
    }
}

impl Default for OpenOptions {
    /// The same defaults as `new`.
    fn default() -> (r: OpenOptions)
        ensures
            r.read == false,
            r.mode == 0o666u32,
            r.custom_flags == 0i32,
            r.preserve_mode == true,
            r.preserve_owner is Try,
    {
        OpenOptions::new()
    }
}

} // verus!
