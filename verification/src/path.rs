//! Splitting a target path into its parent directory and base name.
//!
//! The engine opens the parent directory once and afterwards names the
//! target only relative to that descriptor, so the split happens exactly
//! once, up front. Trailing separators and trailing `/.` self-references do
//! not change which file a path names, so they are stripped first, as the
//! platform's own path resolution does; a path whose final component is
//! then empty, `.` or `..` has no usable file-name component and is
//! rejected as the directory-class error.

use vstd::prelude::*;

use crate::errors::OsError;
use crate::name::DOT_BYTE;

verus! {

/// The byte value of an ASCII path separator.
pub const SLASH_BYTE: u8 = 47;

/// `p` with every trailing separator and trailing `/.` self-reference
/// removed: the spelling of the path that names the same file with a
/// usable final component.
pub open spec fn trimmed(p: Seq<u8>) -> Seq<u8>
    decreases p.len(),
{
    if p.len() > 0 && p[p.len() - 1] == SLASH_BYTE {
        trimmed(p.drop_last())
    } else if p.len() >= 2 && p[p.len() - 1] == DOT_BYTE && p[p.len() - 2] == SLASH_BYTE {
        trimmed(p.drop_last())
    } else {
        p
    }
}

/// Stripping never lengthens a path.
pub proof fn lemma_trimmed_len(p: Seq<u8>)
    ensures
        trimmed(p).len() <= p.len(),
    decreases p.len(),
{
    if p.len() > 0 && p[p.len() - 1] == SLASH_BYTE {
        lemma_trimmed_len(p.drop_last());
    } else if p.len() >= 2 && p[p.len() - 1] == DOT_BYTE && p[p.len() - 2] == SLASH_BYTE {
        lemma_trimmed_len(p.drop_last());
    }
}

/// `i` is the position of the last separator in `p`.
pub open spec fn is_last_slash(p: Seq<u8>, i: int) -> bool {
    &&& 0 <= i < p.len()
    &&& p[i] == SLASH_BYTE
    &&& forall|j: int| i < j < p.len() ==> p[j] != SLASH_BYTE
}

/// Whether `p` holds a separator at all.
pub open spec fn has_slash(p: Seq<u8>) -> bool {
    exists|i: int| 0 <= i < p.len() && p[i] == SLASH_BYTE
}

/// The position of the last separator in `p`; meaningful when `has_slash(p)`.
pub open spec fn last_slash(p: Seq<u8>) -> int {
    choose|i: int| is_last_slash(p, i)
}

/// The base name of `p`: everything after the last separator, or all of `p`
/// when it has none.
pub open spec fn file_part(p: Seq<u8>) -> Seq<u8> {
    if has_slash(p) {
        p.subrange(last_slash(p) + 1, p.len() as int)
    } else {
        p
    }
}

/// The parent of `p`: everything before the last separator, the root when
/// the last separator starts the path, or empty (meaning the current
/// directory) when `p` has no separator.
pub open spec fn dir_part(p: Seq<u8>) -> Seq<u8> {
    if !has_slash(p) {
        Seq::empty()
    } else if last_slash(p) == 0 {
        seq![SLASH_BYTE]
    } else {
        p.subrange(0, last_slash(p))
    }
}

/// A base name the engine can stage for: non-empty, free of separators, and
/// not one of the two directory self-references.
pub open spec fn is_valid_file_name(n: Seq<u8>) -> bool {
    &&& n.len() > 0
    &&& (forall|i: int| 0 <= i < n.len() ==> n[i] != SLASH_BYTE)
    &&& n != seq![DOT_BYTE]
    &&& n != seq![DOT_BYTE, DOT_BYTE]
}

/// Two positions that are both the last separator are the same position.
pub proof fn lemma_last_slash_unique(p: Seq<u8>, i: int, j: int)
    requires
        is_last_slash(p, i),
        is_last_slash(p, j),
    ensures
        i == j,
{
    if i < j {
        assert(p[j] != SLASH_BYTE);
    }
    if j < i {
        assert(p[i] != SLASH_BYTE);
    }
}

/// Splits `path` into its parent directory and base name, stripping the
/// trailing separators and self-references that the platform's own
/// resolution ignores, and rejecting a path with no usable file-name
/// component.
pub fn split_path(path: &Vec<u8>) -> (r: Result<(Vec<u8>, Vec<u8>), OsError>)
    ensures
        r is Ok <==> is_valid_file_name(file_part(trimmed(path@))),
        r is Ok ==> r->Ok_0.0@ == dir_part(trimmed(path@)),
        r is Ok ==> r->Ok_0.1@ == file_part(trimmed(path@)),
        r is Ok ==> r->Ok_0.1@.len() <= path@.len(),
        r is Err ==> r->Err_0 == OsError::IsADirectory,
{
    let mut t = vstd::slice::slice_to_vec(path.as_slice());
    loop
        invariant
            trimmed(t@) == trimmed(path@),
            t@.len() <= path@.len(),
        ensures
            t@ == trimmed(path@),
            t@.len() <= path@.len(),
        decreases t@.len(),
    {
        let len = t.len();
        if len > 0 && *t.get(len - 1).unwrap() == SLASH_BYTE {
            t.pop();
        } else if len >= 2 && *t.get(len - 1).unwrap() == DOT_BYTE && *t.get(len - 2).unwrap()
            == SLASH_BYTE {
            t.pop();
        } else {
            break;
        }
    }
    let n = t.len();
    let mut s: usize = n;
    while s > 0 && *t.get(s - 1).unwrap() != SLASH_BYTE
        invariant
            s <= n,
            n == t@.len(),
            t@ == trimmed(path@),
            n <= path@.len(),
            forall|j: int| s <= j < n ==> t@[j] != SLASH_BYTE,
        decreases s,
    {
        s = s - 1;
    }
    proof {
        if s > 0 {
            assert(is_last_slash(t@, s - 1));
            assert(has_slash(t@));
            lemma_last_slash_unique(t@, last_slash(t@), s - 1);
            assert(last_slash(t@) == s - 1);
            assert(file_part(t@) =~= t@.subrange(s as int, n as int));
        } else {
            assert(!has_slash(t@));
            assert(file_part(t@) =~= t@.subrange(s as int, n as int));
        }
    }
    let name = vstd::slice::slice_to_vec(&t[s..n]);
    let valid = name.len() > 0 && !(name.len() == 1 && *name.get(0).unwrap() == DOT_BYTE) && !(
    name.len() == 2 && *name.get(0).unwrap() == DOT_BYTE && *name.get(1).unwrap() == DOT_BYTE);
    proof {
        if name@.len() == 1 && name@[0] == DOT_BYTE {
            assert(name@ =~= seq![DOT_BYTE]);
        }
        if name@.len() == 2 && name@[0] == DOT_BYTE && name@[1] == DOT_BYTE {
            assert(name@ =~= seq![DOT_BYTE, DOT_BYTE]);
        }
        if name@ == seq![DOT_BYTE] {
            assert(name@.len() == 1 && name@[0] == DOT_BYTE);
        }
        if name@ == seq![DOT_BYTE, DOT_BYTE] {
            assert(name@.len() == 2 && name@[0] == DOT_BYTE && name@[1] == DOT_BYTE);
        }
    }
    if !valid {
        return Err(OsError::IsADirectory);
    }
    if s == 0 {
        let dir: Vec<u8> = Vec::new();
        assert(dir@ =~= dir_part(t@));
        Ok((dir, name))
    } else if s == 1 {
        let mut dir: Vec<u8> = Vec::new();
        dir.push(SLASH_BYTE);
        assert(dir@ =~= dir_part(t@));
        Ok((dir, name))
    } else {
        let dir = vstd::slice::slice_to_vec(&t[0..s - 1]);
        assert(dir@ =~= dir_part(t@));
        Ok((dir, name))
    }
}

} // verus!
