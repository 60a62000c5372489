//! Collision-resistant candidate names for staging files.
//!
//! A candidate name is `.` + base name + `.` + six random ASCII letters or
//! digits. The generator makes no uniqueness promise: the caller retries
//! with a fresh suffix when a name collides, and the sixty-two possibilities
//! per position make a long retry run vanishingly unlikely.

use vstd::prelude::*;

verus! {

/// The byte value of an ASCII dot.
pub const DOT_BYTE: u8 = 46;

/// How many random bytes end a candidate name.
pub const SUFFIX_LEN: usize = 6;

/// The ASCII codes of `0`..`9`, `A`..`Z` and `a`..`z`.
pub open spec fn is_alphanumeric_byte(b: u8) -> bool {
    (48 <= b <= 57) || (65 <= b <= 90) || (97 <= b <= 122)
}

/// What a candidate staging name for `base` looks like: a leading dot, the
/// base name, a dot, and six ASCII letters or digits.
pub open spec fn is_staging_name(name: Seq<u8>, base: Seq<u8>) -> bool {
    &&& name.len() == base.len() + 8
    &&& name[0] == DOT_BYTE
    &&& name.subrange(1, base.len() + 1 as int) == base
    &&& name[base.len() + 1 as int] == DOT_BYTE
    &&& forall|i: int| base.len() + 2 <= i < name.len() ==> is_alphanumeric_byte(name[i])
}

/// A staging name is always longer than its base name, so publishing a
/// staging file can never be asked to rename a name onto itself, and a
/// candidate entry never collides with the target entry itself.
pub proof fn lemma_staging_name_differs(name: Seq<u8>, base: Seq<u8>)
    requires
        is_staging_name(name, base),
    ensures
        name != base,
{
    assert(name.len() == base.len() + 8);
}

/// Relies on rand: sampling the Alphanumeric distribution from the
/// thread-local generator yields one of the sixty-two ASCII letters or
/// digits, uniformly.
#[verifier::external_body]
fn sample_alphanumeric() -> (b: u8)
    ensures
        is_alphanumeric_byte(b),
{
    rand::Rng::sample(&mut rand::thread_rng(), rand::distributions::Alphanumeric)
}

/// The mutable name buffer: `.` + base + `.` + suffix, with only the
/// trailing suffix bytes rewritten on each retry.
pub struct RandomName {
    buf: Vec<u8>,
}

impl View for RandomName {
    type V = Seq<u8>;

    closed spec fn view(&self) -> Seq<u8> {
        self.buf@
    }
}

impl RandomName {
    /// The buffer has the fixed layout around a base name of its length
    /// minus the two dots and the suffix.
    pub open spec fn wf(&self) -> bool {
        &&& self@.len() >= 8
        &&& self@[0] == DOT_BYTE
        &&& self@[self@.len() - 7] == DOT_BYTE
    }

    /// The base name embedded in the buffer.
    pub open spec fn base(&self) -> Seq<u8> {
        self@.subrange(1, self@.len() - 7)
    }

    /// The suffix holds only ASCII letters and digits, so the whole buffer
    /// is a staging name for the base.
    pub open spec fn suffix_ready(&self) -> bool {
        forall|i: int| self@.len() - 6 <= i < self@.len() ==> is_alphanumeric_byte(self@[i])
    }

    /// Builds the buffer for `base`. The suffix starts zeroed and holds no
    /// candidate until the first call to `next`.
    pub fn new(base: &Vec<u8>) -> (r: RandomName)
        requires
            base@.len() + 8 <= usize::MAX,
        ensures
            r.wf(),
            r.base() == base@,
            r@.len() == base@.len() + 8,
            r@ == seq![DOT_BYTE] + base@ + seq![DOT_BYTE] + Seq::new(
                SUFFIX_LEN as nat,
                |j: int| 0u8,
            ),
    {
        let mut buf: Vec<u8> = Vec::new();
        buf.push(DOT_BYTE);
        buf.extend_from_slice(base.as_slice());
        buf.push(DOT_BYTE);
        let mut i: usize = 0;
        while i < SUFFIX_LEN
            invariant
                i <= SUFFIX_LEN,
                buf@ == seq![DOT_BYTE] + base@ + seq![DOT_BYTE] + Seq::new(i as nat, |j: int| 0u8),
            decreases SUFFIX_LEN - i,
        {
            buf.push(0);
            assert(buf@ == seq![DOT_BYTE] + base@ + seq![DOT_BYTE] + Seq::new(
                (i + 1) as nat,
                |j: int| 0u8,
            ));
            i = i + 1;
        }
        let r = RandomName { buf };
        assert(r.base() == base@) by {
            assert(r@.subrange(1, r@.len() - 7) =~= base@);
        }
        r
    }

    /// Rewrites the suffix with six freshly sampled letters or digits; the
    /// rest of the buffer is untouched.
    pub fn next(&mut self)
        requires
            old(self).wf(),
        ensures
            final(self).wf(),
            final(self)@.len() == old(self)@.len(),
            final(self).base() == old(self).base(),
            final(self).suffix_ready(),
            is_staging_name(final(self)@, final(self).base()),
    {
        let ghost prev = self.buf@;
        let keep = self.buf.len() - SUFFIX_LEN;
        self.buf.truncate(keep);
        let mut i: usize = 0;
        while i < SUFFIX_LEN
            invariant
                i <= SUFFIX_LEN,
                self.buf@.len() == keep + i,
                keep == prev.len() - 6,
                keep >= 2,
                self.buf@.subrange(0, keep as int) == prev.subrange(0, keep as int),
                forall|j: int| keep <= j < self.buf@.len() ==> is_alphanumeric_byte(self.buf@[j]),
            decreases SUFFIX_LEN - i,
        {
            let b = sample_alphanumeric();
            self.buf.push(b);
            i = i + 1;
        }
        proof {
            assert forall|j: int| 0 <= j < keep as int implies self.buf@[j] == prev[j] by {
                assert(self.buf@.subrange(0, keep as int)[j] == self.buf@[j]);
                assert(prev.subrange(0, keep as int)[j] == prev[j]);
            }
            assert(self.base() =~= prev.subrange(1, prev.len() - 7));
            assert(self@.subrange(1, self.base().len() + 1 as int) =~= self.base());
        }
    }

    /// Borrows the current buffer, for issuing the creation call.
    pub fn bytes(&self) -> (r: &Vec<u8>)
        ensures
            r@ == self@,
    {
        &self.buf
    }

    /// Gives up the buffer as the name that stuck.
    pub fn into_name(self) -> (r: Vec<u8>)
        ensures
            r@ == self@,
    {
        self.buf
    }
}

} // verus!
