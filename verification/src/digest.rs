//! The object-level streaming digest handle.
//!
//! A `Digest` owns one BLAKE3 hasher. Its view is the sequence of bytes fed
//! since creation or the last reset, and every operation's contract is stated
//! over that sequence: updating appends, resetting empties, and the finalize
//! family returns `digest_spec` of it in raw, hexadecimal or base64 form,
//! without mutating the state unless the operation is one of the `_and_reset`
//! pair-ups.

use vstd::prelude::*;

use crate::encoding::{base64_encode, base64_of, hex_encode, hex_of};
use crate::primitive::{
    absorbed, blake3_of, hasher_finalize, hasher_reset, hasher_update, standard_mode,
};

verus! {

/// The accumulated bytes of a freshly created or freshly reset handle.
pub open spec fn fresh_state() -> Seq<u8> {
    Seq::<u8>::empty()
}

/// The raw 32-byte digest of a handle that has accumulated `s`.
pub open spec fn digest_spec(s: Seq<u8>) -> Seq<u8> {
    blake3_of(s)
}

/// The 64-character lower-case hexadecimal form of the digest.
pub open spec fn hexdigest_spec(s: Seq<u8>) -> Seq<char> {
    hex_of(blake3_of(s))
}

/// The 44-character standard base64 form of the digest.
pub open spec fn base64digest_spec(s: Seq<u8>) -> Seq<char> {
    base64_of(blake3_of(s))
}

/// The human-readable form: the hexadecimal digest inside a class marker.
pub open spec fn inspect_spec(s: Seq<u8>) -> Seq<char> {
    "#<Blake3::Digest: "@ + hexdigest_spec(s) + ">"@
}

/// A streaming hash handle owning one incremental BLAKE3 state.
pub struct Digest {
    hasher: blake3::Hasher,
}

impl View for Digest {
    type V = Seq<u8>;

    closed spec fn view(&self) -> Seq<u8> {
        absorbed(self.hasher)
    }
}

/// What a comparand of `is_equal` may be: another handle, a text value, or
/// anything else.
pub enum Comparand<'a> {
    Handle(&'a Digest),
    Text(&'a String),
    Other,
}

/// Byte-for-byte comparison of two slices.
fn bytes_equal(a: &[u8], b: &[u8]) -> (r: bool)
    ensures
        r == (a@ == b@),
{
    if a.len() != b.len() {
        return false;
    }
    let mut i: usize = 0;
    while i < a.len()
        invariant
            i <= a@.len(),
            a@.len() == b@.len(),
            forall|j: int| 0 <= j < i ==> a@[j] == b@[j],
        decreases a@.len() - i,
    {
        if a[i] != b[i] {
            return false;
        }
        i = i + 1;
    }
    proof {
        assert(a@ =~= b@);
    }
    true
}

impl Digest {
    /// The handle is backed by a hasher of the plain BLAKE3 mode; every
    /// constructor establishes this and every method keeps it.
    pub closed spec fn wf(&self) -> bool {
        standard_mode(self.hasher)
    }

    /// A new handle with nothing accumulated.
    pub fn new() -> (d: Digest)
        ensures
            d.wf(),
            d@ == fresh_state(),
    {
        Digest { hasher: blake3::Hasher::new() }
    }

    /// An independent handle starting from the same accumulated bytes.
    pub fn cloned(&self) -> (d: Digest)
        requires
            self.wf(),
        ensures
            d.wf(),
            d@ == self@,
    {
        Digest { hasher: self.hasher.clone() }
    }

    /// Feeds `input` into the handle; the accumulated bytes grow by exactly
    /// `input`, in order.
    pub fn update(&mut self, input: &[u8])
        requires
            old(self).wf(),
        ensures
            final(self).wf(),
            final(self)@ == old(self)@ + input@,
    {
        hasher_update(&mut self.hasher, input);
    }

    /// Discards the accumulated bytes: the handle is as freshly created.
    pub fn reset(&mut self)
        requires
            old(self).wf(),
        ensures
            final(self).wf(),
            final(self)@ == fresh_state(),
    {
        hasher_reset(&mut self.hasher);
    }

    /// The 32-byte digest of everything fed so far; does not mutate the
    /// handle, so repeated calls between mutations agree.
    pub fn digest(&self) -> (r: Vec<u8>)
        requires
            self.wf(),
        ensures
            r@ == digest_spec(self@),
            r@.len() == 32,
    {
        hasher_finalize(&self.hasher)
    }

    /// The digest, then a reset: returns the pre-reset digest and leaves the
    /// handle as freshly created.
    pub fn digest_and_reset(&mut self) -> (r: Vec<u8>)
        requires
            old(self).wf(),
        ensures
            final(self).wf(),
            final(self)@ == fresh_state(),
            r@ == digest_spec(old(self)@),
            r@.len() == 32,
    {
        let r = self.digest();
        self.reset();
        r
    }

    /// The digest as exactly 64 lower-case hexadecimal characters.
    pub fn hexdigest(&self) -> (r: String)
        requires
            self.wf(),
        ensures
            r@ == hexdigest_spec(self@),
            r@.len() == 64,
    {
        let raw = self.digest();
        proof {
            crate::encoding::lemma_hex_round_trip(raw@);
        }
        hex_encode(raw.as_slice())
    }

    /// The hexadecimal digest, then a reset.
    pub fn hexdigest_and_reset(&mut self) -> (r: String)
        requires
            old(self).wf(),
        ensures
            final(self).wf(),
            final(self)@ == fresh_state(),
            r@ == hexdigest_spec(old(self)@),
            r@.len() == 64,
    {
        let r = self.hexdigest();
        self.reset();
        r
    }

    /// The digest as exactly 44 standard base64 characters, `=`-padded.
    pub fn base64digest(&self) -> (r: String)
        requires
            self.wf(),
        ensures
            r@ == base64digest_spec(self@),
            r@.len() == 44,
    {
        let raw = self.digest();
        proof {
            crate::encoding::lemma_base64_round_trip(raw@);
        }
        base64_encode(raw.as_slice())
    }

    /// The base64 digest, then a reset.
    pub fn base64digest_and_reset(&mut self) -> (r: String)
        requires
            old(self).wf(),
        ensures
            final(self).wf(),
            final(self)@ == fresh_state(),
            r@ == base64digest_spec(old(self)@),
            r@.len() == 44,
    {
        let r = self.base64digest();
        self.reset();
        r
    }

    /// Digest length in bytes: constant, independent of state.
    pub fn digest_length(&self) -> (r: usize)
        ensures
            r == 32,
    {
        32
    }

    /// Block length of the algorithm in bytes: constant, independent of state.
    pub fn block_length(&self) -> (r: usize)
        ensures
            r == 64,
    {
        64
    }

    /// Human-readable form embedding the hexadecimal digest.
    pub fn inspect(&self) -> (r: String)
        requires
            self.wf(),
        ensures
            r@ == inspect_spec(self@),
    {
        let hex = self.hexdigest();
        let mut out = String::from_str("#<Blake3::Digest: ");
        out.append(hex.as_str());
        out.append(">");
        out
    }

    /// Value comparison, total over every comparand kind: another handle
    /// compares by finalized digest bytes, a text value by exact equality
    /// with the hexadecimal encoding, and anything else is unequal.
    pub fn is_equal(&self, other: Comparand<'_>) -> (r: bool)
        requires
            self.wf(),
            other matches Comparand::Handle(h) ==> h.wf(),
        ensures
            r == match other {
                Comparand::Handle(h) => digest_spec(h@) == digest_spec(self@),
                Comparand::Text(t) => t@ == hexdigest_spec(self@),
                Comparand::Other => false,
            },
    {
        match other {
            Comparand::Handle(h) => {
                let theirs = h.digest();
                let ours = self.digest();
                bytes_equal(theirs.as_slice(), ours.as_slice())
            },
            Comparand::Text(t) => {
                let hex = self.hexdigest();
                hex == *t
            },
            Comparand::Other => false,
        }
    }
}

/// Streaming equivalence: feeding `a` and then `b` accumulates the same bytes,
/// and therefore the same digest, as feeding their concatenation in one call,
/// whatever was accumulated before.
pub proof fn lemma_streaming_equivalence(s: Seq<u8>, a: Seq<u8>, b: Seq<u8>)
    ensures
        digest_spec(s + a + b) == digest_spec(s + (a + b)),
{
    assert(s + a + b =~= s + (a + b));
}

/// Streaming equivalence at the level of the operations themselves: for any
/// split of an input into `a` and `b`, feeding the two pieces in turn and
/// feeding the whole input in one call always finalize to the same bytes.
/// The result is proved `true` for every choice of inputs.
pub fn streaming_equivalence(a: &[u8], b: &[u8], whole_input: &[u8]) -> (agree: bool)
    requires
        whole_input@ == a@ + b@,
    ensures
        agree,
{
    let mut split = Digest::new();
    split.update(a);
    split.update(b);

    let mut whole = Digest::new();
    whole.update(whole_input);

    proof {
        assert(fresh_state() + a@ + b@ =~= fresh_state() + whole_input@);
    }
    let split_digest = split.digest();
    let whole_digest = whole.digest();
    bytes_equal(split_digest.as_slice(), whole_digest.as_slice())
}

/// Reset idempotence at the level of the operations themselves: finalizing
/// with a reset returns the same digest as a separately finalized, non-reset
/// handle holding the same accumulated bytes, and leaves the handle in the
/// state of a freshly created one. The result is proved `true` for every
/// handle and witness.
pub fn reset_idempotence(handle: &mut Digest, witness: &Digest) -> (agree: bool)
    requires
        old(handle).wf(),
        witness.wf(),
        witness@ == old(handle)@,
    ensures
        agree,
        final(handle).wf(),
        final(handle)@ == fresh_state(),
{
    let from_reset = handle.digest_and_reset();
    let from_plain = witness.digest();
    bytes_equal(from_reset.as_slice(), from_plain.as_slice())
}

/// Clone independence at the level of the operations themselves: after
/// `cloned`, updating the original does not change the clone's subsequent
/// digest, and updating the clone does not change the original's. The result
/// is proved `true` for every handle and every pair of updates.
pub fn clone_independence(original: &mut Digest, input_a: &[u8], input_b: &[u8]) -> (independent:
    bool)
    requires
        old(original).wf(),
    ensures
        independent,
        final(original).wf(),
        final(original)@ == old(original)@ + input_a@,
{
    let mut clone = original.cloned();

    let clone_before = clone.digest();
    original.update(input_a);
    let clone_after = clone.digest();

    let original_before = original.digest();
    clone.update(input_b);
    let original_after = original.digest();

    let clone_untouched = bytes_equal(clone_before.as_slice(), clone_after.as_slice());
    let original_untouched = bytes_equal(original_before.as_slice(), original_after.as_slice());
    clone_untouched && original_untouched
}

} // verus!
