//! Trusted boundary around the BLAKE3 primitive.
//!
//! The incremental hash state lives in a `blake3::Hasher`, which is opaque to
//! the verifier. Two names describe such a value: `absorbed`, the bytes it has
//! taken in since it was created or last reset, and `standard_mode`, whether it
//! hashes in the plain (unkeyed, offset-free) mode that `blake3::Hasher::new`
//! sets up. The digest itself is named by `blake3_of`; nothing here restates
//! the algorithm, only how the crate's entry points move these names around.

use vstd::prelude::*;

verus! {

#[verifier::external_type_specification]
#[verifier::external_body]
pub struct ExHasher(blake3::Hasher);

/// The 32-byte BLAKE3 digest of a byte sequence. The algorithm is a pure
/// function of its input, so the result is a function of the bytes alone.
pub uninterp spec fn blake3_of(input: Seq<u8>) -> Seq<u8>;

/// The bytes a hasher has absorbed since it was created or last reset.
pub uninterp spec fn absorbed(h: blake3::Hasher) -> Seq<u8>;

/// Whether a hasher runs the plain hash: made by `blake3::Hasher::new`, so
/// neither keyed nor derive-key, and with no input offset from the `hazmat`
/// interface. Finalizing is defined (and panic-free) only in this mode.
pub uninterp spec fn standard_mode(h: blake3::Hasher) -> bool;

/// Relies on `blake3::Hasher::new`: a fresh hasher in the plain mode with
/// nothing absorbed yet.
pub assume_specification[ blake3::Hasher::new ]() -> (h: blake3::Hasher)
    ensures
        standard_mode(h),
        absorbed(h) == Seq::<u8>::empty(),
;

/// Relies on `<blake3::Hasher as Clone>::clone`: an independent hasher with
/// the same mode and the same absorbed bytes.
pub assume_specification[ <blake3::Hasher as Clone>::clone ](h: &blake3::Hasher) -> (r:
    blake3::Hasher)
    ensures
        standard_mode(r) == standard_mode(*h),
        absorbed(r) == absorbed(*h),
;

/// Relies on `blake3::Hasher::update`: appends the input to the absorbed
/// bytes and changes nothing else about the hasher's mode. Only plain-mode
/// hashers are admitted: on a hasher carrying a `hazmat` input offset the
/// call panics at ordinary input lengths.
#[verifier::external_body]
pub(crate) fn hasher_update(h: &mut blake3::Hasher, input: &[u8])
    requires
        standard_mode(*old(h)),
    ensures
        standard_mode(*final(h)),
        absorbed(*final(h)) == absorbed(*old(h)) + input@,
{
    h.update(input);
}

/// Relies on `blake3::Hasher::reset`: back to the state of a freshly made
/// hasher of the same mode, with nothing absorbed.
#[verifier::external_body]
pub(crate) fn hasher_reset(h: &mut blake3::Hasher)
    ensures
        standard_mode(*final(h)) == standard_mode(*old(h)),
        absorbed(*final(h)) == Seq::<u8>::empty(),
{
    h.reset();
}

/// Relies on `blake3::Hasher::finalize`: the 32-byte digest of the absorbed
/// bytes, without mutating the hasher; idempotent between updates.
#[verifier::external_body]
pub(crate) fn hasher_finalize(h: &blake3::Hasher) -> (r: Vec<u8>)
    requires
        standard_mode(*h),
    ensures
        r@ == blake3_of(absorbed(*h)),
        r@.len() == 32,
{
    h.finalize().as_bytes().to_vec()
}

/// Relies on `blake3::Hasher::finalize_xof` and `blake3::OutputReader::fill`:
/// the extended output is a prefix-extension of the digest, so filling a
/// 32-byte buffer from the front writes exactly the digest, in place, without
/// mutating the hasher.
#[verifier::external_body]
pub(crate) fn hasher_finalize_into(h: &blake3::Hasher, out: &mut Vec<u8>)
    requires
        standard_mode(*h),
        old(out)@.len() == 32,
    ensures
        final(out)@ == blake3_of(absorbed(*h)),
        final(out)@.len() == 32,
{
    h.finalize_xof().fill(out.as_mut_slice());
}

} // verus!
