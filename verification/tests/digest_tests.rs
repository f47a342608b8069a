use base64::Engine;
use blake3_digest::digest::{Comparand, Digest};

// The BLAKE3 reference vectors for the empty input and for the ASCII string
// "abc", as published with the algorithm (the same values the reference
// implementation's own one-shot entry point computes, asserted below).
const EMPTY_HEX: &str = "af1349b9f5f9a1a6a0404dea36dcc9499bcb25c9adc112b7cc9a93cae41f3262";
const ABC_HEX: &str = "6437b3ac38465133ffb63b75273a8db548c558465d79db03fd359c6cd5bd9d85";

#[test]
fn known_vector_empty() {
    // The pinned constant against the primitive's independent one-shot path.
    assert_eq!(hex::encode(blake3::hash(b"").as_bytes()), EMPTY_HEX);

    let d = Digest::new();
    assert_eq!(d.hexdigest(), EMPTY_HEX);
    assert_eq!(d.digest().len(), 32);
    assert_eq!(hex::encode(d.digest()), EMPTY_HEX);
}

#[test]
fn known_vector_abc() {
    assert_eq!(hex::encode(blake3::hash(b"abc").as_bytes()), ABC_HEX);

    let mut d = Digest::new();
    d.update(b"abc");
    assert_eq!(d.hexdigest(), ABC_HEX);
}

#[test]
fn streaming_equivalence() {
    let mut split = Digest::new();
    split.update(b"ab");
    split.update(b"cd");

    let mut whole = Digest::new();
    whole.update(b"abcd");

    assert_eq!(split.digest(), whole.digest());

    let mut with_empty = Digest::new();
    with_empty.update(b"");
    with_empty.update(b"abcd");
    assert_eq!(with_empty.digest(), whole.digest());

    let mut empty_tail = Digest::new();
    empty_tail.update(b"abcd");
    empty_tail.update(b"");
    assert_eq!(empty_tail.digest(), whole.digest());
}

#[test]
fn end_to_end_scenario() {
    let mut d = Digest::new();
    d.update(b"ab");
    d.update(b"cd");

    let mut e = Digest::new();
    e.update(b"abcd");

    assert_eq!(d.digest(), e.digest());
}

#[test]
fn reset_idempotence() {
    let mut resetting = Digest::new();
    resetting.update(b"some input");

    let mut plain = Digest::new();
    plain.update(b"some input");

    assert_eq!(resetting.digest_and_reset(), plain.digest());
    // After the reset the handle behaves like a fresh one.
    assert_eq!(resetting.hexdigest(), EMPTY_HEX);
    resetting.update(b"abc");
    assert_eq!(resetting.hexdigest(), ABC_HEX);
}

#[test]
fn hexdigest_and_reset_matches() {
    let mut d = Digest::new();
    d.update(b"abc");
    assert_eq!(d.hexdigest_and_reset(), ABC_HEX);
    assert_eq!(d.hexdigest(), EMPTY_HEX);
}

#[test]
fn base64digest_and_reset_matches() {
    let mut d = Digest::new();
    d.update(b"abc");
    let expected = base64::prelude::BASE64_STANDARD.encode(d.digest());
    assert_eq!(d.base64digest_and_reset(), expected);
    assert_eq!(d.base64digest(), base64::prelude::BASE64_STANDARD.encode(Digest::new().digest()));
}

#[test]
fn clone_independence() {
    let mut original = Digest::new();
    original.update(b"ab");
    let clone = original.cloned();

    original.update(b"cd");

    let mut reference = Digest::new();
    reference.update(b"ab");
    assert_eq!(clone.digest(), reference.digest());

    let mut clone = clone;
    clone.update(b"zz");
    let mut updated_reference = Digest::new();
    updated_reference.update(b"abcd");
    assert_eq!(original.digest(), updated_reference.digest());
}

#[test]
fn hex_round_trip() {
    for input in [&b""[..], b"abcd", b"a longer input with some length to it"] {
        let mut d = Digest::new();
        d.update(input);
        let hex = d.hexdigest();
        assert_eq!(hex.len(), 64);
        assert_eq!(hex::decode(&hex).unwrap(), d.digest());
    }
}

#[test]
fn base64_round_trip() {
    for input in [&b""[..], b"abcd", b"a longer input with some length to it"] {
        let mut d = Digest::new();
        d.update(input);
        let b64 = d.base64digest();
        assert_eq!(b64.len(), 44);
        assert!(b64.ends_with('='));
        assert_eq!(
            base64::prelude::BASE64_STANDARD.decode(&b64).unwrap(),
            d.digest()
        );
    }
}

#[test]
fn equality_by_digest_bytes() {
    let mut split = Digest::new();
    split.update(b"ab");
    split.update(b"cd");

    let mut whole = Digest::new();
    whole.update(b"abcd");

    assert!(split.is_equal(Comparand::Handle(&whole)));
    assert!(whole.is_equal(Comparand::Handle(&split)));

    let mut different = Digest::new();
    different.update(b"abce");
    assert!(!split.is_equal(Comparand::Handle(&different)));
}

#[test]
fn equality_with_text() {
    let mut d = Digest::new();
    d.update(b"abc");

    let hex = d.hexdigest();
    assert!(d.is_equal(Comparand::Text(&hex)));

    let upper = hex.to_uppercase();
    assert!(!d.is_equal(Comparand::Text(&upper)));

    let other = String::from("not a digest");
    assert!(!d.is_equal(Comparand::Text(&other)));
}

#[test]
fn equality_with_other_kinds() {
    let d = Digest::new();
    assert!(!d.is_equal(Comparand::Other));
}

#[test]
fn inspect_embeds_hexdigest() {
    let mut d = Digest::new();
    d.update(b"abc");
    assert_eq!(d.inspect(), format!("#<Blake3::Digest: {}>", ABC_HEX));
}

#[test]
fn verified_law_demonstrations_run() {
    assert!(blake3_digest::digest::streaming_equivalence(b"ab", b"cd", b"abcd"));
    assert!(blake3_digest::digest::streaming_equivalence(b"", b"abcd", b"abcd"));

    let mut handle = Digest::new();
    handle.update(b"some input");
    let mut witness = Digest::new();
    witness.update(b"some input");
    assert!(blake3_digest::digest::reset_idempotence(&mut handle, &witness));
    assert_eq!(handle.hexdigest(), EMPTY_HEX);

    let mut original = Digest::new();
    original.update(b"ab");
    assert!(blake3_digest::digest::clone_independence(&mut original, b"cd", b"zz"));
    let mut reference = Digest::new();
    reference.update(b"abcd");
    assert_eq!(original.digest(), reference.digest());
}

#[test]
fn metadata_lengths() {
    let d = Digest::new();
    assert_eq!(d.digest_length(), 32);
    assert_eq!(d.block_length(), 64);
}
