//! Text encodings of digest bytes: lower-case hexadecimal and standard
//! (padded, not URL-safe) base64.
//!
//! Both encodings are pinned down exactly by spec functions, and each comes
//! with a decode spec function and a proof that decoding an encoding returns
//! the original bytes.

use vstd::prelude::*;

use base64::Engine;

verus! {

/// Lower-case hexadecimal digit for a nibble value.
pub open spec fn nibble_char(n: u8) -> char {
    if n < 10 {
        ((48 + n) as u8) as char
    } else {
        ((87 + n) as u8) as char
    }
}

/// Nibble value of a lower-case hexadecimal digit.
pub open spec fn nibble_val(c: char) -> u8 {
    let b = c as u8;
    if b >= 97 {
        (b - 87) as u8
    } else {
        (b - 48) as u8
    }
}

/// Lower-case hexadecimal encoding: two digits per byte, high nibble first.
pub open spec fn hex_of(s: Seq<u8>) -> Seq<char>
    decreases s.len(),
{
    if s.len() == 0 {
        Seq::empty()
    } else {
        seq![nibble_char(s[0] / 16), nibble_char(s[0] % 16)] + hex_of(s.skip(1))
    }
}

/// Inverse of `hex_of`: reads digit pairs back into bytes.
pub open spec fn hex_decode(cs: Seq<char>) -> Seq<u8>
    decreases cs.len(),
{
    if cs.len() < 2 {
        Seq::empty()
    } else {
        seq![(16 * nibble_val(cs[0]) + nibble_val(cs[1])) as u8] + hex_decode(cs.skip(2))
    }
}

proof fn lemma_nibble_round_trip(n: u8)
    requires
        n < 16,
    ensures
        nibble_val(nibble_char(n)) == n,
{
}

/// Hex encoding law: it loses nothing (decoding gives the bytes back), and its
/// length is exactly two characters per byte, for every byte sequence.
pub proof fn lemma_hex_round_trip(s: Seq<u8>)
    ensures
        hex_decode(hex_of(s)) == s,
        hex_of(s).len() == 2 * s.len(),
    decreases s.len(),
{
    if s.len() == 0 {
        assert(hex_decode(hex_of(s)) =~= s);
    } else {
        let b = s[0];
        let rest = hex_of(s.skip(1));
        lemma_hex_round_trip(s.skip(1));
        lemma_nibble_round_trip(b / 16);
        lemma_nibble_round_trip(b % 16);
        let cs = hex_of(s);
        assert(cs == seq![nibble_char(b / 16), nibble_char(b % 16)] + rest);
        assert(cs.skip(2) =~= rest);
        assert(16 * (b / 16) + b % 16 == b);
        assert(hex_decode(cs) =~= s);
    }
}

/// Character of the standard base64 alphabet for a 6-bit value.
pub open spec fn b64_char(n: u8) -> char {
    if n < 26 {
        ((65 + n) as u8) as char
    } else if n < 52 {
        ((71 + n) as u8) as char
    } else if n < 62 {
        ((n - 4) as u8) as char
    } else if n == 62 {
        '+'
    } else {
        '/'
    }
}

/// 6-bit value of a standard base64 alphabet character.
pub open spec fn b64_val(c: char) -> u8 {
    let b = c as u8;
    if b == 43 {
        62
    } else if b == 47 {
        63
    } else if b < 65 {
        (b + 4) as u8
    } else if b < 97 {
        (b - 65) as u8
    } else {
        (b - 71) as u8
    }
}

/// Standard base64 encoding with `=` padding: each group of three bytes maps
/// to four alphabet characters; a trailing group of one or two bytes maps to
/// two or three characters followed by `==` or `=`.
pub open spec fn base64_of(s: Seq<u8>) -> Seq<char>
    decreases s.len(),
{
    if s.len() == 0 {
        Seq::empty()
    } else if s.len() == 1 {
        let b0 = s[0];
        seq![b64_char(b0 / 4), b64_char(((b0 % 4) * 16) as u8), '=', '=']
    } else if s.len() == 2 {
        let b0 = s[0];
        let b1 = s[1];
        seq![
            b64_char(b0 / 4),
            b64_char(((b0 % 4) * 16 + b1 / 16) as u8),
            b64_char(((b1 % 16) * 4) as u8),
            '=',
        ]
    } else {
        let b0 = s[0];
        let b1 = s[1];
        let b2 = s[2];
        seq![
            b64_char(b0 / 4),
            b64_char(((b0 % 4) * 16 + b1 / 16) as u8),
            b64_char(((b1 % 16) * 4 + b2 / 64) as u8),
            b64_char((b2 % 64) as u8),
        ] + base64_of(s.skip(3))
    }
}

/// Inverse of `base64_of`: reads four characters back into three bytes, or,
/// at a padded final group, into two bytes or one.
pub open spec fn base64_decode(cs: Seq<char>) -> Seq<u8>
    decreases cs.len(),
{
    if cs.len() < 4 {
        Seq::empty()
    } else {
        let v0 = b64_val(cs[0]);
        let v1 = b64_val(cs[1]);
        if cs[2] == '=' {
            seq![(v0 * 4 + v1 / 16) as u8]
        } else {
            let v2 = b64_val(cs[2]);
            if cs[3] == '=' {
                seq![(v0 * 4 + v1 / 16) as u8, ((v1 % 16) * 16 + v2 / 4) as u8]
            } else {
                let v3 = b64_val(cs[3]);
                seq![
                    (v0 * 4 + v1 / 16) as u8,
                    ((v1 % 16) * 16 + v2 / 4) as u8,
                    ((v2 % 4) * 64 + v3) as u8,
                ] + base64_decode(cs.skip(4))
            }
        }
    }
}

proof fn lemma_b64_round_trip(n: u8)
    requires
        n < 64,
    ensures
        b64_val(b64_char(n)) == n,
        b64_char(n) != '=',
{
}

/// Base64 encoding law: it loses nothing (decoding gives the bytes back), and
/// its length is exactly four characters per started group of three bytes,
/// for every byte sequence.
pub proof fn lemma_base64_round_trip(s: Seq<u8>)
    ensures
        base64_decode(base64_of(s)) == s,
        base64_of(s).len() == 4 * ((s.len() + 2) / 3),
    decreases s.len(),
{
    if s.len() == 0 {
        assert(base64_decode(base64_of(s)) =~= s);
    } else if s.len() == 1 {
        let b0 = s[0];
        lemma_b64_round_trip(b0 / 4);
        lemma_b64_round_trip(((b0 % 4) * 16) as u8);
        let cs = base64_of(s);
        assert((b0 / 4) * 4 + ((b0 % 4) * 16) / 16 == b0);
        assert(base64_decode(cs) =~= s);
    } else if s.len() == 2 {
        let b0 = s[0];
        let b1 = s[1];
        lemma_b64_round_trip(b0 / 4);
        lemma_b64_round_trip(((b0 % 4) * 16 + b1 / 16) as u8);
        lemma_b64_round_trip(((b1 % 16) * 4) as u8);
        let cs = base64_of(s);
        assert((b0 / 4) * 4 + ((b0 % 4) * 16 + b1 / 16) / 16 == b0);
        assert((((b0 % 4) * 16 + b1 / 16) % 16) * 16 + ((b1 % 16) * 4) / 4 == b1);
        assert(base64_decode(cs) =~= s);
    } else {
        let b0 = s[0];
        let b1 = s[1];
        let b2 = s[2];
        let rest = base64_of(s.skip(3));
        lemma_base64_round_trip(s.skip(3));
        lemma_b64_round_trip(b0 / 4);
        lemma_b64_round_trip(((b0 % 4) * 16 + b1 / 16) as u8);
        lemma_b64_round_trip(((b1 % 16) * 4 + b2 / 64) as u8);
        lemma_b64_round_trip((b2 % 64) as u8);
        let cs = base64_of(s);
        assert(cs.skip(4) =~= rest);
        assert((b0 / 4) * 4 + ((b0 % 4) * 16 + b1 / 16) / 16 == b0);
        assert((((b0 % 4) * 16 + b1 / 16) % 16) * 16 + ((b1 % 16) * 4 + b2 / 64) / 4 == b1);
        assert((((b1 % 16) * 4 + b2 / 64) % 4) * 64 + b2 % 64 == b2);
        assert(base64_decode(cs) =~= s);
    }
}

/// Relies on `hex::encode`: lower-case hexadecimal, two digits per input
/// byte, high nibble first.
#[verifier::external_body]
pub(crate) fn hex_encode(bytes: &[u8]) -> (r: String)
    requires
        bytes@.len() <= usize::MAX / 2,
    ensures
        r@ == hex_of(bytes@),
{
    hex::encode(bytes)
}

/// Relies on `base64::prelude::BASE64_STANDARD` through `base64::Engine::encode`:
/// the standard alphabet with `=` padding.
#[verifier::external_body]
pub(crate) fn base64_encode(bytes: &[u8]) -> (r: String)
    requires
        bytes@.len() <= usize::MAX / 4,
    ensures
        r@ == base64_of(bytes@),
{
    base64::prelude::BASE64_STANDARD.encode(bytes)
}

} // verus!
