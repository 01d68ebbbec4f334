//! Percent-encoding of bytes, and the decoding that reverses it.
//!
//! Decoding turns `%` followed by two hexadecimal digits into the byte they
//! denote and leaves every other byte alone, exactly as the query component
//! of a request is decoded. Encoding escapes every byte that is not an ASCII
//! letter or digit as `%` plus two uppercase hexadecimal digits. Decoding
//! reverses encoding on every byte sequence.

use vstd::prelude::*;

verus! {

/// True for the byte value of an ASCII hexadecimal digit.
pub open spec fn is_hex_digit(b: u8) -> bool {
    (48 <= b <= 57) || (97 <= b <= 102) || (65 <= b <= 70)
}

/// The numeric value of an ASCII hexadecimal digit.
pub open spec fn hex_value(b: u8) -> u8
    recommends
        is_hex_digit(b),
{
    if 48 <= b <= 57 {
        (b - 48) as u8
    } else if 97 <= b <= 102 {
        (b - 87) as u8
    } else {
        (b - 55) as u8
    }
}

/// The uppercase ASCII hexadecimal digit for a value below sixteen.
pub open spec fn hex_digit(v: u8) -> u8
    recommends
        v < 16,
{
    if v < 10 {
        (48 + v) as u8
    } else {
        (55 + v) as u8
    }
}

/// True when the sequence starts with a percent escape: `%` followed by two
/// hexadecimal digits.
pub open spec fn starts_with_escape(s: Seq<u8>) -> bool {
    s.len() >= 3 && s[0] == 37 && is_hex_digit(s[1]) && is_hex_digit(s[2])
}

/// Percent-decoding: each `%` followed by two hexadecimal digits becomes the
/// byte those digits denote; every other byte passes through unchanged.
pub open spec fn spec_percent_decode(s: Seq<u8>) -> Seq<u8>
    decreases s.len(),
{
    if s.len() == 0 {
        Seq::empty()
    } else if starts_with_escape(s) {
        seq![(16 * hex_value(s[1]) + hex_value(s[2])) as u8] + spec_percent_decode(s.skip(3))
    } else {
        seq![s[0]] + spec_percent_decode(s.skip(1))
    }
}

/// True for the byte value of an ASCII letter or digit, the bytes that
/// encoding leaves unescaped.
pub open spec fn is_unescaped(b: u8) -> bool {
    (48 <= b <= 57) || (65 <= b <= 90) || (97 <= b <= 122)
}

/// The encoding of one byte: itself when it is an ASCII letter or digit,
/// otherwise `%` plus two uppercase hexadecimal digits.
pub open spec fn spec_encode_byte(b: u8) -> Seq<u8> {
    if is_unescaped(b) {
        seq![b]
    } else {
        seq![37u8, hex_digit(b / 16), hex_digit(b % 16)]
    }
}

/// Percent-encoding: every byte that is not an ASCII letter or digit is
/// escaped as `%` plus two uppercase hexadecimal digits.
pub open spec fn spec_percent_encode(s: Seq<u8>) -> Seq<u8>
    decreases s.len(),
{
    if s.len() == 0 {
        Seq::empty()
    } else {
        spec_encode_byte(s[0]) + spec_percent_encode(s.skip(1))
    }
}

/// Relies on percent_encoding::percent_decode: `%` followed by two
/// hexadecimal digits becomes the denoted byte, anything else passes
/// through unchanged.
#[verifier::external_body]
pub(crate) fn percent_decode_bytes(s: &[u8]) -> (r: Vec<u8>)
    ensures
        r@ == spec_percent_decode(s@),
{
    percent_encoding::percent_decode(s).collect()
}

/// Percent-encode a byte sequence, escaping every byte that is not an ASCII
/// letter or digit.
pub fn percent_encode(s: &[u8]) -> (r: Vec<u8>)
    ensures
        r@ == spec_percent_encode(s@),
{
    let mut out: Vec<u8> = Vec::new();
    let mut i: usize = 0;
    while i < s.len()
        invariant
            i <= s.len(),
            out@ == spec_percent_encode(s@.take(i as int)),
        decreases s.len() - i,
    {
        let b = s[i];
        if (48 <= b && b <= 57) || (65 <= b && b <= 90) || (97 <= b && b <= 122) {
            out.push(b);
        } else {
            out.push(37);
            out.push(exec_hex_digit(b / 16));
            out.push(exec_hex_digit(b % 16));
        }
        proof {
            lemma_percent_encode_snoc(s@.take(i as int), s@[i as int]);
            assert(s@.take(i + 1) =~= s@.take(i as int).push(s@[i as int]));
        }
        i = i + 1;
    }
    proof {
        assert(s@.take(s@.len() as int) =~= s@);
    }
    out
}

/// The uppercase ASCII hexadecimal digit for a value below sixteen.
fn exec_hex_digit(v: u8) -> (r: u8)
    requires
        v < 16,
    ensures
        r == hex_digit(v),
{
    if v < 10 {
        48 + v
    } else {
        55 + v
    }
}

/// Encoding a sequence extended by one byte appends that byte's encoding.
proof fn lemma_percent_encode_snoc(s: Seq<u8>, b: u8)
    ensures
        spec_percent_encode(s.push(b)) == spec_percent_encode(s) + spec_encode_byte(b),
    decreases s.len(),
{
    if s.len() == 0 {
        let sp = s.push(b);
        assert(sp.len() == 1);
        assert(sp[0] == b);
        assert(sp.skip(1) =~= Seq::<u8>::empty());
        assert(spec_percent_encode(sp.skip(1)) == Seq::<u8>::empty());
        assert(spec_percent_encode(sp) == spec_encode_byte(b) + spec_percent_encode(sp.skip(1)));
        assert(spec_percent_encode(s) == Seq::<u8>::empty());
        assert(spec_percent_encode(sp) =~= spec_percent_encode(s) + spec_encode_byte(b));
    } else {
        let sp = s.push(b);
        assert(sp[0] == s[0]);
        assert(sp.skip(1) =~= s.skip(1).push(b));
        lemma_percent_encode_snoc(s.skip(1), b);
        assert(spec_percent_encode(sp) == spec_encode_byte(sp[0]) + spec_percent_encode(sp.skip(1)));
        assert(spec_percent_encode(sp) =~= spec_percent_encode(s) + spec_encode_byte(b));
    }
}

/// Decoding reverses encoding: percent-decoding a percent-encoded byte
/// sequence yields the original sequence, whatever the bytes were.
pub proof fn lemma_percent_round_trip(s: Seq<u8>)
    ensures
        spec_percent_decode(spec_percent_encode(s)) == s,
    decreases s.len(),
{
    if s.len() == 0 {
    } else {
        let b = s[0];
        let enc = spec_percent_encode(s);
        lemma_percent_round_trip(s.skip(1));
        if is_unescaped(b) {
            assert(!starts_with_escape(enc)) by {
                assert(enc[0] == b);
            }
            assert(enc.skip(1) =~= spec_percent_encode(s.skip(1)));
            assert(spec_percent_decode(enc) =~= s);
        } else {
            assert(hex_value(hex_digit(b / 16)) == b / 16);
            assert(hex_value(hex_digit(b % 16)) == b % 16);
            assert(starts_with_escape(enc));
            assert(16 * (b / 16) + b % 16 == b) by (nonlinear_arith);
            assert(enc.skip(3) =~= spec_percent_encode(s.skip(1)));
            assert(spec_percent_decode(enc) =~= s);
        }
    }
}

} // verus!
