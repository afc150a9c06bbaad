//! Lowercase hex rendering of byte strings, as used for request identifiers
//! and for the `0x`-prefixed fields of the on-chain verifier fixture.

use vstd::prelude::*;

verus! {

/// The lowercase hex digit for a nibble `v < 16`.
pub open spec fn hex_digit(v: u8) -> char {
    if v < 10 {
        ((48 + v) as u8) as char
    } else {
        ((87 + v) as u8) as char
    }
}

/// The lowercase hex rendering of `s`: for each byte, high nibble first.
pub open spec fn spec_hex(s: Seq<u8>) -> Seq<char>
    decreases s.len(),
{
    if s.len() == 0 {
        Seq::empty()
    } else {
        spec_hex(s.drop_last()) + seq![hex_digit(s.last() / 16), hex_digit(s.last() % 16)]
    }
}

/// Relies on hex::encode: each byte becomes two lowercase hex digits, high
/// nibble first, in input order.
#[verifier::external_body]
fn hex_encode(b: &Vec<u8>) -> (r: String)
    ensures
        r@ == spec_hex(b@),
{
    hex::encode(b.as_slice())
}

/// The lowercase hex rendering of `b`, as a `String`.
pub fn to_hex(b: &Vec<u8>) -> (r: String)
    ensures
        r@ == spec_hex(b@),
{
    hex_encode(b)
}

/// The lowercase hex rendering of `b` behind the conventional `0x` prefix.
pub fn to_prefixed_hex(b: &Vec<u8>) -> (r: String)
    ensures
        r@ == "0x"@ + spec_hex(b@),
{
    let mut s = String::from_str("0x");
    let h = hex_encode(b);
    s.append(h.as_str());
    s
}

/// Two nibbles determine their byte.
proof fn lemma_nibbles_determine_byte(x: u8, y: u8)
    ensures
        x / 16 == y / 16 && x % 16 == y % 16 ==> x == y,
{
}

/// A hex digit determines its nibble.
proof fn lemma_hex_digit_injective(v: u8, w: u8)
    requires
        v < 16,
        w < 16,
        hex_digit(v) == hex_digit(w),
    ensures
        v == w,
{
}

/// Hex rendering loses nothing: two byte strings with the same rendering are
/// the same byte string.
pub proof fn lemma_hex_injective(s1: Seq<u8>, s2: Seq<u8>)
    requires
        spec_hex(s1) == spec_hex(s2),
    ensures
        s1 == s2,
    decreases s1.len(),
{
    lemma_hex_len(s1);
    lemma_hex_len(s2);
    if s1.len() == 0 {
        assert(s2.len() == 0);
        assert(s1 =~= s2);
    } else {
        assert(s2.len() > 0);
        let h1 = spec_hex(s1);
        let h2 = spec_hex(s2);
        lemma_hex_len(s1.drop_last());
        lemma_hex_len(s2.drop_last());
        assert(h1.last() == hex_digit(s1.last() % 16));
        assert(h1[h1.len() - 2] == hex_digit(s1.last() / 16));
        assert(h2.last() == hex_digit(s2.last() % 16));
        assert(h2[h2.len() - 2] == hex_digit(s2.last() / 16));
        lemma_hex_digit_injective(s1.last() / 16, s2.last() / 16);
        lemma_hex_digit_injective(s1.last() % 16, s2.last() % 16);
        lemma_nibbles_determine_byte(s1.last(), s2.last());
        assert(spec_hex(s1.drop_last()) =~= h1.take(h1.len() - 2));
        assert(spec_hex(s2.drop_last()) =~= h2.take(h2.len() - 2));
        lemma_hex_injective(s1.drop_last(), s2.drop_last());
        assert(s1 =~= s1.drop_last().push(s1.last()));
        assert(s2 =~= s2.drop_last().push(s2.last()));
    }
}

/// A hex rendering is twice as long as its byte string.
pub proof fn lemma_hex_len(s: Seq<u8>)
    ensures
        spec_hex(s).len() == 2 * s.len(),
    decreases s.len(),
{
    if s.len() > 0 {
        lemma_hex_len(s.drop_last());
    }
}

} // verus!
