//! Codec for the program's committed public output record: three unsigned
//! 32-bit fields (`n`, `a`, `b`), each packed big-endian into its own
//! zero-padded 32-byte word, in that order. Decoding is atomic: either the
//! whole 96-byte record matches the schema or it is rejected.

use vstd::prelude::*;

use crate::errors::RunError;
use crate::fib::fib_pair;
use crate::fib::fibonacci;

verus! {

/// The program's input: a single unsigned 32-bit integer, immutable once
/// constructed and owned by the orchestration call that issues it.
#[derive(Clone, Copy, Debug, PartialEq, Eq, Structural)]
pub struct ProgramInput {
    pub n: u32,
}

/// Encodes `n` as a program input. Total and lossless: the input carries
/// exactly `n`.
pub fn encode(n: u32) -> (r: ProgramInput)
    ensures
        r == (ProgramInput { n }),
{
    ProgramInput { n }
}

/// The committed result of a program run: the input `n` and the two
/// Fibonacci values computed for it.
#[derive(Clone, Copy, Debug, PartialEq, Eq, Structural)]
pub struct PublicOutput {
    pub n: u32,
    pub a: u32,
    pub b: u32,
}

/// Byte `k` (big-endian, `0 <= k < 4`) of `x`.
pub open spec fn be_byte(x: u32, k: int) -> u8 {
    if k == 0 {
        (x >> 24) as u8
    } else if k == 1 {
        (x >> 16) as u8
    } else if k == 2 {
        (x >> 8) as u8
    } else {
        x as u8
    }
}

/// A 32-byte word holding `x` big-endian in its last four bytes, the first
/// 28 bytes zero.
pub open spec fn abi_word(x: u32) -> Seq<u8> {
    Seq::new(32, |i: int| if i < 28 { 0u8 } else { be_byte(x, i - 28) })
}

/// The encoded output record for the values `n`, `a`, `b`.
pub open spec fn spec_encode(n: u32, a: u32, b: u32) -> Seq<u8> {
    abi_word(n) + abi_word(a) + abi_word(b)
}

/// Word `w` of `s` has its 28 padding bytes zero.
pub open spec fn word_padded(s: Seq<u8>, w: int) -> bool {
    forall|i: int| 32 * w <= i < 32 * w + 28 ==> s[i] == 0
}

/// The value held big-endian in the last four bytes of word `w` of `s`.
pub open spec fn word_value(s: Seq<u8>, w: int) -> u32 {
    ((s[32 * w + 28] as nat) * 0x1000000 + (s[32 * w + 29] as nat) * 0x10000 + (s[32 * w + 30]
        as nat) * 0x100 + (s[32 * w + 31] as nat)) as u32
}

/// Whether `s` matches the output record schema: exactly three zero-padded
/// 32-byte words.
pub open spec fn schema_ok(s: Seq<u8>) -> bool {
    s.len() == 96 && word_padded(s, 0) && word_padded(s, 1) && word_padded(s, 2)
}

/// The decoded output record, or `None` where `s` does not match the schema.
pub open spec fn spec_decode(s: Seq<u8>) -> Option<PublicOutput> {
    if schema_ok(s) {
        Some(
            PublicOutput {
                n: word_value(s, 0),
                a: word_value(s, 1),
                b: word_value(s, 2),
            },
        )
    } else {
        None
    }
}

/// Appends the 32-byte word for `x` to `out`.
fn push_word(out: &mut Vec<u8>, x: u32)
    ensures
        final(out)@ == old(out)@ + abi_word(x),
{
    let mut i: usize = 0;
    while i < 28
        invariant
            i <= 28,
            out@ =~= old(out)@ + abi_word(x).take(i as int),
        decreases 28 - i,
    {
        out.push(0);
        i = i + 1;
    }
    proof {
        assert((x >> 24) < 256 && (x >> 16) & 0xff < 256 && (x >> 8) & 0xff < 256 && x & 0xff
            < 256) by (bit_vector);
    }
    out.push((x >> 24) as u8);
    out.push((x >> 16) as u8);
    out.push((x >> 8) as u8);
    out.push(x as u8);
    proof {
        assert(out@ =~= old(out)@ + abi_word(x));
    }
}

/// Encodes the output record for the values `n`, `a`, `b`.
pub fn encode_public_values(n: u32, a: u32, b: u32) -> (r: Vec<u8>)
    ensures
        r@ == spec_encode(n, a, b),
{
    let mut out: Vec<u8> = Vec::new();
    push_word(&mut out, n);
    push_word(&mut out, a);
    push_word(&mut out, b);
    proof {
        assert(out@ =~= spec_encode(n, a, b));
    }
    out
}

/// Encodes the output record that a correct program run commits for the
/// input `n`: the input itself and the two Fibonacci values computed for it.
pub fn encode_program_output(n: u32) -> (r: Vec<u8>)
    ensures
        r@ == spec_encode(n, fib_pair(n as nat).0, fib_pair(n as nat).1),
{
    let (a, b) = fibonacci(n);
    encode_public_values(n, a, b)
}

/// Reads the value held big-endian in the last four bytes of word `w`.
fn read_word_value(bytes: &Vec<u8>, base: usize) -> (r: u32)
    requires
        base + 32 <= bytes@.len(),
        base % 32 == 0,
    ensures
        r == word_value(bytes@, base as int / 32),
{
    let b0 = bytes[base + 28] as u32;
    let b1 = bytes[base + 29] as u32;
    let b2 = bytes[base + 30] as u32;
    let b3 = bytes[base + 31] as u32;
    b0 * 0x1000000 + b1 * 0x10000 + b2 * 0x100 + b3
}

/// Decodes an output record. Succeeds exactly on byte strings matching the
/// schema; anything else is rejected whole, with no partial decoding.
pub fn decode_public_values(bytes: &Vec<u8>) -> (r: Result<PublicOutput, RunError>)
    ensures
        match r {
            Ok(o) => spec_decode(bytes@) == Some(o),
            Err(e) => spec_decode(bytes@) is None && e == RunError::Decode,
        },
{
    if bytes.len() != 96 {
        return Err(RunError::Decode);
    }
    let mut w: usize = 0;
    while w < 3
        invariant
            w <= 3,
            bytes@.len() == 96,
            forall|v: int| 0 <= v < w ==> word_padded(bytes@, v),
        decreases 3 - w,
    {
        let mut i: usize = 0;
        while i < 28
            invariant
                w < 3,
                i <= 28,
                bytes@.len() == 96,
                forall|v: int| 0 <= v < w ==> word_padded(bytes@, v),
                forall|j: int| 32 * w <= j < 32 * w + i ==> bytes@[j] == 0,
            decreases 28 - i,
        {
            if bytes[32 * w + i] != 0 {
                return Err(RunError::Decode);
            }
            i = i + 1;
        }
        w = w + 1;
    }
    let n = read_word_value(bytes, 0);
    let a = read_word_value(bytes, 32);
    let b = read_word_value(bytes, 64);
    Ok(PublicOutput { n, a, b })
}

/// Recomposing the four big-endian bytes of `x` gives back `x`.
proof fn lemma_be_bytes_recompose(x: u32)
    ensures
        ((x >> 24) as u8 as nat) * 0x1000000 + ((x >> 16) as u8 as nat) * 0x10000 + ((x >> 8)
            as u8 as nat) * 0x100 + (x as u8 as nat) == x as nat,
{
    assert(((x >> 24) as u8 as u32) * 0x1000000 + ((x >> 16) as u8 as u32) * 0x10000 + ((x >> 8)
        as u8 as u32) * 0x100 + (x as u8 as u32) == x) by (bit_vector);
}

/// Decoding inverts encoding: the record encoded for any values `n`, `a`,
/// `b` matches the schema and decodes to exactly those values.
pub proof fn lemma_codec_round_trip(n: u32, a: u32, b: u32)
    ensures
        spec_decode(spec_encode(n, a, b)) == Some(PublicOutput { n, a, b }),
{
    let s = spec_encode(n, a, b);
    assert(s.len() == 96);
    assert forall|w: int| 0 <= w < 3 implies word_padded(s, w) by {
        assert forall|i: int| 32 * w <= i < 32 * w + 28 implies s[i] == 0 by {
            assert(s[i] == abi_word(word_of(n, a, b, w))[i - 32 * w]);
        }
    }
    assert forall|w: int| 0 <= w < 3 implies word_value(s, w) == word_of(n, a, b, w) by {
        let x = word_of(n, a, b, w);
        assert(s[32 * w + 28] == be_byte(x, 0));
        assert(s[32 * w + 29] == be_byte(x, 1));
        assert(s[32 * w + 30] == be_byte(x, 2));
        assert(s[32 * w + 31] == be_byte(x, 3));
        lemma_be_bytes_recompose(x);
    }
    assert(spec_decode(s) == Some(PublicOutput { n, a, b }));
}

/// Field `w` (0, 1 or 2) of the record for `n`, `a`, `b`.
pub open spec fn word_of(n: u32, a: u32, b: u32, w: int) -> u32 {
    if w == 0 {
        n
    } else if w == 1 {
        a
    } else {
        b
    }
}

/// The record committed for input `n` decodes to `n` and the reference
/// Fibonacci pair for `n`: the output codec round-trips.
pub proof fn lemma_output_round_trip(n: u32)
    ensures
        spec_decode(spec_encode(n, fib_pair(n as nat).0, fib_pair(n as nat).1)) == Some(
            PublicOutput { n, a: fib_pair(n as nat).0, b: fib_pair(n as nat).1 },
        ),
{
    lemma_codec_round_trip(n, fib_pair(n as nat).0, fib_pair(n as nat).1);
}

} // verus!
