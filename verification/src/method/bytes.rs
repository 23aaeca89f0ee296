//! The fixed layout of parameters as bytes: every field takes four bytes,
//! the least significant first.

use vstd::prelude::*;
use crate::float::F32Bits;

verus! {

/// The four bytes of a word, the least significant first.
pub open spec fn spec_word_bytes(v: u32) -> Seq<u8> {
    seq![
        (v % 256) as u8,
        ((v / 0x100) % 256) as u8,
        ((v / 0x1_0000) % 256) as u8,
        (v / 0x100_0000) as u8,
    ]
}

/// The word whose four bytes begin at `at`.
pub open spec fn spec_word_at(bytes: Seq<u8>, at: int) -> u32 {
    (bytes[at] + 0x100 * bytes[at + 1] + 0x1_0000 * bytes[at + 2] + 0x100_0000 * bytes[at + 3]) as u32
}

/// The word that stands for a signed number: the number itself, or,
/// where it is negative, the number plus 2^32.
pub open spec fn spec_unsigned(v: i32) -> u32 {
    if v >= 0 {
        v as u32
    } else {
        (v + 0x1_0000_0000) as u32
    }
}

/// The signed number that a word stands for.
pub open spec fn spec_signed(v: u32) -> i32 {
    if v < 0x8000_0000 {
        v as i32
    } else {
        (v - 0x1_0000_0000) as i32
    }
}

/// A word that was written is read back, whatever follows or precedes it.
pub proof fn lemma_word_round_trip(before: Seq<u8>, v: u32, after: Seq<u8>)
    ensures
        spec_word_bytes(v).len() == 4,
        spec_word_at(before + spec_word_bytes(v) + after, before.len() as int) == v,
{
    let s = before + spec_word_bytes(v) + after;
    let at = before.len() as int;
    assert(s[at] == spec_word_bytes(v)[0]);
    assert(s[at + 1] == spec_word_bytes(v)[1]);
    assert(s[at + 2] == spec_word_bytes(v)[2]);
    assert(s[at + 3] == spec_word_bytes(v)[3]);
}

/// A signed number that was turned into a word is got back.
pub proof fn lemma_signed_round_trip(v: i32)
    ensures
        spec_signed(spec_unsigned(v)) == v,
{
}

/// Appends the four bytes of a word.
pub fn write_word(out: &mut Vec<u8>, v: u32)
    ensures
        final(out)@ == old(out)@ + spec_word_bytes(v),
{
    out.push((v % 256) as u8);
    out.push(((v / 0x100) % 256) as u8);
    out.push(((v / 0x1_0000) % 256) as u8);
    out.push((v / 0x100_0000) as u8);
    assert(out@ =~= old(out)@ + spec_word_bytes(v));
}

/// Reads the word whose four bytes begin at `at`.
pub fn read_word(bytes: &[u8], at: usize) -> (v: u32)
    requires
        at + 4 <= bytes@.len(),
    ensures
        v == spec_word_at(bytes@, at as int),
{
    let b0 = bytes[at] as u32;
    let b1 = bytes[at + 1] as u32;
    let b2 = bytes[at + 2] as u32;
    let b3 = bytes[at + 3] as u32;
    b0 + 0x100 * b1 + 0x1_0000 * b2 + 0x100_0000 * b3
}

/// The word that stands for a signed number.
pub fn unsigned(v: i32) -> (r: u32)
    ensures
        r == spec_unsigned(v),
{
    if v >= 0 {
        v as u32
    } else {
        (v as i64 + 0x1_0000_0000i64) as u32
    }
}

/// The signed number that a word stands for.
pub fn signed(v: u32) -> (r: i32)
    ensures
        r == spec_signed(v),
{
    if v < 0x8000_0000 {
        v as i32
    } else {
        (v as i64 - 0x1_0000_0000i64) as i32
    }
}

/// Appends the four bytes of a single-precision value.
pub fn write_float(out: &mut Vec<u8>, v: F32Bits)
    ensures
        final(out)@ == old(out)@ + spec_word_bytes(v.bits),
{
    write_word(out, v.bits);
}

/// Reads the single-precision value whose four bytes begin at `at`.
pub fn read_float(bytes: &[u8], at: usize) -> (v: F32Bits)
    requires
        at + 4 <= bytes@.len(),
    ensures
        v == (F32Bits { bits: spec_word_at(bytes@, at as int) }),
{
    F32Bits { bits: read_word(bytes, at) }
}

} // verus!
