//! Little-endian words.

use vstd::prelude::*;

verus! {

/// The number that four bytes spell, lowest byte first.
pub open spec fn le_word(b0: u8, b1: u8, b2: u8, b3: u8) -> u32 {
    (b0 + 0x100 * b1 + 0x1_0000 * b2 + 0x100_0000 * b3) as u32
}

/// The word that four bytes of `s` spell, from index `i`.
pub open spec fn le_word_at(s: Seq<u8>, i: int) -> u32 {
    le_word(s[i], s[i + 1], s[i + 2], s[i + 3])
}

/// The four bytes of a word, lowest first.
pub open spec fn le_bytes(v: u32) -> Seq<u8> {
    seq![
        (v % 0x100) as u8,
        ((v / 0x100) % 0x100) as u8,
        ((v / 0x1_0000) % 0x100) as u8,
        (v / 0x100_0000) as u8,
    ]
}

/// Joins four bytes to a word, lowest byte first.
pub fn word_from_le(b0: u8, b1: u8, b2: u8, b3: u8) -> (r: u32)
    ensures
        r == le_word(b0, b1, b2, b3),
{
    assert((b0 as u32) | ((b1 as u32) << 8) | ((b2 as u32) << 16) | ((b3 as u32) << 24) == (b0
        + 0x100 * b1 + 0x1_0000 * b2 + 0x100_0000 * b3) as u32) by (bit_vector);
    assert(b0 + 0x100 * b1 + 0x1_0000 * b2 + 0x100_0000 * b3 <= u32::MAX);
    (b0 as u32) | ((b1 as u32) << 8) | ((b2 as u32) << 16) | ((b3 as u32) << 24)
}

/// Splits a word into its four bytes, lowest first.
pub fn word_to_le(v: u32) -> (r: [u8; 4])
    ensures
        r@ == le_bytes(v),
{
    assert((v & 0xFF) == v % 0x100) by (bit_vector);
    assert(((v >> 8) & 0xFF) == (v / 0x100) % 0x100) by (bit_vector);
    assert(((v >> 16) & 0xFF) == (v / 0x1_0000) % 0x100) by (bit_vector);
    assert((v >> 24) == v / 0x100_0000) by (bit_vector);
    let r = [(v & 0xFF) as u8, ((v >> 8) & 0xFF) as u8, ((v >> 16) & 0xFF) as u8, (v >> 24) as u8];
    assert(r@ =~= le_bytes(v));
    r
}

/// Reads the word that starts at index `i` of `data`.
pub fn read_word(data: &[u8], i: usize) -> (r: u32)
    requires
        i + 4 <= data@.len(),
    ensures
        r == le_word_at(data@, i as int),
{
    word_from_le(data[i], data[i + 1], data[i + 2], data[i + 3])
}

/// A word survives the way through its bytes.
pub proof fn lemma_le_round_trip(v: u32)
    ensures
        le_word_at(le_bytes(v), 0) == v,
{
}

} // verus!
