//! Facts about the bit-level encodings used by the hardware registers.
use vstd::prelude::*;

verus! {

/// A byte pair packed high-byte-first is the arithmetic `hi * 256 + lo`.
pub proof fn lemma_pack_pair(hi: u8, lo: u8)
    ensures
        ((hi as u16) << 8u16) | (lo as u16) == (hi as u16) * 256 + (lo as u16),
{
    assert(((hi as u16) << 8u16) | (lo as u16) == (hi as u16) * 256 + (lo as u16)) by (bit_vector);
}

/// Splitting a 16-bit word with masks and shifts gives its quotient and
/// remainder by 256.
pub proof fn lemma_split_word(v: u16)
    ensures
        (v & 0xFF00u16) >> 8u16 == v / 256,
        v & 0xFFu16 == v % 256,
{
    assert((v & 0xFF00u16) >> 8u16 == v / 256) by (bit_vector);
    assert(v & 0xFFu16 == v % 256) by (bit_vector);
}

/// The two nibbles of a byte.
pub proof fn lemma_nibbles(v: u8)
    ensures
        v & 0x0Fu8 == v % 16,
        (v >> 4u8) & 0x0Fu8 == v / 16,
{
    assert(v & 0x0Fu8 == v % 16) by (bit_vector);
    assert((v >> 4u8) & 0x0Fu8 == v / 16) by (bit_vector);
}

/// A two-bit field is at most 3.
pub proof fn lemma_two_bit_values(x: u8, y: u8)
    ensures
        x & 0x03u8 <= 3,
        (x & 1u8) << 1u8 | (y & 1u8) <= 3,
{
    assert(x & 0x03u8 <= 3) by (bit_vector);
    assert((x & 1u8) << 1u8 | (y & 1u8) <= 3) by (bit_vector);
}

/// Shifting right never makes a word larger.
pub proof fn lemma_shift_right_le(x: u16, s: u8)
    ensures
        x >> s <= x,
{
    assert(x >> s <= x) by (bit_vector);
}

/// The low twelve bits of a word are its remainder by 4096.
pub proof fn lemma_word_low12(v: u16)
    ensures
        v & 0xFFFu16 == v % 4096,
{
    assert(v & 0xFFFu16 == v % 4096) by (bit_vector);
}

/// Complementing a byte subtracts it from 255.
pub proof fn lemma_byte_not(v: u8)
    ensures
        !v == 255 - v,
{
    assert(!v == 255 - v) by (bit_vector);
}

} // verus!
