use vstd::prelude::*;

verus! {

/// The 16-bit word with the given low and high byte.
pub open spec fn word_of(low: u8, high: u8) -> u16 {
    (high * 256 + low) as u16
}

/// Puts two bytes together, the low one first.
pub fn join(low: u8, high: u8) -> (word: u16)
    ensures
        word == word_of(low, high),
{
    let word: u16 = ((high as u16) << 8) | (low as u16);
    assert(((high as u16) << 8) | (low as u16) == high * 256 + low) by (bit_vector);
    word
}

/// The low byte of a word.
pub fn low_byte(word: u16) -> (low: u8)
    ensures
        low == word % 256,
{
    let low: u16 = word & 0x00FF;
    assert(word & 0x00FF == word % 256) by (bit_vector);
    low as u8
}

/// The high byte of a word.
pub fn high_byte(word: u16) -> (high: u8)
    ensures
        high == word / 256,
{
    let high: u16 = word >> 8;
    assert(word >> 8 == word / 256) by (bit_vector);
    high as u8
}

} // verus!
