//! Bit-field utilities: composing and decomposing 16-bit words from bytes,
//! and reading or setting individual bits of a byte.

use vstd::prelude::*;

verus! {

/// Most significant byte of a word.
pub open spec fn spec_msb_16(value: u16) -> u8 {
    (value >> 8) as u8
}

/// Least significant byte of a word.
pub open spec fn spec_lsb_16(value: u16) -> u8 {
    (value & 0xFF) as u8
}

/// The word with `msb` as its high byte and `lsb` as its low byte.
pub open spec fn spec_to_word(msb: u8, lsb: u8) -> u16 {
    (msb as u16) << 8 | lsb as u16
}

/// True when bit `bit` of `value` is set.
pub open spec fn spec_is_set(value: u8, bit: u8) -> bool {
    (value >> bit) & 0x1 != 0
}

/// `byte` with the bit at `position` set.
pub open spec fn spec_set(byte: u8, position: u8) -> u8 {
    byte | (1u8 << position)
}

/// `byte` with the bit at `position` cleared.
pub open spec fn spec_reset(byte: u8, position: u8) -> u8 {
    byte & ((1u8 << position) ^ 0xFF)
}

/// Gets the most significant byte of a word
pub fn msb_16(value: u16) -> (r: u8)
    ensures
        r == spec_msb_16(value),
{
    (value >> 8) as u8
}

/// Gets the least significant byte of a word
pub fn lsb_16(value: u16) -> (r: u8)
    ensures
        r == spec_lsb_16(value),
{
    (value & 0xFF) as u8
}

/// Combines a most significant byte and least significant byte into a word
pub fn to_word(msb: u8, lsb: u8) -> (r: u16)
    ensures
        r == spec_to_word(msb, lsb),
{
    (msb as u16) << 8 | lsb as u16
}

/// Converts a bool value to a bit
pub fn from_bool(value: bool) -> (r: u8)
    ensures
        r == (if value { 1u8 } else { 0u8 }),
{
    if value {
        1
    } else {
        0
    }
}

/// Converts a bit to a bool value
pub fn to_bool(value: u8) -> (r: bool)
    ensures
        r == (value & 0x1 != 0),
{
    value & 0x1 != 0
}

/// Sets the bit at the given position
pub fn set(byte: u8, position: u8) -> (r: u8)
    requires
        position < 8,
    ensures
        r == spec_set(byte, position),
{
    byte | (1u8 << position)
}

/// Resets the bit at the given position
pub fn reset(byte: u8, position: u8) -> (r: u8)
    requires
        position < 8,
    ensures
        r == spec_reset(byte, position),
{
    let mask = (1u8 << position) ^ 0xFF;
    byte & mask
}

/// Returns true if the index of the bit is set
pub fn is_set(value: u8, bit: u8) -> (r: bool)
    requires
        bit < 8,
    ensures
        r == spec_is_set(value, bit),
{
    to_bool(value >> bit)
}

/// Masking can only keep a value at or below the mask.
pub broadcast proof fn lemma_u8_and_mask_bound(x: u8, m: u8)
    by (bit_vector)
    ensures
        #[trigger] (x & m) <= m,
{
}

/// Masking can only keep a value at or below the mask.
pub broadcast proof fn lemma_u16_and_mask_bound(x: u16, m: u16)
    by (bit_vector)
    ensures
        #[trigger] (x & m) <= m,
{
}

/// A byte sum, wrapping around past 0xFF.
pub open spec fn spec_wrap_add8(x: u8, y: u8) -> u8 {
    if x + y > 0xFF {
        (x + y - 0x100) as u8
    } else {
        (x + y) as u8
    }
}

/// A byte difference, wrapping around below zero.
pub open spec fn spec_wrap_sub8(x: u8, y: u8) -> u8 {
    if x - y < 0 {
        (x - y + 0x100) as u8
    } else {
        (x - y) as u8
    }
}

/// A word sum, wrapping around past 0xFFFF.
pub open spec fn spec_wrap_add16(x: u16, y: u16) -> u16 {
    if x + y > 0xFFFF {
        (x + y - 0x1_0000) as u16
    } else {
        (x + y) as u16
    }
}

/// A word difference, wrapping around below zero.
pub open spec fn spec_wrap_sub16(x: u16, y: u16) -> u16 {
    if x - y < 0 {
        (x - y + 0x1_0000) as u16
    } else {
        (x - y) as u16
    }
}

/// Splitting a word into its two bytes and recombining them yields the word.
pub proof fn lemma_word_round_trip(value: u16)
    ensures
        spec_to_word(spec_msb_16(value), spec_lsb_16(value)) == value,
{
    assert(((value >> 8) as u8 as u16) << 8 | ((value & 0xFF) as u8 as u16) == value)
        by (bit_vector);
}

/// The two bytes of a combined word are the bytes it was built from.
pub proof fn lemma_word_decompose(msb: u8, lsb: u8)
    ensures
        spec_msb_16(spec_to_word(msb, lsb)) == msb,
        spec_lsb_16(spec_to_word(msb, lsb)) == lsb,
{
    assert((((msb as u16) << 8 | lsb as u16) >> 8) as u8 == msb) by (bit_vector);
    assert((((msb as u16) << 8 | lsb as u16) & 0xFF) as u8 == lsb) by (bit_vector);
}

} // verus!
