//! The processor's 4-bit condition-code model: zero, subtract, half-carry
//! and carry, with its byte encoding (the four significant bits live in the
//! high nibble; the low nibble always encodes as zero).

use vstd::prelude::*;

use crate::bits;

verus! {

#[derive(Clone, Copy, Debug, PartialEq, Eq, Structural)]
pub struct Flags {
    pub zero: bool,
    pub subtract: bool,
    pub half_carry: bool,
    pub carry: bool,
}

/// The byte encoding of a flag register: one bit per flag in the high nibble.
pub open spec fn spec_flags_to_byte(f: Flags) -> u8 {
    (if f.zero { 1u8 } else { 0u8 }) << 7
        | (if f.subtract { 1u8 } else { 0u8 }) << 6
        | (if f.half_carry { 1u8 } else { 0u8 }) << 5
        | (if f.carry { 1u8 } else { 0u8 }) << 4
}

/// The flag register a byte decodes to: one flag per bit of the high nibble.
pub open spec fn spec_flags_from_byte(byte: u8) -> Flags {
    Flags {
        zero: bits::spec_is_set(byte, 7),
        subtract: bits::spec_is_set(byte, 6),
        half_carry: bits::spec_is_set(byte, 5),
        carry: bits::spec_is_set(byte, 4),
    }
}

impl Flags {
    /// All four flags cleared.
    pub fn blank() -> (r: Flags)
        ensures
            r == (Flags { zero: false, subtract: false, half_carry: false, carry: false }),
    {
        Flags { zero: false, subtract: false, half_carry: false, carry: false }
    }

    /// Encodes the four flags into a byte; the low nibble is always zero.
    pub fn to_byte(&self) -> (r: u8)
        ensures
            r == spec_flags_to_byte(*self),
    {
        bits::from_bool(self.zero) << 7
            | bits::from_bool(self.subtract) << 6
            | bits::from_bool(self.half_carry) << 5
            | bits::from_bool(self.carry) << 4
    }

    /// Decodes a byte into the four flags; the low nibble is ignored.
    pub fn from_byte(byte: u8) -> (r: Flags)
        ensures
            r == spec_flags_from_byte(byte),
    {
        Flags {
            zero: bits::is_set(byte, 7),
            subtract: bits::is_set(byte, 6),
            half_carry: bits::is_set(byte, 5),
            carry: bits::is_set(byte, 4),
        }
    }
}

/// Decoding a byte into flags and re-encoding yields the byte with its low
/// nibble forced to zero.
pub proof fn lemma_flags_byte_round_trip(byte: u8)
    ensures
        spec_flags_to_byte(spec_flags_from_byte(byte)) == byte & 0xF0,
{
    assert((if (byte >> 7) & 0x1 != 0 { 1u8 } else { 0u8 }) << 7
        | (if (byte >> 6) & 0x1 != 0 { 1u8 } else { 0u8 }) << 6
        | (if (byte >> 5) & 0x1 != 0 { 1u8 } else { 0u8 }) << 5
        | (if (byte >> 4) & 0x1 != 0 { 1u8 } else { 0u8 }) << 4 == byte & 0xF0) by (bit_vector);
}

/// The low nibble of an encoded flag register is always zero.
pub proof fn lemma_flags_low_nibble_zero(f: Flags)
    ensures
        spec_flags_to_byte(f) & 0x0F == 0,
{
    let z = f.zero;
    let n = f.subtract;
    let h = f.half_carry;
    let c = f.carry;
    assert(((if z { 1u8 } else { 0u8 }) << 7 | (if n { 1u8 } else { 0u8 }) << 6 | (if h {
        1u8
    } else {
        0u8
    }) << 5 | (if c { 1u8 } else { 0u8 }) << 4) & 0x0F == 0) by (bit_vector);
}

/// Encoding flags into a byte and decoding again yields the same flags.
pub proof fn lemma_flags_encode_decode(f: Flags)
    ensures
        spec_flags_from_byte(spec_flags_to_byte(f)) == f,
{
    let z = f.zero;
    let n = f.subtract;
    let h = f.half_carry;
    let c = f.carry;
    let b = spec_flags_to_byte(f);
    assert({
        let e = (if z { 1u8 } else { 0u8 }) << 7 | (if n { 1u8 } else { 0u8 }) << 6 | (if h {
            1u8
        } else {
            0u8
        }) << 5 | (if c { 1u8 } else { 0u8 }) << 4;
        ((e >> 7) & 0x1 != 0) == z && ((e >> 6) & 0x1 != 0) == n && ((e >> 5) & 0x1 != 0) == h && ((
        e >> 4) & 0x1 != 0) == c
    }) by (bit_vector);
}

} // verus!
