//! The register file: eight 8-bit registers (the flag register among them),
//! the 16-bit stack pointer and the 16-bit program counter. The 16-bit pairs
//! AF, BC, DE and HL are derived from the byte registers, never stored.

use vstd::prelude::*;

use crate::bits;
use crate::flags::Flags;
use crate::flags::spec_flags_from_byte;
use crate::flags::spec_flags_to_byte;
use crate::flags::lemma_flags_byte_round_trip;

verus! {

#[derive(Clone, Copy, Debug, PartialEq, Eq, Structural)]
pub struct Registers {
    pub pc: u16,
    pub sp: u16,
    pub a: u8,
    pub b: u8,
    pub c: u8,
    pub d: u8,
    pub e: u8,
    pub f: Flags,
    pub h: u8,
    pub l: u8,
}

/// The derived AF pair: A above the encoded flag register.
pub open spec fn spec_get_af(r: Registers) -> u16 {
    bits::spec_to_word(r.a, spec_flags_to_byte(r.f))
}

/// The register file after storing a word into the AF pair.
pub open spec fn spec_set_af(r: Registers, value: u16) -> Registers {
    Registers {
        a: bits::spec_msb_16(value),
        f: spec_flags_from_byte(bits::spec_lsb_16(value)),
        ..r
    }
}

/// The derived BC pair.
pub open spec fn spec_get_bc(r: Registers) -> u16 {
    bits::spec_to_word(r.b, r.c)
}

/// The register file after storing a word into the BC pair.
pub open spec fn spec_set_bc(r: Registers, value: u16) -> Registers {
    Registers { b: bits::spec_msb_16(value), c: bits::spec_lsb_16(value), ..r }
}

/// The derived DE pair.
pub open spec fn spec_get_de(r: Registers) -> u16 {
    bits::spec_to_word(r.d, r.e)
}

/// The register file after storing a word into the DE pair.
pub open spec fn spec_set_de(r: Registers, value: u16) -> Registers {
    Registers { d: bits::spec_msb_16(value), e: bits::spec_lsb_16(value), ..r }
}

/// The derived HL pair.
pub open spec fn spec_get_hl(r: Registers) -> u16 {
    bits::spec_to_word(r.h, r.l)
}

/// The register file after storing a word into the HL pair.
pub open spec fn spec_set_hl(r: Registers, value: u16) -> Registers {
    Registers { h: bits::spec_msb_16(value), l: bits::spec_lsb_16(value), ..r }
}

impl Registers {
    /// A register file with every register zero and all flags clear.
    pub fn blank() -> (r: Registers)
        ensures
            r == (Registers {
                pc: 0u16,
                sp: 0u16,
                a: 0u8,
                b: 0u8,
                c: 0u8,
                d: 0u8,
                e: 0u8,
                f: Flags { zero: false, subtract: false, half_carry: false, carry: false },
                h: 0u8,
                l: 0u8,
            }),
    {
        Registers {
            pc: 0,
            sp: 0,
            a: 0,
            b: 0,
            c: 0,
            d: 0,
            e: 0,
            f: Flags::blank(),
            h: 0,
            l: 0,
        }
    }

    /// Increments the program counter; returns the old value
    pub fn increment_pc(&mut self) -> (r: u16)
        ensures
            r == old(self).pc,
            *final(self) == (Registers { pc: bits::spec_wrap_add16(old(self).pc, 1), ..*old(self) }),
    {
        self.add_pc(1)
    }

    /// Adds n to the program counter; returns the old value
    pub fn add_pc(&mut self, offset: u16) -> (r: u16)
        ensures
            r == old(self).pc,
            *final(self) == (Registers {
                pc: bits::spec_wrap_add16(old(self).pc, offset),
                ..*old(self)
            }),
    {
        let old_value = self.pc;
        self.pc = old_value.wrapping_add(offset);
        old_value
    }

    /// Increments the stack pointer; returns the old value
    pub fn increment_sp(&mut self) -> (r: u16)
        ensures
            r == old(self).sp,
            *final(self) == (Registers { sp: bits::spec_wrap_add16(old(self).sp, 1), ..*old(self) }),
    {
        let old_value = self.sp;
        self.sp = old_value.wrapping_add(1);
        old_value
    }

    /// Decrements the stack pointer; returns the old value
    pub fn decrement_sp(&mut self) -> (r: u16)
        ensures
            r == old(self).sp,
            *final(self) == (Registers { sp: bits::spec_wrap_sub16(old(self).sp, 1), ..*old(self) }),
    {
        let old_value = self.sp;
        self.sp = old_value.wrapping_sub(1);
        old_value
    }

    pub fn get_af(&self) -> (r: u16)
        ensures
            r == spec_get_af(*self),
    {
        bits::to_word(self.a, self.f.to_byte())
    }

    pub fn set_af(&mut self, value: u16)
        ensures
            *final(self) == spec_set_af(*old(self), value),
    {
        self.a = bits::msb_16(value);
        self.f = Flags::from_byte(bits::lsb_16(value));
    }

    pub fn get_bc(&self) -> (r: u16)
        ensures
            r == spec_get_bc(*self),
    {
        bits::to_word(self.b, self.c)
    }

    pub fn set_bc(&mut self, value: u16)
        ensures
            *final(self) == spec_set_bc(*old(self), value),
    {
        self.b = bits::msb_16(value);
        self.c = bits::lsb_16(value);
    }

    pub fn get_de(&self) -> (r: u16)
        ensures
            r == spec_get_de(*self),
    {
        bits::to_word(self.d, self.e)
    }

    pub fn set_de(&mut self, value: u16)
        ensures
            *final(self) == spec_set_de(*old(self), value),
    {
        self.d = bits::msb_16(value);
        self.e = bits::lsb_16(value);
    }

    pub fn get_hl(&self) -> (r: u16)
        ensures
            r == spec_get_hl(*self),
    {
        bits::to_word(self.h, self.l)
    }

    pub fn set_hl(&mut self, value: u16)
        ensures
            *final(self) == spec_set_hl(*old(self), value),
    {
        self.h = bits::msb_16(value);
        self.l = bits::lsb_16(value);
    }
}

/// Storing a word into BC and reading the pair back yields the word.
pub proof fn lemma_bc_round_trip(r: Registers, value: u16)
    ensures
        spec_get_bc(spec_set_bc(r, value)) == value,
{
    bits::lemma_word_round_trip(value);
}

/// Storing a word into DE and reading the pair back yields the word.
pub proof fn lemma_de_round_trip(r: Registers, value: u16)
    ensures
        spec_get_de(spec_set_de(r, value)) == value,
{
    bits::lemma_word_round_trip(value);
}

/// Storing a word into HL and reading the pair back yields the word.
pub proof fn lemma_hl_round_trip(r: Registers, value: u16)
    ensures
        spec_get_hl(spec_set_hl(r, value)) == value,
{
    bits::lemma_word_round_trip(value);
}

/// Storing a word into AF and reading the pair back yields the word with the
/// four insignificant bits of its low byte forced to zero.
pub proof fn lemma_af_round_trip(r: Registers, value: u16)
    ensures
        spec_get_af(spec_set_af(r, value)) == value & 0xFFF0,
{
    let msb = bits::spec_msb_16(value);
    let lsb = bits::spec_lsb_16(value);
    lemma_flags_byte_round_trip(lsb);
    assert(spec_get_af(spec_set_af(r, value)) == bits::spec_to_word(msb, lsb & 0xF0));
    assert((((value >> 8) as u8 as u16) << 8 | (((value & 0xFF) as u8 & 0xF0) as u16)) == (value
        & 0xFFF0)) by (bit_vector);
}

} // verus!
