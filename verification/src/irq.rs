//! The interrupt controller: an enabled mask and a pending mask, one bit per
//! source, with a fixed priority order (vblank highest, joypad lowest,
//! ascending bit position). Acknowledging resolves the lowest-positioned bit
//! that is both pending and enabled to its fixed service address and clears
//! exactly that pending bit.

use vstd::prelude::*;

use crate::bits;

verus! {

#[derive(Clone, Copy, Debug, PartialEq, Eq, Structural)]
pub enum Interrupt {
    VBlank,
    LCDC,
    Timer,
    Serial,
    Joypad,
}

/// The fixed bit position of an interrupt source; priority ascends with it.
pub open spec fn spec_bit_position(interrupt: Interrupt) -> u8 {
    match interrupt {
        Interrupt::VBlank => 0,
        Interrupt::LCDC => 1,
        Interrupt::Timer => 2,
        Interrupt::Serial => 3,
        Interrupt::Joypad => 4,
    }
}

/// The fixed service address of an interrupt source.
pub open spec fn spec_interrupt_addr(interrupt: Interrupt) -> u16 {
    match interrupt {
        Interrupt::VBlank => 0x40,
        Interrupt::LCDC => 0x48,
        Interrupt::Timer => 0x50,
        Interrupt::Serial => 0x58,
        Interrupt::Joypad => 0x60,
    }
}

/// The interrupt source selected by a one-bit mask, if that bit is one of the
/// five defined sources.
pub open spec fn spec_interrupt_from_bit(bit: u8) -> Option<Interrupt> {
    match bit & 0b00011111 {
        0b00001 => Some(Interrupt::VBlank),
        0b00010 => Some(Interrupt::LCDC),
        0b00100 => Some(Interrupt::Timer),
        0b01000 => Some(Interrupt::Serial),
        0b10000 => Some(Interrupt::Joypad),
        _ => None,
    }
}

/// The rightmost (lowest-positioned) set bit of a byte, as a one-bit mask.
pub open spec fn spec_isolate_rightmost_bit(byte: u8) -> u8 {
    if byte & 1 != 0 {
        1u8
    } else if byte & 2 != 0 {
        2u8
    } else if byte & 4 != 0 {
        4u8
    } else if byte & 8 != 0 {
        8u8
    } else if byte & 16 != 0 {
        16u8
    } else if byte & 32 != 0 {
        32u8
    } else if byte & 64 != 0 {
        64u8
    } else if byte & 128 != 0 {
        128u8
    } else {
        0u8
    }
}

impl Interrupt {
    /// The source selected by a one-bit mask, if any.
    pub fn from_bit(bit: u8) -> (r: Option<Interrupt>)
        ensures
            r == spec_interrupt_from_bit(bit),
    {
        match bit & 0b00011111 {
            0b00001 => Some(Interrupt::VBlank),
            0b00010 => Some(Interrupt::LCDC),
            0b00100 => Some(Interrupt::Timer),
            0b01000 => Some(Interrupt::Serial),
            0b10000 => Some(Interrupt::Joypad),
            _ => None,
        }
    }

    /// The bit position of this source in the enabled and pending masks.
    pub fn bit_position(&self) -> (r: u8)
        ensures
            r == spec_bit_position(*self),
    {
        match self {
            Interrupt::VBlank => 0,
            Interrupt::LCDC => 1,
            Interrupt::Timer => 2,
            Interrupt::Serial => 3,
            Interrupt::Joypad => 4,
        }
    }

    /// The fixed service address the processor jumps to for this source.
    pub fn get_addr(&self) -> (r: u16)
        ensures
            r == spec_interrupt_addr(*self),
    {
        match self {
            Interrupt::VBlank => 0x40,
            Interrupt::LCDC => 0x48,
            Interrupt::Timer => 0x50,
            Interrupt::Serial => 0x58,
            Interrupt::Joypad => 0x60,
        }
    }
}

/// Returns a u8 with the first rightmost enabled bit as the only enabled bit
pub fn isolate_rightmost_bit(byte: u8) -> (r: u8)
    ensures
        r == spec_isolate_rightmost_bit(byte),
{
    if byte & 1 != 0 {
        1
    } else if byte & 2 != 0 {
        2
    } else if byte & 4 != 0 {
        4
    } else if byte & 8 != 0 {
        8
    } else if byte & 16 != 0 {
        16
    } else if byte & 32 != 0 {
        32
    } else if byte & 64 != 0 {
        64
    } else if byte & 128 != 0 {
        128
    } else {
        0
    }
}

/// The source that acknowledging resolves for the given enabled and pending
/// masks: the lowest-positioned defined source that is both pending and
/// enabled, or none.
pub open spec fn spec_ack_source(enabled: u8, pending: u8) -> Option<Interrupt> {
    spec_interrupt_from_bit(spec_isolate_rightmost_bit(enabled & pending))
}

pub struct IRQ {
    pub enabled_bits: u8,
    pub interrupt_bits: u8,
}

impl IRQ {
    /// Which sources software has enabled, as a raw mask.
    pub open spec fn spec_enabled_bits(&self) -> u8 {
        self.enabled_bits
    }

    /// Which sources are pending service, as a raw mask.
    pub open spec fn spec_interrupt_bits(&self) -> u8 {
        self.interrupt_bits
    }

    /// A controller with no source enabled and none pending.
    pub fn new() -> (r: IRQ)
        ensures
            r.spec_enabled_bits() == 0,
            r.spec_interrupt_bits() == 0,
    {
        IRQ { enabled_bits: 0, interrupt_bits: 0 }
    }

    /// A controller with all five sources enabled and none pending.
    pub fn enabled() -> (r: IRQ)
        ensures
            r.spec_enabled_bits() == 0b00011111,
            r.spec_interrupt_bits() == 0,
    {
        IRQ { enabled_bits: 0b00011111, interrupt_bits: 0 }
    }

    /// Resolves the highest-priority source that is pending and enabled to its
    /// service address, clearing exactly its pending bit; returns none, and
    /// changes nothing, when no enabled source is pending.
    pub fn ack_interrupt(&mut self) -> (r: Option<u16>)
        ensures
            match spec_ack_source(old(self).spec_enabled_bits(), old(self).spec_interrupt_bits()) {
                Some(interrupt) => {
                    &&& r == Some(spec_interrupt_addr(interrupt))
                    &&& final(self).spec_interrupt_bits() == bits::spec_reset(
                        old(self).spec_interrupt_bits(),
                        spec_bit_position(interrupt),
                    )
                },
                None => {
                    &&& r is None
                    &&& final(self).spec_interrupt_bits() == old(self).spec_interrupt_bits()
                },
            },
            final(self).spec_enabled_bits() == old(self).spec_enabled_bits(),
    {
        let enabled_interrupts = self.enabled_bits & self.interrupt_bits;
        let bit = isolate_rightmost_bit(enabled_interrupts);
        match Interrupt::from_bit(bit) {
            Some(interrupt) => {
                self.reset_interrupt(&interrupt);
                Some(interrupt.get_addr())
            },
            None => None,
        }
    }

    pub fn get_enabled_bits(&self) -> (r: u8)
        ensures
            r == self.spec_enabled_bits(),
    {
        self.enabled_bits
    }

    pub fn set_enabled_bits(&mut self, bits: u8)
        ensures
            final(self).spec_enabled_bits() == bits,
            final(self).spec_interrupt_bits() == old(self).spec_interrupt_bits(),
    {
        self.enabled_bits = bits
    }

    pub fn get_interrupt_bits(&self) -> (r: u8)
        ensures
            r == self.spec_interrupt_bits(),
    {
        self.interrupt_bits
    }

    pub fn set_interrupt_bits(&mut self, bits: u8)
        ensures
            final(self).spec_interrupt_bits() == bits,
            final(self).spec_enabled_bits() == old(self).spec_enabled_bits(),
    {
        self.interrupt_bits = bits
    }

    /// Marks one source pending.
    pub fn set_interrupt(&mut self, interrupt: &Interrupt)
        ensures
            final(self).spec_interrupt_bits() == bits::spec_set(
                old(self).spec_interrupt_bits(),
                spec_bit_position(*interrupt),
            ),
            final(self).spec_enabled_bits() == old(self).spec_enabled_bits(),
    {
        let pos = interrupt.bit_position();
        self.interrupt_bits = bits::set(self.interrupt_bits, pos);
    }

    /// Clears one source's pending bit.
    pub fn reset_interrupt(&mut self, interrupt: &Interrupt)
        ensures
            final(self).spec_interrupt_bits() == bits::spec_reset(
                old(self).spec_interrupt_bits(),
                spec_bit_position(*interrupt),
            ),
            final(self).spec_enabled_bits() == old(self).spec_enabled_bits(),
    {
        let pos = interrupt.bit_position();
        self.interrupt_bits = bits::reset(self.interrupt_bits, pos);
    }
}

} // verus!
