//! The periodic timer: a free-running 16-bit divider source and an 8-bit
//! counter that, when enabled, increments on cycle boundaries selected by the
//! control's clock-select bits and, on overflow, reloads from the reload
//! register and raises the timer interrupt in the same step.

use vstd::prelude::*;

use crate::bits;
use crate::irq::IRQ;
use crate::irq::Interrupt;
use crate::irq::spec_bit_position;

verus! {

#[derive(Clone, Copy, Debug, PartialEq, Eq, Structural)]
pub struct Control {
    pub enabled: bool,
    pub clock_bit_1: bool,
    pub clock_bit_0: bool,
}

/// The 2-bit clock select encoded by the two control bits.
pub open spec fn spec_clock_select(control: Control) -> u8 {
    ((if control.clock_bit_1 { 2u8 } else { 0u8 }) + (if control.clock_bit_0 {
        1u8
    } else {
        0u8
    })) as u8
}

/// The divider mask selected by the clock select: the counter increments on
/// the cycles where `counter & mask == 0`.
pub open spec fn spec_counter_mask(control: Control) -> u16 {
    match spec_clock_select(control) {
        0b00 => 255u16,
        0b01 => 3u16,
        0b10 => 15u16,
        _ => 63u16,
    }
}

/// The byte encoding of the timer control: enable in bit 2, clock select in
/// bits 1 and 0.
pub open spec fn spec_control_to_byte(control: Control) -> u8 {
    (if control.enabled { 1u8 } else { 0u8 }) << 2
        | (if control.clock_bit_1 { 1u8 } else { 0u8 }) << 1
        | (if control.clock_bit_0 { 1u8 } else { 0u8 })
}

/// The timer control a byte decodes to.
pub open spec fn spec_control_from_byte(byte: u8) -> Control {
    Control {
        enabled: bits::spec_is_set(byte, 2),
        clock_bit_1: bits::spec_is_set(byte, 1),
        clock_bit_0: bits::spec_is_set(byte, 0),
    }
}

impl Control {
    /// The 2-bit clock select value.
    pub fn clock_select(&self) -> (r: u8)
        ensures
            r == spec_clock_select(*self),
    {
        (if self.clock_bit_1 { 2u8 } else { 0u8 }) + (if self.clock_bit_0 { 1u8 } else { 0u8 })
    }

    /// The divider mask derived from the clock select.
    pub fn counter_mask(&self) -> (r: u16)
        ensures
            r == spec_counter_mask(*self),
    {
        let cycles: u16 = match self.clock_select() {
            0b00 => 256,
            0b01 => 4,
            0b10 => 16,
            _ => 64,
        };
        cycles - 1
    }

    /// Decodes the control byte: enable bit 2, clock select bits 1 and 0.
    pub fn from_byte(byte: u8) -> (r: Control)
        ensures
            r == spec_control_from_byte(byte),
    {
        Control {
            enabled: bits::is_set(byte, 2),
            clock_bit_1: bits::is_set(byte, 1),
            clock_bit_0: bits::is_set(byte, 0),
        }
    }

    /// Encodes the control into its byte form.
    pub fn to_byte(&self) -> (r: u8)
        ensures
            r == spec_control_to_byte(*self),
    {
        bits::from_bool(self.enabled) << 2 | bits::from_bool(self.clock_bit_1) << 1
            | bits::from_bool(self.clock_bit_0)
    }
}

pub struct Timer {
    pub tima: u8,
    pub tma: u8,
    pub tac: Control,
    pub counter: u16,
}

/// True when, after the divider has advanced to `counter`, the selected cycle
/// boundary is reached and an enabled timer increments its counter register.
pub open spec fn spec_timer_fires(tac: Control, counter: u16) -> bool {
    tac.enabled && counter & spec_counter_mask(tac) == 0
}

impl Timer {
    /// A timer with the divider and both registers zero and the timer disabled.
    pub fn new() -> (r: Timer)
        ensures
            r.tima == 0,
            r.tma == 0,
            r.tac == (Control { enabled: false, clock_bit_1: false, clock_bit_0: false }),
            r.counter == 0,
    {
        Timer {
            tima: 0,
            tma: 0,
            tac: Control { enabled: false, clock_bit_1: false, clock_bit_0: false },
            counter: 0,
        }
    }

    /// Advances the divider by one cycle. On the selected cycle boundary of an
    /// enabled timer the counter register increments; when it overflows it
    /// reloads from the reload register and the timer interrupt is raised in
    /// the same step.
    pub fn emulate(&mut self, irq: &mut IRQ)
        ensures
            final(self).counter == bits::spec_wrap_add16(old(self).counter, 1),
            final(self).tma == old(self).tma,
            final(self).tac == old(self).tac,
            final(irq).spec_enabled_bits() == old(irq).spec_enabled_bits(),
            ({
                let fires = spec_timer_fires(
                    old(self).tac,
                    bits::spec_wrap_add16(old(self).counter, 1),
                );
                if !fires {
                    &&& final(self).tima == old(self).tima
                    &&& final(irq).spec_interrupt_bits() == old(irq).spec_interrupt_bits()
                } else if old(self).tima < 0xFF {
                    &&& final(self).tima == old(self).tima + 1
                    &&& final(irq).spec_interrupt_bits() == old(irq).spec_interrupt_bits()
                } else {
                    &&& final(self).tima == old(self).tma
                    &&& final(irq).spec_interrupt_bits() == bits::spec_set(
                        old(irq).spec_interrupt_bits(),
                        spec_bit_position(Interrupt::Timer),
                    )
                }
            }),
    {
        self.counter = self.counter.wrapping_add(1);
        if !self.tac.enabled {
            return ;
        }
        if !self.can_increment_tima() {
            return ;
        }
        if self.tima == 0xFF {
            self.tima = self.tma;
            irq.set_interrupt(&Interrupt::Timer);
        } else {
            self.tima = self.tima + 1;
        }
    }

    /// True when the divider sits on the cycle boundary the clock select picks.
    fn can_increment_tima(&self) -> (r: bool)
        ensures
            r == (self.counter & spec_counter_mask(self.tac) == 0),
    {
        let mask = self.tac.counter_mask();
        self.counter & mask == 0
    }

    /// The division register: bits 6 and up of the free-running counter.
    pub fn get_div(&self) -> (r: u8)
        ensures
            r == (self.counter >> 6) as u8,
    {
        (self.counter >> 6) as u8
    }

    /// Writing the division register clears the whole free-running counter.
    pub fn reset_div(&mut self)
        ensures
            *final(self) == (Timer { counter: 0u16, ..*old(self) }),
    {
        self.counter = 0;
    }

    pub fn get_tima(&self) -> (r: u8)
        ensures
            r == self.tima,
    {
        self.tima
    }

    pub fn set_tima(&mut self, byte: u8)
        ensures
            *final(self) == (Timer { tima: byte, ..*old(self) }),
    {
        self.tima = byte;
    }

    pub fn get_tma(&self) -> (r: u8)
        ensures
            r == self.tma,
    {
        self.tma
    }

    pub fn set_tma(&mut self, byte: u8)
        ensures
            *final(self) == (Timer { tma: byte, ..*old(self) }),
    {
        self.tma = byte;
    }

    pub fn get_tac(&self) -> (r: u8)
        ensures
            r == spec_control_to_byte(self.tac),
    {
        self.tac.to_byte()
    }

    pub fn set_tac(&mut self, byte: u8)
        ensures
            *final(self) == (Timer { tac: spec_control_from_byte(byte), ..*old(self) }),
    {
        self.tac = Control::from_byte(byte);
    }
}

} // verus!
