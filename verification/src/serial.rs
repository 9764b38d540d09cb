//! Serial data transfer registers. The transfer itself is faked: the data and
//! control registers are readable and writable, and no link is driven.

use vstd::prelude::*;

use crate::bits;

verus! {

#[derive(Clone, Copy, Debug, PartialEq, Eq, Structural)]
pub struct Control {
    pub transfer: bool,
    pub internal_clock: bool,
}

/// The byte encoding of the serial control: transfer-start in bit 7, clock
/// source in bit 0.
pub open spec fn spec_control_to_byte(control: Control) -> u8 {
    (if control.transfer { 1u8 } else { 0u8 }) << 7
        | (if control.internal_clock { 1u8 } else { 0u8 })
}

/// The serial control a byte decodes to.
pub open spec fn spec_control_from_byte(byte: u8) -> Control {
    Control { transfer: bits::spec_is_set(byte, 7), internal_clock: bits::spec_is_set(byte, 0) }
}

impl Control {
    /// Decodes the control byte: transfer-start bit 7, clock source bit 0.
    pub fn from_byte(byte: u8) -> (r: Control)
        ensures
            r == spec_control_from_byte(byte),
    {
        Control { transfer: bits::is_set(byte, 7), internal_clock: bits::is_set(byte, 0) }
    }

    /// Encodes the control into its byte form.
    pub fn to_byte(&self) -> (r: u8)
        ensures
            r == spec_control_to_byte(*self),
    {
        bits::from_bool(self.transfer) << 7 | bits::from_bool(self.internal_clock)
    }
}

pub struct Serial {
    pub data: u8,
    pub control: Control,
}

impl Serial {
    /// A serial port with zeroed data and control.
    pub fn new() -> (r: Serial)
        ensures
            r.data == 0,
            r.control == (Control { transfer: false, internal_clock: false }),
    {
        Serial { data: 0, control: Control { transfer: false, internal_clock: false } }
    }

    pub fn get_data(&self) -> (r: u8)
        ensures
            r == self.data,
    {
        self.data
    }

    pub fn set_data(&mut self, byte: u8)
        ensures
            *final(self) == (Serial { data: byte, ..*old(self) }),
    {
        self.data = byte;
    }

    pub fn get_control(&self) -> (r: u8)
        ensures
            r == spec_control_to_byte(self.control),
    {
        self.control.to_byte()
    }

    pub fn set_control(&mut self, byte: u8)
        ensures
            *final(self) == (Serial { control: spec_control_from_byte(byte), ..*old(self) }),
    {
        self.control = Control::from_byte(byte);
    }
}

} // verus!
