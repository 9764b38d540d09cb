//! The joypad: tracks which of the eight buttons are held, exposes the
//! register view the selected button group encodes (active low), and raises
//! the joypad interrupt on each fresh press.

use vstd::prelude::*;

use crate::bits;
use crate::gameboy::Button;
use crate::irq::IRQ;
use crate::irq::Interrupt;
use crate::irq::spec_bit_position;

verus! {

/// The select-line bit that must be driven low for a button's group to be
/// read: bit 5 for the action buttons, bit 4 for the directions.
pub open spec fn spec_control_mask(button: Button) -> u8 {
    match button {
        Button::A | Button::B | Button::Start | Button::Select => 0b0010_0000,
        Button::Up | Button::Down | Button::Left | Button::Right => 0b0001_0000,
    }
}

/// The data bit a button drives low within its group.
pub open spec fn spec_button_mask(button: Button) -> u8 {
    match button {
        Button::A | Button::Right => 0b0001,
        Button::B | Button::Left => 0b0010,
        Button::Select | Button::Up => 0b0100,
        Button::Start | Button::Down => 0b1000,
    }
}

/// The position a button occupies in the held-buttons mask.
pub open spec fn spec_button_position(button: Button) -> u8 {
    match button {
        Button::A => 0,
        Button::B => 1,
        Button::Select => 2,
        Button::Start => 3,
        Button::Right => 4,
        Button::Left => 5,
        Button::Up => 6,
        Button::Down => 7,
    }
}

impl Button {
    /// The select-line bit of this button's group.
    pub fn control_mask(&self) -> (r: u8)
        ensures
            r == spec_control_mask(*self),
    {
        match *self {
            Button::A | Button::B | Button::Start | Button::Select => 0b0010_0000,
            Button::Up | Button::Down | Button::Left | Button::Right => 0b0001_0000,
        }
    }

    /// The data bit this button drives low within its group.
    pub fn mask(&self) -> (r: u8)
        ensures
            r == spec_button_mask(*self),
    {
        match self {
            Button::A | Button::Right => 0b0001,
            Button::B | Button::Left => 0b0010,
            Button::Select | Button::Up => 0b0100,
            Button::Start | Button::Down => 0b1000,
        }
    }

    /// This button's position in the held-buttons mask.
    fn position(&self) -> (r: u8)
        ensures
            r == spec_button_position(*self),
    {
        match self {
            Button::A => 0,
            Button::B => 1,
            Button::Select => 2,
            Button::Start => 3,
            Button::Right => 4,
            Button::Left => 5,
            Button::Up => 6,
            Button::Down => 7,
        }
    }
}

pub struct Joypad {
    pub data: u8,
    pub held: u8,
}

/// True when the given button is in the held-buttons mask.
pub open spec fn spec_is_held(held: u8, button: Button) -> bool {
    bits::spec_is_set(held, spec_button_position(button))
}

/// The select lines as software wrote them, with every other line pulled high.
pub open spec fn spec_select_lines(data: u8) -> u8 {
    0b1100_1111u8 | data
}

/// True when the select lines make the given button's group readable: its
/// group's select bit is driven low.
pub open spec fn spec_is_active(data: u8, button: Button) -> bool {
    spec_select_lines(data) & spec_control_mask(button) == 0
}

/// One button's contribution to the register view: it clears its data bit
/// when it is held and its group is selected.
pub open spec fn spec_apply_button(data: u8, held: u8, button: Button, value: u8) -> u8 {
    if spec_is_held(held, button) && spec_is_active(data, button) {
        value & !spec_button_mask(button)
    } else {
        value
    }
}

/// The joypad register view: the select lines with the data bit of every
/// held, selected button driven low.
pub open spec fn spec_joypad_data(data: u8, held: u8) -> u8 {
    let value = spec_select_lines(data);
    let value = spec_apply_button(data, held, Button::A, value);
    let value = spec_apply_button(data, held, Button::B, value);
    let value = spec_apply_button(data, held, Button::Select, value);
    let value = spec_apply_button(data, held, Button::Start, value);
    let value = spec_apply_button(data, held, Button::Right, value);
    let value = spec_apply_button(data, held, Button::Left, value);
    let value = spec_apply_button(data, held, Button::Up, value);
    spec_apply_button(data, held, Button::Down, value)
}

impl Joypad {
    /// A joypad with no button held and no group selected.
    pub fn new() -> (r: Joypad)
        ensures
            r.data == 0,
            r.held == 0,
    {
        Joypad { data: 0, held: 0 }
    }

    /// The register view of the joypad.
    pub fn get_data(&self) -> (r: u8)
        ensures
            r == spec_joypad_data(self.data, self.held),
    {
        let mut bytes: u8 = self.mask();
        bytes = self.apply_button(Button::A, bytes);
        bytes = self.apply_button(Button::B, bytes);
        bytes = self.apply_button(Button::Select, bytes);
        bytes = self.apply_button(Button::Start, bytes);
        bytes = self.apply_button(Button::Right, bytes);
        bytes = self.apply_button(Button::Left, bytes);
        bytes = self.apply_button(Button::Up, bytes);
        bytes = self.apply_button(Button::Down, bytes);
        bytes
    }

    /// Stores the two select-line bits of the register.
    pub fn set_data(&mut self, byte: u8)
        ensures
            *final(self) == (Joypad { data: byte & 0b0011_0000, ..*old(self) }),
    {
        self.data = byte & 0b0011_0000;
    }

    /// Marks a button held; a fresh press (not already held) raises the
    /// joypad interrupt.
    pub fn button_down(&mut self, irq: &mut IRQ, btn: Button)
        ensures
            final(self).data == old(self).data,
            final(self).held == bits::spec_set(old(self).held, spec_button_position(btn)),
            final(irq).spec_enabled_bits() == old(irq).spec_enabled_bits(),
            final(irq).spec_interrupt_bits() == (if spec_is_held(old(self).held, btn) {
                old(irq).spec_interrupt_bits()
            } else {
                bits::spec_set(old(irq).spec_interrupt_bits(), spec_bit_position(Interrupt::Joypad))
            }),
    {
        let pos = btn.position();
        if !bits::is_set(self.held, pos) {
            // Newly pressed
            irq.set_interrupt(&Interrupt::Joypad);
        }
        self.held = bits::set(self.held, pos);
    }

    /// Marks a button released.
    pub fn button_up(&mut self, btn: Button)
        ensures
            final(self).data == old(self).data,
            final(self).held == bits::spec_reset(old(self).held, spec_button_position(btn)),
    {
        let pos = btn.position();
        self.held = bits::reset(self.held, pos);
    }

    fn is_active(&self, btn: &Button) -> (r: bool)
        ensures
            r == spec_is_active(self.data, *btn),
    {
        self.mask() & btn.control_mask() == 0
    }

    fn mask(&self) -> (r: u8)
        ensures
            r == spec_select_lines(self.data),
    {
        0b1100_1111 | self.data
    }

    fn apply_button(&self, btn: Button, value: u8) -> (r: u8)
        ensures
            r == spec_apply_button(self.data, self.held, btn, value),
    {
        if bits::is_set(self.held, btn.position()) && self.is_active(&btn) {
            value & !btn.mask()
        } else {
            value
        }
    }
}

} // verus!
