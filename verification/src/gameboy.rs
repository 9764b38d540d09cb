//! The composed machine: the processor core beside the address bus that owns
//! every peripheral, stepped one instruction at a time, plus the shared
//! button and display-color vocabulary.

use vstd::prelude::*;

use crate::bits;
use crate::clock::Clock;
use crate::cpu::CPU;
use crate::cpu::StepError;
use crate::cpu::spec_step_effect;
use crate::display::VideoDisplay;
use crate::mmu::MMU;

verus! {

/// The eight logical buttons of the handheld.
#[derive(Clone, Copy, Debug, PartialEq, Eq, Structural)]
pub enum Button {
    A,
    B,
    Start,
    Select,
    Up,
    Down,
    Left,
    Right,
}

/// The four display shades a pixel can take.
#[derive(Clone, Copy, Debug, PartialEq, Eq, Structural)]
pub enum Color {
    White,
    Light,
    Dark,
    Black,
}

/// The whole machine: the processor beside the bus that owns the cartridge
/// and every peripheral, and the pacing clock the driver supplied.
pub struct GameBoy<C: Clock, D: VideoDisplay> {
    pub cpu: CPU,
    pub mmu: MMU<D>,
    pub clock: C,
}

impl<C: Clock, D: VideoDisplay> GameBoy<C, D> {
    /// A machine over a program image, a pacing clock and a display sink.
    /// The byte at offset 0x147 of the image selects the banking controller.
    pub fn new(cartridge: &Vec<u8>, clock: C, display: D) -> (r: GameBoy<C, D>)
        requires
            cartridge@.len() > 0x147,
            cartridge@[0x147] <= 0x03,
        ensures
            r.cpu.registers == (crate::registers::Registers {
                pc: 0u16,
                sp: 0u16,
                a: 0u8,
                b: 0u8,
                c: 0u8,
                d: 0u8,
                e: 0u8,
                f: crate::flags::Flags {
                    zero: false,
                    subtract: false,
                    half_carry: false,
                    carry: false,
                },
                h: 0u8,
                l: 0u8,
            }),
            !r.cpu.ime && !r.cpu.ime_queued,
            r.mmu.cartridge.rom@ == cartridge@,
            r.mmu.is_checking_boot_rom,
            r.mmu.irq.enabled_bits == 0 && r.mmu.irq.interrupt_bits == 0,
            !r.mmu.dma.running,
    {
        let rom = cartridge.clone();
        GameBoy { cpu: CPU::new(), mmu: MMU::new(rom, display), clock }
    }

    /// Runs one processor step against the bus — servicing a pending
    /// interrupt or executing exactly one opcode's table-row operation —
    /// hands the cycles it consumed to the clock, and returns them. A fault
    /// stops the step and carries the register state at the point of failure.
    pub fn step(&mut self) -> (r: Result<u8, StepError>)
        ensures
            r is Ok ==> spec_step_effect(old(self).cpu, final(self).cpu),
            r is Ok ==> final(self).mmu.elapsed_cycles == 0,
            r matches Err(e) ==> e.registers == final(self).cpu.registers,
    {
        let cpu = &mut self.cpu;
        match cpu.step(&mut self.mmu) {
            Ok(()) => {
                let cycles = self.mmu.get_and_reset_cycles();
                self.clock.tick(cycles);
                Ok(cycles)
            },
            Err(e) => Err(e),
        }
    }

    /// Forwards a press to the joypad: the button joins the held mask, a
    /// fresh press raises the joypad interrupt, and nothing else changes.
    pub fn button_down(&mut self, btn: Button)
        ensures
            final(self).mmu.joypad.data == old(self).mmu.joypad.data,
            final(self).mmu.joypad.held == bits::spec_set(
                old(self).mmu.joypad.held,
                crate::joypad::spec_button_position(btn),
            ),
            final(self).mmu.irq.enabled_bits == old(self).mmu.irq.enabled_bits,
            final(self).mmu.irq.interrupt_bits == (if crate::joypad::spec_is_held(
                old(self).mmu.joypad.held,
                btn,
            ) {
                old(self).mmu.irq.interrupt_bits
            } else {
                bits::spec_set(
                    old(self).mmu.irq.interrupt_bits,
                    crate::irq::spec_bit_position(crate::irq::Interrupt::Joypad),
                )
            }),
            final(self).mmu == (MMU {
                joypad: final(self).mmu.joypad,
                irq: final(self).mmu.irq,
                ..old(self).mmu
            }),
            *final(self) == (GameBoy { mmu: final(self).mmu, ..*old(self) }),
    {
        self.mmu.button_down(btn);
    }

    /// Forwards a release to the joypad: the button leaves the held mask and
    /// nothing else changes.
    pub fn button_up(&mut self, btn: Button)
        ensures
            final(self).mmu.joypad.data == old(self).mmu.joypad.data,
            final(self).mmu.joypad.held == bits::spec_reset(
                old(self).mmu.joypad.held,
                crate::joypad::spec_button_position(btn),
            ),
            final(self).mmu == (MMU { joypad: final(self).mmu.joypad, ..old(self).mmu }),
            *final(self) == (GameBoy { mmu: final(self).mmu, ..*old(self) }),
    {
        self.mmu.button_up(btn);
    }
}

} // verus!
