//! The processor core: fetches one opcode per step against an address bus,
//! services pending interrupts between instructions, and implements the
//! one-instruction latency of the interrupt-enable instruction. Emulation-
//! fatal conditions surface as faults carrying the failing opcode or address.

use vstd::prelude::*;

use crate::bits;
use crate::instructions;
use crate::instructions::spec_after_fetch;
use crate::instructions::spec_execute_effect;
use crate::registers::Registers;

verus! {

/// An emulation-fatal condition: an opcode with no defined behaviour in one
/// of the two opcode spaces, or an access to an address the register page
/// documents as unsupported.
#[derive(Clone, Copy, Debug, PartialEq, Eq, Structural)]
pub enum Fault {
    UnsupportedRead(u16),
    UnsupportedWrite(u16),
    UnknownOpcode(u8),
    UnknownExtendedOpcode(u8),
}

/// The faults an address bus itself can raise: unsupported accesses, never
/// unknown opcodes.
pub open spec fn spec_fault_is_bus(fault: Fault) -> bool {
    fault is UnsupportedRead || fault is UnsupportedWrite
}

/// A step that stopped on a fault, with the full register state at the point
/// of failure.
#[derive(Clone, Copy, Debug, PartialEq, Eq, Structural)]
pub struct StepError {
    pub fault: Fault,
    pub registers: Registers,
}

/// The capability the processor drives: byte and word access to the address
/// space, and asking for a pending interrupt's service address. Every byte
/// access advances peripheral timing by one step on the bus side. A failed
/// access reports an unsupported address, never an unknown opcode.
pub trait MemoryBus {
    fn ack_interrupt(&mut self) -> Option<u16>;

    fn get_byte(&mut self, address: u16) -> (r: Result<u8, Fault>)
        ensures
            r matches Err(f) ==> spec_fault_is_bus(f),
    ;

    fn set_byte(&mut self, address: u16, byte: u8) -> (r: Result<(), Fault>)
        ensures
            r matches Err(f) ==> spec_fault_is_bus(f),
    ;

    /// A word read: two byte reads, low byte at the lower address.
    fn get_word(&mut self, address: u16) -> (r: Result<u16, Fault>)
        ensures
            r matches Err(f) ==> spec_fault_is_bus(f),
    {
        let lsb = self.get_byte(address)?;
        let msb = self.get_byte(address.wrapping_add(1))?;
        Ok(bits::to_word(msb, lsb))
    }

    /// A word write: two byte writes, low byte at the lower address.
    fn set_word(&mut self, address: u16, word: u16) -> (r: Result<(), Fault>)
        ensures
            r matches Err(f) ==> spec_fault_is_bus(f),
    {
        self.set_byte(address, bits::lsb_16(word))?;
        self.set_byte(address.wrapping_add(1), bits::msb_16(word))?;
        Ok(())
    }
}

/// The processor state after a step's interrupt-enable commit: an enable
/// queued on the previous step takes effect, after the step's own interrupt
/// check.
pub open spec fn spec_after_commit(pre: CPU) -> CPU {
    CPU { ime: pre.ime || pre.ime_queued, ime_queued: false, registers: pre.registers }
}

/// How one successful step leaves the processor. Either the master enable
/// was set and a pending interrupt was serviced — the enable and any queue
/// clear, the stack pointer pre-decrements by two for the pushed program
/// counter, and control is at the bus-supplied service address — or a queued
/// enable commits, one opcode is fetched, and it performs exactly its table
/// row's operation.
pub open spec fn spec_step_effect(pre: CPU, post: CPU) -> bool {
    ||| {
        &&& pre.ime
        &&& !post.ime
        &&& !post.ime_queued
        &&& post.registers == (Registers {
            pc: post.registers.pc,
            sp: bits::spec_wrap_sub16(pre.registers.sp, 2),
            ..pre.registers
        })
    }
    ||| exists|op: u8, r: Result<(), Fault>|
        r is Ok && #[trigger] spec_execute_effect(
            op,
            spec_after_fetch(spec_after_commit(pre)),
            post,
            r,
        )
}

/// The processor: the register file and the master interrupt-enable state.
/// The master enable and its one-step queue belong to the processor, as they
/// did on the source hardware.
pub struct CPU {
    pub registers: Registers,
    pub ime: bool,
    pub ime_queued: bool,
}

impl CPU {
    /// A processor with zeroed registers, interrupts disabled, none queued.
    pub fn new() -> (r: CPU)
        ensures
            r.registers == (Registers {
                pc: 0u16,
                sp: 0u16,
                a: 0u8,
                b: 0u8,
                c: 0u8,
                d: 0u8,
                e: 0u8,
                f: crate::flags::Flags {
                    zero: false,
                    subtract: false,
                    half_carry: false,
                    carry: false,
                },
                h: 0u8,
                l: 0u8,
            }),
            !r.ime,
            !r.ime_queued,
    {
        CPU { registers: Registers::blank(), ime: false, ime_queued: false }
    }

    /// One step: services a pending interrupt if the master enable is set,
    /// consuming the step; otherwise commits an interrupt-enable queued on
    /// the previous step, then fetches and executes one opcode, which
    /// performs exactly its table row's operation. A fault stops the step
    /// and carries the register state at the point of failure.
    pub fn step<B: MemoryBus>(&mut self, bus: &mut B) -> (r: Result<(), StepError>)
        ensures
            r is Ok ==> spec_step_effect(*old(self), *final(self)),
            r matches Err(e) ==> e.registers == final(self).registers,
    {
        match self.step_inner(bus) {
            Ok(()) => Ok(()),
            Err(fault) => Err(StepError { fault, registers: self.registers }),
        }
    }

    fn step_inner<B: MemoryBus>(&mut self, bus: &mut B) -> (r: Result<(), Fault>)
        ensures
            r is Ok ==> spec_step_effect(*old(self), *final(self)),
            r matches Err(f) ==> !(f is UnknownExtendedOpcode),
    {
        if self.service_interrupts(bus)? {
            // Servicing an interrupt consumes the remainder of the step
            return Ok(());
        }
        if self.ime_queued {
            self.ime = true;
            self.ime_queued = false;
        }
        proof {
            assert(*self == spec_after_commit(*old(self)));
        }
        let op_code = self.get_byte(bus)?;
        proof {
            assert(*self == spec_after_fetch(spec_after_commit(*old(self))));
        }
        let result = instructions::execute(op_code, self, bus);
        proof {
            if result is Ok {
                assert(spec_execute_effect(
                    op_code,
                    spec_after_fetch(spec_after_commit(*old(self))),
                    *self,
                    result,
                ));
            }
        }
        result
    }

    /// Fetches the byte at the program counter, auto-incrementing it.
    pub fn get_byte<B: MemoryBus>(&mut self, bus: &mut B) -> (r: Result<u8, Fault>)
        ensures
            final(self).registers == (Registers {
                pc: bits::spec_wrap_add16(old(self).registers.pc, 1),
                ..old(self).registers
            }),
            final(self).ime == old(self).ime,
            final(self).ime_queued == old(self).ime_queued,
            r matches Err(f) ==> spec_fault_is_bus(f),
    {
        let old_pc = self.registers.increment_pc();
        bus.get_byte(old_pc)
    }

    /// Fetches the word at the program counter, low byte first, advancing it
    /// past both bytes. Both bytes are consumed even when the caller's
    /// condition later fails.
    pub fn get_word<B: MemoryBus>(&mut self, bus: &mut B) -> (r: Result<u16, Fault>)
        ensures
            final(self).registers == (Registers {
                pc: final(self).registers.pc,
                ..old(self).registers
            }),
            final(self).ime == old(self).ime,
            final(self).ime_queued == old(self).ime_queued,
            r matches Ok(_) ==> final(self).registers.pc == bits::spec_wrap_add16(
                old(self).registers.pc,
                2,
            ),
            r matches Err(f) ==> spec_fault_is_bus(f),
    {
        let lsb = self.get_byte(bus)?;
        let msb = self.get_byte(bus)?;
        Ok(bits::to_word(msb, lsb))
    }

    /// Queues the master interrupt enable to be committed at the start of the
    /// next step, after that step's own interrupt check.
    pub fn set_ime_delayed(&mut self)
        ensures
            final(self).registers == old(self).registers,
            final(self).ime == old(self).ime,
            final(self).ime_queued,
    {
        self.ime_queued = true;
    }

    /// Sets the master interrupt enable immediately, cancelling any queue.
    pub fn set_ime(&mut self)
        ensures
            final(self).registers == old(self).registers,
            final(self).ime,
            !final(self).ime_queued,
    {
        self.ime = true;
        self.ime_queued = false;
    }

    /// Clears the master interrupt enable immediately, cancelling any queue.
    pub fn reset_ime(&mut self)
        ensures
            final(self).registers == old(self).registers,
            !final(self).ime,
            !final(self).ime_queued,
    {
        self.ime = false;
        self.ime_queued = false;
    }

    /// With the master enable set, asks the bus for a pending interrupt; when
    /// one is pending, clears the enable, pushes the program counter through
    /// the bus and jumps to the service address, reporting that the step is
    /// consumed.
    fn service_interrupts<B: MemoryBus>(&mut self, bus: &mut B) -> (r: Result<bool, Fault>)
        ensures
            !old(self).ime ==> r == Ok::<bool, Fault>(false),
            r == Ok::<bool, Fault>(false) ==> *final(self) == *old(self),
            r == Ok::<bool, Fault>(true) ==> {
                &&& !final(self).ime
                &&& !final(self).ime_queued
                &&& final(self).registers == (Registers {
                    pc: final(self).registers.pc,
                    sp: bits::spec_wrap_sub16(old(self).registers.sp, 2),
                    ..old(self).registers
                })
            },
            r matches Err(f) ==> spec_fault_is_bus(f),
    {
        if !self.ime {
            return Ok(false);
        }
        match bus.ack_interrupt() {
            Some(address) => {
                self.reset_ime();
                self.push_pc_onto_stack(bus)?;
                self.registers.pc = address;
                Ok(true)
            },
            None => Ok(false),
        }
    }

    /// Pushes the program counter: the stack pointer pre-decrements by two,
    /// then the word is written through the bus.
    fn push_pc_onto_stack<B: MemoryBus>(&mut self, bus: &mut B) -> (r: Result<(), Fault>)
        ensures
            final(self).registers == (Registers {
                sp: bits::spec_wrap_sub16(old(self).registers.sp, 2),
                ..old(self).registers
            }),
            final(self).ime == old(self).ime,
            final(self).ime_queued == old(self).ime_queued,
            r matches Err(f) ==> spec_fault_is_bus(f),
    {
        self.registers.decrement_sp();
        self.registers.decrement_sp();
        bus.set_word(self.registers.sp, self.registers.pc)
    }
}

} // verus!
