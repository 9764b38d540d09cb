//! The instruction set: operand locations as a closed set of addressing
//! forms, the flag arithmetic of every operation as spec functions, and the
//! dispatch tables for the standard and extended opcode spaces. An opcode
//! with no defined mapping is a fault naming its opcode space.

use vstd::prelude::*;

use crate::bits;
use crate::bits::spec_wrap_add16;
use crate::bits::spec_wrap_add8;
use crate::bits::spec_wrap_sub16;
use crate::bits::spec_wrap_sub8;
use crate::cpu::CPU;
use crate::cpu::Fault;
use crate::cpu::MemoryBus;
use crate::cpu::spec_fault_is_bus;
use crate::flags::Flags;
use crate::registers::Registers;
use crate::registers::spec_get_af;
use crate::registers::spec_get_bc;
use crate::registers::spec_get_de;
use crate::registers::spec_get_hl;
use crate::registers::spec_set_af;
use crate::registers::spec_set_bc;
use crate::registers::spec_set_de;
use crate::registers::spec_set_hl;

verus! {

broadcast use crate::bits::lemma_u8_and_mask_bound, crate::bits::lemma_u16_and_mask_bound;

/// An 8-bit operand location: a register, the immediate byte after the
/// opcode, or one of the indirect memory forms.
#[derive(Clone, Copy, Debug, PartialEq, Eq, Structural)]
pub enum Loc8 {
    A,
    B,
    C,
    D,
    E,
    H,
    L,
    Imm8,
    AddrC,
    AddrBC,
    AddrDE,
    AddrHL,
    AddrImm16,
}

/// A 16-bit operand location: a register pair, the stack pointer, the program
/// counter, or the immediate word after the opcode.
#[derive(Clone, Copy, Debug, PartialEq, Eq, Structural)]
pub enum Loc16 {
    AF,
    BC,
    DE,
    HL,
    SP,
    PC,
    Imm16,
}

/// The conditions a conditional instruction can test.
#[derive(Clone, Copy, Debug, PartialEq, Eq, Structural)]
pub enum Check {
    C,
    Z,
    NC,
    NZ,
    True,
}

/// What a condition means on the flag register.
pub open spec fn spec_check(check: Check, f: Flags) -> bool {
    match check {
        Check::C => f.carry,
        Check::Z => f.zero,
        Check::NC => !f.carry,
        Check::NZ => !f.zero,
        Check::True => true,
    }
}

/// How many immediate bytes reading this 8-bit location consumes.
pub open spec fn spec_loc8_imm_len(loc: Loc8) -> u16 {
    match loc {
        Loc8::Imm8 => 1u16,
        Loc8::AddrImm16 => 2u16,
        _ => 0u16,
    }
}

/// True for the seven plain-register locations.
pub open spec fn spec_loc8_is_reg(loc: Loc8) -> bool {
    match loc {
        Loc8::A | Loc8::B | Loc8::C | Loc8::D | Loc8::E | Loc8::H | Loc8::L => true,
        _ => false,
    }
}

/// The value a plain-register location holds.
pub open spec fn spec_loc8_reg_value(regs: Registers, loc: Loc8) -> u8 {
    match loc {
        Loc8::A => regs.a,
        Loc8::B => regs.b,
        Loc8::C => regs.c,
        Loc8::D => regs.d,
        Loc8::E => regs.e,
        Loc8::H => regs.h,
        Loc8::L => regs.l,
        _ => 0u8,
    }
}

/// The register file after reading this location: immediate forms consume
/// their bytes by advancing the program counter.
pub open spec fn spec_loc8_read_regs(regs: Registers, loc: Loc8) -> Registers {
    Registers { pc: spec_wrap_add16(regs.pc, spec_loc8_imm_len(loc)), ..regs }
}

/// The register file after writing `value` to this location: a register
/// location stores it, a memory form leaves the registers alone, and the
/// absolute form consumes its address bytes.
pub open spec fn spec_loc8_write_regs(regs: Registers, loc: Loc8, value: u8) -> Registers {
    match loc {
        Loc8::A => Registers { a: value, ..regs },
        Loc8::B => Registers { b: value, ..regs },
        Loc8::C => Registers { c: value, ..regs },
        Loc8::D => Registers { d: value, ..regs },
        Loc8::E => Registers { e: value, ..regs },
        Loc8::H => Registers { h: value, ..regs },
        Loc8::L => Registers { l: value, ..regs },
        Loc8::Imm8 => regs,
        Loc8::AddrC | Loc8::AddrBC | Loc8::AddrDE | Loc8::AddrHL => regs,
        Loc8::AddrImm16 => Registers { pc: spec_wrap_add16(regs.pc, 2), ..regs },
    }
}

/// How many immediate bytes reading this 16-bit location consumes.
pub open spec fn spec_loc16_imm_len(loc: Loc16) -> u16 {
    match loc {
        Loc16::Imm16 => 2u16,
        _ => 0u16,
    }
}

/// True for the six register locations.
pub open spec fn spec_loc16_is_reg(loc: Loc16) -> bool {
    !(loc is Imm16)
}

/// The value a 16-bit register location holds.
pub open spec fn spec_loc16_reg_value(regs: Registers, loc: Loc16) -> u16 {
    match loc {
        Loc16::AF => spec_get_af(regs),
        Loc16::BC => spec_get_bc(regs),
        Loc16::DE => spec_get_de(regs),
        Loc16::HL => spec_get_hl(regs),
        Loc16::SP => regs.sp,
        Loc16::PC => regs.pc,
        Loc16::Imm16 => 0u16,
    }
}

/// The register file after reading this 16-bit location.
pub open spec fn spec_loc16_read_regs(regs: Registers, loc: Loc16) -> Registers {
    Registers { pc: spec_wrap_add16(regs.pc, spec_loc16_imm_len(loc)), ..regs }
}

/// The register file after writing `value` to this 16-bit location.
pub open spec fn spec_loc16_write_regs(regs: Registers, loc: Loc16, value: u16) -> Registers {
    match loc {
        Loc16::AF => spec_set_af(regs, value),
        Loc16::BC => spec_set_bc(regs, value),
        Loc16::DE => spec_set_de(regs, value),
        Loc16::HL => spec_set_hl(regs, value),
        Loc16::SP => Registers { sp: value, ..regs },
        Loc16::PC => Registers { pc: value, ..regs },
        Loc16::Imm16 => Registers { pc: spec_wrap_add16(regs.pc, 2), ..regs },
    }
}

/// True when the master-enable state is untouched.
pub open spec fn spec_ime_same(a: CPU, b: CPU) -> bool {
    a.ime == b.ime && a.ime_queued == b.ime_queued
}

impl Loc8 {
    /// Reads the operand. Register forms leave the processor untouched;
    /// immediate forms consume their bytes; memory forms go through the bus.
    fn read<B: MemoryBus>(&self, cpu: &mut CPU, memory: &mut B) -> (r: Result<u8, Fault>)
        ensures
            spec_ime_same(*old(cpu), *final(cpu)),
            final(cpu).registers == (Registers {
                pc: final(cpu).registers.pc,
                ..old(cpu).registers
            }),
            r matches Ok(v) ==> {
                &&& final(cpu).registers == spec_loc8_read_regs(old(cpu).registers, *self)
                &&& (spec_loc8_is_reg(*self) ==> v == spec_loc8_reg_value(old(cpu).registers, *self))
            },
            spec_loc8_is_reg(*self) ==> r is Ok && *final(cpu) == *old(cpu),
            r matches Err(f) ==> spec_fault_is_bus(f),
    {
        match self {
            Loc8::A => Ok(cpu.registers.a),
            Loc8::B => Ok(cpu.registers.b),
            Loc8::C => Ok(cpu.registers.c),
            Loc8::D => Ok(cpu.registers.d),
            Loc8::E => Ok(cpu.registers.e),
            Loc8::H => Ok(cpu.registers.h),
            Loc8::L => Ok(cpu.registers.l),
            Loc8::Imm8 => cpu.get_byte(memory),
            Loc8::AddrC => memory.get_byte(bits::to_word(0xFF, cpu.registers.c)),
            Loc8::AddrBC => memory.get_byte(cpu.registers.get_bc()),
            Loc8::AddrDE => memory.get_byte(cpu.registers.get_de()),
            Loc8::AddrHL => memory.get_byte(cpu.registers.get_hl()),
            Loc8::AddrImm16 => {
                let address = cpu.get_word(memory)?;
                memory.get_byte(address)
            },
        }
    }

    /// Writes the operand. The immediate-byte form is never a write target.
    fn write<B: MemoryBus>(&self, cpu: &mut CPU, memory: &mut B, value: u8) -> (r: Result<
        (),
        Fault,
    >)
        requires
            !(*self is Imm8),
        ensures
            spec_ime_same(*old(cpu), *final(cpu)),
            final(cpu).registers == (Registers {
                pc: final(cpu).registers.pc,
                a: final(cpu).registers.a,
                b: final(cpu).registers.b,
                c: final(cpu).registers.c,
                d: final(cpu).registers.d,
                e: final(cpu).registers.e,
                h: final(cpu).registers.h,
                l: final(cpu).registers.l,
                ..old(cpu).registers
            }),
            r matches Ok(_) ==> final(cpu).registers == spec_loc8_write_regs(
                old(cpu).registers,
                *self,
                value,
            ),
            r matches Err(f) ==> spec_fault_is_bus(f),
    {
        match self {
            Loc8::A => {
                cpu.registers.a = value;
                Ok(())
            },
            Loc8::B => {
                cpu.registers.b = value;
                Ok(())
            },
            Loc8::C => {
                cpu.registers.c = value;
                Ok(())
            },
            Loc8::D => {
                cpu.registers.d = value;
                Ok(())
            },
            Loc8::E => {
                cpu.registers.e = value;
                Ok(())
            },
            Loc8::H => {
                cpu.registers.h = value;
                Ok(())
            },
            Loc8::L => {
                cpu.registers.l = value;
                Ok(())
            },
            // The immediate form is excluded as a target by the precondition
            Loc8::Imm8 => Err(Fault::UnknownOpcode(0)),
            Loc8::AddrC => memory.set_byte(bits::to_word(0xFF, cpu.registers.c), value),
            Loc8::AddrBC => memory.set_byte(cpu.registers.get_bc(), value),
            Loc8::AddrDE => memory.set_byte(cpu.registers.get_de(), value),
            Loc8::AddrHL => memory.set_byte(cpu.registers.get_hl(), value),
            Loc8::AddrImm16 => {
                let address = cpu.get_word(memory)?;
                memory.set_byte(address, value)
            },
        }
    }
}

impl Loc16 {
    /// Reads the operand: a register pair's derived value, the stack pointer
    /// or program counter, or the immediate word after the opcode.
    fn read<B: MemoryBus>(&self, cpu: &mut CPU, memory: &mut B) -> (r: Result<u16, Fault>)
        ensures
            spec_ime_same(*old(cpu), *final(cpu)),
            final(cpu).registers == (Registers {
                pc: final(cpu).registers.pc,
                ..old(cpu).registers
            }),
            r matches Ok(v) ==> {
                &&& final(cpu).registers == spec_loc16_read_regs(old(cpu).registers, *self)
                &&& (spec_loc16_is_reg(*self) ==> v == spec_loc16_reg_value(
                    old(cpu).registers,
                    *self,
                ))
            },
            spec_loc16_is_reg(*self) ==> r is Ok && *final(cpu) == *old(cpu),
            r matches Err(f) ==> spec_fault_is_bus(f),
    {
        match self {
            Loc16::AF => Ok(cpu.registers.get_af()),
            Loc16::BC => Ok(cpu.registers.get_bc()),
            Loc16::DE => Ok(cpu.registers.get_de()),
            Loc16::HL => Ok(cpu.registers.get_hl()),
            Loc16::SP => Ok(cpu.registers.sp),
            Loc16::PC => Ok(cpu.registers.pc),
            Loc16::Imm16 => cpu.get_word(memory),
        }
    }

    /// Writes the operand: into a register pair, the stack pointer or program
    /// counter, or through the bus at the immediate address.
    fn write<B: MemoryBus>(&self, cpu: &mut CPU, memory: &mut B, value: u16) -> (r: Result<
        (),
        Fault,
    >)
        ensures
            spec_ime_same(*old(cpu), *final(cpu)),
            r matches Ok(_) ==> final(cpu).registers == spec_loc16_write_regs(
                old(cpu).registers,
                *self,
                value,
            ),
            r matches Err(f) ==> spec_fault_is_bus(f),
            !(*self is Imm16) ==> r is Ok,
    {
        match self {
            Loc16::AF => {
                cpu.registers.set_af(value);
                Ok(())
            },
            Loc16::BC => {
                cpu.registers.set_bc(value);
                Ok(())
            },
            Loc16::DE => {
                cpu.registers.set_de(value);
                Ok(())
            },
            Loc16::HL => {
                cpu.registers.set_hl(value);
                Ok(())
            },
            Loc16::SP => {
                cpu.registers.sp = value;
                Ok(())
            },
            Loc16::PC => {
                cpu.registers.pc = value;
                Ok(())
            },
            Loc16::Imm16 => {
                let address = cpu.get_word(memory)?;
                memory.set_word(address, value)
            },
        }
    }
}

impl Check {
    /// Evaluates the condition against the flag register.
    fn evaluate(&self, cpu: &CPU) -> (r: bool)
        ensures
            r == spec_check(*self, cpu.registers.f),
    {
        match self {
            Check::C => cpu.registers.f.carry,
            Check::Z => cpu.registers.f.zero,
            Check::NC => !cpu.registers.f.carry,
            Check::NZ => !cpu.registers.f.zero,
            Check::True => true,
        }
    }
}

// The flag arithmetic of each operation, per the hardware's rules: 8-bit
// add/sub set zero from the result, half-carry from the low nibble and carry
// from the full byte; increments and decrements preserve carry; 16-bit add
// works on bit 11 and bit 15 and leaves zero alone.

pub open spec fn spec_add8(a: u8, b: u8) -> u8 {
    spec_wrap_add8(a, b)
}

pub open spec fn spec_add8_flags(a: u8, b: u8) -> Flags {
    Flags {
        zero: spec_wrap_add8(a, b) == 0,
        subtract: false,
        half_carry: (a & 0x0F) + (b & 0x0F) > 0x0F,
        carry: a + b > 0xFF,
    }
}

pub open spec fn spec_adc8(a: u8, b: u8, carry: bool) -> u8 {
    spec_wrap_add8(spec_wrap_add8(a, b), if carry {
        1u8
    } else {
        0u8
    })
}

pub open spec fn spec_adc8_flags(a: u8, b: u8, carry: bool) -> Flags {
    let c = if carry {
        1u8
    } else {
        0u8
    };
    Flags {
        zero: spec_adc8(a, b, carry) == 0,
        subtract: false,
        half_carry: (a & 0x0F) + (b & 0x0F) + c > 0x0F,
        carry: a + b + c > 0xFF,
    }
}

pub open spec fn spec_sub8(a: u8, b: u8) -> u8 {
    spec_wrap_sub8(a, b)
}

pub open spec fn spec_sub8_flags(a: u8, b: u8) -> Flags {
    Flags {
        zero: spec_wrap_sub8(a, b) == 0,
        subtract: true,
        half_carry: (b & 0x0F) > (a & 0x0F),
        carry: b > a,
    }
}

pub open spec fn spec_sbc8(a: u8, b: u8, carry: bool) -> u8 {
    spec_wrap_sub8(spec_wrap_sub8(a, b), if carry {
        1u8
    } else {
        0u8
    })
}

pub open spec fn spec_sbc8_flags(a: u8, b: u8, carry: bool) -> Flags {
    let c = if carry {
        1u8
    } else {
        0u8
    };
    Flags {
        zero: spec_sbc8(a, b, carry) == 0,
        subtract: true,
        half_carry: (b & 0x0F) + c > (a & 0x0F),
        carry: b + c > a,
    }
}

pub open spec fn spec_inc8_flags(value: u8, f: Flags) -> Flags {
    Flags {
        zero: spec_wrap_add8(value, 1) == 0,
        subtract: false,
        half_carry: (value & 0x0F) == 0x0F,
        carry: f.carry,
    }
}

pub open spec fn spec_dec8_flags(value: u8, f: Flags) -> Flags {
    Flags {
        zero: spec_wrap_sub8(value, 1) == 0,
        subtract: true,
        half_carry: (value & 0x0F) == 0,
        carry: f.carry,
    }
}

pub open spec fn spec_and8_flags(a: u8, b: u8) -> Flags {
    Flags { zero: (a & b) == 0, subtract: false, half_carry: true, carry: false }
}

pub open spec fn spec_or8_flags(a: u8, b: u8) -> Flags {
    Flags { zero: (a | b) == 0, subtract: false, half_carry: false, carry: false }
}

pub open spec fn spec_xor8_flags(a: u8, b: u8) -> Flags {
    Flags { zero: (a ^ b) == 0, subtract: false, half_carry: false, carry: false }
}

pub open spec fn spec_add16_flags(a: u16, b: u16, f: Flags) -> Flags {
    Flags {
        zero: f.zero,
        subtract: false,
        half_carry: (a & 0x0FFF) + (b & 0x0FFF) > 0x0FFF,
        carry: a + b > 0xFFFF,
    }
}

/// A byte sign-extended to a word.
pub open spec fn spec_sign_extend(byte: u8) -> u16 {
    if byte < 0x80 {
        byte as u16
    } else {
        (byte + 0xFF00) as u16
    }
}

pub open spec fn spec_add_sp_flags(sp: u16, value: u16) -> Flags {
    Flags {
        zero: false,
        subtract: false,
        half_carry: (sp & 0x0F) + (value & 0x0F) > 0x0F,
        carry: (sp & 0xFF) + (value & 0xFF) > 0xFF,
    }
}

/// The decimal-adjust of the accumulator: conditionally adds or subtracts
/// 0x06 and 0x60 from the carry, half-carry and low-nibble state, updating
/// carry and always clearing half-carry.
pub open spec fn spec_daa(a: u8, f: Flags) -> (u8, Flags) {
    if !f.subtract {
        let r1 = if f.half_carry || (a & 0x0F) > 0x09 {
            spec_wrap_add8(a, 0x06)
        } else {
            a
        };
        let r2 = if f.carry || r1 > 0x9F {
            spec_wrap_add8(r1, 0x60)
        } else {
            r1
        };
        let carry = if f.carry || r1 > 0x9F {
            true
        } else {
            f.carry
        };
        (r2, Flags { zero: r2 == 0, subtract: f.subtract, half_carry: false, carry })
    } else {
        let r1 = if f.half_carry {
            spec_wrap_sub8(a, 0x06)
        } else {
            a
        };
        let r2 = if f.carry {
            spec_wrap_sub8(r1, 0x60)
        } else {
            r1
        };
        (r2, Flags { zero: r2 == 0, subtract: f.subtract, half_carry: false, carry: f.carry })
    }
}

// Rotate and shift results: the bit shifted out lands in the carry flag, and
// half-carry and subtract always clear.

pub open spec fn spec_sla(value: u8) -> u8 {
    value << 1
}

pub open spec fn spec_sr(value: u8) -> u8 {
    value >> 1
}

pub open spec fn spec_rrc(value: u8) -> u8 {
    (value >> 1) | (value << 7)
}

pub open spec fn spec_rr(value: u8, carry: bool) -> u8 {
    ((if carry {
        1u8
    } else {
        0u8
    }) << 7) | (value >> 1)
}

pub open spec fn spec_rlc(value: u8) -> u8 {
    (value << 1) | (value >> 7)
}

pub open spec fn spec_rl(value: u8, carry: bool) -> u8 {
    (value << 1) | (if carry {
        1u8
    } else {
        0u8
    })
}

/// Shift and rotate flags: zero from the result, the named carry, the rest
/// cleared.
pub open spec fn spec_shift_flags(result: u8, carry: bool) -> Flags {
    Flags { zero: result == 0, subtract: false, half_carry: false, carry }
}

/// The high bit of a byte, as the carry a left shift or rotate produces.
pub open spec fn spec_high_bit(value: u8) -> bool {
    (value >> 7) & 0x1 != 0
}

/// The low bit of a byte, as the carry a right shift or rotate produces.
pub open spec fn spec_low_bit(value: u8) -> bool {
    value & 0x1 != 0
}

/// The nibbles of a byte exchanged.
pub open spec fn spec_swap(value: u8) -> u8 {
    ((value & 0x0F) << 4) | ((value & 0xF0) >> 4)
}

pub open spec fn spec_bit_flags(value: u8, index: u8, f: Flags) -> Flags {
    Flags {
        zero: value & (1u8 << index) == 0,
        subtract: false,
        half_carry: true,
        carry: f.carry,
    }
}

// What each operation does to the processor, one predicate per operation:
// the master-enable state it keeps or changes, and, on success, the exact
// register file it leaves, quantified over the value the bus supplied for
// memory and immediate operands. The dispatch tables below are specified as
// one such predicate per opcode.

pub open spec fn spec_load_8_op(pre: CPU, post: CPU, r: Result<(), Fault>, dest: Loc8, src: Loc8) -> bool {
    &&& (spec_ime_same(pre, post))
    &&& (r matches Ok(_) ==> exists|v: u8|
        {
            &&& post.registers == #[trigger] spec_loc8_write_regs(
                spec_loc8_read_regs(pre.registers, src),
                dest,
                v,
            )
            &&& (spec_loc8_is_reg(src) ==> v == spec_loc8_reg_value(pre.registers, src))
        })
    &&& (r matches Err(f) ==> spec_fault_is_bus(f))
}

pub open spec fn spec_load_16_op(pre: CPU, post: CPU, r: Result<(), Fault>, dest: Loc16, src: Loc16) -> bool {
    &&& (spec_ime_same(pre, post))
    &&& (r matches Ok(_) ==> exists|v: u16|
        {
            &&& post.registers == #[trigger] spec_loc16_write_regs(
                spec_loc16_read_regs(pre.registers, src),
                dest,
                v,
            )
            &&& (spec_loc16_is_reg(src) ==> v == spec_loc16_reg_value(pre.registers, src))
        })
    &&& (r matches Err(f) ==> spec_fault_is_bus(f))
}

pub open spec fn spec_inc_8_op(pre: CPU, post: CPU, r: Result<(), Fault>, loc: Loc8) -> bool {
    &&& (spec_ime_same(pre, post))
    &&& (r matches Ok(_) ==> exists|v: u8|
        {
            &&& post.registers == (Registers {
                f: #[trigger] spec_inc8_flags(v, pre.registers.f),
                ..spec_loc8_write_regs(
                    spec_loc8_read_regs(pre.registers, loc),
                    loc,
                    #[trigger] spec_wrap_add8(v, 1),
                )
            })
            &&& (spec_loc8_is_reg(loc) ==> v == spec_loc8_reg_value(pre.registers, loc))
        })
    &&& (r matches Err(f) ==> spec_fault_is_bus(f))
}

pub open spec fn spec_inc_16_op(pre: CPU, post: CPU, r: Result<(), Fault>, loc: Loc16) -> bool {
    &&& (spec_ime_same(pre, post))
    &&& (r matches Ok(_) ==> exists|v: u16|
        {
            &&& post.registers == spec_loc16_write_regs(
                spec_loc16_read_regs(pre.registers, loc),
                loc,
                #[trigger] spec_wrap_add16(v, 1),
            )
            &&& (spec_loc16_is_reg(loc) ==> v == spec_loc16_reg_value(pre.registers, loc))
        })
    &&& (r matches Err(f) ==> spec_fault_is_bus(f))
}

pub open spec fn spec_dec_8_op(pre: CPU, post: CPU, r: Result<(), Fault>, loc: Loc8) -> bool {
    &&& (spec_ime_same(pre, post))
    &&& (r matches Ok(_) ==> exists|v: u8|
        {
            &&& post.registers == (Registers {
                f: #[trigger] spec_dec8_flags(v, pre.registers.f),
                ..spec_loc8_write_regs(
                    spec_loc8_read_regs(pre.registers, loc),
                    loc,
                    #[trigger] spec_wrap_sub8(v, 1),
                )
            })
            &&& (spec_loc8_is_reg(loc) ==> v == spec_loc8_reg_value(pre.registers, loc))
        })
    &&& (r matches Err(f) ==> spec_fault_is_bus(f))
}

pub open spec fn spec_dec_16_op(pre: CPU, post: CPU, r: Result<(), Fault>, loc: Loc16) -> bool {
    &&& (spec_ime_same(pre, post))
    &&& (r matches Ok(_) ==> exists|v: u16|
        {
            &&& post.registers == spec_loc16_write_regs(
                spec_loc16_read_regs(pre.registers, loc),
                loc,
                #[trigger] spec_wrap_sub16(v, 1),
            )
            &&& (spec_loc16_is_reg(loc) ==> v == spec_loc16_reg_value(pre.registers, loc))
        })
    &&& (r matches Err(f) ==> spec_fault_is_bus(f))
}

pub open spec fn spec_add_8_op(pre: CPU, post: CPU, r: Result<(), Fault>, loc: Loc8) -> bool {
    &&& (spec_ime_same(pre, post))
    &&& (r matches Ok(_) ==> exists|v: u8|
        {
            &&& post.registers == (Registers {
                a: #[trigger] spec_add8(pre.registers.a, v),
                f: spec_add8_flags(pre.registers.a, v),
                ..spec_loc8_read_regs(pre.registers, loc)
            })
            &&& (spec_loc8_is_reg(loc) ==> v == spec_loc8_reg_value(pre.registers, loc))
        })
    &&& (r matches Err(f) ==> spec_fault_is_bus(f))
}

pub open spec fn spec_add_16_op(pre: CPU, post: CPU, r: Result<(), Fault>, loc: Loc16) -> bool {
    &&& (spec_ime_same(pre, post))
    &&& (r matches Ok(_) ==> exists|v: u16|
        {
            &&& post.registers == (Registers {
                f: #[trigger] spec_add16_flags(spec_get_hl(pre.registers), v, pre.registers.f),
                ..spec_set_hl(
                    spec_loc16_read_regs(pre.registers, loc),
                    spec_wrap_add16(spec_get_hl(pre.registers), v),
                )
            })
            &&& (spec_loc16_is_reg(loc) ==> v == spec_loc16_reg_value(pre.registers, loc))
        })
    &&& (r matches Err(f) ==> spec_fault_is_bus(f))
}

pub open spec fn spec_add_sp_op(pre: CPU, post: CPU, r: Result<(), Fault>, dest: Loc16, src: Loc8) -> bool {
    &&& (spec_ime_same(pre, post))
    &&& (r matches Ok(_) ==> exists|b: u8|
        {
            let value = #[trigger] spec_sign_extend(b);
            post.registers == (Registers {
                f: spec_add_sp_flags(pre.registers.sp, value),
                ..spec_loc16_write_regs(
                    spec_loc8_read_regs(pre.registers, src),
                    dest,
                    spec_wrap_add16(pre.registers.sp, value),
                )
            })
        })
    &&& (r matches Err(f) ==> spec_fault_is_bus(f))
}

pub open spec fn spec_adc_op(pre: CPU, post: CPU, r: Result<(), Fault>, loc: Loc8) -> bool {
    &&& (spec_ime_same(pre, post))
    &&& (r matches Ok(_) ==> exists|v: u8|
        {
            &&& post.registers == (Registers {
                a: #[trigger] spec_adc8(pre.registers.a, v, pre.registers.f.carry),
                f: spec_adc8_flags(pre.registers.a, v, pre.registers.f.carry),
                ..spec_loc8_read_regs(pre.registers, loc)
            })
            &&& (spec_loc8_is_reg(loc) ==> v == spec_loc8_reg_value(pre.registers, loc))
        })
    &&& (r matches Err(f) ==> spec_fault_is_bus(f))
}

pub open spec fn spec_sub_op(pre: CPU, post: CPU, r: Result<(), Fault>, loc: Loc8) -> bool {
    &&& (spec_ime_same(pre, post))
    &&& (r matches Ok(_) ==> exists|v: u8|
        {
            &&& post.registers == (Registers {
                a: #[trigger] spec_sub8(pre.registers.a, v),
                f: #[trigger] spec_sub8_flags(pre.registers.a, v),
                ..spec_loc8_read_regs(pre.registers, loc)
            })
            &&& (spec_loc8_is_reg(loc) ==> v == spec_loc8_reg_value(pre.registers, loc))
        })
    &&& (r matches Err(f) ==> spec_fault_is_bus(f))
}

pub open spec fn spec_sbc_op(pre: CPU, post: CPU, r: Result<(), Fault>, loc: Loc8) -> bool {
    &&& (spec_ime_same(pre, post))
    &&& (r matches Ok(_) ==> exists|v: u8|
        {
            &&& post.registers == (Registers {
                a: #[trigger] spec_sbc8(pre.registers.a, v, pre.registers.f.carry),
                f: spec_sbc8_flags(pre.registers.a, v, pre.registers.f.carry),
                ..spec_loc8_read_regs(pre.registers, loc)
            })
            &&& (spec_loc8_is_reg(loc) ==> v == spec_loc8_reg_value(pre.registers, loc))
        })
    &&& (r matches Err(f) ==> spec_fault_is_bus(f))
}

pub open spec fn spec_cp_op(pre: CPU, post: CPU, r: Result<(), Fault>, loc: Loc8) -> bool {
    &&& (spec_ime_same(pre, post))
    &&& (r matches Ok(_) ==> exists|v: u8|
        {
            &&& post.registers == (Registers {
                f: #[trigger] spec_sub8_flags(pre.registers.a, v),
                ..spec_loc8_read_regs(pre.registers, loc)
            })
            &&& (spec_loc8_is_reg(loc) ==> v == spec_loc8_reg_value(pre.registers, loc))
        })
    &&& (r matches Err(f) ==> spec_fault_is_bus(f))
}

pub open spec fn spec_and_op(pre: CPU, post: CPU, r: Result<(), Fault>, loc: Loc8) -> bool {
    &&& (spec_ime_same(pre, post))
    &&& (r matches Ok(_) ==> exists|v: u8|
        {
            &&& post.registers == (Registers {
                a: #[trigger] (pre.registers.a & v),
                f: spec_and8_flags(pre.registers.a, v),
                ..spec_loc8_read_regs(pre.registers, loc)
            })
            &&& (spec_loc8_is_reg(loc) ==> v == spec_loc8_reg_value(pre.registers, loc))
        })
    &&& (r matches Err(f) ==> spec_fault_is_bus(f))
}

pub open spec fn spec_or_op(pre: CPU, post: CPU, r: Result<(), Fault>, loc: Loc8) -> bool {
    &&& (spec_ime_same(pre, post))
    &&& (r matches Ok(_) ==> exists|v: u8|
        {
            &&& post.registers == (Registers {
                a: #[trigger] (pre.registers.a | v),
                f: spec_or8_flags(pre.registers.a, v),
                ..spec_loc8_read_regs(pre.registers, loc)
            })
            &&& (spec_loc8_is_reg(loc) ==> v == spec_loc8_reg_value(pre.registers, loc))
        })
    &&& (r matches Err(f) ==> spec_fault_is_bus(f))
}

pub open spec fn spec_xor_op(pre: CPU, post: CPU, r: Result<(), Fault>, loc: Loc8) -> bool {
    &&& (spec_ime_same(pre, post))
    &&& (r matches Ok(_) ==> exists|v: u8|
        {
            &&& post.registers == (Registers {
                a: #[trigger] (pre.registers.a ^ v),
                f: spec_xor8_flags(pre.registers.a, v),
                ..spec_loc8_read_regs(pre.registers, loc)
            })
            &&& (spec_loc8_is_reg(loc) ==> v == spec_loc8_reg_value(pre.registers, loc))
        })
    &&& (r matches Err(f) ==> spec_fault_is_bus(f))
}

pub open spec fn spec_sla_op(pre: CPU, post: CPU, r: Result<(), Fault>, loc: Loc8) -> bool {
    &&& (spec_ime_same(pre, post))
    &&& (r matches Ok(_) ==> exists|v: u8|
        {
            &&& post.registers == (Registers {
                f: spec_shift_flags(spec_sla(v), spec_high_bit(v)),
                ..spec_loc8_write_regs(
                    spec_loc8_read_regs(pre.registers, loc),
                    loc,
                    #[trigger] spec_sla(v),
                )
            })
            &&& (spec_loc8_is_reg(loc) ==> v == spec_loc8_reg_value(pre.registers, loc))
        })
    &&& (r matches Err(f) ==> spec_fault_is_bus(f))
}

pub open spec fn spec_sra_op(pre: CPU, post: CPU, r: Result<(), Fault>, loc: Loc8) -> bool {
    &&& (spec_ime_same(pre, post))
    &&& (r matches Ok(_) ==> exists|v: u8|
        {
            &&& post.registers == (Registers {
                f: spec_shift_flags(spec_sr(v), spec_low_bit(v)),
                ..spec_loc8_write_regs(
                    spec_loc8_read_regs(pre.registers, loc),
                    loc,
                    #[trigger] spec_sr(v),
                )
            })
            &&& (spec_loc8_is_reg(loc) ==> v == spec_loc8_reg_value(pre.registers, loc))
        })
    &&& (r matches Err(f) ==> spec_fault_is_bus(f))
}

pub open spec fn spec_srl_op(pre: CPU, post: CPU, r: Result<(), Fault>, loc: Loc8) -> bool {
    &&& (spec_ime_same(pre, post))
    &&& (r matches Ok(_) ==> exists|v: u8|
        {
            &&& post.registers == (Registers {
                f: spec_shift_flags(spec_sr(v), spec_low_bit(v)),
                ..spec_loc8_write_regs(
                    spec_loc8_read_regs(pre.registers, loc),
                    loc,
                    #[trigger] spec_sr(v),
                )
            })
            &&& (spec_loc8_is_reg(loc) ==> v == spec_loc8_reg_value(pre.registers, loc))
        })
    &&& (r matches Err(f) ==> spec_fault_is_bus(f))
}

pub open spec fn spec_rrc_op(pre: CPU, post: CPU, r: Result<(), Fault>, loc: Loc8) -> bool {
    &&& (spec_ime_same(pre, post))
    &&& (r matches Ok(_) ==> exists|v: u8|
        {
            &&& post.registers == (Registers {
                f: spec_shift_flags(spec_rrc(v), spec_low_bit(v)),
                ..spec_loc8_write_regs(
                    spec_loc8_read_regs(pre.registers, loc),
                    loc,
                    #[trigger] spec_rrc(v),
                )
            })
            &&& (spec_loc8_is_reg(loc) ==> v == spec_loc8_reg_value(pre.registers, loc))
        })
    &&& (r matches Err(f) ==> spec_fault_is_bus(f))
}

pub open spec fn spec_rr_op(pre: CPU, post: CPU, r: Result<(), Fault>, loc: Loc8) -> bool {
    &&& (spec_ime_same(pre, post))
    &&& (r matches Ok(_) ==> exists|v: u8|
        {
            &&& post.registers == (Registers {
                f: spec_shift_flags(
                    spec_rr(v, pre.registers.f.carry),
                    spec_low_bit(v),
                ),
                ..spec_loc8_write_regs(
                    spec_loc8_read_regs(pre.registers, loc),
                    loc,
                    #[trigger] spec_rr(v, pre.registers.f.carry),
                )
            })
            &&& (spec_loc8_is_reg(loc) ==> v == spec_loc8_reg_value(pre.registers, loc))
        })
    &&& (r matches Err(f) ==> spec_fault_is_bus(f))
}

pub open spec fn spec_rlc_op(pre: CPU, post: CPU, r: Result<(), Fault>, loc: Loc8) -> bool {
    &&& (spec_ime_same(pre, post))
    &&& (r matches Ok(_) ==> exists|v: u8|
        {
            &&& post.registers == (Registers {
                f: spec_shift_flags(spec_rlc(v), spec_high_bit(v)),
                ..spec_loc8_write_regs(
                    spec_loc8_read_regs(pre.registers, loc),
                    loc,
                    #[trigger] spec_rlc(v),
                )
            })
            &&& (spec_loc8_is_reg(loc) ==> v == spec_loc8_reg_value(pre.registers, loc))
        })
    &&& (r matches Err(f) ==> spec_fault_is_bus(f))
}

pub open spec fn spec_rl_op(pre: CPU, post: CPU, r: Result<(), Fault>, loc: Loc8) -> bool {
    &&& (spec_ime_same(pre, post))
    &&& (r matches Ok(_) ==> exists|v: u8|
        {
            &&& post.registers == (Registers {
                f: spec_shift_flags(
                    spec_rl(v, pre.registers.f.carry),
                    spec_high_bit(v),
                ),
                ..spec_loc8_write_regs(
                    spec_loc8_read_regs(pre.registers, loc),
                    loc,
                    #[trigger] spec_rl(v, pre.registers.f.carry),
                )
            })
            &&& (spec_loc8_is_reg(loc) ==> v == spec_loc8_reg_value(pre.registers, loc))
        })
    &&& (r matches Err(f) ==> spec_fault_is_bus(f))
}

pub open spec fn spec_bit_op(pre: CPU, post: CPU, r: Result<(), Fault>, loc: Loc8, index: u8) -> bool {
    &&& (spec_ime_same(pre, post))
    &&& (r matches Ok(_) ==> exists|v: u8|
        {
            &&& post.registers == (Registers {
                f: #[trigger] spec_bit_flags(v, index, pre.registers.f),
                ..spec_loc8_read_regs(pre.registers, loc)
            })
            &&& (spec_loc8_is_reg(loc) ==> v == spec_loc8_reg_value(pre.registers, loc))
        })
    &&& (r matches Err(f) ==> spec_fault_is_bus(f))
}

pub open spec fn spec_res_op(pre: CPU, post: CPU, r: Result<(), Fault>, loc: Loc8, index: u8) -> bool {
    &&& (spec_ime_same(pre, post))
    &&& (r matches Ok(_) ==> exists|v: u8|
        {
            &&& post.registers == spec_loc8_write_regs(
                spec_loc8_read_regs(pre.registers, loc),
                loc,
                #[trigger] bits::spec_reset(v, index),
            )
            &&& (spec_loc8_is_reg(loc) ==> v == spec_loc8_reg_value(pre.registers, loc))
        })
    &&& (r matches Err(f) ==> spec_fault_is_bus(f))
}

pub open spec fn spec_set_op(pre: CPU, post: CPU, r: Result<(), Fault>, loc: Loc8, index: u8) -> bool {
    &&& (spec_ime_same(pre, post))
    &&& (r matches Ok(_) ==> exists|v: u8|
        {
            &&& post.registers == spec_loc8_write_regs(
                spec_loc8_read_regs(pre.registers, loc),
                loc,
                #[trigger] bits::spec_set(v, index),
            )
            &&& (spec_loc8_is_reg(loc) ==> v == spec_loc8_reg_value(pre.registers, loc))
        })
    &&& (r matches Err(f) ==> spec_fault_is_bus(f))
}

pub open spec fn spec_swap_op(pre: CPU, post: CPU, r: Result<(), Fault>, loc: Loc8) -> bool {
    &&& (spec_ime_same(pre, post))
    &&& (r matches Ok(_) ==> exists|v: u8|
        {
            &&& post.registers == (Registers {
                f: Flags {
                    zero: #[trigger] spec_swap(v) == 0,
                    subtract: false,
                    half_carry: false,
                    carry: false,
                },
                ..spec_loc8_write_regs(
                    spec_loc8_read_regs(pre.registers, loc),
                    loc,
                    spec_swap(v),
                )
            })
            &&& (spec_loc8_is_reg(loc) ==> v == spec_loc8_reg_value(pre.registers, loc))
        })
    &&& (r matches Err(f) ==> spec_fault_is_bus(f))
}

pub open spec fn spec_ldi_op(pre: CPU, post: CPU, r: Result<(), Fault>, dest: Loc8, src: Loc8) -> bool {
    &&& (spec_ime_same(pre, post))
    &&& (r matches Ok(_) ==> exists|v: u8|
        {
            let loaded = #[trigger] spec_loc8_write_regs(pre.registers, dest, v);
            &&& post.registers == spec_set_hl(
                loaded,
                spec_wrap_add16(spec_get_hl(loaded), 1),
            )
            &&& (spec_loc8_is_reg(src) ==> v == spec_loc8_reg_value(pre.registers, src))
        })
    &&& (r matches Err(f) ==> spec_fault_is_bus(f))
}

pub open spec fn spec_ldd_op(pre: CPU, post: CPU, r: Result<(), Fault>, dest: Loc8, src: Loc8) -> bool {
    &&& (spec_ime_same(pre, post))
    &&& (r matches Ok(_) ==> exists|v: u8|
        {
            let loaded = #[trigger] spec_loc8_write_regs(pre.registers, dest, v);
            &&& post.registers == spec_set_hl(
                loaded,
                spec_wrap_sub16(spec_get_hl(loaded), 1),
            )
            &&& (spec_loc8_is_reg(src) ==> v == spec_loc8_reg_value(pre.registers, src))
        })
    &&& (r matches Err(f) ==> spec_fault_is_bus(f))
}

pub open spec fn spec_ldh_n_op(pre: CPU, post: CPU, r: Result<(), Fault>) -> bool {
    &&& (spec_ime_same(pre, post))
    &&& (post.registers == (Registers {
        pc: post.registers.pc,
        ..pre.registers
    }))
    &&& (r matches Ok(_) ==> post.registers.pc == spec_wrap_add16(pre.registers.pc, 1))
    &&& (r matches Err(f) ==> spec_fault_is_bus(f))
}

pub open spec fn spec_ldh_a_op(pre: CPU, post: CPU, r: Result<(), Fault>) -> bool {
    &&& (spec_ime_same(pre, post))
    &&& (r matches Ok(_) ==> post.registers == (Registers {
        a: post.registers.a,
        pc: spec_wrap_add16(pre.registers.pc, 1),
        ..pre.registers
    }))
    &&& (r matches Err(f) ==> spec_fault_is_bus(f))
}

pub open spec fn spec_ldhl_op(pre: CPU, post: CPU, r: Result<(), Fault>) -> bool {
    &&& (spec_ime_same(pre, post))
    &&& (r matches Ok(_) ==> exists|b: u8|
        {
            let value = #[trigger] spec_sign_extend(b);
            post.registers == (Registers {
                f: spec_add_sp_flags(pre.registers.sp, value),
                ..spec_loc16_write_regs(
                    spec_loc8_read_regs(pre.registers, Loc8::Imm8),
                    Loc16::HL,
                    spec_wrap_add16(pre.registers.sp, value),
                )
            })
        })
    &&& (r matches Err(f) ==> spec_fault_is_bus(f))
}

pub open spec fn spec_push_op(pre: CPU, post: CPU, r: Result<(), Fault>, loc: Loc16) -> bool {
    &&& (spec_ime_same(pre, post))
    &&& (post.registers == (Registers {
        sp: spec_wrap_sub16(pre.registers.sp, 2),
        ..pre.registers
    }))
    &&& (r matches Err(f) ==> spec_fault_is_bus(f))
}

pub open spec fn spec_pop_op(pre: CPU, post: CPU, r: Result<(), Fault>, loc: Loc16) -> bool {
    &&& (spec_ime_same(pre, post))
    &&& (r matches Ok(_) ==> exists|w: u16|
        post.registers == (Registers {
            sp: spec_wrap_add16(pre.registers.sp, 2),
            ..#[trigger] spec_loc16_write_regs(pre.registers, loc, w)
        }))
    &&& (r matches Err(f) ==> spec_fault_is_bus(f))
}

pub open spec fn spec_rst_op(pre: CPU, post: CPU, r: Result<(), Fault>, new_pc: u16) -> bool {
    &&& (spec_ime_same(pre, post))
    &&& (r matches Ok(_) ==> post.registers == (Registers {
        pc: new_pc,
        sp: spec_wrap_sub16(pre.registers.sp, 2),
        ..pre.registers
    }))
    &&& (r matches Err(f) ==> spec_fault_is_bus(f))
}

pub open spec fn spec_call_op(pre: CPU, post: CPU, r: Result<(), Fault>, check: Check) -> bool {
    &&& (spec_ime_same(pre, post))
    &&& (r matches Ok(_) ==> post.registers == (if spec_check(check, pre.registers.f) {
        Registers {
            pc: post.registers.pc,
            sp: spec_wrap_sub16(pre.registers.sp, 2),
            ..pre.registers
        }
    } else {
        Registers { pc: spec_wrap_add16(pre.registers.pc, 2), ..pre.registers }
    }))
    &&& (r matches Err(f) ==> spec_fault_is_bus(f))
}

pub open spec fn spec_ret_op(pre: CPU, post: CPU, r: Result<(), Fault>, check: Check) -> bool {
    &&& (spec_ime_same(pre, post))
    &&& (r matches Ok(_) ==> post.registers == (if spec_check(check, pre.registers.f) {
        Registers {
            pc: post.registers.pc,
            sp: spec_wrap_add16(pre.registers.sp, 2),
            ..pre.registers
        }
    } else {
        pre.registers
    }))
    &&& (r matches Err(f) ==> spec_fault_is_bus(f))
}

pub open spec fn spec_reti_op(pre: CPU, post: CPU, r: Result<(), Fault>) -> bool {
    &&& (post.ime)
    &&& (!post.ime_queued)
    &&& (r matches Ok(_) ==> post.registers == (Registers {
        pc: post.registers.pc,
        sp: spec_wrap_add16(pre.registers.sp, 2),
        ..pre.registers
    }))
    &&& (r matches Err(f) ==> spec_fault_is_bus(f))
}

pub open spec fn spec_jp_op(pre: CPU, post: CPU, r: Result<(), Fault>, loc: Loc16) -> bool {
    &&& (spec_ime_same(pre, post))
    &&& (r matches Ok(_) ==> post.registers == (Registers {
        pc: spec_loc16_reg_value(pre.registers, loc),
        ..pre.registers
    }))
    &&& (r matches Err(f) ==> spec_fault_is_bus(f))
}

pub open spec fn spec_jp_n_op(pre: CPU, post: CPU, r: Result<(), Fault>, check: Check) -> bool {
    &&& (spec_ime_same(pre, post))
    &&& (r matches Ok(_) ==> post.registers == (Registers {
        pc: if spec_check(check, pre.registers.f) {
            post.registers.pc
        } else {
            spec_wrap_add16(pre.registers.pc, 2)
        },
        ..pre.registers
    }))
    &&& (r matches Err(f) ==> spec_fault_is_bus(f))
}

pub open spec fn spec_jr_n_op(pre: CPU, post: CPU, r: Result<(), Fault>, check: Check) -> bool {
    &&& (spec_ime_same(pre, post))
    &&& (r matches Ok(_) ==> exists|offset: u8|
        {
            let fetched = spec_wrap_add16(pre.registers.pc, 1);
            post.registers == (Registers {
                pc: if spec_check(check, pre.registers.f) {
                    spec_wrap_add16(fetched, #[trigger] spec_sign_extend(offset))
                } else {
                    fetched
                },
                ..pre.registers
            })
        })
    &&& (r matches Err(f) ==> spec_fault_is_bus(f))
}

pub open spec fn spec_scf_op(pre: CPU, post: CPU) -> bool {
    &&& (spec_ime_same(pre, post))
    &&& (post.registers == (Registers {
        f: Flags {
            zero: pre.registers.f.zero,
            subtract: false,
            half_carry: false,
            carry: true,
        },
        ..pre.registers
    }))
}

pub open spec fn spec_daa_op(pre: CPU, post: CPU) -> bool {
    &&& (spec_ime_same(pre, post))
    &&& (post.registers == (Registers {
        a: spec_daa(pre.registers.a, pre.registers.f).0,
        f: spec_daa(pre.registers.a, pre.registers.f).1,
        ..pre.registers
    }))
}

pub open spec fn spec_cpl_op(pre: CPU, post: CPU) -> bool {
    &&& (spec_ime_same(pre, post))
    &&& (post.registers == (Registers {
        a: pre.registers.a ^ 0xFF,
        f: Flags {
            zero: pre.registers.f.zero,
            subtract: true,
            half_carry: true,
            carry: pre.registers.f.carry,
        },
        ..pre.registers
    }))
}

pub open spec fn spec_ccf_op(pre: CPU, post: CPU) -> bool {
    &&& (spec_ime_same(pre, post))
    &&& (post.registers == (Registers {
        f: Flags {
            zero: pre.registers.f.zero,
            subtract: false,
            half_carry: false,
            carry: !pre.registers.f.carry,
        },
        ..pre.registers
    }))
}

/// Copies an 8-bit value from `src` to `dest`.
fn load_8<B: MemoryBus>(cpu: &mut CPU, memory: &mut B, dest: Loc8, src: Loc8) -> (r: Result<
    (),
    Fault,
>)
    requires
        !(dest is Imm8),
    ensures
        spec_load_8_op(*old(cpu), *final(cpu), r, dest, src),
{
    let value = src.read(cpu, memory)?;
    dest.write(cpu, memory, value)
}

/// Copies a 16-bit value from `src` to `dest`.
fn load_16<B: MemoryBus>(cpu: &mut CPU, memory: &mut B, dest: Loc16, src: Loc16) -> (r: Result<
    (),
    Fault,
>)
    ensures
        spec_load_16_op(*old(cpu), *final(cpu), r, dest, src),
{
    let value = src.read(cpu, memory)?;
    dest.write(cpu, memory, value)
}

/// Increments an 8-bit location; carry is preserved.
fn inc_8<B: MemoryBus>(cpu: &mut CPU, memory: &mut B, loc: Loc8) -> (r: Result<(), Fault>)
    requires
        !(loc is Imm8),
    ensures
        spec_inc_8_op(*old(cpu), *final(cpu), r, loc),
{
    let value = loc.read(cpu, memory)?;
    let result = value.wrapping_add(1);
    loc.write(cpu, memory, result)?;
    cpu.registers.f.zero = result == 0;
    cpu.registers.f.subtract = false;
    cpu.registers.f.half_carry = (value & 0x0F) == 0x0F;
    proof {
        assert(cpu.registers == (Registers {
            f: spec_inc8_flags(value, old(cpu).registers.f),
            ..spec_loc8_write_regs(
                spec_loc8_read_regs(old(cpu).registers, loc),
                loc,
                spec_wrap_add8(value, 1),
            )
        }));
    }
    Ok(())
}

/// Increments a 16-bit location; no flags change.
fn inc_16<B: MemoryBus>(cpu: &mut CPU, memory: &mut B, loc: Loc16) -> (r: Result<(), Fault>)
    ensures
        spec_inc_16_op(*old(cpu), *final(cpu), r, loc),
{
    let value = loc.read(cpu, memory)?;
    let result = value.wrapping_add(1);
    let r = loc.write(cpu, memory, result);
    proof {
        if r is Ok {
            assert(cpu.registers == spec_loc16_write_regs(
                spec_loc16_read_regs(old(cpu).registers, loc),
                loc,
                spec_wrap_add16(value, 1),
            ));
        }
    }
    r
}

/// Decrements an 8-bit location; carry is preserved.
fn dec_8<B: MemoryBus>(cpu: &mut CPU, memory: &mut B, loc: Loc8) -> (r: Result<(), Fault>)
    requires
        !(loc is Imm8),
    ensures
        spec_dec_8_op(*old(cpu), *final(cpu), r, loc),
{
    let value = loc.read(cpu, memory)?;
    let result = value.wrapping_sub(1);
    loc.write(cpu, memory, result)?;
    cpu.registers.f.zero = result == 0;
    cpu.registers.f.subtract = true;
    cpu.registers.f.half_carry = (value & 0x0F) == 0;
    proof {
        assert(cpu.registers == (Registers {
            f: spec_dec8_flags(value, old(cpu).registers.f),
            ..spec_loc8_write_regs(
                spec_loc8_read_regs(old(cpu).registers, loc),
                loc,
                spec_wrap_sub8(value, 1),
            )
        }));
    }
    Ok(())
}

/// Decrements a 16-bit location; no flags change.
fn dec_16<B: MemoryBus>(cpu: &mut CPU, memory: &mut B, loc: Loc16) -> (r: Result<(), Fault>)
    ensures
        spec_dec_16_op(*old(cpu), *final(cpu), r, loc),
{
    let value = loc.read(cpu, memory)?;
    let result = value.wrapping_sub(1);
    let r = loc.write(cpu, memory, result);
    proof {
        if r is Ok {
            assert(cpu.registers == spec_loc16_write_regs(
                spec_loc16_read_regs(old(cpu).registers, loc),
                loc,
                spec_wrap_sub16(value, 1),
            ));
        }
    }
    r
}

/// Sets the carry flag, clearing subtract and half-carry.
fn scf(cpu: &mut CPU)
    ensures
        spec_scf_op(*old(cpu), *final(cpu)),
{
    cpu.registers.f.subtract = false;
    cpu.registers.f.half_carry = false;
    cpu.registers.f.carry = true;
}

/// Adds the operand to the accumulator.
fn add_8<B: MemoryBus>(cpu: &mut CPU, memory: &mut B, loc: Loc8) -> (r: Result<(), Fault>)
    ensures
        spec_add_8_op(*old(cpu), *final(cpu), r, loc),
{
    let left = cpu.registers.a;
    let right = loc.read(cpu, memory)?;
    let result = left.wrapping_add(right);
    let carry = (left as u16) + (right as u16) > 0xFF;
    let half_carry = (left & 0x0F) + (right & 0x0F) > 0x0F;
    cpu.registers.f.zero = result == 0;
    cpu.registers.f.subtract = false;
    cpu.registers.f.half_carry = half_carry;
    cpu.registers.f.carry = carry;
    cpu.registers.a = result;
    proof {
        assert(cpu.registers == (Registers {
            a: spec_add8(old(cpu).registers.a, right),
            f: spec_add8_flags(old(cpu).registers.a, right),
            ..spec_loc8_read_regs(old(cpu).registers, loc)
        }));
    }
    Ok(())
}

/// Adds the operand pair to HL; the zero flag is untouched.
fn add_16<B: MemoryBus>(cpu: &mut CPU, memory: &mut B, loc: Loc16) -> (r: Result<(), Fault>)
    ensures
        spec_add_16_op(*old(cpu), *final(cpu), r, loc),
{
    let left = cpu.registers.get_hl();
    let right = loc.read(cpu, memory)?;
    let result = left.wrapping_add(right);
    let carry = (left as u32) + (right as u32) > 0xFFFF;
    let half_carry = (left & 0x0FFF) + (right & 0x0FFF) > 0x0FFF;
    cpu.registers.f.subtract = false;
    cpu.registers.f.carry = carry;
    cpu.registers.f.half_carry = half_carry;
    cpu.registers.set_hl(result);
    proof {
        assert(cpu.registers == (Registers {
            f: spec_add16_flags(spec_get_hl(old(cpu).registers), right, old(cpu).registers.f),
            ..spec_set_hl(
                spec_loc16_read_regs(old(cpu).registers, loc),
                spec_wrap_add16(spec_get_hl(old(cpu).registers), right),
            )
        }));
    }
    Ok(())
}

/// Adds a sign-extended immediate byte to the stack pointer, storing the sum
/// into `dest`; zero and subtract always clear.
fn add_sp<B: MemoryBus>(cpu: &mut CPU, memory: &mut B, dest: Loc16, src: Loc8) -> (r: Result<
    (),
    Fault,
>)
    requires
        src is Imm8,
        dest is SP || dest is HL,
    ensures
        spec_add_sp_op(*old(cpu), *final(cpu), r, dest, src),
{
    let sp = cpu.registers.sp;
    let byte = src.read(cpu, memory)?;
    let value: u16 = if byte < 0x80 {
        byte as u16
    } else {
        byte as u16 + 0xFF00
    };
    proof {
        assert(value == spec_sign_extend(byte));
    }
    let result = sp.wrapping_add(value);
    let carry = (sp & 0xFF) + (value & 0xFF) > 0xFF;
    let half_carry = (sp & 0x0F) + (value & 0x0F) > 0x0F;
    cpu.registers.f.zero = false;
    cpu.registers.f.subtract = false;
    cpu.registers.f.half_carry = half_carry;
    cpu.registers.f.carry = carry;
    dest.write(cpu, memory, result)?;
    Ok(())
}

/// Adds the operand and the carry flag to the accumulator.
fn adc<B: MemoryBus>(cpu: &mut CPU, memory: &mut B, loc: Loc8) -> (r: Result<(), Fault>)
    ensures
        spec_adc_op(*old(cpu), *final(cpu), r, loc),
{
    let left = cpu.registers.a;
    let right = loc.read(cpu, memory)?;
    let carry_value = bits::from_bool(cpu.registers.f.carry);
    let result = left.wrapping_add(right).wrapping_add(carry_value);
    let carry = (left as u16) + (right as u16) + (carry_value as u16) > 0xFF;
    let half_carry = (left & 0x0F) + (right & 0x0F) + carry_value > 0x0F;
    cpu.registers.f.zero = result == 0;
    cpu.registers.f.subtract = false;
    cpu.registers.f.half_carry = half_carry;
    cpu.registers.f.carry = carry;
    cpu.registers.a = result;
    proof {
        assert(cpu.registers == (Registers {
            a: spec_adc8(old(cpu).registers.a, right, old(cpu).registers.f.carry),
            f: spec_adc8_flags(old(cpu).registers.a, right, old(cpu).registers.f.carry),
            ..spec_loc8_read_regs(old(cpu).registers, loc)
        }));
    }
    Ok(())
}

/// Subtracts the operand from the accumulator.
fn sub<B: MemoryBus>(cpu: &mut CPU, memory: &mut B, loc: Loc8) -> (r: Result<(), Fault>)
    ensures
        spec_sub_op(*old(cpu), *final(cpu), r, loc),
{
    let left = cpu.registers.a;
    let right = loc.read(cpu, memory)?;
    let result = left.wrapping_sub(right);
    cpu.registers.f.zero = result == 0;
    cpu.registers.f.subtract = true;
    cpu.registers.f.half_carry = (right & 0x0F) > (left & 0x0F);
    cpu.registers.f.carry = right > left;
    cpu.registers.a = result;
    proof {
        assert(cpu.registers == (Registers {
            a: spec_sub8(old(cpu).registers.a, right),
            f: spec_sub8_flags(old(cpu).registers.a, right),
            ..spec_loc8_read_regs(old(cpu).registers, loc)
        }));
    }
    Ok(())
}

/// Subtracts the operand and the carry flag from the accumulator.
fn sbc<B: MemoryBus>(cpu: &mut CPU, memory: &mut B, loc: Loc8) -> (r: Result<(), Fault>)
    ensures
        spec_sbc_op(*old(cpu), *final(cpu), r, loc),
{
    let left = cpu.registers.a;
    let right = loc.read(cpu, memory)?;
    let carry_value = bits::from_bool(cpu.registers.f.carry);
    let result = left.wrapping_sub(right).wrapping_sub(carry_value);
    let carry = (right as u16) + (carry_value as u16) > left as u16;
    let half_carry = (right & 0x0F) + carry_value > (left & 0x0F);
    cpu.registers.f.zero = result == 0;
    cpu.registers.f.subtract = true;
    cpu.registers.f.half_carry = half_carry;
    cpu.registers.f.carry = carry;
    cpu.registers.a = result;
    proof {
        assert(cpu.registers == (Registers {
            a: spec_sbc8(old(cpu).registers.a, right, old(cpu).registers.f.carry),
            f: spec_sbc8_flags(old(cpu).registers.a, right, old(cpu).registers.f.carry),
            ..spec_loc8_read_regs(old(cpu).registers, loc)
        }));
    }
    Ok(())
}

/// Compares the operand against the accumulator: subtraction flags, the
/// accumulator untouched.
fn cp<B: MemoryBus>(cpu: &mut CPU, memory: &mut B, loc: Loc8) -> (r: Result<(), Fault>)
    ensures
        spec_cp_op(*old(cpu), *final(cpu), r, loc),
{
    let left = cpu.registers.a;
    let right = loc.read(cpu, memory)?;
    let result = left.wrapping_sub(right);
    cpu.registers.f.zero = result == 0;
    cpu.registers.f.subtract = true;
    cpu.registers.f.half_carry = (right & 0x0F) > (left & 0x0F);
    cpu.registers.f.carry = right > left;
    proof {
        assert(cpu.registers == (Registers {
            f: spec_sub8_flags(old(cpu).registers.a, right),
            ..spec_loc8_read_regs(old(cpu).registers, loc)
        }));
    }
    Ok(())
}

/// Decimal-adjusts the accumulator after a BCD add or subtract.
fn daa(cpu: &mut CPU)
    ensures
        spec_daa_op(*old(cpu), *final(cpu)),
{
    let n = cpu.registers.f.subtract;
    let c = cpu.registers.f.carry;
    let h = cpu.registers.f.half_carry;
    let mut result = cpu.registers.a;
    if !n {
        if h || (result & 0x0F) > 0x09 {
            result = result.wrapping_add(0x06);
        }
        if c || result > 0x9F {
            result = result.wrapping_add(0x60);
            cpu.registers.f.carry = true;
        }
    } else {
        if h {
            result = result.wrapping_sub(0x06);
        }
        if c {
            result = result.wrapping_sub(0x60);
        }
    }
    cpu.registers.f.zero = result == 0;
    cpu.registers.f.half_carry = false;
    cpu.registers.a = result;
}

/// Bitwise-ands the operand into the accumulator.
fn and<B: MemoryBus>(cpu: &mut CPU, memory: &mut B, loc: Loc8) -> (r: Result<(), Fault>)
    ensures
        spec_and_op(*old(cpu), *final(cpu), r, loc),
{
    let left = cpu.registers.a;
    let right = loc.read(cpu, memory)?;
    let result = left & right;
    cpu.registers.f.zero = result == 0;
    cpu.registers.f.subtract = false;
    cpu.registers.f.half_carry = true;
    cpu.registers.f.carry = false;
    cpu.registers.a = result;
    Ok(())
}

/// Bitwise-ors the operand into the accumulator.
fn or<B: MemoryBus>(cpu: &mut CPU, memory: &mut B, loc: Loc8) -> (r: Result<(), Fault>)
    ensures
        spec_or_op(*old(cpu), *final(cpu), r, loc),
{
    let left = cpu.registers.a;
    let right = loc.read(cpu, memory)?;
    let result = left | right;
    cpu.registers.f.zero = result == 0;
    cpu.registers.f.subtract = false;
    cpu.registers.f.half_carry = false;
    cpu.registers.f.carry = false;
    cpu.registers.a = result;
    Ok(())
}

/// Bitwise-xors the operand into the accumulator.
fn xor<B: MemoryBus>(cpu: &mut CPU, memory: &mut B, loc: Loc8) -> (r: Result<(), Fault>)
    ensures
        spec_xor_op(*old(cpu), *final(cpu), r, loc),
{
    let left = cpu.registers.a;
    let right = loc.read(cpu, memory)?;
    let result = left ^ right;
    cpu.registers.f.zero = result == 0;
    cpu.registers.f.subtract = false;
    cpu.registers.f.half_carry = false;
    cpu.registers.f.carry = false;
    cpu.registers.a = result;
    Ok(())
}

/// Complements the accumulator, setting subtract and half-carry.
fn cpl(cpu: &mut CPU)
    ensures
        spec_cpl_op(*old(cpu), *final(cpu)),
{
    let value = cpu.registers.a;
    let result = value ^ 0xFF;
    cpu.registers.f.subtract = true;
    cpu.registers.f.half_carry = true;
    cpu.registers.a = result;
}

/// Complements the carry flag, clearing subtract and half-carry.
fn ccf(cpu: &mut CPU)
    ensures
        spec_ccf_op(*old(cpu), *final(cpu)),
{
    cpu.registers.f.subtract = false;
    cpu.registers.f.half_carry = false;
    cpu.registers.f.carry = !cpu.registers.f.carry;
}

/// Shifts the operand left; bit 7 lands in carry.
fn sla<B: MemoryBus>(cpu: &mut CPU, memory: &mut B, loc: Loc8) -> (r: Result<(), Fault>)
    requires
        !(loc is Imm8),
    ensures
        spec_sla_op(*old(cpu), *final(cpu), r, loc),
{
    let value = loc.read(cpu, memory)?;
    let result = value << 1;
    proof {
        assert(result == spec_sla(value));
    }
    loc.write(cpu, memory, result)?;
    cpu.registers.f.zero = result == 0;
    cpu.registers.f.subtract = false;
    cpu.registers.f.half_carry = false;
    cpu.registers.f.carry = (value >> 7) & 0x1 != 0;
    Ok(())
}

/// Shifts the operand right; bit 0 lands in carry.
fn sra<B: MemoryBus>(cpu: &mut CPU, memory: &mut B, loc: Loc8) -> (r: Result<(), Fault>)
    requires
        !(loc is Imm8),
    ensures
        spec_sra_op(*old(cpu), *final(cpu), r, loc),
{
    let value = loc.read(cpu, memory)?;
    let result = value >> 1;
    proof {
        assert(result == spec_sr(value));
    }
    loc.write(cpu, memory, result)?;
    cpu.registers.f.zero = result == 0;
    cpu.registers.f.subtract = false;
    cpu.registers.f.half_carry = false;
    cpu.registers.f.carry = value & 0x1 != 0;
    Ok(())
}

/// Shifts the operand right; bit 0 lands in carry.
fn srl<B: MemoryBus>(cpu: &mut CPU, memory: &mut B, loc: Loc8) -> (r: Result<(), Fault>)
    requires
        !(loc is Imm8),
    ensures
        spec_srl_op(*old(cpu), *final(cpu), r, loc),
{
    let value = loc.read(cpu, memory)?;
    let result = value >> 1;
    proof {
        assert(result == spec_sr(value));
    }
    loc.write(cpu, memory, result)?;
    cpu.registers.f.zero = result == 0;
    cpu.registers.f.subtract = false;
    cpu.registers.f.half_carry = false;
    cpu.registers.f.carry = value & 0x1 != 0;
    Ok(())
}

/// Rotates the operand right; bit 0 lands in carry and in bit 7.
fn rrc<B: MemoryBus>(cpu: &mut CPU, memory: &mut B, loc: Loc8) -> (r: Result<(), Fault>)
    requires
        !(loc is Imm8),
    ensures
        spec_rrc_op(*old(cpu), *final(cpu), r, loc),
{
    let value = loc.read(cpu, memory)?;
    let result = (value >> 1) | (value << 7);
    proof {
        assert(result == spec_rrc(value));
    }
    loc.write(cpu, memory, result)?;
    cpu.registers.f.zero = result == 0;
    cpu.registers.f.subtract = false;
    cpu.registers.f.half_carry = false;
    cpu.registers.f.carry = value & 0x1 != 0;
    Ok(())
}

/// Rotates the operand right through the carry flag.
fn rr<B: MemoryBus>(cpu: &mut CPU, memory: &mut B, loc: Loc8) -> (r: Result<(), Fault>)
    requires
        !(loc is Imm8),
    ensures
        spec_rr_op(*old(cpu), *final(cpu), r, loc),
{
    let value = loc.read(cpu, memory)?;
    let carry = bits::from_bool(cpu.registers.f.carry);
    let result = (carry << 7) | (value >> 1);
    proof {
        assert(result == spec_rr(value, old(cpu).registers.f.carry));
    }
    loc.write(cpu, memory, result)?;
    cpu.registers.f.zero = result == 0;
    cpu.registers.f.subtract = false;
    cpu.registers.f.half_carry = false;
    cpu.registers.f.carry = value & 0x1 != 0;
    Ok(())
}

/// Rotates the operand left; bit 7 lands in carry and in bit 0.
fn rlc<B: MemoryBus>(cpu: &mut CPU, memory: &mut B, loc: Loc8) -> (r: Result<(), Fault>)
    requires
        !(loc is Imm8),
    ensures
        spec_rlc_op(*old(cpu), *final(cpu), r, loc),
{
    let value = loc.read(cpu, memory)?;
    let result = (value << 1) | (value >> 7);
    proof {
        assert(result == spec_rlc(value));
    }
    loc.write(cpu, memory, result)?;
    cpu.registers.f.zero = result == 0;
    cpu.registers.f.subtract = false;
    cpu.registers.f.half_carry = false;
    cpu.registers.f.carry = (value >> 7) & 0x1 != 0;
    Ok(())
}

/// Rotates the operand left through the carry flag.
fn rl<B: MemoryBus>(cpu: &mut CPU, memory: &mut B, loc: Loc8) -> (r: Result<(), Fault>)
    requires
        !(loc is Imm8),
    ensures
        spec_rl_op(*old(cpu), *final(cpu), r, loc),
{
    let value = loc.read(cpu, memory)?;
    let carry = bits::from_bool(cpu.registers.f.carry);
    let result = (value << 1) | carry;
    proof {
        assert(result == spec_rl(value, old(cpu).registers.f.carry));
    }
    loc.write(cpu, memory, result)?;
    cpu.registers.f.zero = result == 0;
    cpu.registers.f.subtract = false;
    cpu.registers.f.half_carry = false;
    cpu.registers.f.carry = (value >> 7) & 0x1 != 0;
    Ok(())
}

/// Tests one bit of the operand into the zero flag; carry is preserved.
fn bit<B: MemoryBus>(cpu: &mut CPU, memory: &mut B, loc: Loc8, index: u8) -> (r: Result<(), Fault>)
    requires
        index < 8,
    ensures
        spec_bit_op(*old(cpu), *final(cpu), r, loc, index),
{
    let value = loc.read(cpu, memory)?;
    let result = value & (1u8 << index);
    cpu.registers.f.zero = result == 0;
    cpu.registers.f.subtract = false;
    cpu.registers.f.half_carry = true;
    proof {
        assert(cpu.registers.f == spec_bit_flags(value, index, old(cpu).registers.f));
    }
    Ok(())
}

/// Clears one bit of the operand; no flags change.
fn res<B: MemoryBus>(cpu: &mut CPU, memory: &mut B, loc: Loc8, index: u8) -> (r: Result<(), Fault>)
    requires
        index < 8,
        !(loc is Imm8),
    ensures
        spec_res_op(*old(cpu), *final(cpu), r, loc, index),
{
    let value = loc.read(cpu, memory)?;
    loc.write(cpu, memory, bits::reset(value, index))
}

/// Sets one bit of the operand; no flags change.
fn set<B: MemoryBus>(cpu: &mut CPU, memory: &mut B, loc: Loc8, index: u8) -> (r: Result<(), Fault>)
    requires
        index < 8,
        !(loc is Imm8),
    ensures
        spec_set_op(*old(cpu), *final(cpu), r, loc, index),
{
    let value = loc.read(cpu, memory)?;
    loc.write(cpu, memory, bits::set(value, index))
}

/// Exchanges the operand's nibbles; all flags but zero clear.
fn swap<B: MemoryBus>(cpu: &mut CPU, memory: &mut B, loc: Loc8) -> (r: Result<(), Fault>)
    requires
        !(loc is Imm8),
    ensures
        spec_swap_op(*old(cpu), *final(cpu), r, loc),
{
    let value = loc.read(cpu, memory)?;
    let high_nibble = (value & 0xF0) >> 4;
    let low_nibble = (value & 0x0F) << 4;
    let result = low_nibble | high_nibble;
    proof {
        assert(result == spec_swap(value));
    }
    cpu.registers.f.zero = result == 0;
    cpu.registers.f.subtract = false;
    cpu.registers.f.half_carry = false;
    cpu.registers.f.carry = false;
    loc.write(cpu, memory, result)
}

/// Copies between the accumulator and memory at HL, then increments HL.
fn ldi<B: MemoryBus>(cpu: &mut CPU, memory: &mut B, dest: Loc8, src: Loc8) -> (r: Result<
    (),
    Fault,
>)
    requires
        !(dest is Imm8),
        spec_loc8_imm_len(src) == 0,
        spec_loc8_imm_len(dest) == 0,
    ensures
        spec_ldi_op(*old(cpu), *final(cpu), r, dest, src),
{
    let value = src.read(cpu, memory)?;
    dest.write(cpu, memory, value)?;
    inc_16(cpu, memory, Loc16::HL)
}

/// Copies between the accumulator and memory at HL, then decrements HL.
fn ldd<B: MemoryBus>(cpu: &mut CPU, memory: &mut B, dest: Loc8, src: Loc8) -> (r: Result<
    (),
    Fault,
>)
    requires
        !(dest is Imm8),
        spec_loc8_imm_len(src) == 0,
        spec_loc8_imm_len(dest) == 0,
    ensures
        spec_ldd_op(*old(cpu), *final(cpu), r, dest, src),
{
    let value = src.read(cpu, memory)?;
    dest.write(cpu, memory, value)?;
    dec_16(cpu, memory, Loc16::HL)
}

/// Stores the accumulator into the I/O page at the immediate offset.
fn ldh_n<B: MemoryBus>(cpu: &mut CPU, memory: &mut B) -> (r: Result<(), Fault>)
    ensures
        spec_ldh_n_op(*old(cpu), *final(cpu), r),
{
    let offset = cpu.get_byte(memory)?;
    let address = bits::to_word(0xFF, offset);
    memory.set_byte(address, cpu.registers.a)
}

/// Loads the accumulator from the I/O page at the immediate offset.
fn ldh_a<B: MemoryBus>(cpu: &mut CPU, memory: &mut B) -> (r: Result<(), Fault>)
    ensures
        spec_ldh_a_op(*old(cpu), *final(cpu), r),
{
    let offset = cpu.get_byte(memory)?;
    let address = bits::to_word(0xFF, offset);
    let value = memory.get_byte(address)?;
    cpu.registers.a = value;
    Ok(())
}

/// Stores the stack pointer plus a sign-extended immediate into HL.
fn ldhl<B: MemoryBus>(cpu: &mut CPU, memory: &mut B) -> (r: Result<(), Fault>)
    ensures
        spec_ldhl_op(*old(cpu), *final(cpu), r),
{
    add_sp(cpu, memory, Loc16::HL, Loc8::Imm8)
}

/// Pushes a register pair: the stack pointer pre-decrements by two, then the
/// word is written through the bus.
fn push<B: MemoryBus>(cpu: &mut CPU, memory: &mut B, loc: Loc16) -> (r: Result<(), Fault>)
    requires
        spec_loc16_is_reg(loc),
    ensures
        spec_push_op(*old(cpu), *final(cpu), r, loc),
{
    cpu.registers.decrement_sp();
    cpu.registers.decrement_sp();
    let address = loc.read(cpu, memory)?;
    memory.set_word(cpu.registers.sp, address)
}

/// Pops a word into a location: read at the stack pointer, then
/// post-increment it by two.
fn pop<B: MemoryBus>(cpu: &mut CPU, memory: &mut B, loc: Loc16) -> (r: Result<(), Fault>)
    requires
        spec_loc16_is_reg(loc),
        !(loc is SP),
    ensures
        spec_pop_op(*old(cpu), *final(cpu), r, loc),
{
    let result = memory.get_word(cpu.registers.sp)?;
    loc.write(cpu, memory, result)?;
    cpu.registers.increment_sp();
    cpu.registers.increment_sp();
    proof {
        assert(cpu.registers == (Registers {
            sp: spec_wrap_add16(old(cpu).registers.sp, 2),
            ..spec_loc16_write_regs(old(cpu).registers, loc, result)
        }));
    }
    Ok(())
}

/// Pushes the program counter and jumps to a fixed restart address.
fn rst<B: MemoryBus>(cpu: &mut CPU, memory: &mut B, new_pc: u16) -> (r: Result<(), Fault>)
    ensures
        spec_rst_op(*old(cpu), *final(cpu), r, new_pc),
{
    push(cpu, memory, Loc16::PC)?;
    cpu.registers.pc = new_pc;
    Ok(())
}

/// A conditional call: the target word is always consumed; when the condition
/// holds, the program counter is pushed and replaced.
fn call<B: MemoryBus>(cpu: &mut CPU, memory: &mut B, check: Check) -> (r: Result<(), Fault>)
    ensures
        spec_call_op(*old(cpu), *final(cpu), r, check),
{
    // Must fetch before checking, to consume the operand either way
    let address = cpu.get_word(memory)?;
    if check.evaluate(cpu) {
        push(cpu, memory, Loc16::PC)?;
        cpu.registers.pc = address;
    }
    Ok(())
}

/// A conditional return: when the condition holds, pops the program counter.
fn ret<B: MemoryBus>(cpu: &mut CPU, memory: &mut B, check: Check) -> (r: Result<(), Fault>)
    ensures
        spec_ret_op(*old(cpu), *final(cpu), r, check),
{
    if check.evaluate(cpu) {
        pop(cpu, memory, Loc16::PC)?;
    }
    Ok(())
}

/// Returns and immediately re-enables the master interrupt flag.
fn reti<B: MemoryBus>(cpu: &mut CPU, memory: &mut B) -> (r: Result<(), Fault>)
    ensures
        spec_reti_op(*old(cpu), *final(cpu), r),
{
    cpu.set_ime();
    ret(cpu, memory, Check::True)
}

/// Jumps to the value of a register pair.
fn jp<B: MemoryBus>(cpu: &mut CPU, memory: &mut B, loc: Loc16) -> (r: Result<(), Fault>)
    requires
        spec_loc16_is_reg(loc),
    ensures
        spec_jp_op(*old(cpu), *final(cpu), r, loc),
{
    let target = loc.read(cpu, memory)?;
    cpu.registers.pc = target;
    Ok(())
}

/// A conditional absolute jump: the target word is always consumed.
fn jp_n<B: MemoryBus>(cpu: &mut CPU, memory: &mut B, check: Check) -> (r: Result<(), Fault>)
    ensures
        spec_jp_n_op(*old(cpu), *final(cpu), r, check),
{
    // Must fetch before checking, to consume the operand either way
    let address = cpu.get_word(memory)?;
    if check.evaluate(cpu) {
        cpu.registers.pc = address;
    }
    Ok(())
}

/// A conditional relative jump: the offset byte is always consumed, then
/// added sign-extended to the program counter when the condition holds.
fn jr_n<B: MemoryBus>(cpu: &mut CPU, memory: &mut B, check: Check) -> (r: Result<(), Fault>)
    ensures
        spec_jr_n_op(*old(cpu), *final(cpu), r, check),
{
    // Must fetch before checking, to consume the operand either way
    let offset = cpu.get_byte(memory)?;
    // Sign-extension makes the wrapping add an effective subtraction for
    // negative offsets
    let value: u16 = if offset < 0x80 {
        offset as u16
    } else {
        offset as u16 + 0xFF00
    };
    proof {
        assert(value == spec_sign_extend(offset));
    }
    if check.evaluate(cpu) {
        cpu.registers.add_pc(value);
    }
    Ok(())
}

/// What dispatching one standard-space opcode does to the processor, as the
/// operation predicate of its table row; an opcode with no defined mapping
/// errs, naming itself, and changes nothing.
pub open spec fn spec_standard_effect(op: u8, pre: CPU, post: CPU, r: Result<(), Fault>) -> bool {
    match op {
        0x00 => r is Ok && post == pre,
        0x01 => spec_load_16_op(pre, post, r, Loc16::BC, Loc16::Imm16),
        0x02 => spec_load_8_op(pre, post, r, Loc8::AddrBC, Loc8::A),
        0x03 => spec_inc_16_op(pre, post, r, Loc16::BC),
        0x04 => spec_inc_8_op(pre, post, r, Loc8::B),
        0x05 => spec_dec_8_op(pre, post, r, Loc8::B),
        0x06 => spec_load_8_op(pre, post, r, Loc8::B, Loc8::Imm8),
        0x07 => spec_rlc_op(pre, post, r, Loc8::A),
        0x08 => spec_load_16_op(pre, post, r, Loc16::Imm16, Loc16::SP),
        0x09 => spec_add_16_op(pre, post, r, Loc16::BC),
        0x0A => spec_load_8_op(pre, post, r, Loc8::A, Loc8::AddrBC),
        0x0B => spec_dec_16_op(pre, post, r, Loc16::BC),
        0x0C => spec_inc_8_op(pre, post, r, Loc8::C),
        0x0D => spec_dec_8_op(pre, post, r, Loc8::C),
        0x0E => spec_load_8_op(pre, post, r, Loc8::C, Loc8::Imm8),
        0x0F => spec_rrc_op(pre, post, r, Loc8::A),
        0x11 => spec_load_16_op(pre, post, r, Loc16::DE, Loc16::Imm16),
        0x12 => spec_load_8_op(pre, post, r, Loc8::AddrDE, Loc8::A),
        0x13 => spec_inc_16_op(pre, post, r, Loc16::DE),
        0x14 => spec_inc_8_op(pre, post, r, Loc8::D),
        0x15 => spec_dec_8_op(pre, post, r, Loc8::D),
        0x16 => spec_load_8_op(pre, post, r, Loc8::D, Loc8::Imm8),
        0x17 => spec_rl_op(pre, post, r, Loc8::A),
        0x18 => spec_jr_n_op(pre, post, r, Check::True),
        0x19 => spec_add_16_op(pre, post, r, Loc16::DE),
        0x1A => spec_load_8_op(pre, post, r, Loc8::A, Loc8::AddrDE),
        0x1B => spec_dec_16_op(pre, post, r, Loc16::DE),
        0x1C => spec_inc_8_op(pre, post, r, Loc8::E),
        0x1D => spec_dec_8_op(pre, post, r, Loc8::E),
        0x1E => spec_load_8_op(pre, post, r, Loc8::E, Loc8::Imm8),
        0x1F => spec_rr_op(pre, post, r, Loc8::A),
        0x20 => spec_jr_n_op(pre, post, r, Check::NZ),
        0x21 => spec_load_16_op(pre, post, r, Loc16::HL, Loc16::Imm16),
        0x22 => spec_ldi_op(pre, post, r, Loc8::AddrHL, Loc8::A),
        0x23 => spec_inc_16_op(pre, post, r, Loc16::HL),
        0x24 => spec_inc_8_op(pre, post, r, Loc8::H),
        0x25 => spec_dec_8_op(pre, post, r, Loc8::H),
        0x26 => spec_load_8_op(pre, post, r, Loc8::H, Loc8::Imm8),
        0x27 => r is Ok && spec_daa_op(pre, post),
        0x28 => spec_jr_n_op(pre, post, r, Check::Z),
        0x29 => spec_add_16_op(pre, post, r, Loc16::HL),
        0x2A => spec_ldi_op(pre, post, r, Loc8::A, Loc8::AddrHL),
        0x2B => spec_dec_16_op(pre, post, r, Loc16::HL),
        0x2C => spec_inc_8_op(pre, post, r, Loc8::L),
        0x2D => spec_dec_8_op(pre, post, r, Loc8::L),
        0x2E => spec_load_8_op(pre, post, r, Loc8::L, Loc8::Imm8),
        0x2F => r is Ok && spec_cpl_op(pre, post),
        0x30 => spec_jr_n_op(pre, post, r, Check::NC),
        0x31 => spec_load_16_op(pre, post, r, Loc16::SP, Loc16::Imm16),
        0x32 => spec_ldd_op(pre, post, r, Loc8::AddrHL, Loc8::A),
        0x33 => spec_inc_16_op(pre, post, r, Loc16::SP),
        0x34 => spec_inc_8_op(pre, post, r, Loc8::AddrHL),
        0x35 => spec_dec_8_op(pre, post, r, Loc8::AddrHL),
        0x36 => spec_load_8_op(pre, post, r, Loc8::AddrHL, Loc8::Imm8),
        0x37 => r is Ok && spec_scf_op(pre, post),
        0x38 => spec_jr_n_op(pre, post, r, Check::C),
        0x39 => spec_add_16_op(pre, post, r, Loc16::SP),
        0x3A => spec_ldd_op(pre, post, r, Loc8::A, Loc8::AddrHL),
        0x3B => spec_dec_16_op(pre, post, r, Loc16::SP),
        0x3C => spec_inc_8_op(pre, post, r, Loc8::A),
        0x3D => spec_dec_8_op(pre, post, r, Loc8::A),
        0x3E => spec_load_8_op(pre, post, r, Loc8::A, Loc8::Imm8),
        0x3F => r is Ok && spec_ccf_op(pre, post),
        0x40 => spec_load_8_op(pre, post, r, Loc8::B, Loc8::B),
        0x41 => spec_load_8_op(pre, post, r, Loc8::B, Loc8::C),
        0x42 => spec_load_8_op(pre, post, r, Loc8::B, Loc8::D),
        0x43 => spec_load_8_op(pre, post, r, Loc8::B, Loc8::E),
        0x44 => spec_load_8_op(pre, post, r, Loc8::B, Loc8::H),
        0x45 => spec_load_8_op(pre, post, r, Loc8::B, Loc8::L),
        0x46 => spec_load_8_op(pre, post, r, Loc8::B, Loc8::AddrHL),
        0x47 => spec_load_8_op(pre, post, r, Loc8::B, Loc8::A),
        0x48 => spec_load_8_op(pre, post, r, Loc8::C, Loc8::B),
        0x49 => spec_load_8_op(pre, post, r, Loc8::C, Loc8::C),
        0x4A => spec_load_8_op(pre, post, r, Loc8::C, Loc8::D),
        0x4B => spec_load_8_op(pre, post, r, Loc8::C, Loc8::E),
        0x4C => spec_load_8_op(pre, post, r, Loc8::C, Loc8::H),
        0x4D => spec_load_8_op(pre, post, r, Loc8::C, Loc8::L),
        0x4E => spec_load_8_op(pre, post, r, Loc8::C, Loc8::AddrHL),
        0x4F => spec_load_8_op(pre, post, r, Loc8::C, Loc8::A),
        0x50 => spec_load_8_op(pre, post, r, Loc8::D, Loc8::B),
        0x51 => spec_load_8_op(pre, post, r, Loc8::D, Loc8::C),
        0x52 => spec_load_8_op(pre, post, r, Loc8::D, Loc8::D),
        0x53 => spec_load_8_op(pre, post, r, Loc8::D, Loc8::E),
        0x54 => spec_load_8_op(pre, post, r, Loc8::D, Loc8::H),
        0x55 => spec_load_8_op(pre, post, r, Loc8::D, Loc8::L),
        0x56 => spec_load_8_op(pre, post, r, Loc8::D, Loc8::AddrHL),
        0x57 => spec_load_8_op(pre, post, r, Loc8::D, Loc8::A),
        0x58 => spec_load_8_op(pre, post, r, Loc8::E, Loc8::B),
        0x59 => spec_load_8_op(pre, post, r, Loc8::E, Loc8::C),
        0x5A => spec_load_8_op(pre, post, r, Loc8::E, Loc8::D),
        0x5B => spec_load_8_op(pre, post, r, Loc8::E, Loc8::E),
        0x5C => spec_load_8_op(pre, post, r, Loc8::E, Loc8::H),
        0x5D => spec_load_8_op(pre, post, r, Loc8::E, Loc8::L),
        0x5E => spec_load_8_op(pre, post, r, Loc8::E, Loc8::AddrHL),
        0x5F => spec_load_8_op(pre, post, r, Loc8::E, Loc8::A),
        0x60 => spec_load_8_op(pre, post, r, Loc8::H, Loc8::B),
        0x61 => spec_load_8_op(pre, post, r, Loc8::H, Loc8::C),
        0x62 => spec_load_8_op(pre, post, r, Loc8::H, Loc8::D),
        0x63 => spec_load_8_op(pre, post, r, Loc8::H, Loc8::E),
        0x64 => spec_load_8_op(pre, post, r, Loc8::H, Loc8::H),
        0x65 => spec_load_8_op(pre, post, r, Loc8::H, Loc8::L),
        0x66 => spec_load_8_op(pre, post, r, Loc8::H, Loc8::AddrHL),
        0x67 => spec_load_8_op(pre, post, r, Loc8::H, Loc8::A),
        0x68 => spec_load_8_op(pre, post, r, Loc8::L, Loc8::B),
        0x69 => spec_load_8_op(pre, post, r, Loc8::L, Loc8::C),
        0x6A => spec_load_8_op(pre, post, r, Loc8::L, Loc8::D),
        0x6B => spec_load_8_op(pre, post, r, Loc8::L, Loc8::E),
        0x6C => spec_load_8_op(pre, post, r, Loc8::L, Loc8::H),
        0x6D => spec_load_8_op(pre, post, r, Loc8::L, Loc8::L),
        0x6E => spec_load_8_op(pre, post, r, Loc8::L, Loc8::AddrHL),
        0x6F => spec_load_8_op(pre, post, r, Loc8::L, Loc8::A),
        0x70 => spec_load_8_op(pre, post, r, Loc8::AddrHL, Loc8::B),
        0x71 => spec_load_8_op(pre, post, r, Loc8::AddrHL, Loc8::C),
        0x72 => spec_load_8_op(pre, post, r, Loc8::AddrHL, Loc8::D),
        0x73 => spec_load_8_op(pre, post, r, Loc8::AddrHL, Loc8::E),
        0x74 => spec_load_8_op(pre, post, r, Loc8::AddrHL, Loc8::H),
        0x75 => spec_load_8_op(pre, post, r, Loc8::AddrHL, Loc8::L),
        0x76 => r is Ok && post == pre,
        0x77 => spec_load_8_op(pre, post, r, Loc8::AddrHL, Loc8::A),
        0x78 => spec_load_8_op(pre, post, r, Loc8::A, Loc8::B),
        0x79 => spec_load_8_op(pre, post, r, Loc8::A, Loc8::C),
        0x7A => spec_load_8_op(pre, post, r, Loc8::A, Loc8::D),
        0x7B => spec_load_8_op(pre, post, r, Loc8::A, Loc8::E),
        0x7C => spec_load_8_op(pre, post, r, Loc8::A, Loc8::H),
        0x7D => spec_load_8_op(pre, post, r, Loc8::A, Loc8::L),
        0x7E => spec_load_8_op(pre, post, r, Loc8::A, Loc8::AddrHL),
        0x7F => spec_load_8_op(pre, post, r, Loc8::A, Loc8::A),
        0x80 => spec_add_8_op(pre, post, r, Loc8::B),
        0x81 => spec_add_8_op(pre, post, r, Loc8::C),
        0x82 => spec_add_8_op(pre, post, r, Loc8::D),
        0x83 => spec_add_8_op(pre, post, r, Loc8::E),
        0x84 => spec_add_8_op(pre, post, r, Loc8::H),
        0x85 => spec_add_8_op(pre, post, r, Loc8::L),
        0x86 => spec_add_8_op(pre, post, r, Loc8::AddrHL),
        0x87 => spec_add_8_op(pre, post, r, Loc8::A),
        0x88 => spec_adc_op(pre, post, r, Loc8::B),
        0x89 => spec_adc_op(pre, post, r, Loc8::C),
        0x8A => spec_adc_op(pre, post, r, Loc8::D),
        0x8B => spec_adc_op(pre, post, r, Loc8::E),
        0x8C => spec_adc_op(pre, post, r, Loc8::H),
        0x8D => spec_adc_op(pre, post, r, Loc8::L),
        0x8E => spec_adc_op(pre, post, r, Loc8::AddrHL),
        0x8F => spec_adc_op(pre, post, r, Loc8::A),
        0x90 => spec_sub_op(pre, post, r, Loc8::B),
        0x91 => spec_sub_op(pre, post, r, Loc8::C),
        0x92 => spec_sub_op(pre, post, r, Loc8::D),
        0x93 => spec_sub_op(pre, post, r, Loc8::E),
        0x94 => spec_sub_op(pre, post, r, Loc8::H),
        0x95 => spec_sub_op(pre, post, r, Loc8::L),
        0x96 => spec_sub_op(pre, post, r, Loc8::AddrHL),
        0x97 => spec_sub_op(pre, post, r, Loc8::A),
        0x98 => spec_sbc_op(pre, post, r, Loc8::B),
        0x99 => spec_sbc_op(pre, post, r, Loc8::C),
        0x9A => spec_sbc_op(pre, post, r, Loc8::D),
        0x9B => spec_sbc_op(pre, post, r, Loc8::E),
        0x9C => spec_sbc_op(pre, post, r, Loc8::H),
        0x9D => spec_sbc_op(pre, post, r, Loc8::L),
        0x9E => spec_sbc_op(pre, post, r, Loc8::AddrHL),
        0x9F => spec_sbc_op(pre, post, r, Loc8::A),
        0xA0 => spec_and_op(pre, post, r, Loc8::B),
        0xA1 => spec_and_op(pre, post, r, Loc8::C),
        0xA2 => spec_and_op(pre, post, r, Loc8::D),
        0xA3 => spec_and_op(pre, post, r, Loc8::E),
        0xA4 => spec_and_op(pre, post, r, Loc8::H),
        0xA5 => spec_and_op(pre, post, r, Loc8::L),
        0xA6 => spec_and_op(pre, post, r, Loc8::AddrHL),
        0xA7 => spec_and_op(pre, post, r, Loc8::A),
        0xA8 => spec_xor_op(pre, post, r, Loc8::B),
        0xA9 => spec_xor_op(pre, post, r, Loc8::C),
        0xAA => spec_xor_op(pre, post, r, Loc8::D),
        0xAB => spec_xor_op(pre, post, r, Loc8::E),
        0xAC => spec_xor_op(pre, post, r, Loc8::H),
        0xAD => spec_xor_op(pre, post, r, Loc8::L),
        0xAE => spec_xor_op(pre, post, r, Loc8::AddrHL),
        0xAF => spec_xor_op(pre, post, r, Loc8::A),
        0xB0 => spec_or_op(pre, post, r, Loc8::B),
        0xB1 => spec_or_op(pre, post, r, Loc8::C),
        0xB2 => spec_or_op(pre, post, r, Loc8::D),
        0xB3 => spec_or_op(pre, post, r, Loc8::E),
        0xB4 => spec_or_op(pre, post, r, Loc8::H),
        0xB5 => spec_or_op(pre, post, r, Loc8::L),
        0xB6 => spec_or_op(pre, post, r, Loc8::AddrHL),
        0xB7 => spec_or_op(pre, post, r, Loc8::A),
        0xB8 => spec_cp_op(pre, post, r, Loc8::B),
        0xB9 => spec_cp_op(pre, post, r, Loc8::C),
        0xBA => spec_cp_op(pre, post, r, Loc8::D),
        0xBB => spec_cp_op(pre, post, r, Loc8::E),
        0xBC => spec_cp_op(pre, post, r, Loc8::H),
        0xBD => spec_cp_op(pre, post, r, Loc8::L),
        0xBE => spec_cp_op(pre, post, r, Loc8::AddrHL),
        0xBF => spec_cp_op(pre, post, r, Loc8::A),
        0xC0 => spec_ret_op(pre, post, r, Check::NZ),
        0xC1 => spec_pop_op(pre, post, r, Loc16::BC),
        0xC2 => spec_jp_n_op(pre, post, r, Check::NZ),
        0xC3 => spec_jp_n_op(pre, post, r, Check::True),
        0xC4 => spec_call_op(pre, post, r, Check::NZ),
        0xC5 => spec_push_op(pre, post, r, Loc16::BC),
        0xC6 => spec_add_8_op(pre, post, r, Loc8::Imm8),
        0xC7 => spec_rst_op(pre, post, r, 0x00),
        0xC8 => spec_ret_op(pre, post, r, Check::Z),
        0xC9 => spec_ret_op(pre, post, r, Check::True),
        0xCA => spec_jp_n_op(pre, post, r, Check::Z),
        0xCC => spec_call_op(pre, post, r, Check::Z),
        0xCD => spec_call_op(pre, post, r, Check::True),
        0xCE => spec_adc_op(pre, post, r, Loc8::Imm8),
        0xCF => spec_rst_op(pre, post, r, 0x08),
        0xD0 => spec_ret_op(pre, post, r, Check::NC),
        0xD1 => spec_pop_op(pre, post, r, Loc16::DE),
        0xD2 => spec_jp_n_op(pre, post, r, Check::NC),
        0xD4 => spec_call_op(pre, post, r, Check::NC),
        0xD5 => spec_push_op(pre, post, r, Loc16::DE),
        0xD6 => spec_sub_op(pre, post, r, Loc8::Imm8),
        0xD7 => spec_rst_op(pre, post, r, 0x10),
        0xD8 => spec_ret_op(pre, post, r, Check::C),
        0xD9 => spec_reti_op(pre, post, r),
        0xDA => spec_jp_n_op(pre, post, r, Check::C),
        0xDC => spec_call_op(pre, post, r, Check::C),
        0xDE => spec_sbc_op(pre, post, r, Loc8::Imm8),
        0xDF => spec_rst_op(pre, post, r, 0x18),
        0xE0 => spec_ldh_n_op(pre, post, r),
        0xE1 => spec_pop_op(pre, post, r, Loc16::HL),
        0xE2 => spec_load_8_op(pre, post, r, Loc8::AddrC, Loc8::A),
        0xE5 => spec_push_op(pre, post, r, Loc16::HL),
        0xE6 => spec_and_op(pre, post, r, Loc8::Imm8),
        0xE7 => spec_rst_op(pre, post, r, 0x20),
        0xE8 => spec_add_sp_op(pre, post, r, Loc16::SP, Loc8::Imm8),
        0xE9 => spec_jp_op(pre, post, r, Loc16::HL),
        0xEA => spec_load_8_op(pre, post, r, Loc8::AddrImm16, Loc8::A),
        0xEE => spec_xor_op(pre, post, r, Loc8::Imm8),
        0xEF => spec_rst_op(pre, post, r, 0x28),
        0xF0 => spec_ldh_a_op(pre, post, r),
        0xF1 => spec_pop_op(pre, post, r, Loc16::AF),
        0xF2 => spec_load_8_op(pre, post, r, Loc8::A, Loc8::AddrC),
        0xF3 => r is Ok && post == (CPU { ime: false, ime_queued: false, registers: pre.registers }),
        0xF5 => spec_push_op(pre, post, r, Loc16::AF),
        0xF6 => spec_or_op(pre, post, r, Loc8::Imm8),
        0xF7 => spec_rst_op(pre, post, r, 0x30),
        0xF8 => spec_ldhl_op(pre, post, r),
        0xF9 => spec_load_16_op(pre, post, r, Loc16::SP, Loc16::HL),
        0xFA => spec_load_8_op(pre, post, r, Loc8::A, Loc8::AddrImm16),
        0xFB => r is Ok && post == (CPU { ime_queued: true, ..pre }),
        0xFE => spec_cp_op(pre, post, r, Loc8::Imm8),
        0xFF => spec_rst_op(pre, post, r, 0x38),
        _ => r == Err::<(), Fault>(Fault::UnknownOpcode(op)) && post == pre,
    }
}

/// What dispatching one extended-space opcode does to the processor; every
/// byte of this space has a defined mapping.
pub open spec fn spec_extended_effect(op: u8, pre: CPU, post: CPU, r: Result<(), Fault>) -> bool {
    match op {
        0x00 => spec_rlc_op(pre, post, r, Loc8::B),
        0x01 => spec_rlc_op(pre, post, r, Loc8::C),
        0x02 => spec_rlc_op(pre, post, r, Loc8::D),
        0x03 => spec_rlc_op(pre, post, r, Loc8::E),
        0x04 => spec_rlc_op(pre, post, r, Loc8::H),
        0x05 => spec_rlc_op(pre, post, r, Loc8::L),
        0x06 => spec_rlc_op(pre, post, r, Loc8::AddrHL),
        0x07 => spec_rlc_op(pre, post, r, Loc8::A),
        0x08 => spec_rrc_op(pre, post, r, Loc8::B),
        0x09 => spec_rrc_op(pre, post, r, Loc8::C),
        0x0A => spec_rrc_op(pre, post, r, Loc8::D),
        0x0B => spec_rrc_op(pre, post, r, Loc8::E),
        0x0C => spec_rrc_op(pre, post, r, Loc8::H),
        0x0D => spec_rrc_op(pre, post, r, Loc8::L),
        0x0E => spec_rrc_op(pre, post, r, Loc8::AddrHL),
        0x0F => spec_rrc_op(pre, post, r, Loc8::A),
        0x10 => spec_rl_op(pre, post, r, Loc8::B),
        0x11 => spec_rl_op(pre, post, r, Loc8::C),
        0x12 => spec_rl_op(pre, post, r, Loc8::D),
        0x13 => spec_rl_op(pre, post, r, Loc8::E),
        0x14 => spec_rl_op(pre, post, r, Loc8::H),
        0x15 => spec_rl_op(pre, post, r, Loc8::L),
        0x16 => spec_rl_op(pre, post, r, Loc8::AddrHL),
        0x17 => spec_rl_op(pre, post, r, Loc8::A),
        0x18 => spec_rr_op(pre, post, r, Loc8::B),
        0x19 => spec_rr_op(pre, post, r, Loc8::C),
        0x1A => spec_rr_op(pre, post, r, Loc8::D),
        0x1B => spec_rr_op(pre, post, r, Loc8::E),
        0x1C => spec_rr_op(pre, post, r, Loc8::H),
        0x1D => spec_rr_op(pre, post, r, Loc8::L),
        0x1E => spec_rr_op(pre, post, r, Loc8::AddrHL),
        0x1F => spec_rr_op(pre, post, r, Loc8::A),
        0x20 => spec_sla_op(pre, post, r, Loc8::B),
        0x21 => spec_sla_op(pre, post, r, Loc8::C),
        0x22 => spec_sla_op(pre, post, r, Loc8::D),
        0x23 => spec_sla_op(pre, post, r, Loc8::E),
        0x24 => spec_sla_op(pre, post, r, Loc8::H),
        0x25 => spec_sla_op(pre, post, r, Loc8::L),
        0x26 => spec_sla_op(pre, post, r, Loc8::AddrHL),
        0x27 => spec_sla_op(pre, post, r, Loc8::A),
        0x28 => spec_sra_op(pre, post, r, Loc8::B),
        0x29 => spec_sra_op(pre, post, r, Loc8::C),
        0x2A => spec_sra_op(pre, post, r, Loc8::D),
        0x2B => spec_sra_op(pre, post, r, Loc8::E),
        0x2C => spec_sra_op(pre, post, r, Loc8::H),
        0x2D => spec_sra_op(pre, post, r, Loc8::L),
        0x2E => spec_sra_op(pre, post, r, Loc8::AddrHL),
        0x2F => spec_sra_op(pre, post, r, Loc8::A),
        0x30 => spec_swap_op(pre, post, r, Loc8::B),
        0x31 => spec_swap_op(pre, post, r, Loc8::C),
        0x32 => spec_swap_op(pre, post, r, Loc8::D),
        0x33 => spec_swap_op(pre, post, r, Loc8::E),
        0x34 => spec_swap_op(pre, post, r, Loc8::H),
        0x35 => spec_swap_op(pre, post, r, Loc8::L),
        0x36 => spec_swap_op(pre, post, r, Loc8::AddrHL),
        0x37 => spec_swap_op(pre, post, r, Loc8::A),
        0x38 => spec_srl_op(pre, post, r, Loc8::B),
        0x39 => spec_srl_op(pre, post, r, Loc8::C),
        0x3A => spec_srl_op(pre, post, r, Loc8::D),
        0x3B => spec_srl_op(pre, post, r, Loc8::E),
        0x3C => spec_srl_op(pre, post, r, Loc8::H),
        0x3D => spec_srl_op(pre, post, r, Loc8::L),
        0x3E => spec_srl_op(pre, post, r, Loc8::AddrHL),
        0x3F => spec_srl_op(pre, post, r, Loc8::A),
        0x40 => spec_bit_op(pre, post, r, Loc8::B, 0),
        0x41 => spec_bit_op(pre, post, r, Loc8::C, 0),
        0x42 => spec_bit_op(pre, post, r, Loc8::D, 0),
        0x43 => spec_bit_op(pre, post, r, Loc8::E, 0),
        0x44 => spec_bit_op(pre, post, r, Loc8::H, 0),
        0x45 => spec_bit_op(pre, post, r, Loc8::L, 0),
        0x46 => spec_bit_op(pre, post, r, Loc8::AddrHL, 0),
        0x47 => spec_bit_op(pre, post, r, Loc8::A, 0),
        0x48 => spec_bit_op(pre, post, r, Loc8::B, 1),
        0x49 => spec_bit_op(pre, post, r, Loc8::C, 1),
        0x4A => spec_bit_op(pre, post, r, Loc8::D, 1),
        0x4B => spec_bit_op(pre, post, r, Loc8::E, 1),
        0x4C => spec_bit_op(pre, post, r, Loc8::H, 1),
        0x4D => spec_bit_op(pre, post, r, Loc8::L, 1),
        0x4E => spec_bit_op(pre, post, r, Loc8::AddrHL, 1),
        0x4F => spec_bit_op(pre, post, r, Loc8::A, 1),
        0x50 => spec_bit_op(pre, post, r, Loc8::B, 2),
        0x51 => spec_bit_op(pre, post, r, Loc8::C, 2),
        0x52 => spec_bit_op(pre, post, r, Loc8::D, 2),
        0x53 => spec_bit_op(pre, post, r, Loc8::E, 2),
        0x54 => spec_bit_op(pre, post, r, Loc8::H, 2),
        0x55 => spec_bit_op(pre, post, r, Loc8::L, 2),
        0x56 => spec_bit_op(pre, post, r, Loc8::AddrHL, 2),
        0x57 => spec_bit_op(pre, post, r, Loc8::A, 2),
        0x58 => spec_bit_op(pre, post, r, Loc8::B, 3),
        0x59 => spec_bit_op(pre, post, r, Loc8::C, 3),
        0x5A => spec_bit_op(pre, post, r, Loc8::D, 3),
        0x5B => spec_bit_op(pre, post, r, Loc8::E, 3),
        0x5C => spec_bit_op(pre, post, r, Loc8::H, 3),
        0x5D => spec_bit_op(pre, post, r, Loc8::L, 3),
        0x5E => spec_bit_op(pre, post, r, Loc8::AddrHL, 3),
        0x5F => spec_bit_op(pre, post, r, Loc8::A, 3),
        0x60 => spec_bit_op(pre, post, r, Loc8::B, 4),
        0x61 => spec_bit_op(pre, post, r, Loc8::C, 4),
        0x62 => spec_bit_op(pre, post, r, Loc8::D, 4),
        0x63 => spec_bit_op(pre, post, r, Loc8::E, 4),
        0x64 => spec_bit_op(pre, post, r, Loc8::H, 4),
        0x65 => spec_bit_op(pre, post, r, Loc8::L, 4),
        0x66 => spec_bit_op(pre, post, r, Loc8::AddrHL, 4),
        0x67 => spec_bit_op(pre, post, r, Loc8::A, 4),
        0x68 => spec_bit_op(pre, post, r, Loc8::B, 5),
        0x69 => spec_bit_op(pre, post, r, Loc8::C, 5),
        0x6A => spec_bit_op(pre, post, r, Loc8::D, 5),
        0x6B => spec_bit_op(pre, post, r, Loc8::E, 5),
        0x6C => spec_bit_op(pre, post, r, Loc8::H, 5),
        0x6D => spec_bit_op(pre, post, r, Loc8::L, 5),
        0x6E => spec_bit_op(pre, post, r, Loc8::AddrHL, 5),
        0x6F => spec_bit_op(pre, post, r, Loc8::A, 5),
        0x70 => spec_bit_op(pre, post, r, Loc8::B, 6),
        0x71 => spec_bit_op(pre, post, r, Loc8::C, 6),
        0x72 => spec_bit_op(pre, post, r, Loc8::D, 6),
        0x73 => spec_bit_op(pre, post, r, Loc8::E, 6),
        0x74 => spec_bit_op(pre, post, r, Loc8::H, 6),
        0x75 => spec_bit_op(pre, post, r, Loc8::L, 6),
        0x76 => spec_bit_op(pre, post, r, Loc8::AddrHL, 6),
        0x77 => spec_bit_op(pre, post, r, Loc8::A, 6),
        0x78 => spec_bit_op(pre, post, r, Loc8::B, 7),
        0x79 => spec_bit_op(pre, post, r, Loc8::C, 7),
        0x7A => spec_bit_op(pre, post, r, Loc8::D, 7),
        0x7B => spec_bit_op(pre, post, r, Loc8::E, 7),
        0x7C => spec_bit_op(pre, post, r, Loc8::H, 7),
        0x7D => spec_bit_op(pre, post, r, Loc8::L, 7),
        0x7E => spec_bit_op(pre, post, r, Loc8::AddrHL, 7),
        0x7F => spec_bit_op(pre, post, r, Loc8::A, 7),
        0x80 => spec_res_op(pre, post, r, Loc8::B, 0),
        0x81 => spec_res_op(pre, post, r, Loc8::C, 0),
        0x82 => spec_res_op(pre, post, r, Loc8::D, 0),
        0x83 => spec_res_op(pre, post, r, Loc8::E, 0),
        0x84 => spec_res_op(pre, post, r, Loc8::H, 0),
        0x85 => spec_res_op(pre, post, r, Loc8::L, 0),
        0x86 => spec_res_op(pre, post, r, Loc8::AddrHL, 0),
        0x87 => spec_res_op(pre, post, r, Loc8::A, 0),
        0x88 => spec_res_op(pre, post, r, Loc8::B, 1),
        0x89 => spec_res_op(pre, post, r, Loc8::C, 1),
        0x8A => spec_res_op(pre, post, r, Loc8::D, 1),
        0x8B => spec_res_op(pre, post, r, Loc8::E, 1),
        0x8C => spec_res_op(pre, post, r, Loc8::H, 1),
        0x8D => spec_res_op(pre, post, r, Loc8::L, 1),
        0x8E => spec_res_op(pre, post, r, Loc8::AddrHL, 1),
        0x8F => spec_res_op(pre, post, r, Loc8::A, 1),
        0x90 => spec_res_op(pre, post, r, Loc8::B, 2),
        0x91 => spec_res_op(pre, post, r, Loc8::C, 2),
        0x92 => spec_res_op(pre, post, r, Loc8::D, 2),
        0x93 => spec_res_op(pre, post, r, Loc8::E, 2),
        0x94 => spec_res_op(pre, post, r, Loc8::H, 2),
        0x95 => spec_res_op(pre, post, r, Loc8::L, 2),
        0x96 => spec_res_op(pre, post, r, Loc8::AddrHL, 2),
        0x97 => spec_res_op(pre, post, r, Loc8::A, 2),
        0x98 => spec_res_op(pre, post, r, Loc8::B, 3),
        0x99 => spec_res_op(pre, post, r, Loc8::C, 3),
        0x9A => spec_res_op(pre, post, r, Loc8::D, 3),
        0x9B => spec_res_op(pre, post, r, Loc8::E, 3),
        0x9C => spec_res_op(pre, post, r, Loc8::H, 3),
        0x9D => spec_res_op(pre, post, r, Loc8::L, 3),
        0x9E => spec_res_op(pre, post, r, Loc8::AddrHL, 3),
        0x9F => spec_res_op(pre, post, r, Loc8::A, 3),
        0xA0 => spec_res_op(pre, post, r, Loc8::B, 4),
        0xA1 => spec_res_op(pre, post, r, Loc8::C, 4),
        0xA2 => spec_res_op(pre, post, r, Loc8::D, 4),
        0xA3 => spec_res_op(pre, post, r, Loc8::E, 4),
        0xA4 => spec_res_op(pre, post, r, Loc8::H, 4),
        0xA5 => spec_res_op(pre, post, r, Loc8::L, 4),
        0xA6 => spec_res_op(pre, post, r, Loc8::AddrHL, 4),
        0xA7 => spec_res_op(pre, post, r, Loc8::A, 4),
        0xA8 => spec_res_op(pre, post, r, Loc8::B, 5),
        0xA9 => spec_res_op(pre, post, r, Loc8::C, 5),
        0xAA => spec_res_op(pre, post, r, Loc8::D, 5),
        0xAB => spec_res_op(pre, post, r, Loc8::E, 5),
        0xAC => spec_res_op(pre, post, r, Loc8::H, 5),
        0xAD => spec_res_op(pre, post, r, Loc8::L, 5),
        0xAE => spec_res_op(pre, post, r, Loc8::AddrHL, 5),
        0xAF => spec_res_op(pre, post, r, Loc8::A, 5),
        0xB0 => spec_res_op(pre, post, r, Loc8::B, 6),
        0xB1 => spec_res_op(pre, post, r, Loc8::C, 6),
        0xB2 => spec_res_op(pre, post, r, Loc8::D, 6),
        0xB3 => spec_res_op(pre, post, r, Loc8::E, 6),
        0xB4 => spec_res_op(pre, post, r, Loc8::H, 6),
        0xB5 => spec_res_op(pre, post, r, Loc8::L, 6),
        0xB6 => spec_res_op(pre, post, r, Loc8::AddrHL, 6),
        0xB7 => spec_res_op(pre, post, r, Loc8::A, 6),
        0xB8 => spec_res_op(pre, post, r, Loc8::B, 7),
        0xB9 => spec_res_op(pre, post, r, Loc8::C, 7),
        0xBA => spec_res_op(pre, post, r, Loc8::D, 7),
        0xBB => spec_res_op(pre, post, r, Loc8::E, 7),
        0xBC => spec_res_op(pre, post, r, Loc8::H, 7),
        0xBD => spec_res_op(pre, post, r, Loc8::L, 7),
        0xBE => spec_res_op(pre, post, r, Loc8::AddrHL, 7),
        0xBF => spec_res_op(pre, post, r, Loc8::A, 7),
        0xC0 => spec_set_op(pre, post, r, Loc8::B, 0),
        0xC1 => spec_set_op(pre, post, r, Loc8::C, 0),
        0xC2 => spec_set_op(pre, post, r, Loc8::D, 0),
        0xC3 => spec_set_op(pre, post, r, Loc8::E, 0),
        0xC4 => spec_set_op(pre, post, r, Loc8::H, 0),
        0xC5 => spec_set_op(pre, post, r, Loc8::L, 0),
        0xC6 => spec_set_op(pre, post, r, Loc8::AddrHL, 0),
        0xC7 => spec_set_op(pre, post, r, Loc8::A, 0),
        0xC8 => spec_set_op(pre, post, r, Loc8::B, 1),
        0xC9 => spec_set_op(pre, post, r, Loc8::C, 1),
        0xCA => spec_set_op(pre, post, r, Loc8::D, 1),
        0xCB => spec_set_op(pre, post, r, Loc8::E, 1),
        0xCC => spec_set_op(pre, post, r, Loc8::H, 1),
        0xCD => spec_set_op(pre, post, r, Loc8::L, 1),
        0xCE => spec_set_op(pre, post, r, Loc8::AddrHL, 1),
        0xCF => spec_set_op(pre, post, r, Loc8::A, 1),
        0xD0 => spec_set_op(pre, post, r, Loc8::B, 2),
        0xD1 => spec_set_op(pre, post, r, Loc8::C, 2),
        0xD2 => spec_set_op(pre, post, r, Loc8::D, 2),
        0xD3 => spec_set_op(pre, post, r, Loc8::E, 2),
        0xD4 => spec_set_op(pre, post, r, Loc8::H, 2),
        0xD5 => spec_set_op(pre, post, r, Loc8::L, 2),
        0xD6 => spec_set_op(pre, post, r, Loc8::AddrHL, 2),
        0xD7 => spec_set_op(pre, post, r, Loc8::A, 2),
        0xD8 => spec_set_op(pre, post, r, Loc8::B, 3),
        0xD9 => spec_set_op(pre, post, r, Loc8::C, 3),
        0xDA => spec_set_op(pre, post, r, Loc8::D, 3),
        0xDB => spec_set_op(pre, post, r, Loc8::E, 3),
        0xDC => spec_set_op(pre, post, r, Loc8::H, 3),
        0xDD => spec_set_op(pre, post, r, Loc8::L, 3),
        0xDE => spec_set_op(pre, post, r, Loc8::AddrHL, 3),
        0xDF => spec_set_op(pre, post, r, Loc8::A, 3),
        0xE0 => spec_set_op(pre, post, r, Loc8::B, 4),
        0xE1 => spec_set_op(pre, post, r, Loc8::C, 4),
        0xE2 => spec_set_op(pre, post, r, Loc8::D, 4),
        0xE3 => spec_set_op(pre, post, r, Loc8::E, 4),
        0xE4 => spec_set_op(pre, post, r, Loc8::H, 4),
        0xE5 => spec_set_op(pre, post, r, Loc8::L, 4),
        0xE6 => spec_set_op(pre, post, r, Loc8::AddrHL, 4),
        0xE7 => spec_set_op(pre, post, r, Loc8::A, 4),
        0xE8 => spec_set_op(pre, post, r, Loc8::B, 5),
        0xE9 => spec_set_op(pre, post, r, Loc8::C, 5),
        0xEA => spec_set_op(pre, post, r, Loc8::D, 5),
        0xEB => spec_set_op(pre, post, r, Loc8::E, 5),
        0xEC => spec_set_op(pre, post, r, Loc8::H, 5),
        0xED => spec_set_op(pre, post, r, Loc8::L, 5),
        0xEE => spec_set_op(pre, post, r, Loc8::AddrHL, 5),
        0xEF => spec_set_op(pre, post, r, Loc8::A, 5),
        0xF0 => spec_set_op(pre, post, r, Loc8::B, 6),
        0xF1 => spec_set_op(pre, post, r, Loc8::C, 6),
        0xF2 => spec_set_op(pre, post, r, Loc8::D, 6),
        0xF3 => spec_set_op(pre, post, r, Loc8::E, 6),
        0xF4 => spec_set_op(pre, post, r, Loc8::H, 6),
        0xF5 => spec_set_op(pre, post, r, Loc8::L, 6),
        0xF6 => spec_set_op(pre, post, r, Loc8::AddrHL, 6),
        0xF7 => spec_set_op(pre, post, r, Loc8::A, 6),
        0xF8 => spec_set_op(pre, post, r, Loc8::B, 7),
        0xF9 => spec_set_op(pre, post, r, Loc8::C, 7),
        0xFA => spec_set_op(pre, post, r, Loc8::D, 7),
        0xFB => spec_set_op(pre, post, r, Loc8::E, 7),
        0xFC => spec_set_op(pre, post, r, Loc8::H, 7),
        0xFD => spec_set_op(pre, post, r, Loc8::L, 7),
        0xFE => spec_set_op(pre, post, r, Loc8::AddrHL, 7),
        _ => spec_set_op(pre, post, r, Loc8::A, 7),
    }
}

/// The processor state after the one-byte opcode fetch that precedes a
/// dispatch: the program counter has moved past the fetched byte.
pub open spec fn spec_after_fetch(pre: CPU) -> CPU {
    CPU {
        registers: Registers { pc: spec_wrap_add16(pre.registers.pc, 1), ..pre.registers },
        ..pre
    }
}

/// What executing one fetched opcode does to the processor: the extension
/// prefix fetches one more byte and dispatches it through the extended table;
/// every other byte dispatches through the standard table.
pub open spec fn spec_execute_effect(op: u8, pre: CPU, post: CPU, r: Result<(), Fault>) -> bool {
    if op == 0xCB {
        exists|extended_op: u8| spec_extended_effect(extended_op, spec_after_fetch(pre), post, r)
    } else {
        spec_standard_effect(op, pre, post, r)
    }
}

/// True when an opcode has a defined mapping in the standard space.
pub open spec fn spec_standard_defined(op: u8) -> bool {
    !(op == 0x10 || op == 0xCB || op == 0xD3 || op == 0xDB || op == 0xDD || op == 0xE3 || op
        == 0xE4 || op == 0xEB || op == 0xEC || op == 0xED || op == 0xF4 || op == 0xFC || op == 0xFD)
}

/// Dispatches one opcode: the extension prefix fetches a second byte and
/// selects the extended table, every other byte the standard one; each
/// defined opcode performs exactly its table row's operation. An opcode with
/// no defined mapping faults, naming its opcode space; the processor is then
/// unchanged.
pub fn execute<B: MemoryBus>(op: u8, cpu: &mut CPU, memory: &mut B) -> (r: Result<(), Fault>)
    ensures
        spec_execute_effect(op, *old(cpu), *final(cpu), r),
        op != 0xCB && !spec_standard_defined(op) ==> r == Err::<(), Fault>(Fault::UnknownOpcode(op))
            && *final(cpu) == *old(cpu),
        r matches Err(f) ==> (f is UnknownOpcode ==> !spec_standard_defined(f->UnknownOpcode_0)),
        r matches Err(f) ==> !(f is UnknownExtendedOpcode),
{
    if op == 0xCB {
        let fetch = cpu.get_byte(memory);
        proof {
            assert(*cpu == spec_after_fetch(*old(cpu)));
        }
        let extended_op = match fetch {
            Ok(byte) => byte,
            Err(fault) => {
                proof {
                    // The failed fetch already moved past the prefix; any
                    // table row tolerates a bus fault, so row zero witnesses
                    // the dispatch that never happened.
                    assert(spec_extended_effect(
                        0x00,
                        spec_after_fetch(*old(cpu)),
                        *cpu,
                        Err::<(), Fault>(fault),
                    ));
                }
                return Err(fault);
            },
        };
        let result = execute_extended(extended_op, cpu, memory);
        proof {
            assert(spec_extended_effect(extended_op, spec_after_fetch(*old(cpu)), *cpu, result));
        }
        result
    } else {
        execute_standard(op, cpu, memory)
    }
}

/// Execute commands in the standard instruction space
fn execute_standard<B: MemoryBus>(op: u8, cpu: &mut CPU, memory: &mut B) -> (r: Result<(), Fault>)
    ensures
        spec_standard_effect(op, *old(cpu), *final(cpu), r),
        !spec_standard_defined(op) ==> {
            &&& r == Err::<(), Fault>(Fault::UnknownOpcode(op))
            &&& *final(cpu) == *old(cpu)
        },
        r matches Err(f) ==> (spec_fault_is_bus(f) || (f == Fault::UnknownOpcode(op)
            && !spec_standard_defined(op))),
{
    if op < 0x40 {
        standard_misc(op, cpu, memory)
    } else if op < 0x80 {
        standard_moves(op, cpu, memory)
    } else if op < 0xC0 {
        standard_alu(op, cpu, memory)
    } else {
        standard_control(op, cpu, memory)
    }
}

/// The first quarter of the standard space: loads, 16-bit arithmetic,
/// rotates of the accumulator, relative jumps and flag operations.
#[verifier::rlimit(60)]
fn standard_misc<B: MemoryBus>(op: u8, cpu: &mut CPU, memory: &mut B) -> (r: Result<(), Fault>)
    requires
        op < 0x40,
    ensures
        spec_standard_effect(op, *old(cpu), *final(cpu), r),
        !spec_standard_defined(op) ==> {
            &&& r == Err::<(), Fault>(Fault::UnknownOpcode(op))
            &&& *final(cpu) == *old(cpu)
        },
        r matches Err(f) ==> (spec_fault_is_bus(f) || (f == Fault::UnknownOpcode(op)
            && !spec_standard_defined(op))),
{
    match op {
        0x00 => Ok(()),  // NOP
        0x01 => load_16(cpu, memory, Loc16::BC, Loc16::Imm16),
        0x02 => load_8(cpu, memory, Loc8::AddrBC, Loc8::A),
        0x03 => inc_16(cpu, memory, Loc16::BC),
        0x04 => inc_8(cpu, memory, Loc8::B),
        0x05 => dec_8(cpu, memory, Loc8::B),
        0x06 => load_8(cpu, memory, Loc8::B, Loc8::Imm8),
        0x07 => rlc(cpu, memory, Loc8::A),
        0x08 => load_16(cpu, memory, Loc16::Imm16, Loc16::SP),
        0x09 => add_16(cpu, memory, Loc16::BC),
        0x0A => load_8(cpu, memory, Loc8::A, Loc8::AddrBC),
        0x0B => dec_16(cpu, memory, Loc16::BC),
        0x0C => inc_8(cpu, memory, Loc8::C),
        0x0D => dec_8(cpu, memory, Loc8::C),
        0x0E => load_8(cpu, memory, Loc8::C, Loc8::Imm8),
        0x0F => rrc(cpu, memory, Loc8::A),
        0x11 => load_16(cpu, memory, Loc16::DE, Loc16::Imm16),
        0x12 => load_8(cpu, memory, Loc8::AddrDE, Loc8::A),
        0x13 => inc_16(cpu, memory, Loc16::DE),
        0x14 => inc_8(cpu, memory, Loc8::D),
        0x15 => dec_8(cpu, memory, Loc8::D),
        0x16 => load_8(cpu, memory, Loc8::D, Loc8::Imm8),
        0x17 => rl(cpu, memory, Loc8::A),
        0x18 => jr_n(cpu, memory, Check::True),
        0x19 => add_16(cpu, memory, Loc16::DE),
        0x1A => load_8(cpu, memory, Loc8::A, Loc8::AddrDE),
        0x1B => dec_16(cpu, memory, Loc16::DE),
        0x1C => inc_8(cpu, memory, Loc8::E),
        0x1D => dec_8(cpu, memory, Loc8::E),
        0x1E => load_8(cpu, memory, Loc8::E, Loc8::Imm8),
        0x1F => rr(cpu, memory, Loc8::A),
        0x20 => jr_n(cpu, memory, Check::NZ),
        0x21 => load_16(cpu, memory, Loc16::HL, Loc16::Imm16),
        0x22 => ldi(cpu, memory, Loc8::AddrHL, Loc8::A),
        0x23 => inc_16(cpu, memory, Loc16::HL),
        0x24 => inc_8(cpu, memory, Loc8::H),
        0x25 => dec_8(cpu, memory, Loc8::H),
        0x26 => load_8(cpu, memory, Loc8::H, Loc8::Imm8),
        0x27 => {
            daa(cpu);
            Ok(())
        },
        0x28 => jr_n(cpu, memory, Check::Z),
        0x29 => add_16(cpu, memory, Loc16::HL),
        0x2A => ldi(cpu, memory, Loc8::A, Loc8::AddrHL),
        0x2B => dec_16(cpu, memory, Loc16::HL),
        0x2C => inc_8(cpu, memory, Loc8::L),
        0x2D => dec_8(cpu, memory, Loc8::L),
        0x2E => load_8(cpu, memory, Loc8::L, Loc8::Imm8),
        0x2F => {
            cpl(cpu);
            Ok(())
        },
        0x30 => jr_n(cpu, memory, Check::NC),
        0x31 => load_16(cpu, memory, Loc16::SP, Loc16::Imm16),
        0x32 => ldd(cpu, memory, Loc8::AddrHL, Loc8::A),
        0x33 => inc_16(cpu, memory, Loc16::SP),
        0x34 => inc_8(cpu, memory, Loc8::AddrHL),
        0x35 => dec_8(cpu, memory, Loc8::AddrHL),
        0x36 => load_8(cpu, memory, Loc8::AddrHL, Loc8::Imm8),
        0x37 => {
            scf(cpu);
            Ok(())
        },
        0x38 => jr_n(cpu, memory, Check::C),
        0x39 => add_16(cpu, memory, Loc16::SP),
        0x3A => ldd(cpu, memory, Loc8::A, Loc8::AddrHL),
        0x3B => dec_16(cpu, memory, Loc16::SP),
        0x3C => inc_8(cpu, memory, Loc8::A),
        0x3D => dec_8(cpu, memory, Loc8::A),
        0x3E => load_8(cpu, memory, Loc8::A, Loc8::Imm8),
        0x3F => {
            ccf(cpu);
            Ok(())
        },
        _ => Err(Fault::UnknownOpcode(op)),
    }
}

/// The register-to-register load block of the standard space.
#[verifier::rlimit(60)]
fn standard_moves<B: MemoryBus>(op: u8, cpu: &mut CPU, memory: &mut B) -> (r: Result<(), Fault>)
    requires
        0x40 <= op < 0x80,
    ensures
        spec_standard_effect(op, *old(cpu), *final(cpu), r),
        !spec_standard_defined(op) ==> {
            &&& r == Err::<(), Fault>(Fault::UnknownOpcode(op))
            &&& *final(cpu) == *old(cpu)
        },
        r matches Err(f) ==> (spec_fault_is_bus(f) || (f == Fault::UnknownOpcode(op)
            && !spec_standard_defined(op))),
{
    match op {
        0x40 => load_8(cpu, memory, Loc8::B, Loc8::B),
        0x41 => load_8(cpu, memory, Loc8::B, Loc8::C),
        0x42 => load_8(cpu, memory, Loc8::B, Loc8::D),
        0x43 => load_8(cpu, memory, Loc8::B, Loc8::E),
        0x44 => load_8(cpu, memory, Loc8::B, Loc8::H),
        0x45 => load_8(cpu, memory, Loc8::B, Loc8::L),
        0x46 => load_8(cpu, memory, Loc8::B, Loc8::AddrHL),
        0x47 => load_8(cpu, memory, Loc8::B, Loc8::A),
        0x48 => load_8(cpu, memory, Loc8::C, Loc8::B),
        0x49 => load_8(cpu, memory, Loc8::C, Loc8::C),
        0x4A => load_8(cpu, memory, Loc8::C, Loc8::D),
        0x4B => load_8(cpu, memory, Loc8::C, Loc8::E),
        0x4C => load_8(cpu, memory, Loc8::C, Loc8::H),
        0x4D => load_8(cpu, memory, Loc8::C, Loc8::L),
        0x4E => load_8(cpu, memory, Loc8::C, Loc8::AddrHL),
        0x4F => load_8(cpu, memory, Loc8::C, Loc8::A),
        0x50 => load_8(cpu, memory, Loc8::D, Loc8::B),
        0x51 => load_8(cpu, memory, Loc8::D, Loc8::C),
        0x52 => load_8(cpu, memory, Loc8::D, Loc8::D),
        0x53 => load_8(cpu, memory, Loc8::D, Loc8::E),
        0x54 => load_8(cpu, memory, Loc8::D, Loc8::H),
        0x55 => load_8(cpu, memory, Loc8::D, Loc8::L),
        0x56 => load_8(cpu, memory, Loc8::D, Loc8::AddrHL),
        0x57 => load_8(cpu, memory, Loc8::D, Loc8::A),
        0x58 => load_8(cpu, memory, Loc8::E, Loc8::B),
        0x59 => load_8(cpu, memory, Loc8::E, Loc8::C),
        0x5A => load_8(cpu, memory, Loc8::E, Loc8::D),
        0x5B => load_8(cpu, memory, Loc8::E, Loc8::E),
        0x5C => load_8(cpu, memory, Loc8::E, Loc8::H),
        0x5D => load_8(cpu, memory, Loc8::E, Loc8::L),
        0x5E => load_8(cpu, memory, Loc8::E, Loc8::AddrHL),
        0x5F => load_8(cpu, memory, Loc8::E, Loc8::A),
        0x60 => load_8(cpu, memory, Loc8::H, Loc8::B),
        0x61 => load_8(cpu, memory, Loc8::H, Loc8::C),
        0x62 => load_8(cpu, memory, Loc8::H, Loc8::D),
        0x63 => load_8(cpu, memory, Loc8::H, Loc8::E),
        0x64 => load_8(cpu, memory, Loc8::H, Loc8::H),
        0x65 => load_8(cpu, memory, Loc8::H, Loc8::L),
        0x66 => load_8(cpu, memory, Loc8::H, Loc8::AddrHL),
        0x67 => load_8(cpu, memory, Loc8::H, Loc8::A),
        0x68 => load_8(cpu, memory, Loc8::L, Loc8::B),
        0x69 => load_8(cpu, memory, Loc8::L, Loc8::C),
        0x6A => load_8(cpu, memory, Loc8::L, Loc8::D),
        0x6B => load_8(cpu, memory, Loc8::L, Loc8::E),
        0x6C => load_8(cpu, memory, Loc8::L, Loc8::H),
        0x6D => load_8(cpu, memory, Loc8::L, Loc8::L),
        0x6E => load_8(cpu, memory, Loc8::L, Loc8::AddrHL),
        0x6F => load_8(cpu, memory, Loc8::L, Loc8::A),
        0x70 => load_8(cpu, memory, Loc8::AddrHL, Loc8::B),
        0x71 => load_8(cpu, memory, Loc8::AddrHL, Loc8::C),
        0x72 => load_8(cpu, memory, Loc8::AddrHL, Loc8::D),
        0x73 => load_8(cpu, memory, Loc8::AddrHL, Loc8::E),
        0x74 => load_8(cpu, memory, Loc8::AddrHL, Loc8::H),
        0x75 => load_8(cpu, memory, Loc8::AddrHL, Loc8::L),
        0x76 => Ok(()),  // HALT is treated as a no-op
        0x77 => load_8(cpu, memory, Loc8::AddrHL, Loc8::A),
        0x78 => load_8(cpu, memory, Loc8::A, Loc8::B),
        0x79 => load_8(cpu, memory, Loc8::A, Loc8::C),
        0x7A => load_8(cpu, memory, Loc8::A, Loc8::D),
        0x7B => load_8(cpu, memory, Loc8::A, Loc8::E),
        0x7C => load_8(cpu, memory, Loc8::A, Loc8::H),
        0x7D => load_8(cpu, memory, Loc8::A, Loc8::L),
        0x7E => load_8(cpu, memory, Loc8::A, Loc8::AddrHL),
        0x7F => load_8(cpu, memory, Loc8::A, Loc8::A),
        _ => Err(Fault::UnknownOpcode(op)),
    }
}

/// The arithmetic and logic block of the standard space.
#[verifier::rlimit(60)]
fn standard_alu<B: MemoryBus>(op: u8, cpu: &mut CPU, memory: &mut B) -> (r: Result<(), Fault>)
    requires
        0x80 <= op < 0xC0,
    ensures
        spec_standard_effect(op, *old(cpu), *final(cpu), r),
        !spec_standard_defined(op) ==> {
            &&& r == Err::<(), Fault>(Fault::UnknownOpcode(op))
            &&& *final(cpu) == *old(cpu)
        },
        r matches Err(f) ==> (spec_fault_is_bus(f) || (f == Fault::UnknownOpcode(op)
            && !spec_standard_defined(op))),
{
    match op {
        0x80 => add_8(cpu, memory, Loc8::B),
        0x81 => add_8(cpu, memory, Loc8::C),
        0x82 => add_8(cpu, memory, Loc8::D),
        0x83 => add_8(cpu, memory, Loc8::E),
        0x84 => add_8(cpu, memory, Loc8::H),
        0x85 => add_8(cpu, memory, Loc8::L),
        0x86 => add_8(cpu, memory, Loc8::AddrHL),
        0x87 => add_8(cpu, memory, Loc8::A),
        0x88 => adc(cpu, memory, Loc8::B),
        0x89 => adc(cpu, memory, Loc8::C),
        0x8A => adc(cpu, memory, Loc8::D),
        0x8B => adc(cpu, memory, Loc8::E),
        0x8C => adc(cpu, memory, Loc8::H),
        0x8D => adc(cpu, memory, Loc8::L),
        0x8E => adc(cpu, memory, Loc8::AddrHL),
        0x8F => adc(cpu, memory, Loc8::A),
        0x90 => crate::instructions::sub(cpu, memory, Loc8::B),
        0x91 => crate::instructions::sub(cpu, memory, Loc8::C),
        0x92 => crate::instructions::sub(cpu, memory, Loc8::D),
        0x93 => crate::instructions::sub(cpu, memory, Loc8::E),
        0x94 => crate::instructions::sub(cpu, memory, Loc8::H),
        0x95 => crate::instructions::sub(cpu, memory, Loc8::L),
        0x96 => crate::instructions::sub(cpu, memory, Loc8::AddrHL),
        0x97 => crate::instructions::sub(cpu, memory, Loc8::A),
        0x98 => sbc(cpu, memory, Loc8::B),
        0x99 => sbc(cpu, memory, Loc8::C),
        0x9A => sbc(cpu, memory, Loc8::D),
        0x9B => sbc(cpu, memory, Loc8::E),
        0x9C => sbc(cpu, memory, Loc8::H),
        0x9D => sbc(cpu, memory, Loc8::L),
        0x9E => sbc(cpu, memory, Loc8::AddrHL),
        0x9F => sbc(cpu, memory, Loc8::A),
        0xA0 => and(cpu, memory, Loc8::B),
        0xA1 => and(cpu, memory, Loc8::C),
        0xA2 => and(cpu, memory, Loc8::D),
        0xA3 => and(cpu, memory, Loc8::E),
        0xA4 => and(cpu, memory, Loc8::H),
        0xA5 => and(cpu, memory, Loc8::L),
        0xA6 => and(cpu, memory, Loc8::AddrHL),
        0xA7 => and(cpu, memory, Loc8::A),
        0xA8 => xor(cpu, memory, Loc8::B),
        0xA9 => xor(cpu, memory, Loc8::C),
        0xAA => xor(cpu, memory, Loc8::D),
        0xAB => xor(cpu, memory, Loc8::E),
        0xAC => xor(cpu, memory, Loc8::H),
        0xAD => xor(cpu, memory, Loc8::L),
        0xAE => xor(cpu, memory, Loc8::AddrHL),
        0xAF => xor(cpu, memory, Loc8::A),
        0xB0 => or(cpu, memory, Loc8::B),
        0xB1 => or(cpu, memory, Loc8::C),
        0xB2 => or(cpu, memory, Loc8::D),
        0xB3 => or(cpu, memory, Loc8::E),
        0xB4 => or(cpu, memory, Loc8::H),
        0xB5 => or(cpu, memory, Loc8::L),
        0xB6 => or(cpu, memory, Loc8::AddrHL),
        0xB7 => or(cpu, memory, Loc8::A),
        0xB8 => cp(cpu, memory, Loc8::B),
        0xB9 => cp(cpu, memory, Loc8::C),
        0xBA => cp(cpu, memory, Loc8::D),
        0xBB => cp(cpu, memory, Loc8::E),
        0xBC => cp(cpu, memory, Loc8::H),
        0xBD => cp(cpu, memory, Loc8::L),
        0xBE => cp(cpu, memory, Loc8::AddrHL),
        0xBF => cp(cpu, memory, Loc8::A),
        _ => Err(Fault::UnknownOpcode(op)),
    }
}

/// The control-flow quarter of the standard space: jumps, calls, returns,
/// restarts, stack and interrupt-enable operations.
#[verifier::rlimit(60)]
fn standard_control<B: MemoryBus>(op: u8, cpu: &mut CPU, memory: &mut B) -> (r: Result<(), Fault>)
    requires
        0xC0 <= op,
    ensures
        spec_standard_effect(op, *old(cpu), *final(cpu), r),
        !spec_standard_defined(op) ==> {
            &&& r == Err::<(), Fault>(Fault::UnknownOpcode(op))
            &&& *final(cpu) == *old(cpu)
        },
        r matches Err(f) ==> (spec_fault_is_bus(f) || (f == Fault::UnknownOpcode(op)
            && !spec_standard_defined(op))),
{
    match op {
        0xC0 => ret(cpu, memory, Check::NZ),
        0xC1 => pop(cpu, memory, Loc16::BC),
        0xC2 => jp_n(cpu, memory, Check::NZ),
        0xC3 => jp_n(cpu, memory, Check::True),
        0xC4 => call(cpu, memory, Check::NZ),
        0xC5 => push(cpu, memory, Loc16::BC),
        0xC6 => add_8(cpu, memory, Loc8::Imm8),
        0xC7 => rst(cpu, memory, 0x00),
        0xC8 => ret(cpu, memory, Check::Z),
        0xC9 => ret(cpu, memory, Check::True),
        0xCA => jp_n(cpu, memory, Check::Z),
        0xCC => call(cpu, memory, Check::Z),
        0xCD => call(cpu, memory, Check::True),
        0xCE => adc(cpu, memory, Loc8::Imm8),
        0xCF => rst(cpu, memory, 0x08),
        0xD0 => ret(cpu, memory, Check::NC),
        0xD1 => pop(cpu, memory, Loc16::DE),
        0xD2 => jp_n(cpu, memory, Check::NC),
        0xD4 => call(cpu, memory, Check::NC),
        0xD5 => push(cpu, memory, Loc16::DE),
        0xD6 => crate::instructions::sub(cpu, memory, Loc8::Imm8),
        0xD7 => rst(cpu, memory, 0x10),
        0xD8 => ret(cpu, memory, Check::C),
        0xD9 => reti(cpu, memory),
        0xDA => jp_n(cpu, memory, Check::C),
        0xDC => call(cpu, memory, Check::C),
        0xDE => sbc(cpu, memory, Loc8::Imm8),
        0xDF => rst(cpu, memory, 0x18),
        0xE0 => ldh_n(cpu, memory),
        0xE1 => pop(cpu, memory, Loc16::HL),
        0xE2 => load_8(cpu, memory, Loc8::AddrC, Loc8::A),
        0xE5 => push(cpu, memory, Loc16::HL),
        0xE6 => and(cpu, memory, Loc8::Imm8),
        0xE7 => rst(cpu, memory, 0x20),
        0xE8 => add_sp(cpu, memory, Loc16::SP, Loc8::Imm8),
        0xE9 => jp(cpu, memory, Loc16::HL),
        0xEA => load_8(cpu, memory, Loc8::AddrImm16, Loc8::A),
        0xEE => xor(cpu, memory, Loc8::Imm8),
        0xEF => rst(cpu, memory, 0x28),
        0xF0 => ldh_a(cpu, memory),
        0xF1 => pop(cpu, memory, Loc16::AF),
        0xF2 => load_8(cpu, memory, Loc8::A, Loc8::AddrC),
        0xF3 => {
            cpu.reset_ime();
            Ok(())
        },
        0xF5 => push(cpu, memory, Loc16::AF),
        0xF6 => or(cpu, memory, Loc8::Imm8),
        0xF7 => rst(cpu, memory, 0x30),
        0xF8 => ldhl(cpu, memory),
        0xF9 => load_16(cpu, memory, Loc16::SP, Loc16::HL),
        0xFA => load_8(cpu, memory, Loc8::A, Loc8::AddrImm16),
        0xFB => {
            cpu.set_ime_delayed();
            Ok(())
        },
        0xFE => cp(cpu, memory, Loc8::Imm8),
        0xFF => rst(cpu, memory, 0x38),
        _ => Err(Fault::UnknownOpcode(op)),
    }
}

/// Execute commands in the extended instruction space; every byte of it has
/// a defined mapping.
fn execute_extended<B: MemoryBus>(op: u8, cpu: &mut CPU, memory: &mut B) -> (r: Result<(), Fault>)
    ensures
        spec_extended_effect(op, *old(cpu), *final(cpu), r),
        r matches Err(f) ==> spec_fault_is_bus(f),
{
    if op < 0x40 {
        extended_shifts(op, cpu, memory)
    } else if op < 0x80 {
        extended_bit(op, cpu, memory)
    } else if op < 0xC0 {
        extended_res(op, cpu, memory)
    } else {
        extended_set(op, cpu, memory)
    }
}

/// The rotate, shift and nibble-swap block of the extended space.
#[verifier::rlimit(60)]
fn extended_shifts<B: MemoryBus>(op: u8, cpu: &mut CPU, memory: &mut B) -> (r: Result<(), Fault>)
    requires
        op < 0x40,
    ensures
        spec_extended_effect(op, *old(cpu), *final(cpu), r),
        r matches Err(f) ==> spec_fault_is_bus(f),
{
    match op {
        0x00 => rlc(cpu, memory, Loc8::B),
        0x01 => rlc(cpu, memory, Loc8::C),
        0x02 => rlc(cpu, memory, Loc8::D),
        0x03 => rlc(cpu, memory, Loc8::E),
        0x04 => rlc(cpu, memory, Loc8::H),
        0x05 => rlc(cpu, memory, Loc8::L),
        0x06 => rlc(cpu, memory, Loc8::AddrHL),
        0x07 => rlc(cpu, memory, Loc8::A),
        0x08 => rrc(cpu, memory, Loc8::B),
        0x09 => rrc(cpu, memory, Loc8::C),
        0x0A => rrc(cpu, memory, Loc8::D),
        0x0B => rrc(cpu, memory, Loc8::E),
        0x0C => rrc(cpu, memory, Loc8::H),
        0x0D => rrc(cpu, memory, Loc8::L),
        0x0E => rrc(cpu, memory, Loc8::AddrHL),
        0x0F => rrc(cpu, memory, Loc8::A),
        0x10 => rl(cpu, memory, Loc8::B),
        0x11 => rl(cpu, memory, Loc8::C),
        0x12 => rl(cpu, memory, Loc8::D),
        0x13 => rl(cpu, memory, Loc8::E),
        0x14 => rl(cpu, memory, Loc8::H),
        0x15 => rl(cpu, memory, Loc8::L),
        0x16 => rl(cpu, memory, Loc8::AddrHL),
        0x17 => rl(cpu, memory, Loc8::A),
        0x18 => rr(cpu, memory, Loc8::B),
        0x19 => rr(cpu, memory, Loc8::C),
        0x1A => rr(cpu, memory, Loc8::D),
        0x1B => rr(cpu, memory, Loc8::E),
        0x1C => rr(cpu, memory, Loc8::H),
        0x1D => rr(cpu, memory, Loc8::L),
        0x1E => rr(cpu, memory, Loc8::AddrHL),
        0x1F => rr(cpu, memory, Loc8::A),
        0x20 => sla(cpu, memory, Loc8::B),
        0x21 => sla(cpu, memory, Loc8::C),
        0x22 => sla(cpu, memory, Loc8::D),
        0x23 => sla(cpu, memory, Loc8::E),
        0x24 => sla(cpu, memory, Loc8::H),
        0x25 => sla(cpu, memory, Loc8::L),
        0x26 => sla(cpu, memory, Loc8::AddrHL),
        0x27 => sla(cpu, memory, Loc8::A),
        0x28 => sra(cpu, memory, Loc8::B),
        0x29 => sra(cpu, memory, Loc8::C),
        0x2A => sra(cpu, memory, Loc8::D),
        0x2B => sra(cpu, memory, Loc8::E),
        0x2C => sra(cpu, memory, Loc8::H),
        0x2D => sra(cpu, memory, Loc8::L),
        0x2E => sra(cpu, memory, Loc8::AddrHL),
        0x2F => sra(cpu, memory, Loc8::A),
        0x30 => swap(cpu, memory, Loc8::B),
        0x31 => swap(cpu, memory, Loc8::C),
        0x32 => swap(cpu, memory, Loc8::D),
        0x33 => swap(cpu, memory, Loc8::E),
        0x34 => swap(cpu, memory, Loc8::H),
        0x35 => swap(cpu, memory, Loc8::L),
        0x36 => swap(cpu, memory, Loc8::AddrHL),
        0x37 => swap(cpu, memory, Loc8::A),
        0x38 => srl(cpu, memory, Loc8::B),
        0x39 => srl(cpu, memory, Loc8::C),
        0x3A => srl(cpu, memory, Loc8::D),
        0x3B => srl(cpu, memory, Loc8::E),
        0x3C => srl(cpu, memory, Loc8::H),
        0x3D => srl(cpu, memory, Loc8::L),
        0x3E => srl(cpu, memory, Loc8::AddrHL),
        0x3F => srl(cpu, memory, Loc8::A),
        _ => Err(Fault::UnknownExtendedOpcode(op)),
    }
}

/// The bit-test block of the extended space.
#[verifier::rlimit(60)]
fn extended_bit<B: MemoryBus>(op: u8, cpu: &mut CPU, memory: &mut B) -> (r: Result<(), Fault>)
    requires
        0x40 <= op < 0x80,
    ensures
        spec_extended_effect(op, *old(cpu), *final(cpu), r),
        r matches Err(f) ==> spec_fault_is_bus(f),
{
    match op {
        0x40 => bit(cpu, memory, Loc8::B, 0),
        0x41 => bit(cpu, memory, Loc8::C, 0),
        0x42 => bit(cpu, memory, Loc8::D, 0),
        0x43 => bit(cpu, memory, Loc8::E, 0),
        0x44 => bit(cpu, memory, Loc8::H, 0),
        0x45 => bit(cpu, memory, Loc8::L, 0),
        0x46 => bit(cpu, memory, Loc8::AddrHL, 0),
        0x47 => bit(cpu, memory, Loc8::A, 0),
        0x48 => bit(cpu, memory, Loc8::B, 1),
        0x49 => bit(cpu, memory, Loc8::C, 1),
        0x4A => bit(cpu, memory, Loc8::D, 1),
        0x4B => bit(cpu, memory, Loc8::E, 1),
        0x4C => bit(cpu, memory, Loc8::H, 1),
        0x4D => bit(cpu, memory, Loc8::L, 1),
        0x4E => bit(cpu, memory, Loc8::AddrHL, 1),
        0x4F => bit(cpu, memory, Loc8::A, 1),
        0x50 => bit(cpu, memory, Loc8::B, 2),
        0x51 => bit(cpu, memory, Loc8::C, 2),
        0x52 => bit(cpu, memory, Loc8::D, 2),
        0x53 => bit(cpu, memory, Loc8::E, 2),
        0x54 => bit(cpu, memory, Loc8::H, 2),
        0x55 => bit(cpu, memory, Loc8::L, 2),
        0x56 => bit(cpu, memory, Loc8::AddrHL, 2),
        0x57 => bit(cpu, memory, Loc8::A, 2),
        0x58 => bit(cpu, memory, Loc8::B, 3),
        0x59 => bit(cpu, memory, Loc8::C, 3),
        0x5A => bit(cpu, memory, Loc8::D, 3),
        0x5B => bit(cpu, memory, Loc8::E, 3),
        0x5C => bit(cpu, memory, Loc8::H, 3),
        0x5D => bit(cpu, memory, Loc8::L, 3),
        0x5E => bit(cpu, memory, Loc8::AddrHL, 3),
        0x5F => bit(cpu, memory, Loc8::A, 3),
        0x60 => bit(cpu, memory, Loc8::B, 4),
        0x61 => bit(cpu, memory, Loc8::C, 4),
        0x62 => bit(cpu, memory, Loc8::D, 4),
        0x63 => bit(cpu, memory, Loc8::E, 4),
        0x64 => bit(cpu, memory, Loc8::H, 4),
        0x65 => bit(cpu, memory, Loc8::L, 4),
        0x66 => bit(cpu, memory, Loc8::AddrHL, 4),
        0x67 => bit(cpu, memory, Loc8::A, 4),
        0x68 => bit(cpu, memory, Loc8::B, 5),
        0x69 => bit(cpu, memory, Loc8::C, 5),
        0x6A => bit(cpu, memory, Loc8::D, 5),
        0x6B => bit(cpu, memory, Loc8::E, 5),
        0x6C => bit(cpu, memory, Loc8::H, 5),
        0x6D => bit(cpu, memory, Loc8::L, 5),
        0x6E => bit(cpu, memory, Loc8::AddrHL, 5),
        0x6F => bit(cpu, memory, Loc8::A, 5),
        0x70 => bit(cpu, memory, Loc8::B, 6),
        0x71 => bit(cpu, memory, Loc8::C, 6),
        0x72 => bit(cpu, memory, Loc8::D, 6),
        0x73 => bit(cpu, memory, Loc8::E, 6),
        0x74 => bit(cpu, memory, Loc8::H, 6),
        0x75 => bit(cpu, memory, Loc8::L, 6),
        0x76 => bit(cpu, memory, Loc8::AddrHL, 6),
        0x77 => bit(cpu, memory, Loc8::A, 6),
        0x78 => bit(cpu, memory, Loc8::B, 7),
        0x79 => bit(cpu, memory, Loc8::C, 7),
        0x7A => bit(cpu, memory, Loc8::D, 7),
        0x7B => bit(cpu, memory, Loc8::E, 7),
        0x7C => bit(cpu, memory, Loc8::H, 7),
        0x7D => bit(cpu, memory, Loc8::L, 7),
        0x7E => bit(cpu, memory, Loc8::AddrHL, 7),
        0x7F => bit(cpu, memory, Loc8::A, 7),
        _ => Err(Fault::UnknownExtendedOpcode(op)),
    }
}

/// The bit-clear block of the extended space.
#[verifier::rlimit(60)]
fn extended_res<B: MemoryBus>(op: u8, cpu: &mut CPU, memory: &mut B) -> (r: Result<(), Fault>)
    requires
        0x80 <= op < 0xC0,
    ensures
        spec_extended_effect(op, *old(cpu), *final(cpu), r),
        r matches Err(f) ==> spec_fault_is_bus(f),
{
    match op {
        0x80 => res(cpu, memory, Loc8::B, 0),
        0x81 => res(cpu, memory, Loc8::C, 0),
        0x82 => res(cpu, memory, Loc8::D, 0),
        0x83 => res(cpu, memory, Loc8::E, 0),
        0x84 => res(cpu, memory, Loc8::H, 0),
        0x85 => res(cpu, memory, Loc8::L, 0),
        0x86 => res(cpu, memory, Loc8::AddrHL, 0),
        0x87 => res(cpu, memory, Loc8::A, 0),
        0x88 => res(cpu, memory, Loc8::B, 1),
        0x89 => res(cpu, memory, Loc8::C, 1),
        0x8A => res(cpu, memory, Loc8::D, 1),
        0x8B => res(cpu, memory, Loc8::E, 1),
        0x8C => res(cpu, memory, Loc8::H, 1),
        0x8D => res(cpu, memory, Loc8::L, 1),
        0x8E => res(cpu, memory, Loc8::AddrHL, 1),
        0x8F => res(cpu, memory, Loc8::A, 1),
        0x90 => res(cpu, memory, Loc8::B, 2),
        0x91 => res(cpu, memory, Loc8::C, 2),
        0x92 => res(cpu, memory, Loc8::D, 2),
        0x93 => res(cpu, memory, Loc8::E, 2),
        0x94 => res(cpu, memory, Loc8::H, 2),
        0x95 => res(cpu, memory, Loc8::L, 2),
        0x96 => res(cpu, memory, Loc8::AddrHL, 2),
        0x97 => res(cpu, memory, Loc8::A, 2),
        0x98 => res(cpu, memory, Loc8::B, 3),
        0x99 => res(cpu, memory, Loc8::C, 3),
        0x9A => res(cpu, memory, Loc8::D, 3),
        0x9B => res(cpu, memory, Loc8::E, 3),
        0x9C => res(cpu, memory, Loc8::H, 3),
        0x9D => res(cpu, memory, Loc8::L, 3),
        0x9E => res(cpu, memory, Loc8::AddrHL, 3),
        0x9F => res(cpu, memory, Loc8::A, 3),
        0xA0 => res(cpu, memory, Loc8::B, 4),
        0xA1 => res(cpu, memory, Loc8::C, 4),
        0xA2 => res(cpu, memory, Loc8::D, 4),
        0xA3 => res(cpu, memory, Loc8::E, 4),
        0xA4 => res(cpu, memory, Loc8::H, 4),
        0xA5 => res(cpu, memory, Loc8::L, 4),
        0xA6 => res(cpu, memory, Loc8::AddrHL, 4),
        0xA7 => res(cpu, memory, Loc8::A, 4),
        0xA8 => res(cpu, memory, Loc8::B, 5),
        0xA9 => res(cpu, memory, Loc8::C, 5),
        0xAA => res(cpu, memory, Loc8::D, 5),
        0xAB => res(cpu, memory, Loc8::E, 5),
        0xAC => res(cpu, memory, Loc8::H, 5),
        0xAD => res(cpu, memory, Loc8::L, 5),
        0xAE => res(cpu, memory, Loc8::AddrHL, 5),
        0xAF => res(cpu, memory, Loc8::A, 5),
        0xB0 => res(cpu, memory, Loc8::B, 6),
        0xB1 => res(cpu, memory, Loc8::C, 6),
        0xB2 => res(cpu, memory, Loc8::D, 6),
        0xB3 => res(cpu, memory, Loc8::E, 6),
        0xB4 => res(cpu, memory, Loc8::H, 6),
        0xB5 => res(cpu, memory, Loc8::L, 6),
        0xB6 => res(cpu, memory, Loc8::AddrHL, 6),
        0xB7 => res(cpu, memory, Loc8::A, 6),
        0xB8 => res(cpu, memory, Loc8::B, 7),
        0xB9 => res(cpu, memory, Loc8::C, 7),
        0xBA => res(cpu, memory, Loc8::D, 7),
        0xBB => res(cpu, memory, Loc8::E, 7),
        0xBC => res(cpu, memory, Loc8::H, 7),
        0xBD => res(cpu, memory, Loc8::L, 7),
        0xBE => res(cpu, memory, Loc8::AddrHL, 7),
        0xBF => res(cpu, memory, Loc8::A, 7),
        _ => Err(Fault::UnknownExtendedOpcode(op)),
    }
}

/// The bit-set block of the extended space.
#[verifier::rlimit(60)]
fn extended_set<B: MemoryBus>(op: u8, cpu: &mut CPU, memory: &mut B) -> (r: Result<(), Fault>)
    requires
        0xC0 <= op,
    ensures
        spec_extended_effect(op, *old(cpu), *final(cpu), r),
        r matches Err(f) ==> spec_fault_is_bus(f),
{
    match op {
        0xC0 => set(cpu, memory, Loc8::B, 0),
        0xC1 => set(cpu, memory, Loc8::C, 0),
        0xC2 => set(cpu, memory, Loc8::D, 0),
        0xC3 => set(cpu, memory, Loc8::E, 0),
        0xC4 => set(cpu, memory, Loc8::H, 0),
        0xC5 => set(cpu, memory, Loc8::L, 0),
        0xC6 => set(cpu, memory, Loc8::AddrHL, 0),
        0xC7 => set(cpu, memory, Loc8::A, 0),
        0xC8 => set(cpu, memory, Loc8::B, 1),
        0xC9 => set(cpu, memory, Loc8::C, 1),
        0xCA => set(cpu, memory, Loc8::D, 1),
        0xCB => set(cpu, memory, Loc8::E, 1),
        0xCC => set(cpu, memory, Loc8::H, 1),
        0xCD => set(cpu, memory, Loc8::L, 1),
        0xCE => set(cpu, memory, Loc8::AddrHL, 1),
        0xCF => set(cpu, memory, Loc8::A, 1),
        0xD0 => set(cpu, memory, Loc8::B, 2),
        0xD1 => set(cpu, memory, Loc8::C, 2),
        0xD2 => set(cpu, memory, Loc8::D, 2),
        0xD3 => set(cpu, memory, Loc8::E, 2),
        0xD4 => set(cpu, memory, Loc8::H, 2),
        0xD5 => set(cpu, memory, Loc8::L, 2),
        0xD6 => set(cpu, memory, Loc8::AddrHL, 2),
        0xD7 => set(cpu, memory, Loc8::A, 2),
        0xD8 => set(cpu, memory, Loc8::B, 3),
        0xD9 => set(cpu, memory, Loc8::C, 3),
        0xDA => set(cpu, memory, Loc8::D, 3),
        0xDB => set(cpu, memory, Loc8::E, 3),
        0xDC => set(cpu, memory, Loc8::H, 3),
        0xDD => set(cpu, memory, Loc8::L, 3),
        0xDE => set(cpu, memory, Loc8::AddrHL, 3),
        0xDF => set(cpu, memory, Loc8::A, 3),
        0xE0 => set(cpu, memory, Loc8::B, 4),
        0xE1 => set(cpu, memory, Loc8::C, 4),
        0xE2 => set(cpu, memory, Loc8::D, 4),
        0xE3 => set(cpu, memory, Loc8::E, 4),
        0xE4 => set(cpu, memory, Loc8::H, 4),
        0xE5 => set(cpu, memory, Loc8::L, 4),
        0xE6 => set(cpu, memory, Loc8::AddrHL, 4),
        0xE7 => set(cpu, memory, Loc8::A, 4),
        0xE8 => set(cpu, memory, Loc8::B, 5),
        0xE9 => set(cpu, memory, Loc8::C, 5),
        0xEA => set(cpu, memory, Loc8::D, 5),
        0xEB => set(cpu, memory, Loc8::E, 5),
        0xEC => set(cpu, memory, Loc8::H, 5),
        0xED => set(cpu, memory, Loc8::L, 5),
        0xEE => set(cpu, memory, Loc8::AddrHL, 5),
        0xEF => set(cpu, memory, Loc8::A, 5),
        0xF0 => set(cpu, memory, Loc8::B, 6),
        0xF1 => set(cpu, memory, Loc8::C, 6),
        0xF2 => set(cpu, memory, Loc8::D, 6),
        0xF3 => set(cpu, memory, Loc8::E, 6),
        0xF4 => set(cpu, memory, Loc8::H, 6),
        0xF5 => set(cpu, memory, Loc8::L, 6),
        0xF6 => set(cpu, memory, Loc8::AddrHL, 6),
        0xF7 => set(cpu, memory, Loc8::A, 6),
        0xF8 => set(cpu, memory, Loc8::B, 7),
        0xF9 => set(cpu, memory, Loc8::C, 7),
        0xFA => set(cpu, memory, Loc8::D, 7),
        0xFB => set(cpu, memory, Loc8::E, 7),
        0xFC => set(cpu, memory, Loc8::H, 7),
        0xFD => set(cpu, memory, Loc8::L, 7),
        0xFE => set(cpu, memory, Loc8::AddrHL, 7),
        _ => set(cpu, memory, Loc8::A, 7),
    }
}

} // verus!

