use std::cell::Cell;
use std::rc::Rc;

use rustboy::cpu::CPU;
use rustboy::cpu::Fault;
use rustboy::cpu::MemoryBus;
use rustboy::display::NoDisplay;
use rustboy::display::VideoDisplay;
use rustboy::gameboy::Color;
use rustboy::gameboy::GameBoy;
use rustboy::clock::NoClock;
use rustboy::clock::WallClock;
use rustboy::mmu::MMU;

/// A bus backed by one flat 64 KiB byte array, with no peripherals.
struct FlatBus {
    mem: Vec<u8>,
}

impl FlatBus {
    fn with_program(program: &[u8]) -> FlatBus {
        let mut mem = vec![0u8; 0x10000];
        mem[..program.len()].copy_from_slice(program);
        FlatBus { mem }
    }
}

impl MemoryBus for FlatBus {
    fn ack_interrupt(&mut self) -> Option<u16> {
        None
    }

    fn get_byte(&mut self, address: u16) -> Result<u8, Fault> {
        Ok(self.mem[address as usize])
    }

    fn set_byte(&mut self, address: u16, byte: u8) -> Result<(), Fault> {
        self.mem[address as usize] = byte;
        Ok(())
    }
}

/// A display that counts its frame syncs and set pixels.
struct CountingDisplay {
    vsyncs: Rc<Cell<u32>>,
    pixels: Rc<Cell<u64>>,
}

impl VideoDisplay for CountingDisplay {
    fn set_pixel(&mut self, _x: u8, _y: u8, _color: Color) {
        self.pixels.set(self.pixels.get() + 1);
    }

    fn vsync(&mut self) {
        self.vsyncs.set(self.vsyncs.get() + 1);
    }
}

#[test]
fn add_sets_half_carry_and_result() {
    // LD A,0x0F; ADD A,0x01
    let mut bus = FlatBus::with_program(&[0x3E, 0x0F, 0xC6, 0x01]);
    let mut cpu = CPU::new();

    cpu.step(&mut bus).unwrap();
    cpu.step(&mut bus).unwrap();

    assert_eq!(cpu.registers.a, 0x10);
    assert_eq!(cpu.registers.f.half_carry, true);
    assert_eq!(cpu.registers.f.carry, false);
    assert_eq!(cpu.registers.f.zero, false);
    assert_eq!(cpu.registers.f.subtract, false);
}

#[test]
fn add_overflow_sets_carry_and_zero() {
    // LD A,0xFF; ADD A,0x01
    let mut bus = FlatBus::with_program(&[0x3E, 0xFF, 0xC6, 0x01]);
    let mut cpu = CPU::new();

    cpu.step(&mut bus).unwrap();
    cpu.step(&mut bus).unwrap();

    assert_eq!(cpu.registers.a, 0x00);
    assert_eq!(cpu.registers.f.zero, true);
    assert_eq!(cpu.registers.f.carry, true);
    assert_eq!(cpu.registers.f.half_carry, true);
}

#[test]
fn sub_sets_borrow_flags() {
    // LD A,0x10; SUB 0x20
    let mut bus = FlatBus::with_program(&[0x3E, 0x10, 0xD6, 0x20]);
    let mut cpu = CPU::new();

    cpu.step(&mut bus).unwrap();
    cpu.step(&mut bus).unwrap();

    assert_eq!(cpu.registers.a, 0xF0);
    assert_eq!(cpu.registers.f.subtract, true);
    assert_eq!(cpu.registers.f.carry, true);
    assert_eq!(cpu.registers.f.half_carry, false);
}

#[test]
fn daa_adjusts_bcd_addition() {
    // LD A,0x15; ADD A,0x27; DAA: BCD 15 + 27 = 42
    let mut bus = FlatBus::with_program(&[0x3E, 0x15, 0xC6, 0x27, 0x27]);
    let mut cpu = CPU::new();

    cpu.step(&mut bus).unwrap();
    cpu.step(&mut bus).unwrap();
    cpu.step(&mut bus).unwrap();

    assert_eq!(cpu.registers.a, 0x42);
    assert_eq!(cpu.registers.f.carry, false);
    assert_eq!(cpu.registers.f.half_carry, false);
}

#[test]
fn conditional_jump_consumes_operand_when_not_taken() {
    // XOR A (zero set); JR NZ,+5 -- not taken, so pc lands after the operand
    let mut bus = FlatBus::with_program(&[0xAF, 0x20, 0x05]);
    let mut cpu = CPU::new();

    cpu.step(&mut bus).unwrap();
    assert_eq!(cpu.registers.f.zero, true);
    cpu.step(&mut bus).unwrap();

    assert_eq!(cpu.registers.pc, 3);
}

#[test]
fn relative_jump_backwards() {
    // NOP; NOP; JR -2 jumps back to its own opcode address
    let mut bus = FlatBus::with_program(&[0x00, 0x00, 0x18, 0xFE]);
    let mut cpu = CPU::new();

    cpu.step(&mut bus).unwrap();
    cpu.step(&mut bus).unwrap();
    cpu.step(&mut bus).unwrap();

    assert_eq!(cpu.registers.pc, 2);
}

#[test]
fn call_and_ret_use_the_stack() {
    // LD SP,0xFFFE; CALL 0x0010; ... 0x0010: RET
    let mut program = vec![0x31, 0xFE, 0xFF, 0xCD, 0x10, 0x00];
    program.resize(0x10, 0x00);
    program.push(0xC9);
    let mut bus = FlatBus::with_program(&program);
    let mut cpu = CPU::new();

    cpu.step(&mut bus).unwrap();
    cpu.step(&mut bus).unwrap();
    assert_eq!(cpu.registers.pc, 0x10);
    assert_eq!(cpu.registers.sp, 0xFFFC);
    // The pushed return address is the byte after the call
    assert_eq!(bus.mem[0xFFFC], 0x06);
    assert_eq!(bus.mem[0xFFFD], 0x00);

    cpu.step(&mut bus).unwrap();
    assert_eq!(cpu.registers.pc, 0x06);
    assert_eq!(cpu.registers.sp, 0xFFFE);
}

#[test]
fn push_and_pop_round_trip() {
    // LD SP,0xFFFE; LD BC,0x1234; PUSH BC; POP DE
    let mut bus = FlatBus::with_program(&[0x31, 0xFE, 0xFF, 0x01, 0x34, 0x12, 0xC5, 0xD1]);
    let mut cpu = CPU::new();

    for _ in 0..4 {
        cpu.step(&mut bus).unwrap();
    }

    assert_eq!(cpu.registers.get_de(), 0x1234);
    assert_eq!(cpu.registers.sp, 0xFFFE);
}

#[test]
fn extended_space_swaps_nibbles() {
    // LD A,0xF0; (extended) SWAP A exchanges the accumulator's nibbles
    let mut bus = FlatBus::with_program(&[0x3E, 0xF0, 0xCB, 0x37]);
    let mut cpu = CPU::new();

    cpu.step(&mut bus).unwrap();
    cpu.step(&mut bus).unwrap();

    assert_eq!(cpu.registers.a, 0x0F);
    assert_eq!(cpu.registers.f.zero, false);
    assert_eq!(cpu.registers.f.carry, false);
}

#[test]
fn extended_bit_index_comes_from_the_row() {
    // LD B,0x02; BIT 1,B (CB 0x48): bit 1 is set, so zero clears
    let mut bus = FlatBus::with_program(&[0x06, 0x02, 0xCB, 0x48]);
    let mut cpu = CPU::new();
    cpu.step(&mut bus).unwrap();
    cpu.step(&mut bus).unwrap();
    assert_eq!(cpu.registers.f.zero, false);

    // LD H,0x80; BIT 7,H (CB 0x7C): bit 7 is set, so zero clears
    let mut bus = FlatBus::with_program(&[0x26, 0x80, 0xCB, 0x7C]);
    let mut cpu = CPU::new();
    cpu.step(&mut bus).unwrap();
    cpu.step(&mut bus).unwrap();
    assert_eq!(cpu.registers.f.zero, false);

    // LD H,0x7F; BIT 7,H: bit 7 is clear, so zero sets
    let mut bus = FlatBus::with_program(&[0x26, 0x7F, 0xCB, 0x7C]);
    let mut cpu = CPU::new();
    cpu.step(&mut bus).unwrap();
    cpu.step(&mut bus).unwrap();
    assert_eq!(cpu.registers.f.zero, true);
}

#[test]
fn extended_set_and_res_by_row() {
    // XOR A; SET 7,A (CB 0xFF); SET 0,A (CB 0xC7); RES 7,A (CB 0xBF)
    let mut bus = FlatBus::with_program(&[0xAF, 0xCB, 0xFF, 0xCB, 0xC7, 0xCB, 0xBF]);
    let mut cpu = CPU::new();

    cpu.step(&mut bus).unwrap();
    cpu.step(&mut bus).unwrap();
    assert_eq!(cpu.registers.a, 0x80);
    cpu.step(&mut bus).unwrap();
    assert_eq!(cpu.registers.a, 0x81);
    cpu.step(&mut bus).unwrap();
    assert_eq!(cpu.registers.a, 0x01);
}

#[test]
fn unknown_opcode_is_a_fault() {
    let mut bus = FlatBus::with_program(&[0xD3]);
    let mut cpu = CPU::new();

    let err = cpu.step(&mut bus).unwrap_err();
    assert_eq!(err.fault, Fault::UnknownOpcode(0xD3));
    assert_eq!(err.registers.pc, 1);
}

#[test]
fn interrupt_enable_has_one_step_latency() {
    struct OneInterruptBus {
        inner: FlatBus,
        pending: bool,
        acks: u32,
    }
    impl MemoryBus for OneInterruptBus {
        fn ack_interrupt(&mut self) -> Option<u16> {
            self.acks += 1;
            if self.pending {
                self.pending = false;
                Some(0x50)
            } else {
                None
            }
        }
        fn get_byte(&mut self, address: u16) -> Result<u8, Fault> {
            self.inner.get_byte(address)
        }
        fn set_byte(&mut self, address: u16, byte: u8) -> Result<(), Fault> {
            self.inner.set_byte(address, byte)
        }
    }

    // EI; NOP; NOP with an interrupt already pending
    let mut bus = OneInterruptBus {
        inner: FlatBus::with_program(&[0xFB, 0x00, 0x00]),
        pending: true,
        acks: 0,
    };
    let mut cpu = CPU::new();

    // EI executes; the enable is queued, the bus is not asked yet
    cpu.step(&mut bus).unwrap();
    assert_eq!(bus.acks, 0);
    assert_eq!(cpu.registers.pc, 1);

    // The queued enable commits after this step's own interrupt check, so
    // the pending interrupt is still not serviced here
    cpu.step(&mut bus).unwrap();
    assert_eq!(bus.acks, 0);
    assert_eq!(cpu.registers.pc, 2);

    // Now the interrupt is serviced, consuming the whole step: pc is pushed
    // and control jumps to 0x50
    cpu.step(&mut bus).unwrap();
    assert_eq!(bus.acks, 1);
    assert_eq!(cpu.registers.pc, 0x50);
    assert_eq!(cpu.registers.sp, 0xFFFE);

    // The next step fetches the handler's first instruction
    cpu.step(&mut bus).unwrap();
    assert_eq!(cpu.registers.pc, 0x51);
}

#[test]
fn unsupported_addresses_fault() {
    let rom = vec![0u8; 0x148];
    let mut mmu = MMU::new(rom, NoDisplay::new());

    let err = mmu.get_byte(0xE000).unwrap_err();
    assert_eq!(err, Fault::UnsupportedRead(0xE000));

    let err = mmu.set_byte(0xE000, 1).unwrap_err();
    assert_eq!(err, Fault::UnsupportedWrite(0xE000));

    let err = mmu.get_byte(0xFF03).unwrap_err();
    assert_eq!(err, Fault::UnsupportedRead(0xFF03));

    let err = mmu.set_byte(0xFF15, 1).unwrap_err();
    assert_eq!(err, Fault::UnsupportedWrite(0xFF15));
}

#[test]
fn work_ram_and_hiram_round_trip() {
    let rom = vec![0u8; 0x148];
    let mut mmu = MMU::new(rom, NoDisplay::new());

    mmu.set_byte(0xC123, 0xAB).unwrap();
    assert_eq!(mmu.get_byte(0xC123).unwrap(), 0xAB);

    mmu.set_byte(0xFF80, 0xCD).unwrap();
    assert_eq!(mmu.get_byte(0xFF80).unwrap(), 0xCD);

    // Unmapped register offsets read empty and absorb writes
    mmu.set_byte(0xFF7F, 0x77).unwrap();
    assert_eq!(mmu.get_byte(0xFF7F).unwrap(), 0xFF);
}

#[test]
fn peripherals_tick_once_per_byte_access() {
    let rom = vec![0u8; 0x148];
    let mut mmu = MMU::new(rom, NoDisplay::new());

    for _ in 0..0x100 {
        mmu.get_byte(0xC000).unwrap();
    }

    // The divider register advances by one per 64 byte accesses; reading it
    // is itself the 0x101st access
    assert_eq!(mmu.get_byte(0xFF04).unwrap(), 4);
    assert_eq!(mmu.get_and_reset_cycles(), 1);
}

#[test]
fn dma_transfer_copies_into_sprite_memory() {
    let rom = vec![0u8; 0x148];
    let mut mmu = MMU::new(rom, NoDisplay::new());

    // Place a byte in work RAM, then start a transfer from page 0xC1
    mmu.set_byte(0xC100, 42).unwrap();
    mmu.set_byte(0xFF46, 0xC1).unwrap();

    // The next access's tick moves the first byte into sprite memory
    mmu.get_byte(0xC000).unwrap();
    assert_eq!(mmu.gpu.sprites[0].y, 42);
}

fn looping_rom() -> Vec<u8> {
    // A minimal program: disable the boot overlay, zero the scroll
    // registers, enable video output with the background, and loop.
    let mut rom = vec![0u8; 0x8000];
    let program: [u8; 15] = [
        0x3E, 0x01, // LD A,0x01
        0xE0, 0x50, // LDH (0x50),A  disable the boot overlay
        0xAF, //       XOR A
        0xE0, 0x42, // LDH (0x42),A  scroll y = 0
        0xE0, 0x43, // LDH (0x43),A  scroll x = 0
        0x3E, 0x91, // LD A,0x91
        0xE0, 0x40, // LDH (0x40),A  video on, background on
        0x18, 0xFE, // JR -2         loop in place
    ];
    rom[0x100..0x100 + program.len()].copy_from_slice(&program);
    rom
}

#[test]
fn one_frame_syncs_exactly_once() {
    let vsyncs = Rc::new(Cell::new(0u32));
    let pixels = Rc::new(Cell::new(0u64));
    let display = CountingDisplay { vsyncs: vsyncs.clone(), pixels: pixels.clone() };
    let rom = looping_rom();
    let mut gameboy = GameBoy::new(&rom, NoClock, display);

    // One frame is 154 scanlines of 114 cycles; run far enough past one
    // frame to cover the boot region, but short of a second frame.
    let mut cycles: u64 = 0;
    while cycles < 20000 {
        cycles += gameboy.step().unwrap() as u64;
    }

    assert_eq!(vsyncs.get(), 1);
    // At least the 144 visible scanlines of 160 background pixels each were
    // rendered (the run may already be a few lines into the next frame)
    assert!(pixels.get() >= 144 * 160);
}

#[test]
fn untouched_cartridge_ram_reads_empty() {
    let rom = looping_rom();
    let mut mmu = MMU::new(rom, NoDisplay::new());

    // The RAM-enable sequence was never issued, so every RAM read is empty
    assert_eq!(mmu.get_byte(0xA000).unwrap(), 0xFF);
    assert_eq!(mmu.get_byte(0xBFFF).unwrap(), 0xFF);
}

#[test]
fn wall_clock_ledger_accounts_cycles() {
    let mut clock = WallClock::z80();

    assert!(!clock.needs_sync());
    for _ in 0..210 {
        clock.add_cycles(1);
    }
    assert!(clock.needs_sync());
    assert_eq!(clock.expected_duration_ns(), 210 * (1_000_000_000 / 1_048_000));

    clock.reset();
    assert_eq!(clock.expected_duration_ns(), (210 % (1_048_000 / 5_000)) * (1_000_000_000 / 1_048_000));
}
