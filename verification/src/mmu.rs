//! The address bus: routes every byte access to the boot overlay, cartridge,
//! video memory, work RAM, sprite memory, peripheral registers or high RAM,
//! and advances the DMA, video and timer peripherals by exactly one step per
//! byte access. Unmapped register-page offsets read 0xFF and ignore writes;
//! the offsets the hardware documents as unsupported fault.

use vstd::prelude::*;

use crate::bits;
use crate::cartridge::Cartridge;
use crate::cartridge::spec_backed_read;
use crate::cartridge::spec_mbc_read_ram;
use crate::cartridge::spec_mbc_read_rom_bank1;
use crate::cartridge::spec_mbc_write_ram;
use crate::cartridge::spec_mbc_write_registers;
use crate::cpu::Fault;
use crate::cpu::MemoryBus;
use crate::cpu::spec_fault_is_bus;
use crate::display::VideoDisplay;
use crate::dma::DMA;
use crate::dma::spec_dma_address;
use crate::gameboy::Button;
use crate::gpu::GPU;
use crate::gpu::Stat;
use crate::gpu::Tile;
use crate::gpu::spec_gpu_step;
use crate::gpu::spec_read_oam;
use crate::gpu::spec_sprite_flags_from_byte;
use crate::gpu::Sprite;
use crate::irq::IRQ;
use crate::irq::spec_ack_source;
use crate::irq::spec_bit_position;
use crate::irq::spec_interrupt_addr;
use crate::joypad::Joypad;
use crate::joypad::spec_joypad_data;
use crate::serial::Serial;
use crate::timer::Timer;
use crate::timer::spec_timer_fires;

verus! {

pub const BOOT_ROM_SIZE: usize = 0x100;

pub const INTERNAL_RAM_SIZE: usize = 0x2000;

pub const HIRAM_SIZE: usize = 0x7F;

/// What an unmapped register-page offset reads as.
pub const EMPTY_READ: u8 = 0xFF;

pub struct MMU<D: VideoDisplay> {
    pub elapsed_cycles: u8,
    pub is_checking_boot_rom: bool,
    pub boot_rom: [u8; BOOT_ROM_SIZE],
    pub internal_ram: [u8; INTERNAL_RAM_SIZE],
    pub hiram: [u8; HIRAM_SIZE],
    pub cartridge: Cartridge,
    pub gpu: GPU<D>,
    pub irq: IRQ,
    pub timer: Timer,
    pub joypad: Joypad,
    pub serial: Serial,
    pub dma: DMA,
}

/// The addresses the bus documents as unsupported: the echo region below the
/// sprite table, and the register-page offsets no peripheral owns or
/// tolerates. An access to one of them is an emulation-fatal fault.
pub open spec fn spec_mmu_unsupported(address: u16) -> bool {
    (0xE000 <= address && address < 0xFE00) || (0xFF00 <= address && {
        let low = (address & 0xFF) as u8;
        low == 0x03 || (0x08 <= low && low <= 0x0E) || low == 0x15
    })
}

/// What reading one register-page offset yields.
pub open spec fn spec_io_read<D: VideoDisplay>(m: &MMU<D>, low: u8) -> Result<u8, Fault> {
    if low == 0x00 {
        Ok(spec_joypad_data(m.joypad.data, m.joypad.held))
    } else if low == 0x01 {
        Ok(m.serial.data)
    } else if low == 0x02 {
        Ok(crate::serial::spec_control_to_byte(m.serial.control))
    } else if low == 0x04 {
        Ok((m.timer.counter >> 6) as u8)
    } else if low == 0x05 {
        Ok(m.timer.tima)
    } else if low == 0x06 {
        Ok(m.timer.tma)
    } else if low == 0x07 {
        Ok(crate::timer::spec_control_to_byte(m.timer.tac))
    } else if low == 0x0F {
        Ok(m.irq.interrupt_bits)
    } else if 0x10 <= low && low <= 0x14 || 0x16 <= low && low <= 0x2F || 0x30 <= low && low
        <= 0x3F {
        // Sound is not implemented; its registers read empty
        Ok(EMPTY_READ)
    } else if low == 0x40 {
        Ok(crate::gpu::spec_control_to_byte(m.gpu.control))
    } else if low == 0x41 {
        Ok(
            if m.gpu.control.lcd_on {
                crate::gpu::spec_stat_to_byte(m.gpu.stat)
            } else {
                crate::gpu::STAT_UNUSED
            },
        )
    } else if low == 0x42 {
        Ok(m.gpu.scroll_y)
    } else if low == 0x43 {
        Ok(m.gpu.scroll_x)
    } else if low == 0x44 {
        Ok(m.gpu.current_line)
    } else if low == 0x45 {
        Ok(m.gpu.compare_line)
    } else if low == 0x46 {
        Ok(m.dma.source)
    } else if low == 0x47 {
        Ok(crate::gpu::spec_palette_to_byte(m.gpu.bg_palette))
    } else if low == 0x48 {
        Ok(crate::gpu::spec_palette_to_byte(m.gpu.obj_palette_0))
    } else if low == 0x49 {
        Ok(crate::gpu::spec_palette_to_byte(m.gpu.obj_palette_1))
    } else if low == 0x4A {
        Ok(m.gpu.window_y)
    } else if low == 0x4B {
        Ok(m.gpu.window_x)
    } else if 0x4C <= low && low <= 0x7F {
        Ok(EMPTY_READ)
    } else if 0x80 <= low && low <= 0xFE {
        Ok(m.hiram@[low - 0x80])
    } else if low == 0xFF {
        Ok(m.irq.enabled_bits)
    } else {
        Err(Fault::UnsupportedRead(bits::spec_to_word(0xFF, low)))
    }
}

/// What reading one address of the bus yields, over the current state of
/// every component: the boot overlay while it is active, then cartridge ROM,
/// tile storage, the tile maps, cartridge RAM, work RAM, sprite memory, the
/// register page, and high RAM.
pub open spec fn spec_mmu_read<D: VideoDisplay>(m: &MMU<D>, address: u16) -> Result<u8, Fault> {
    if address < 0x100 && m.is_checking_boot_rom {
        Ok(m.boot_rom@[address as int])
    } else if address < 0x4000 {
        Ok(spec_backed_read(m.cartridge.rom@, address as int))
    } else if address < 0x8000 {
        Ok(spec_mbc_read_rom_bank1(m.cartridge.mbc, m.cartridge.rom@, address))
    } else if address < 0x9800 {
        Ok(
            m.gpu.tile_data@[(address - 0x8000) as int / 16].bytes@[(address - 0x8000) as int
                % 16],
        )
    } else if address < 0x9C00 {
        Ok(m.gpu.tile_map_0@[address - 0x9800])
    } else if address < 0xA000 {
        Ok(m.gpu.tile_map_1@[address - 0x9C00])
    } else if address < 0xC000 {
        Ok(spec_mbc_read_ram(m.cartridge.mbc, m.cartridge.ram@, address))
    } else if address < 0xE000 {
        Ok(m.internal_ram@[address - 0xC000])
    } else if address < 0xFE00 {
        Err(Fault::UnsupportedRead(address))
    } else if address < 0xFF00 {
        let low = (address & 0xFF) as u8;
        if low < 0xA0 {
            Ok(spec_read_oam(&m.gpu, low))
        } else {
            Ok(EMPTY_READ)
        }
    } else {
        spec_io_read(m, (address & 0xFF) as u8)
    }
}

/// For the sprite-memory and register pages, the low byte of the address is
/// its offset within the page.
proof fn lemma_page_offset(address: u16)
    by (bit_vector)
    ensures
        0xFE00 <= address < 0xFF00 ==> (address & 0xFF) as u8 == address - 0xFE00,
        0xFF00 <= address ==> (address & 0xFF) as u8 == address - 0xFF00,
        ((0xFFu8 as u16) << 8 | ((address & 0xFF) as u8 as u16)) == (if address >= 0xFF00 {
            address
        } else {
            (address & 0xFF) | 0xFF00
        }),
{
}

/// One peripheral step of the bus, as taken on every byte access: the cycle
/// counter advances, an active DMA transfer moves one byte into sprite
/// memory, and the video unit and timer each tick once, raising their
/// interrupts. With `ok` false the DMA source read faulted and the video and
/// timer ticks did not happen.
pub open spec fn spec_tick_effect<D: VideoDisplay>(pre: MMU<D>, post: MMU<D>, ok: bool) -> bool {
    &&& (post.elapsed_cycles == bits::spec_wrap_add8(pre.elapsed_cycles, 1))
    &&& (post.is_checking_boot_rom == pre.is_checking_boot_rom)
    &&& (post.boot_rom == pre.boot_rom)
    &&& (post.internal_ram == pre.internal_ram)
    &&& (post.hiram == pre.hiram)
    &&& (post.cartridge.mbc == pre.cartridge.mbc)
    &&& (post.cartridge.rom@ == pre.cartridge.rom@)
    &&& (post.cartridge.ram@ == pre.cartridge.ram@)
    &&& (post.joypad == pre.joypad)
    &&& (post.serial == pre.serial)
    &&& (post.irq.enabled_bits == pre.irq.enabled_bits)
    &&& (!pre.dma.running ==> post.dma == pre.dma)
    &&& (pre.dma.running ==> {
        &&& post.dma.source == pre.dma.source
        &&& post.dma.offset == bits::spec_wrap_add8(pre.dma.offset, 1)
        &&& post.dma.running == (bits::spec_wrap_add8(pre.dma.offset, 1)
            < crate::dma::DMA_CYCLES)
    })
    &&& (ok ==> {
        let (mode, rem, line, stat, p1) = spec_gpu_step(
            pre.gpu,
            pre.irq.interrupt_bits,
        );
        let counter2 = bits::spec_wrap_add16(pre.timer.counter, 1);
        let fires = spec_timer_fires(pre.timer.tac, counter2);
        &&& post.gpu.current_mode == mode
        &&& post.gpu.remaining_cycles == rem
        &&& post.gpu.current_line == line
        &&& post.gpu.stat == stat
        &&& crate::gpu::GPU::<D>::spec_same_config(&pre.gpu, &post.gpu)
            || pre.dma.running
        &&& post.timer.counter == counter2
        &&& post.timer.tma == pre.timer.tma
        &&& post.timer.tac == pre.timer.tac
        &&& post.timer.tima == (if !fires {
            pre.timer.tima
        } else if pre.timer.tima < 0xFF {
            (pre.timer.tima + 1) as u8
        } else {
            pre.timer.tma
        })
        &&& post.irq.interrupt_bits == (if !fires {
            p1
        } else if pre.timer.tima < 0xFF {
            p1
        } else {
            bits::spec_set(p1, 2)
        })
    })
    &&& (!ok ==> {
        &&& post.gpu == pre.gpu
        &&& post.timer == pre.timer
        &&& post.irq == pre.irq
    })
}

impl<D: VideoDisplay> MMU<D> {
    /// A bus over a program image: boot overlay active (and zeroed until an
    /// image is loaded), all memory cleared, every peripheral in its reset
    /// state.
    pub fn new(rom: Vec<u8>, display: D) -> (r: MMU<D>)
        requires
            rom@.len() > 0x147,
            rom@[0x147] <= 0x03,
        ensures
            r.elapsed_cycles == 0,
            r.is_checking_boot_rom,
            forall|i: int| 0 <= i < BOOT_ROM_SIZE ==> r.boot_rom@[i] == 0u8,
            forall|i: int| 0 <= i < INTERNAL_RAM_SIZE ==> r.internal_ram@[i] == 0u8,
            forall|i: int| 0 <= i < HIRAM_SIZE ==> r.hiram@[i] == 0u8,
            r.cartridge.mbc == crate::cartridge::spec_mbc_from_byte(rom@[0x147]),
            r.cartridge.rom@ == rom@,
            r.cartridge.ram@ =~= Seq::new(0x8000, |i: int| 0u8),
            r.gpu.current_line == 0 && r.gpu.current_mode == crate::gpu::Mode::OAM
                && r.gpu.remaining_cycles == crate::gpu::OAM_CYCLES,
            r.gpu.control == crate::gpu::spec_control_from_byte(0),
            r.irq.enabled_bits == 0 && r.irq.interrupt_bits == 0,
            r.timer.counter == 0 && r.timer.tima == 0 && r.timer.tma == 0 && !r.timer.tac.enabled,
            r.joypad.data == 0 && r.joypad.held == 0,
            !r.dma.running,
    {
        MMU {
            elapsed_cycles: 0,
            is_checking_boot_rom: true,
            boot_rom: [0; BOOT_ROM_SIZE],
            internal_ram: [0; INTERNAL_RAM_SIZE],
            hiram: [0; HIRAM_SIZE],
            cartridge: Cartridge::new(rom),
            gpu: GPU::new(display),
            irq: IRQ::new(),
            timer: Timer::new(),
            joypad: Joypad::new(),
            serial: Serial::new(),
            dma: DMA::new(),
        }
    }

    /// Replaces the boot overlay image with the first 256 bytes given.
    pub fn load_boot_rom(&mut self, image: &[u8])
        requires
            image@.len() >= BOOT_ROM_SIZE,
        ensures
            final(self).boot_rom@ =~= image@.subrange(0, BOOT_ROM_SIZE as int),
            *final(self) == (MMU { boot_rom: final(self).boot_rom, ..*old(self) }),
    {
        let mut i: usize = 0;
        while i < BOOT_ROM_SIZE
            invariant
                i <= BOOT_ROM_SIZE,
                image@.len() >= BOOT_ROM_SIZE,
                forall|j: int| 0 <= j < i ==> self.boot_rom@[j] == image@[j],
                *self == (MMU { boot_rom: self.boot_rom, ..*old(self) }),
            decreases BOOT_ROM_SIZE - i,
        {
            self.boot_rom[i] = image[i];
            i = i + 1;
        }
    }

    /// Forwards a press to the joypad: the button joins the held mask, a
    /// fresh press raises the joypad interrupt, and nothing else changes.
    pub fn button_down(&mut self, btn: Button)
        ensures
            final(self).joypad.data == old(self).joypad.data,
            final(self).joypad.held == bits::spec_set(
                old(self).joypad.held,
                crate::joypad::spec_button_position(btn),
            ),
            final(self).irq.enabled_bits == old(self).irq.enabled_bits,
            final(self).irq.interrupt_bits == (if crate::joypad::spec_is_held(
                old(self).joypad.held,
                btn,
            ) {
                old(self).irq.interrupt_bits
            } else {
                bits::spec_set(
                    old(self).irq.interrupt_bits,
                    crate::irq::spec_bit_position(crate::irq::Interrupt::Joypad),
                )
            }),
            *final(self) == (MMU { joypad: final(self).joypad, irq: final(self).irq, ..*old(self) }),
    {
        self.joypad.button_down(&mut self.irq, btn);
    }

    /// Forwards a release to the joypad.
    pub fn button_up(&mut self, btn: Button)
        ensures
            final(self).joypad.data == old(self).joypad.data,
            final(self).joypad.held == bits::spec_reset(
                old(self).joypad.held,
                crate::joypad::spec_button_position(btn),
            ),
            *final(self) == (MMU { joypad: final(self).joypad, ..*old(self) }),
    {
        self.joypad.button_up(btn);
    }

    /// Takes the cycles counted since the last call, resetting the counter.
    pub fn get_and_reset_cycles(&mut self) -> (r: u8)
        ensures
            r == old(self).elapsed_cycles,
            *final(self) == (MMU { elapsed_cycles: 0u8, ..*old(self) }),
    {
        let cycles = self.elapsed_cycles;
        self.elapsed_cycles = 0;
        cycles
    }

    fn tick_cycle(&mut self)
        ensures
            *final(self) == (MMU {
                elapsed_cycles: bits::spec_wrap_add8(old(self).elapsed_cycles, 1),
                ..*old(self)
            }),
    {
        self.elapsed_cycles = self.elapsed_cycles.wrapping_add(1);
    }

    /// Advances peripheral timing by one step: counts the cycle, moves one
    /// DMA byte into sprite memory when a transfer is active, then ticks the
    /// video unit and the timer, each of which may raise interrupts.
    fn emulate(&mut self) -> (r: Result<(), Fault>)
        ensures
            spec_tick_effect(*old(self), *final(self), r is Ok),
            r matches Err(f) ==> f is UnsupportedRead,
    {
        self.tick_cycle();
        self.emulate_oam_dma()?;
        let gpu = &mut self.gpu;
        gpu.emulate(&mut self.irq);
        let timer = &mut self.timer;
        timer.emulate(&mut self.irq);
        Ok(())
    }

    /// While a transfer is active, reads the next source byte and writes it
    /// into sprite-attribute memory.
    fn emulate_oam_dma(&mut self) -> (r: Result<(), Fault>)
        ensures
            final(self).elapsed_cycles == old(self).elapsed_cycles,
            final(self).is_checking_boot_rom == old(self).is_checking_boot_rom,
            final(self).boot_rom == old(self).boot_rom,
            final(self).internal_ram == old(self).internal_ram,
            final(self).hiram == old(self).hiram,
            final(self).cartridge.mbc == old(self).cartridge.mbc,
            final(self).cartridge.rom@ == old(self).cartridge.rom@,
            final(self).cartridge.ram@ == old(self).cartridge.ram@,
            final(self).joypad == old(self).joypad,
            final(self).serial == old(self).serial,
            final(self).irq == old(self).irq,
            final(self).timer == old(self).timer,
            !old(self).dma.running ==> *final(self) == *old(self),
            old(self).dma.running ==> {
                &&& final(self).dma.source == old(self).dma.source
                &&& final(self).dma.offset == bits::spec_wrap_add8(old(self).dma.offset, 1)
                &&& final(self).dma.running == (bits::spec_wrap_add8(old(self).dma.offset, 1)
                    < crate::dma::DMA_CYCLES)
            },
            final(self).gpu == (GPU { sprites: final(self).gpu.sprites, ..old(self).gpu }),
            r matches Err(f) ==> f is UnsupportedRead,
            r is Err ==> final(self).gpu == old(self).gpu,
    {
        let address = match self.dma.emulate() {
            Some(address) => address,
            None => {
                return Ok(());
            },
        };
        let value = self.get_byte_internal(address)?;
        let low = (address & 0xFF) as u8;
        if low < 0xA0 {
            self.gpu.write_oam(low, value);
        }
        Ok(())
    }

    /// Reads one byte of the address space, without advancing peripherals.
    fn get_byte_internal(&self, address: u16) -> (r: Result<u8, Fault>)
        ensures
            r == spec_mmu_read(self, address),
    {
        proof {
            lemma_page_offset(address);
        }
        if address < 0x100 && self.is_checking_boot_rom {
            Ok(self.boot_rom[address as usize])
        } else if address < 0x4000 {
            Ok(self.cartridge.read_rom_bank0(address))
        } else if address < 0x8000 {
            Ok(self.cartridge.read_rom_bank1(address))
        } else if address < 0x9800 {
            Ok(self.gpu.get_tile_row(address - 0x8000))
        } else if address < 0x9C00 {
            Ok(self.gpu.get_tile_map_0(address - 0x9800))
        } else if address < 0xA000 {
            Ok(self.gpu.get_tile_map_1(address - 0x9C00))
        } else if address < 0xC000 {
            Ok(self.cartridge.read_ram(address))
        } else if address < 0xE000 {
            Ok(self.internal_ram[(address - 0xC000) as usize])
        } else if address < 0xFE00 {
            Err(Fault::UnsupportedRead(address))
        } else if address < 0xFF00 {
            let low = (address & 0xFF) as u8;
            if low < 0xA0 {
                Ok(self.gpu.read_oam(low))
            } else {
                Ok(EMPTY_READ)
            }
        } else {
            self.get_io_byte((address & 0xFF) as u8)
        }
    }

    /// Reads one register-page offset.
    fn get_io_byte(&self, low: u8) -> (r: Result<u8, Fault>)
        ensures
            r == spec_io_read(self, low),
    {
        if low == 0x00 {
            Ok(self.joypad.get_data())
        } else if low == 0x01 {
            Ok(self.serial.get_data())
        } else if low == 0x02 {
            Ok(self.serial.get_control())
        } else if low == 0x04 {
            Ok(self.timer.get_div())
        } else if low == 0x05 {
            Ok(self.timer.get_tima())
        } else if low == 0x06 {
            Ok(self.timer.get_tma())
        } else if low == 0x07 {
            Ok(self.timer.get_tac())
        } else if low == 0x0F {
            Ok(self.irq.get_interrupt_bits())
        } else if 0x10 <= low && low <= 0x14 || 0x16 <= low && low <= 0x2F || 0x30 <= low && low
            <= 0x3F {
            // Sound is not implemented; its registers read empty
            Ok(EMPTY_READ)
        } else if low == 0x40 {
            Ok(self.gpu.get_control())
        } else if low == 0x41 {
            Ok(self.gpu.get_stat())
        } else if low == 0x42 {
            Ok(self.gpu.get_scroll_y())
        } else if low == 0x43 {
            Ok(self.gpu.get_scroll_x())
        } else if low == 0x44 {
            Ok(self.gpu.get_current_line())
        } else if low == 0x45 {
            Ok(self.gpu.get_compare_line())
        } else if low == 0x46 {
            Ok(self.dma.get_source())
        } else if low == 0x47 {
            Ok(self.gpu.get_bg_palette())
        } else if low == 0x48 {
            Ok(self.gpu.get_obj_palette_0())
        } else if low == 0x49 {
            Ok(self.gpu.get_obj_palette_1())
        } else if low == 0x4A {
            Ok(self.gpu.get_window_y())
        } else if low == 0x4B {
            Ok(self.gpu.get_window_x())
        } else if 0x4C <= low && low <= 0x7F {
            Ok(EMPTY_READ)
        } else if 0x80 <= low && low <= 0xFE {
            Ok(self.hiram[(low - 0x80) as usize])
        } else if low == 0xFF {
            Ok(self.irq.get_enabled_bits())
        } else {
            Err(Fault::UnsupportedRead(bits::to_word(0xFF, low)))
        }
    }

    /// Writes one byte of the address space, without advancing peripherals.
    /// ROM-range writes go to the bank registers; unsupported addresses fault
    /// and change nothing; unmapped register offsets ignore the write.
    fn set_byte_internal(&mut self, address: u16, byte: u8) -> (r: Result<(), Fault>)
        ensures
            spec_mmu_write_effect(*old(self), *final(self), address, byte, r),
    {
        proof {
            lemma_page_offset(address);
        }
        if address < 0x8000 {
            self.cartridge.write_registers(address, byte);
            Ok(())
        } else if address < 0x9800 {
            self.gpu.set_tile_row(address - 0x8000, byte);
            Ok(())
        } else if address < 0x9C00 {
            self.gpu.set_tile_map_0(address - 0x9800, byte);
            Ok(())
        } else if address < 0xA000 {
            self.gpu.set_tile_map_1(address - 0x9C00, byte);
            Ok(())
        } else if address < 0xC000 {
            self.cartridge.write_ram(address, byte);
            Ok(())
        } else if address < 0xE000 {
            self.internal_ram[(address - 0xC000) as usize] = byte;
            Ok(())
        } else if address < 0xFE00 {
            Err(Fault::UnsupportedWrite(address))
        } else if address < 0xFF00 {
            let low = (address & 0xFF) as u8;
            if low < 0xA0 {
                self.gpu.write_oam(low, byte);
            }
            Ok(())
        } else {
            let low = (address & 0xFF) as u8;
            match self.set_io_byte(low, byte) {
                Ok(()) => Ok(()),
                Err(_) => Err(Fault::UnsupportedWrite(address)),
            }
        }
    }

    /// Writes one register-page offset.
    fn set_io_byte(&mut self, low: u8, byte: u8) -> (r: Result<(), Fault>)
        ensures
            r is Err <==> (low == 0x03 || (0x08 <= low && low <= 0x0E) || low == 0x15),
            r is Err ==> *final(self) == *old(self),
            r is Ok ==> spec_io_written(old(self), final(self), low, byte),
    {
        if low == 0x00 {
            self.joypad.set_data(byte);
            Ok(())
        } else if low == 0x01 {
            self.serial.set_data(byte);
            Ok(())
        } else if low == 0x02 {
            self.serial.set_control(byte);
            Ok(())
        } else if low == 0x04 {
            self.timer.reset_div();
            Ok(())
        } else if low == 0x05 {
            self.timer.set_tima(byte);
            Ok(())
        } else if low == 0x06 {
            self.timer.set_tma(byte);
            Ok(())
        } else if low == 0x07 {
            self.timer.set_tac(byte);
            Ok(())
        } else if low == 0x0F {
            self.irq.set_interrupt_bits(byte);
            Ok(())
        } else if 0x10 <= low && low <= 0x14 || 0x16 <= low && low <= 0x2F || 0x30 <= low && low
            <= 0x3F {
            // Sound is not implemented; the write is absorbed
            Ok(())
        } else if low == 0x40 {
            self.gpu.set_control(byte);
            Ok(())
        } else if low == 0x41 {
            self.gpu.set_stat(byte);
            Ok(())
        } else if low == 0x42 {
            self.gpu.set_scroll_y(byte);
            Ok(())
        } else if low == 0x43 {
            self.gpu.set_scroll_x(byte);
            Ok(())
        } else if low == 0x44 {
            self.gpu.reset_current_line();
            Ok(())
        } else if low == 0x45 {
            self.gpu.set_compare_line(byte);
            Ok(())
        } else if low == 0x46 {
            self.dma.initialize(byte);
            Ok(())
        } else if low == 0x47 {
            self.gpu.set_bg_palette(byte);
            Ok(())
        } else if low == 0x48 {
            self.gpu.set_obj_palette_0(byte);
            Ok(())
        } else if low == 0x49 {
            self.gpu.set_obj_palette_1(byte);
            Ok(())
        } else if low == 0x4A {
            self.gpu.set_window_y(byte);
            Ok(())
        } else if low == 0x4B {
            self.gpu.set_window_x(byte);
            Ok(())
        } else if low == 0x50 {
            // A write here permanently disables the boot overlay
            self.is_checking_boot_rom = false;
            Ok(())
        } else if 0x4C <= low && low <= 0x7F {
            Ok(())
        } else if 0x80 <= low && low <= 0xFE {
            self.hiram[(low - 0x80) as usize] = byte;
            Ok(())
        } else if low == 0xFF {
            self.irq.set_enabled_bits(byte);
            Ok(())
        } else {
            Err(Fault::UnsupportedWrite(bits::to_word(0xFF, low)))
        }
    }
}

/// What one byte write does to the bus, without the peripheral tick: which
/// component takes the byte (ROM-range writes go to the bank registers, a
/// write to offset 0x50 of the register page permanently clears the boot
/// overlay), that unmapped offsets ignore it, and that unsupported addresses
/// fault and change nothing.
pub open spec fn spec_mmu_write_effect<D: VideoDisplay>(
    pre: MMU<D>,
    post: MMU<D>,
    address: u16,
    byte: u8,
    r: Result<(), Fault>,
) -> bool {
    &&& (r is Err <==> spec_mmu_unsupported(address))
    &&& (r is Err ==> r == Err::<(), Fault>(Fault::UnsupportedWrite(address)) && post == pre)
    &&& (address < 0x8000 ==> {
        &&& post.cartridge.mbc == spec_mbc_write_registers(
            pre.cartridge.mbc,
            address,
            byte,
        )
        &&& post.cartridge.rom@ == pre.cartridge.rom@
        &&& post.cartridge.ram@ == pre.cartridge.ram@
        &&& post == (MMU { cartridge: post.cartridge, ..pre })
    })
    &&& (0x8000 <= address < 0x9800 ==> {
        let index = (address - 0x8000) as int / 16;
        &&& post.gpu.tile_data@ == pre.gpu.tile_data@.update(
            index,
            Tile { bytes: post.gpu.tile_data@[index].bytes },
        )
        &&& post.gpu.tile_data@[index].bytes@ == pre.gpu.tile_data@[index].bytes@.update(
            (address - 0x8000) as int % 16,
            byte,
        )
        &&& post.gpu == (GPU { tile_data: post.gpu.tile_data, ..pre.gpu })
        &&& post == (MMU { gpu: post.gpu, ..pre })
    })
    &&& (0x9800 <= address < 0x9C00 ==> {
        &&& post.gpu.tile_map_0@ == pre.gpu.tile_map_0@.update(
            address - 0x9800,
            byte,
        )
        &&& post.gpu == (GPU {
            tile_map_0: post.gpu.tile_map_0,
            ..pre.gpu
        })
        &&& post == (MMU { gpu: post.gpu, ..pre })
    })
    &&& (0x9C00 <= address < 0xA000 ==> {
        &&& post.gpu.tile_map_1@ == pre.gpu.tile_map_1@.update(
            address - 0x9C00,
            byte,
        )
        &&& post.gpu == (GPU {
            tile_map_1: post.gpu.tile_map_1,
            ..pre.gpu
        })
        &&& post == (MMU { gpu: post.gpu, ..pre })
    })
    &&& (0xA000 <= address < 0xC000 ==> {
        &&& post.cartridge.ram@ == spec_mbc_write_ram(
            pre.cartridge.mbc,
            pre.cartridge.ram@,
            address,
            byte,
        )
        &&& post.cartridge.mbc == pre.cartridge.mbc
        &&& post.cartridge.rom@ == pre.cartridge.rom@
        &&& post == (MMU { cartridge: post.cartridge, ..pre })
    })
    &&& (0xC000 <= address < 0xE000 ==> {
        &&& post.internal_ram@ == pre.internal_ram@.update(
            address - 0xC000,
            byte,
        )
        &&& post == (MMU { internal_ram: post.internal_ram, ..pre })
    })
    &&& (0xFE00 <= address < 0xFF00 ==> {
        let low = (address & 0xFF) as u8;
        if low < 0xA0 {
            let sprite = pre.gpu.sprites@[low as int / 4];
            &&& post.gpu.sprites@ == pre.gpu.sprites@.update(
                low as int / 4,
                if low as int % 4 == 0 {
                    Sprite { y: byte, ..sprite }
                } else if low as int % 4 == 1 {
                    Sprite { x: byte, ..sprite }
                } else if low as int % 4 == 2 {
                    Sprite { tile_num: byte, ..sprite }
                } else {
                    Sprite { flags: spec_sprite_flags_from_byte(byte), ..sprite }
                },
            )
            &&& post.gpu == (GPU { sprites: post.gpu.sprites, ..pre.gpu })
            &&& post == (MMU { gpu: post.gpu, ..pre })
        } else {
            post == pre
        }
    })
    &&& (0xFF00 <= address && !spec_mmu_unsupported(address) ==> spec_io_written(
        &pre,
        &post,
        (address & 0xFF) as u8,
        byte,
    ))
}

/// How a write to one register-page offset changes the bus: which register
/// takes the byte, or that the write is ignored on an unmapped offset.
pub open spec fn spec_io_written<D: VideoDisplay>(
    m: &MMU<D>,
    m2: &MMU<D>,
    low: u8,
    byte: u8,
) -> bool {
    if low == 0x00 {
        *m2 == (MMU {
            joypad: Joypad { data: byte & 0b0011_0000, held: m.joypad.held },
            ..*m
        })
    } else if low == 0x01 {
        *m2 == (MMU { serial: Serial { data: byte, control: m.serial.control }, ..*m })
    } else if low == 0x02 {
        *m2 == (MMU {
            serial: Serial {
                data: m.serial.data,
                control: crate::serial::spec_control_from_byte(byte),
            },
            ..*m
        })
    } else if low == 0x04 {
        *m2 == (MMU { timer: Timer { counter: 0u16, ..m.timer }, ..*m })
    } else if low == 0x05 {
        *m2 == (MMU { timer: Timer { tima: byte, ..m.timer }, ..*m })
    } else if low == 0x06 {
        *m2 == (MMU { timer: Timer { tma: byte, ..m.timer }, ..*m })
    } else if low == 0x07 {
        *m2 == (MMU {
            timer: Timer { tac: crate::timer::spec_control_from_byte(byte), ..m.timer },
            ..*m
        })
    } else if low == 0x0F {
        *m2 == (MMU {
            irq: IRQ { interrupt_bits: byte, enabled_bits: m.irq.enabled_bits },
            ..*m
        })
    } else if 0x10 <= low && low <= 0x14 || 0x16 <= low && low <= 0x2F || 0x30 <= low && low
        <= 0x3F {
        *m2 == *m
    } else if low == 0x40 {
        *m2 == (MMU {
            gpu: GPU { control: crate::gpu::spec_control_from_byte(byte), ..m.gpu },
            ..*m
        })
    } else if low == 0x41 {
        *m2 == (MMU { gpu: GPU { stat: crate::gpu::spec_stat_from_byte(byte), ..m.gpu }, ..*m })
    } else if low == 0x42 {
        *m2 == (MMU { gpu: GPU { scroll_y: byte, ..m.gpu }, ..*m })
    } else if low == 0x43 {
        *m2 == (MMU { gpu: GPU { scroll_x: byte, ..m.gpu }, ..*m })
    } else if low == 0x44 {
        *m2 == (MMU { gpu: GPU { current_line: 0u8, ..m.gpu }, ..*m })
    } else if low == 0x45 {
        *m2 == (MMU { gpu: GPU { compare_line: byte, ..m.gpu }, ..*m })
    } else if low == 0x46 {
        if m.dma.running {
            *m2 == *m
        } else {
            *m2 == (MMU { dma: DMA { source: byte, offset: 0u8, running: true }, ..*m })
        }
    } else if low == 0x47 {
        *m2 == (MMU {
            gpu: GPU { bg_palette: crate::gpu::spec_palette_from_byte(byte), ..m.gpu },
            ..*m
        })
    } else if low == 0x48 {
        *m2 == (MMU {
            gpu: GPU { obj_palette_0: crate::gpu::spec_palette_from_byte(byte), ..m.gpu },
            ..*m
        })
    } else if low == 0x49 {
        *m2 == (MMU {
            gpu: GPU { obj_palette_1: crate::gpu::spec_palette_from_byte(byte), ..m.gpu },
            ..*m
        })
    } else if low == 0x4A {
        *m2 == (MMU { gpu: GPU { window_y: byte, ..m.gpu }, ..*m })
    } else if low == 0x4B {
        *m2 == (MMU { gpu: GPU { window_x: byte, ..m.gpu }, ..*m })
    } else if low == 0x50 {
        *m2 == (MMU { is_checking_boot_rom: false, ..*m })
    } else if 0x4C <= low && low <= 0x7F {
        *m2 == *m
    } else if 0x80 <= low && low <= 0xFE {
        &&& m2.hiram@ == m.hiram@.update(low - 0x80, byte)
        &&& *m2 == (MMU { hiram: m2.hiram, ..*m })
    } else if low == 0xFF {
        *m2 == (MMU {
            irq: IRQ { enabled_bits: byte, interrupt_bits: m.irq.interrupt_bits },
            ..*m
        })
    } else {
        *m2 == *m
    }
}

/// One full byte write of the bus: exactly one peripheral tick, then the
/// dispatch of the byte; or the tick's DMA source read faulted and the
/// dispatch never happened.
pub open spec fn spec_write_cycle<D: VideoDisplay>(
    pre: MMU<D>,
    post: MMU<D>,
    address: u16,
    byte: u8,
    r: Result<(), Fault>,
) -> bool {
    ||| exists|mid: MMU<D>|
        #[trigger] spec_tick_effect(pre, mid, true) && spec_mmu_write_effect(
            mid,
            post,
            address,
            byte,
            r,
        )
    ||| {
        &&& spec_tick_effect(pre, post, false)
        &&& r matches Err(f) && f is UnsupportedRead
    }
}

/// A full byte write of the bus that succeeded.
pub open spec fn spec_write_cycle_ok<D: VideoDisplay>(
    pre: MMU<D>,
    post: MMU<D>,
    address: u16,
    byte: u8,
) -> bool {
    exists|r: Result<(), Fault>|
        r is Ok && #[trigger] spec_write_cycle(pre, post, address, byte, r)
}

impl<D: VideoDisplay> MemoryBus for MMU<D> {
    /// Forwards to the interrupt controller: resolves the highest-priority
    /// pending and enabled source to its service address, clearing exactly
    /// its pending bit; nothing else on the bus changes.
    fn ack_interrupt(&mut self) -> (r: Option<u16>)
        ensures
            ({
                let enabled = old(self).irq.enabled_bits;
                let pending = old(self).irq.interrupt_bits;
                match spec_ack_source(enabled, pending) {
                    Some(interrupt) => {
                        &&& r == Some(spec_interrupt_addr(interrupt))
                        &&& final(self).irq.interrupt_bits == bits::spec_reset(
                            pending,
                            spec_bit_position(interrupt),
                        )
                    },
                    None => r is None && final(self).irq.interrupt_bits == old(
                        self,
                    ).irq.interrupt_bits,
                }
            }),
            final(self).irq.enabled_bits == old(self).irq.enabled_bits,
            *final(self) == (MMU { irq: final(self).irq, ..*old(self) }),
    {
        self.irq.ack_interrupt()
    }

    /// Reads one byte: peripheral timing advances by exactly one step, then
    /// the byte is what the post-tick state holds at the address; or the
    /// tick's DMA source read faulted and no dispatch happened.
    fn get_byte(&mut self, address: u16) -> (r: Result<u8, Fault>)
        ensures
            ({
                ||| {
                    &&& spec_tick_effect(*old(self), *final(self), true)
                    &&& ({
                        let post = *final(self);
                        r == spec_mmu_read(&post, address)
                    })
                }
                ||| {
                    &&& spec_tick_effect(*old(self), *final(self), false)
                    &&& r matches Err(f) && f is UnsupportedRead
                }
            }),
    {
        self.emulate()?;
        self.get_byte_internal(address)
    }

    /// Writes one byte: peripheral timing advances by exactly one step, then
    /// the byte is dispatched to its component.
    fn set_byte(&mut self, address: u16, byte: u8) -> (r: Result<(), Fault>)
        ensures
            spec_write_cycle(*old(self), *final(self), address, byte, r),
    {
        match self.emulate() {
            Ok(()) => {},
            Err(fault) => {
                return Err(fault);
            },
        }
        let ghost mid = *self;
        let result = self.set_byte_internal(address, byte);
        proof {
            assert(spec_tick_effect(*old(self), mid, true) && spec_mmu_write_effect(
                mid,
                *self,
                address,
                byte,
                result,
            ));
        }
        result
    }

    /// Reads a word as two byte reads, low byte at the lower address: two
    /// peripheral ticks, one per byte.
    fn get_word(&mut self, address: u16) -> (r: Result<u16, Fault>)
        ensures
            r matches Ok(word) ==> exists|mid: MMU<D>|
                {
                    &&& #[trigger] spec_tick_effect(*old(self), mid, true)
                    &&& spec_mmu_read(&mid, address) == Ok::<u8, Fault>(bits::spec_lsb_16(word))
                    &&& spec_tick_effect(mid, *final(self), true)
                    &&& ({
                        let post = *final(self);
                        spec_mmu_read(&post, bits::spec_wrap_add16(address, 1)) == Ok::<
                            u8,
                            Fault,
                        >(bits::spec_msb_16(word))
                    })
                },
            r matches Err(f) ==> spec_fault_is_bus(f),
    {
        self.emulate()?;
        let lsb = self.get_byte_internal(address)?;
        let ghost mid = *self;
        self.emulate()?;
        let msb = self.get_byte_internal(address.wrapping_add(1))?;
        proof {
            bits::lemma_word_decompose(msb, lsb);
            assert(spec_tick_effect(*old(self), mid, true));
        }
        Ok(bits::to_word(msb, lsb))
    }

    /// Writes a word as two byte writes, low byte at the lower address: two
    /// peripheral ticks, one per byte.
    fn set_word(&mut self, address: u16, word: u16) -> (r: Result<(), Fault>)
        ensures
            r is Ok ==> exists|mid: MMU<D>|
                {
                    &&& #[trigger] spec_write_cycle_ok(
                        *old(self),
                        mid,
                        address,
                        bits::spec_lsb_16(word),
                    )
                    &&& spec_write_cycle_ok(
                        mid,
                        *final(self),
                        bits::spec_wrap_add16(address, 1),
                        bits::spec_msb_16(word),
                    )
                },
            r matches Err(f) ==> spec_fault_is_bus(f),
    {
        match self.emulate() {
            Ok(()) => {},
            Err(fault) => {
                return Err(fault);
            },
        }
        let ghost tick1 = *self;
        let low_result = self.set_byte_internal(address, bits::lsb_16(word));
        let ghost mid = *self;
        proof {
            assert(spec_tick_effect(*old(self), tick1, true) && spec_mmu_write_effect(
                tick1,
                mid,
                address,
                bits::spec_lsb_16(word),
                low_result,
            ));
        }
        proof {
            assert(spec_write_cycle(*old(self), mid, address, bits::spec_lsb_16(word), low_result));
            if low_result is Ok {
                assert(spec_write_cycle_ok(*old(self), mid, address, bits::spec_lsb_16(word)));
            }
        }
        match low_result {
            Ok(()) => {},
            Err(fault) => {
                return Err(fault);
            },
        }
        match self.emulate() {
            Ok(()) => {},
            Err(fault) => {
                return Err(fault);
            },
        }
        let ghost tick2 = *self;
        let high_result = self.set_byte_internal(address.wrapping_add(1), bits::msb_16(word));
        proof {
            assert(spec_tick_effect(mid, tick2, true) && spec_mmu_write_effect(
                tick2,
                *self,
                bits::spec_wrap_add16(address, 1),
                bits::spec_msb_16(word),
                high_result,
            ));
            assert(spec_write_cycle(
                mid,
                *self,
                bits::spec_wrap_add16(address, 1),
                bits::spec_msb_16(word),
                high_result,
            ));
            if high_result is Ok {
                assert(spec_write_cycle_ok(
                    mid,
                    *self,
                    bits::spec_wrap_add16(address, 1),
                    bits::spec_msb_16(word),
                ));
            }
        }
        high_result
    }
}

} // verus!
