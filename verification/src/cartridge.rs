//! The cartridge: a fixed ROM image, an enable-gated banked RAM region, and a
//! pluggable memory-bank controller that maps the switchable ROM window and
//! the RAM window onto them. Reads outside the backing storage yield 0xFF.

use vstd::prelude::*;

verus! {

/// The contract a memory-bank controller variant fills: reading the
/// switchable ROM window, reading and writing banked RAM, and absorbing
/// writes to the bank-select register ranges.
pub trait MBC {
    fn read_rom_bank1(&self, rom: &[u8], address: u16) -> u8
        requires
            0x4000 <= address,
    ;

    fn read_ram(&self, ram: &[u8], address: u16) -> u8
        requires
            0xA000 <= address,
    ;

    fn write_registers(&mut self, address: u16, byte: u8)
        requires
            address < 0x8000,
    ;

    fn write_ram(&mut self, ram: &mut Vec<u8>, address: u16, byte: u8)
        requires
            0xA000 <= address,
    ;
}

/// The byte of a backing store at `index`, or 0xFF outside it.
pub open spec fn spec_backed_read(bytes: Seq<u8>, index: int) -> u8 {
    if 0 <= index < bytes.len() {
        bytes[index]
    } else {
        0xFF
    }
}

pub struct NoMBC {}

impl NoMBC {
    pub fn new() -> (r: NoMBC) {
        NoMBC {  }
    }

    /// The switchable window of an unbanked cartridge reads the image at the
    /// raw address.
    pub fn read_rom_bank1(&self, rom: &[u8], address: u16) -> (r: u8)
        ensures
            r == spec_backed_read(rom@, address as int),
    {
        if (address as usize) < rom.len() {
            rom[address as usize]
        } else {
            0xFF
        }
    }
}

impl MBC for NoMBC {
    fn read_rom_bank1(&self, rom: &[u8], address: u16) -> u8 {
        NoMBC::read_rom_bank1(self, rom, address)
    }

    fn read_ram(&self, _ram: &[u8], _address: u16) -> u8 {
        0xFF
    }

    fn write_registers(&mut self, _address: u16, _byte: u8) {
    }

    fn write_ram(&mut self, _ram: &mut Vec<u8>, _address: u16, _byte: u8) {
    }
}

#[derive(Clone, Copy, Debug, PartialEq, Eq, Structural)]
pub enum BankingMode {
    ROM,
    RAM,
}

pub struct MBC1 {
    pub rom_bank_lower_bits: u8,
    pub rom_bank_upper_bits: u8,
    pub ram_bank: u8,
    pub ram_enabled: bool,
    pub banking_mode: BankingMode,
}

/// The ROM bank the controller currently selects: two upper bits above five
/// lower bits.
pub open spec fn spec_mbc1_rom_bank(m: MBC1) -> usize {
    ((m.rom_bank_upper_bits & 0b11) << 5 | (m.rom_bank_lower_bits & 0x1F)) as usize
}

/// The RAM bank the controller currently selects.
pub open spec fn spec_mbc1_ram_bank(m: MBC1) -> usize {
    (m.ram_bank & 0b11) as usize
}

/// Where a read of the switchable ROM window lands in the image.
pub open spec fn spec_mbc1_rom_index(m: MBC1, address: u16) -> int {
    (address - 0x4000) + 0x4000 * spec_mbc1_rom_bank(m)
}

/// Where an access of the RAM window lands in the banked RAM.
pub open spec fn spec_mbc1_ram_index(m: MBC1, address: u16) -> int {
    (address - 0xA000) + 0x2000 * spec_mbc1_ram_bank(m)
}

/// The controller state after a write to the bank-select register ranges.
pub open spec fn spec_mbc1_write_registers(m: MBC1, address: u16, byte: u8) -> MBC1 {
    if address < 0x2000 {
        MBC1 { ram_enabled: byte & 0x0F == 0x0A, ..m }
    } else if address < 0x4000 {
        MBC1 {
            rom_bank_lower_bits: match byte {
                0x00 => 0x01u8,
                0x20 => 0x21u8,
                0x40 => 0x41u8,
                0x60 => 0x61u8,
                _ => byte,
            },
            ..m
        }
    } else if address < 0x6000 {
        match m.banking_mode {
            BankingMode::ROM => MBC1 { rom_bank_upper_bits: byte, ..m },
            BankingMode::RAM => MBC1 { ram_bank: byte, ..m },
        }
    } else {
        MBC1 {
            banking_mode: if byte & 0x01 == 0x01 {
                BankingMode::RAM
            } else {
                BankingMode::ROM
            },
            ..m
        }
    }
}

/// The two selected bank numbers stay within their mask ranges.
proof fn lemma_mbc1_bank_bounds(upper: u8, lower: u8, ram: u8)
    by (bit_vector)
    ensures
        ((upper & 0b11) << 5 | (lower & 0x1F)) <= 0x7F,
        (ram & 0b11) <= 3,
{
}

impl MBC1 {
    /// A fresh controller: ROM bank 1, RAM bank 0, RAM disabled, ROM mode.
    pub fn new() -> (r: MBC1)
        ensures
            r == (MBC1 {
                rom_bank_lower_bits: 1u8,
                rom_bank_upper_bits: 0u8,
                ram_bank: 0u8,
                ram_enabled: false,
                banking_mode: BankingMode::ROM,
            }),
    {
        MBC1 {
            rom_bank_lower_bits: 1,
            rom_bank_upper_bits: 0,
            ram_bank: 0,
            ram_enabled: false,
            banking_mode: BankingMode::ROM,
        }
    }

    /// The selected ROM bank number; at most 0x7F.
    pub fn get_rom_bank(&self) -> (r: usize)
        ensures
            r == spec_mbc1_rom_bank(*self),
            r <= 0x7F,
    {
        proof {
            lemma_mbc1_bank_bounds(self.rom_bank_upper_bits, self.rom_bank_lower_bits,
                self.ram_bank);
        }
        let upper_bits = self.rom_bank_upper_bits & 0b11;
        let lower_bits = self.rom_bank_lower_bits & 0x1F;
        ((upper_bits << 5) | lower_bits) as usize
    }

    /// The selected RAM bank number; at most 3.
    pub fn get_ram_bank(&self) -> (r: usize)
        ensures
            r == spec_mbc1_ram_bank(*self),
            r <= 3,
    {
        proof {
            lemma_mbc1_bank_bounds(self.rom_bank_upper_bits, self.rom_bank_lower_bits,
                self.ram_bank);
        }
        (self.ram_bank & 0b11) as usize
    }

    /// Reads the switchable ROM window through the selected bank.
    pub fn read_rom_bank1(&self, rom: &[u8], address: u16) -> (r: u8)
        requires
            0x4000 <= address,
        ensures
            r == spec_backed_read(rom@, spec_mbc1_rom_index(*self, address)),
    {
        let relative_address = (address - 0x4000) as usize;
        let offset = 0x4000 * self.get_rom_bank();
        let index = relative_address + offset;
        if index < rom.len() {
            rom[index]
        } else {
            0xFF
        }
    }

    /// Reads the RAM window through the selected bank; 0xFF while RAM is
    /// disabled.
    pub fn read_ram(&self, ram: &[u8], address: u16) -> (r: u8)
        requires
            0xA000 <= address,
        ensures
            r == (if self.ram_enabled {
                spec_backed_read(ram@, spec_mbc1_ram_index(*self, address))
            } else {
                0xFFu8
            }),
    {
        if self.ram_enabled {
            let relative_address = (address - 0xA000) as usize;
            let offset = 0x2000 * self.get_ram_bank();
            let index = relative_address + offset;
            if index < ram.len() {
                ram[index]
            } else {
                0xFF
            }
        } else {
            0xFF
        }
    }

    /// Absorbs a write to the bank-select register ranges.
    pub fn write_registers(&mut self, address: u16, byte: u8)
        requires
            address < 0x8000,
        ensures
            *final(self) == spec_mbc1_write_registers(*old(self), address, byte),
    {
        if address < 0x2000 {
            self.ram_enabled = byte & 0x0F == 0x0A;
        } else if address < 0x4000 {
            self.rom_bank_lower_bits = match byte {
                0x00 => 0x01,
                0x20 => 0x21,
                0x40 => 0x41,
                0x60 => 0x61,
                _ => byte,
            };
        } else if address < 0x6000 {
            match self.banking_mode {
                BankingMode::ROM => self.rom_bank_upper_bits = byte,
                BankingMode::RAM => self.ram_bank = byte,
            }
        } else {
            if byte & 0x01 == 0x01 {
                self.banking_mode = BankingMode::RAM;
            } else {
                self.banking_mode = BankingMode::ROM;
            }
        }
    }

    /// Writes the RAM window through the selected bank; ignored while RAM is
    /// disabled or outside the backing storage.
    pub fn write_ram(&mut self, ram: &mut Vec<u8>, address: u16, byte: u8)
        requires
            0xA000 <= address,
        ensures
            *final(self) == *old(self),
            final(ram)@ == (if old(self).ram_enabled && 0 <= spec_mbc1_ram_index(*old(self), address)
                < old(ram)@.len() {
                old(ram)@.update(spec_mbc1_ram_index(*old(self), address), byte)
            } else {
                old(ram)@
            }),
    {
        if self.ram_enabled {
            let relative_address = (address - 0xA000) as usize;
            let offset = 0x2000 * self.get_ram_bank();
            let index = relative_address + offset;
            if index < ram.len() {
                ram.set(index, byte);
            }
        }
    }
}

impl MBC for MBC1 {
    fn read_rom_bank1(&self, rom: &[u8], address: u16) -> u8 {
        MBC1::read_rom_bank1(self, rom, address)
    }

    fn read_ram(&self, ram: &[u8], address: u16) -> u8 {
        MBC1::read_ram(self, ram, address)
    }

    fn write_registers(&mut self, address: u16, byte: u8) {
        MBC1::write_registers(self, address, byte)
    }

    fn write_ram(&mut self, ram: &mut Vec<u8>, address: u16, byte: u8) {
        MBC1::write_ram(self, ram, address, byte)
    }
}

/// The bank-controller variants the core knows how to drive.
pub enum Mbc {
    NoMbc(NoMBC),
    Mbc1(MBC1),
}

/// The controller variant a cartridge header byte selects.
pub open spec fn spec_mbc_from_byte(byte: u8) -> Mbc {
    if byte == 0x00 {
        Mbc::NoMbc(NoMBC {  })
    } else {
        Mbc::Mbc1(
            MBC1 {
                rom_bank_lower_bits: 1u8,
                rom_bank_upper_bits: 0u8,
                ram_bank: 0u8,
                ram_enabled: false,
                banking_mode: BankingMode::ROM,
            },
        )
    }
}

/// Selects the controller variant named by the cartridge header byte.
pub fn mbc_from_byte(byte: u8) -> (r: Mbc)
    requires
        byte <= 0x03,
    ensures
        r == spec_mbc_from_byte(byte),
{
    if byte == 0x00 {
        Mbc::NoMbc(NoMBC::new())
    } else {
        Mbc::Mbc1(MBC1::new())
    }
}

/// What reading the switchable ROM window yields for a given controller state.
pub open spec fn spec_mbc_read_rom_bank1(mbc: Mbc, rom: Seq<u8>, address: u16) -> u8 {
    match mbc {
        Mbc::NoMbc(_) => spec_backed_read(rom, address as int),
        Mbc::Mbc1(m) => spec_backed_read(rom, spec_mbc1_rom_index(m, address)),
    }
}

/// What reading the RAM window yields for a given controller state.
pub open spec fn spec_mbc_read_ram(mbc: Mbc, ram: Seq<u8>, address: u16) -> u8 {
    match mbc {
        Mbc::NoMbc(_) => 0xFFu8,
        Mbc::Mbc1(m) => if m.ram_enabled {
            spec_backed_read(ram, spec_mbc1_ram_index(m, address))
        } else {
            0xFFu8
        },
    }
}

/// The controller state after a register write.
pub open spec fn spec_mbc_write_registers(mbc: Mbc, address: u16, byte: u8) -> Mbc {
    match mbc {
        Mbc::NoMbc(m) => Mbc::NoMbc(m),
        Mbc::Mbc1(m) => Mbc::Mbc1(spec_mbc1_write_registers(m, address, byte)),
    }
}

/// The RAM contents after a write through the controller.
pub open spec fn spec_mbc_write_ram(mbc: Mbc, ram: Seq<u8>, address: u16, byte: u8) -> Seq<u8> {
    match mbc {
        Mbc::NoMbc(_) => ram,
        Mbc::Mbc1(m) => if m.ram_enabled && 0 <= spec_mbc1_ram_index(m, address) < ram.len() {
            ram.update(spec_mbc1_ram_index(m, address), byte)
        } else {
            ram
        },
    }
}

impl Mbc {
    /// Reads the switchable ROM window through the active variant.
    pub fn read_rom_bank1(&self, rom: &[u8], address: u16) -> (r: u8)
        requires
            0x4000 <= address,
        ensures
            r == spec_mbc_read_rom_bank1(*self, rom@, address),
    {
        match self {
            Mbc::NoMbc(m) => m.read_rom_bank1(rom, address),
            Mbc::Mbc1(m) => m.read_rom_bank1(rom, address),
        }
    }

    /// Reads the RAM window through the active variant.
    pub fn read_ram(&self, ram: &[u8], address: u16) -> (r: u8)
        requires
            0xA000 <= address,
        ensures
            r == spec_mbc_read_ram(*self, ram@, address),
    {
        match self {
            Mbc::NoMbc(_) => 0xFF,
            Mbc::Mbc1(m) => m.read_ram(ram, address),
        }
    }

    /// Forwards a bank-register write to the active variant.
    pub fn write_registers(&mut self, address: u16, byte: u8)
        requires
            address < 0x8000,
        ensures
            *final(self) == spec_mbc_write_registers(*old(self), address, byte),
    {
        match self {
            Mbc::NoMbc(_) => {},
            Mbc::Mbc1(m) => m.write_registers(address, byte),
        }
    }

    /// Writes the RAM window through the active variant.
    pub fn write_ram(&mut self, ram: &mut Vec<u8>, address: u16, byte: u8)
        requires
            0xA000 <= address,
        ensures
            *final(self) == *old(self),
            final(ram)@ == spec_mbc_write_ram(*old(self), old(ram)@, address, byte),
    {
        match self {
            Mbc::NoMbc(_) => {},
            Mbc::Mbc1(m) => m.write_ram(ram, address, byte),
        }
    }
}

pub struct Cartridge {
    pub mbc: Mbc,
    pub rom: Vec<u8>,
    pub ram: Vec<u8>,
}

impl Cartridge {
    /// Wraps a program image. The byte at offset 0x147 selects the banking
    /// controller variant; the cartridge RAM starts zeroed.
    pub fn new(data: Vec<u8>) -> (r: Cartridge)
        requires
            data@.len() > 0x147,
            data@[0x147] <= 0x03,
        ensures
            r.mbc == spec_mbc_from_byte(data@[0x147]),
            r.rom@ == data@,
            r.ram@ =~= Seq::new(0x8000, |i: int| 0u8),
    {
        let kind = data[0x147];
        let mut empty_ram: Vec<u8> = Vec::new();
        empty_ram.resize(0x8000, 0u8);
        Cartridge { mbc: mbc_from_byte(kind), rom: data, ram: empty_ram }
    }

    /// Reads the fixed first ROM bank.
    pub fn read_rom_bank0(&self, address: u16) -> (r: u8)
        ensures
            r == spec_backed_read(self.rom@, address as int),
    {
        if (address as usize) < self.rom.len() {
            self.rom[address as usize]
        } else {
            0xFF
        }
    }

    /// Reads the switchable ROM bank window.
    pub fn read_rom_bank1(&self, address: u16) -> (r: u8)
        requires
            0x4000 <= address,
        ensures
            r == spec_mbc_read_rom_bank1(self.mbc, self.rom@, address),
    {
        self.mbc.read_rom_bank1(self.rom.as_slice(), address)
    }

    /// Forwards a write in the ROM address range to the bank registers.
    pub fn write_registers(&mut self, address: u16, byte: u8)
        requires
            address < 0x8000,
        ensures
            final(self).mbc == spec_mbc_write_registers(old(self).mbc, address, byte),
            final(self).rom@ == old(self).rom@,
            final(self).ram@ == old(self).ram@,
    {
        self.mbc.write_registers(address, byte)
    }

    /// Reads the cartridge RAM window.
    pub fn read_ram(&self, address: u16) -> (r: u8)
        requires
            0xA000 <= address,
        ensures
            r == spec_mbc_read_ram(self.mbc, self.ram@, address),
    {
        self.mbc.read_ram(self.ram.as_slice(), address)
    }

    /// Writes the cartridge RAM window.
    pub fn write_ram(&mut self, address: u16, byte: u8)
        requires
            0xA000 <= address,
        ensures
            final(self).mbc == old(self).mbc,
            final(self).rom@ == old(self).rom@,
            final(self).ram@ == spec_mbc_write_ram(old(self).mbc, old(self).ram@, address, byte),
    {
        let mbc = &mut self.mbc;
        mbc.write_ram(&mut self.ram, address, byte)
    }
}

} // verus!
