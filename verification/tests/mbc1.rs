use rustboy::cartridge::BankingMode;
use rustboy::cartridge::MBC1;

#[test]
fn get_ram_bank() {
    let mut mbc = MBC1::new();

    mbc.ram_bank = 0x01;
    assert_eq!(0x01, mbc.get_ram_bank());

    mbc.ram_bank = 0x0F;
    assert_eq!(0x03, mbc.get_ram_bank());
}

#[test]
fn get_rom_bank() {
    let mut mbc = MBC1::new();

    mbc.rom_bank_lower_bits = 0x1F;
    mbc.rom_bank_upper_bits = 0x03;

    assert_eq!(0x7F, mbc.get_rom_bank());
}

#[test]
fn read_rom_bank1() {
    let mut mbc = MBC1::new();
    let mut rom = vec![0u8; 0xF000];

    rom[0x4001] = 1;

    assert_eq!(1, mbc.read_rom_bank1(&rom, 0x4001));

    rom[0x8001] = 2;
    mbc.rom_bank_lower_bits = 0x02;

    assert_eq!(2, mbc.read_rom_bank1(&rom, 0x4001));
}

#[test]
fn read_rom_bank1_overflow_u16() {
    let mut mbc = MBC1::new();
    let rom = vec![0u8; 0x1FFFF];

    mbc.rom_bank_lower_bits = 0x05;
    assert_eq!(0, mbc.read_rom_bank1(&rom, 0x4001));
}

#[test]
fn read_ram() {
    let mut mbc = MBC1::new();
    let ram = vec![1u8; 0x8000];

    mbc.ram_enabled = false;
    assert_eq!(0xFF, mbc.read_ram(&ram, 0xA040));

    mbc.ram_enabled = true;
    assert_eq!(1, mbc.read_ram(&ram, 0xA040));
}

#[test]
fn write_registers_ram_enabled() {
    let mut mbc = MBC1::new();

    mbc.write_registers(0x00, 0xAA);
    assert_eq!(true, mbc.ram_enabled);

    mbc.write_registers(0x00, 0x0B);
    assert_eq!(false, mbc.ram_enabled);

    mbc.write_registers(0x00, 0x00);
    assert_eq!(false, mbc.ram_enabled);
}

#[test]
fn write_registers_rom_bank() {
    let mut mbc = MBC1::new();

    mbc.write_registers(0x2000, 0x00);
    assert_eq!(0x01, mbc.rom_bank_lower_bits);

    mbc.write_registers(0x2000, 0x20);
    assert_eq!(0x21, mbc.rom_bank_lower_bits);

    mbc.write_registers(0x2000, 0x40);
    assert_eq!(0x41, mbc.rom_bank_lower_bits);

    mbc.write_registers(0x2000, 0x60);
    assert_eq!(0x61, mbc.rom_bank_lower_bits);

    mbc.write_registers(0x2000, 0x05);
    assert_eq!(0x05, mbc.rom_bank_lower_bits);
}

#[test]
fn write_registers_rom_or_ram_bank() {
    let mut mbc = MBC1::new();

    mbc.banking_mode = BankingMode::ROM;
    mbc.write_registers(0x4000, 0b11);

    assert_eq!(0b11, mbc.rom_bank_upper_bits);
    assert_eq!(0b00, mbc.ram_bank);

    mbc.banking_mode = BankingMode::RAM;
    mbc.write_registers(0x4000, 0b10);

    assert_eq!(0b11, mbc.rom_bank_upper_bits);
    assert_eq!(0b10, mbc.ram_bank);
}

#[test]
fn write_registers_banking_mode() {
    let mut mbc = MBC1::new();

    mbc.write_registers(0x6000, 0b11);
    assert_eq!(BankingMode::RAM, mbc.banking_mode);

    mbc.write_registers(0x6000, 0b01);
    assert_eq!(BankingMode::RAM, mbc.banking_mode);

    mbc.write_registers(0x6000, 0b00);
    assert_eq!(BankingMode::ROM, mbc.banking_mode);
}

#[test]
fn write_ram() {
    let mut mbc = MBC1::new();
    let mut ram = vec![1u8; 0x8000];

    mbc.ram_enabled = false;
    mbc.write_ram(&mut ram, 0xB000, 0);

    assert_eq!(1, ram[0x1000]);

    mbc.ram_enabled = true;
    mbc.write_ram(&mut ram, 0xB000, 0);

    assert_eq!(0, ram[0x1000]);

    mbc.ram_bank = 0b10;
    mbc.write_ram(&mut ram, 0xB000, 5);

    assert_eq!(5, ram[0x5000]);
}
