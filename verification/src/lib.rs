//! Cycle-synchronized emulation core for an 8-bit handheld game console:
//! a register file and flag model, the standard and extended instruction
//! interpreters, an address-space dispatcher, and the video, timer, DMA,
//! interrupt, joypad and serial peripherals, each with verified contracts.

pub mod bits;
pub mod cartridge;
pub mod clock;
pub mod cpu;
pub mod display;
pub mod dma;
pub mod flags;
pub mod gameboy;
pub mod gpu;
pub mod instructions;
pub mod irq;
pub mod joypad;
pub mod mmu;
pub mod registers;
pub mod serial;
pub mod timer;
