use rustboy::irq::IRQ;
use rustboy::irq::Interrupt;
use rustboy::irq::isolate_rightmost_bit;

#[test]
fn bit_helpers() {
    assert_eq!(isolate_rightmost_bit(0b110100), 0b100);
    assert_eq!(isolate_rightmost_bit(0b11), 0b1);
    assert_eq!(isolate_rightmost_bit(0b0000), 0);
}

#[test]
fn ack_interrupt() {
    let mut irq = IRQ::new();

    irq.set_interrupt(&Interrupt::VBlank);
    irq.set_interrupt(&Interrupt::Timer);
    irq.set_interrupt(&Interrupt::Joypad);

    assert_eq!(irq.ack_interrupt(), None);

    // Enable all but VBlank
    irq.enabled_bits = 0b00011110;

    assert_eq!(irq.ack_interrupt(), Some(Interrupt::Timer.get_addr()));

    // Now enable VBlank, which will take priority
    irq.enabled_bits = irq.enabled_bits | 0b1;

    assert_eq!(irq.ack_interrupt(), Some(Interrupt::VBlank.get_addr()));
    assert_eq!(irq.ack_interrupt(), Some(Interrupt::Joypad.get_addr()));

    assert_eq!(irq.ack_interrupt(), None);
    assert_eq!(irq.interrupt_bits, 0);
}

#[test]
fn set_interrupt() {
    let mut irq = IRQ::new();

    irq.set_interrupt(&Interrupt::VBlank);
    assert_eq!(irq.interrupt_bits, 0b00000001);

    irq.set_interrupt(&Interrupt::LCDC);
    assert_eq!(irq.interrupt_bits, 0b00000011);

    irq.set_interrupt(&Interrupt::Timer);
    assert_eq!(irq.interrupt_bits, 0b00000111);

    irq.set_interrupt(&Interrupt::Serial);
    assert_eq!(irq.interrupt_bits, 0b00001111);

    irq.set_interrupt(&Interrupt::Joypad);
    assert_eq!(irq.interrupt_bits, 0b00011111);
}

#[test]
fn reset_interrupt() {
    let mut irq = IRQ::new();
    irq.set_interrupt_bits(0b00011111);

    irq.reset_interrupt(&Interrupt::VBlank);
    assert_eq!(irq.interrupt_bits, 0b00011110);

    irq.reset_interrupt(&Interrupt::LCDC);
    assert_eq!(irq.interrupt_bits, 0b00011100);

    irq.reset_interrupt(&Interrupt::Timer);
    assert_eq!(irq.interrupt_bits, 0b00011000);

    irq.reset_interrupt(&Interrupt::Serial);
    assert_eq!(irq.interrupt_bits, 0b00010000);

    irq.reset_interrupt(&Interrupt::Joypad);
    assert_eq!(irq.interrupt_bits, 0b00000000);
}

#[test]
fn priority_timer_before_joypad() {
    let mut irq = IRQ::enabled();

    irq.set_interrupt(&Interrupt::Timer);
    irq.set_interrupt(&Interrupt::Joypad);

    assert_eq!(irq.ack_interrupt(), Some(0x50));
    assert_eq!(irq.ack_interrupt(), Some(0x60));
    assert_eq!(irq.ack_interrupt(), None);
}

#[test]
fn service_addresses() {
    assert_eq!(Interrupt::VBlank.get_addr(), 0x40);
    assert_eq!(Interrupt::LCDC.get_addr(), 0x48);
    assert_eq!(Interrupt::Timer.get_addr(), 0x50);
    assert_eq!(Interrupt::Serial.get_addr(), 0x58);
    assert_eq!(Interrupt::Joypad.get_addr(), 0x60);
}
