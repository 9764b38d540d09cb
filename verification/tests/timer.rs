use rustboy::irq::IRQ;
use rustboy::irq::Interrupt;
use rustboy::timer::Timer;

#[test]
fn emulate_div() {
    let mut timer = Timer::new();
    let mut irq = IRQ::enabled();

    for _ in 0..128 {
        timer.emulate(&mut irq);
    }

    assert_eq!(timer.get_div(), 2);
    assert_eq!(irq.ack_interrupt(), None);
}

#[test]
fn emulate_disabled() {
    let mut timer = Timer::new();
    let mut irq = IRQ::enabled();

    timer.tac.enabled = false;
    timer.tac.clock_bit_1 = false;
    timer.tac.clock_bit_0 = true;

    for _ in 0..8 {
        timer.emulate(&mut irq);
    }

    assert_eq!(timer.get_tima(), 0);
    assert_eq!(irq.ack_interrupt(), None);
}

#[test]
fn emulate_increment() {
    let mut timer = Timer::new();
    let mut irq = IRQ::enabled();

    timer.tac.enabled = true;
    timer.tac.clock_bit_1 = false;
    timer.tac.clock_bit_0 = true;

    for _ in 0..8 {
        timer.emulate(&mut irq);
    }

    assert_eq!(timer.get_tima(), 2);
    assert_eq!(irq.ack_interrupt(), None);
}

#[test]
fn emulate_overflow() {
    let mut timer = Timer::new();
    let mut irq = IRQ::enabled();

    timer.tac.enabled = true;
    timer.tac.clock_bit_1 = false;
    timer.tac.clock_bit_0 = true;

    timer.set_tima(0xFF);
    timer.set_tma(0x10);

    for _ in 0..4 {
        timer.emulate(&mut irq);
    }

    assert_eq!(timer.get_tima(), 0x10);
    assert_eq!(timer.get_tma(), 0x10);
    assert_eq!(irq.ack_interrupt(), Some(Interrupt::Timer.get_addr()));
}

#[test]
fn overflow_through_the_control_register() {
    let mut timer = Timer::new();
    let mut irq = IRQ::enabled();

    // Enable with the 4-cycle clock select, preload the counter, set reload
    timer.set_tac(0b101);
    timer.set_tima(0xFF);
    timer.set_tma(0x10);

    for _ in 0..4 {
        timer.emulate(&mut irq);
    }

    assert_eq!(timer.get_tima(), 0x10);
    assert_eq!(irq.ack_interrupt(), Some(0x50));
}

#[test]
fn control_register_round_trip() {
    let mut timer = Timer::new();

    timer.set_tac(0b111);
    assert_eq!(timer.get_tac(), 0b111);

    timer.set_tac(0b010);
    assert_eq!(timer.get_tac(), 0b010);
}

#[test]
fn reset_div_clears_counter() {
    let mut timer = Timer::new();
    let mut irq = IRQ::enabled();

    for _ in 0..128 {
        timer.emulate(&mut irq);
    }
    assert_eq!(timer.get_div(), 2);

    timer.reset_div();
    assert_eq!(timer.get_div(), 0);
}
