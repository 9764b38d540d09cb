use rustboy::gameboy::Button;
use rustboy::irq::IRQ;
use rustboy::irq::Interrupt;
use rustboy::joypad::Joypad;

fn joypad_selecting_actions() -> Joypad {
    let mut joypad = Joypad::new();
    joypad.set_data(!Button::A.control_mask());
    joypad
}

#[test]
fn test_button_down() {
    let mut joypad = joypad_selecting_actions();
    let mut irq = IRQ::enabled();

    joypad.set_data(!Button::A.control_mask());
    joypad.button_down(&mut irq, Button::A);
    joypad.button_down(&mut irq, Button::B);

    assert_eq!(joypad.get_data(), 0b1101_1100);

    joypad.set_data(!Button::Up.control_mask());
    joypad.button_down(&mut irq, Button::Up);
    joypad.button_down(&mut irq, Button::Down);

    assert_eq!(joypad.get_data(), 0b1110_0011);
}

#[test]
fn test_button_down_int() {
    let mut joypad = joypad_selecting_actions();
    let mut irq = IRQ::enabled();

    joypad.button_down(&mut irq, Button::B);
    assert_eq!(irq.ack_interrupt(), Some(Interrupt::Joypad.get_addr()));

    joypad.button_down(&mut irq, Button::B);
    assert_eq!(irq.ack_interrupt(), None);
}

#[test]
fn test_button_up() {
    let mut joypad = joypad_selecting_actions();
    let mut irq = IRQ::enabled();

    joypad.button_down(&mut irq, Button::A);
    assert_eq!(joypad.get_data(), 0b1101_1110);

    joypad.button_up(Button::A);
    assert_eq!(joypad.get_data(), 0b1101_1111);
}
