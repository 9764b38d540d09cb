use rustboy::serial::Control;
use rustboy::serial::Serial;

#[test]
fn mod_u8_from_control() {
    let control = Control { transfer: true, internal_clock: true };

    assert_eq!(control.to_byte(), 0x81);
}

#[test]
fn mod_control_from_u8() {
    let control = Control::from_byte(0x81);
    let expected = Control { transfer: true, internal_clock: true };

    assert_eq!(control, expected);
}

#[test]
fn serial_control() {
    let mut serial = Serial::new();
    let control = Control::from_byte(0x81);

    serial.set_control(0x81);

    assert_eq!(serial.control, control);
    assert_eq!(serial.get_control(), 0x81);
}

#[test]
fn serial_data() {
    let mut serial = Serial::new();

    serial.set_data(0xAA);

    assert_eq!(serial.get_data(), 0xAA);
}
