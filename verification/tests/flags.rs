use rustboy::flags::Flags;

#[test]
fn flags_to_u8() {
    let flags = Flags { zero: true, subtract: true, half_carry: false, carry: true };

    assert_eq!(flags.to_byte(), 0xD0);
}

#[test]
fn u8_to_flags() {
    let flags = Flags::from_byte(0x50);

    assert_eq!(flags.zero, false);
    assert_eq!(flags.subtract, true);
    assert_eq!(flags.half_carry, false);
    assert_eq!(flags.carry, true);
}

#[test]
fn flag_byte_round_trip_forces_low_nibble() {
    for byte in 0..=255u8 {
        assert_eq!(Flags::from_byte(byte).to_byte(), byte & 0xF0);
    }
}
