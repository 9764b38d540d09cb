use rustboy::registers::Registers;

#[test]
fn af_combo() {
    let mut regs = Registers::blank();

    regs.set_af(0xF1A0);

    assert_eq!(regs.a, 0xF1);
    assert_eq!(regs.f.zero, true);
    assert_eq!(regs.f.subtract, false);
    assert_eq!(regs.f.half_carry, true);
    assert_eq!(regs.f.carry, false);
    assert_eq!(regs.get_af(), 0xF1A0);
}

#[test]
fn bc_combo() {
    let mut regs = Registers::blank();

    regs.set_bc(0xF123);

    assert_eq!(regs.b, 0xF1);
    assert_eq!(regs.c, 0x23);
    assert_eq!(regs.get_bc(), 0xF123);
}

#[test]
fn de_combo() {
    let mut regs = Registers::blank();

    regs.set_de(0xF123);

    assert_eq!(regs.d, 0xF1);
    assert_eq!(regs.e, 0x23);
    assert_eq!(regs.get_de(), 0xF123);
}

#[test]
fn hl_combo() {
    let mut regs = Registers::blank();

    regs.set_hl(0xF123);

    assert_eq!(regs.h, 0xF1);
    assert_eq!(regs.l, 0x23);
    assert_eq!(regs.get_hl(), 0xF123);
}

#[test]
fn increment_pc() {
    let mut regs = Registers::blank();
    regs.pc = 0;

    assert_eq!(regs.increment_pc(), 0);
    assert_eq!(regs.pc, 1);
}

#[test]
fn increment_sp() {
    let mut regs = Registers::blank();
    regs.sp = 0x1;

    assert_eq!(regs.increment_sp(), 1);
    assert_eq!(regs.sp, 2);
}

#[test]
fn decrement_sp() {
    let mut regs = Registers::blank();
    regs.sp = 0x1;

    assert_eq!(regs.decrement_sp(), 1);
    assert_eq!(regs.sp, 0);
}

#[test]
fn af() {
    let mut regs = Registers::blank();

    regs.set_af(0xF1A0);

    assert_eq!(regs.a, 0xF1);
    assert_eq!(regs.f.zero, true);
    assert_eq!(regs.f.subtract, false);
    assert_eq!(regs.f.half_carry, true);
    assert_eq!(regs.f.carry, false);
    assert_eq!(regs.get_af(), 0xF1A0);
}

#[test]
fn bc() {
    let mut regs = Registers::blank();

    regs.set_bc(0xF123);

    assert_eq!(regs.b, 0xF1);
    assert_eq!(regs.c, 0x23);
    assert_eq!(regs.get_bc(), 0xF123);
}

#[test]
fn de() {
    let mut regs = Registers::blank();

    regs.set_de(0xF123);

    assert_eq!(regs.d, 0xF1);
    assert_eq!(regs.e, 0x23);
    assert_eq!(regs.get_de(), 0xF123);
}

#[test]
fn hl() {
    let mut regs = Registers::blank();

    regs.set_hl(0xF123);

    assert_eq!(regs.h, 0xF1);
    assert_eq!(regs.l, 0x23);
    assert_eq!(regs.get_hl(), 0xF123);
}

#[test]
fn pair_round_trips_mask_af_low_nibble() {
    for &value in &[0x0000u16, 0x0001, 0x00FF, 0x1234, 0xABCD, 0xFFFF] {
        let mut regs = Registers::blank();
        regs.set_af(value);
        assert_eq!(regs.get_af(), value & 0xFFF0);
        regs.set_bc(value);
        assert_eq!(regs.get_bc(), value);
        regs.set_de(value);
        assert_eq!(regs.get_de(), value);
        regs.set_hl(value);
        assert_eq!(regs.get_hl(), value);
    }
}

#[test]
fn pc_and_sp_wrap_around() {
    let mut regs = Registers::blank();
    regs.pc = 0xFFFF;
    assert_eq!(regs.increment_pc(), 0xFFFF);
    assert_eq!(regs.pc, 0);

    regs.sp = 0;
    assert_eq!(regs.decrement_sp(), 0);
    assert_eq!(regs.sp, 0xFFFF);
}
