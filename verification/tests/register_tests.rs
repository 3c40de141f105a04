use emuzcs::registers::Registers;

#[test]
fn new_register_file_is_zeroed() {
    let r = Registers::new();
    assert_eq!(r.reg_b, 0);
    assert_eq!(r.reg_c, 0);
    assert_eq!(r.reg_d, 0);
    assert_eq!(r.reg_e, 0);
    assert_eq!(r.reg_h, 0);
    assert_eq!(r.reg_l, 0);
    assert_eq!(r.stack_pointer, 0);
    assert_eq!(r.program_counter, 0);
}

#[test]
fn composite_pointer_is_h_times_256_plus_l() {
    let mut r = Registers::new();
    r.reg_h = 0xAB;
    r.reg_l = 0xCD;
    assert_eq!(r.HL(), 0xABCD);
    r.reg_h = 0x00;
    r.reg_l = 0xFF;
    assert_eq!(r.HL(), 0x00FF);
    r.reg_h = 0xFF;
    r.reg_l = 0xFF;
    assert_eq!(r.HL(), 0xFFFF);
}

#[test]
fn reset_zeroes_a_dirty_register_file() {
    let mut r = Registers::new();
    r.reg_h = 1;
    r.stack_pointer = 0x1234;
    r.program_counter = 0x5678;
    r.reset();
    assert_eq!(r, Registers::new());
}
