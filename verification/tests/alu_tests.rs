use emuzcs::alu::{Alu, Flag, Operation};

#[test]
fn add_sets_carry_on_overflow() {
    let mut alu = Alu::new();
    alu.accumulator = 0x80;
    alu.temp = 0x90;
    alu.set_op(Operation::ADD);
    let result: u8 = alu.calculate();
    assert_eq!(result, 0x10);
    assert!(alu.flags.carry);
    assert!(!alu.flags.zero);
    assert!(!alu.flags.sign);
    assert!(alu.flags.parity);
}

#[test]
fn add_with_carry_adds_one_more() {
    let mut alu = Alu::new();
    alu.accumulator = 0x10;
    alu.temp = 0x20;
    alu.flags.carry = true;
    alu.set_op(Operation::ADDC);
    assert_eq!(alu.calculate(), 0x31);
    assert!(!alu.flags.carry);
}

#[test]
fn subtract_with_borrow_when_carry_set() {
    let mut alu = Alu::new();
    alu.accumulator = 0x50;
    alu.temp = 0x20;
    alu.flags.carry = true;
    alu.set_op(Operation::SUBB);
    assert_eq!(alu.calculate(), 0x2F);
    assert!(!alu.flags.carry);
    assert!(!alu.flags.zero);
    assert!(!alu.flags.sign);
    assert!(!alu.flags.parity);
}

#[test]
fn subtract_below_zero_sets_carry_and_wraps() {
    let mut alu = Alu::new();
    alu.accumulator = 0x00;
    alu.temp = 0x01;
    alu.set_op(Operation::SUB);
    assert_eq!(alu.calculate(), 0xFF);
    assert!(alu.flags.carry);
    assert!(!alu.flags.zero);
    assert!(alu.flags.sign);
    assert!(!alu.flags.parity);
}

#[test]
fn subtract_to_zero_sets_zero_flag() {
    let mut alu = Alu::new();
    alu.accumulator = 0x42;
    alu.temp = 0x42;
    alu.set_op(Operation::SUB);
    assert_eq!(alu.calculate(), 0x00);
    assert!(alu.flags.zero);
    assert!(alu.flags.parity);
    assert!(!alu.flags.carry);
    assert!(!alu.flags.sign);
}

#[test]
fn logic_operations_compute_bitwise_results() {
    let mut alu = Alu::new();
    alu.accumulator = 0b1100_1010;
    alu.temp = 0b1010_0110;
    alu.set_op(Operation::AND);
    assert_eq!(alu.calculate(), 0b1000_0010);
    alu.set_op(Operation::OR);
    assert_eq!(alu.calculate(), 0b1110_1110);
    alu.set_op(Operation::XOR);
    assert_eq!(alu.calculate(), 0b0110_1100);
    alu.set_op(Operation::NOT);
    assert_eq!(alu.calculate(), 0b0101_1001);
}

#[test]
fn parity_flag_is_an_even_check() {
    let mut alu = Alu::new();
    alu.accumulator = 3;
    alu.temp = 3;
    alu.set_op(Operation::ADD);
    alu.calculate();
    assert!(alu.flags.parity);
    alu.temp = 4;
    alu.set_op(Operation::ADD);
    alu.calculate();
    assert!(!alu.flags.parity);
}

#[test]
fn sign_flag_mirrors_bit_seven() {
    let mut alu = Alu::new();
    alu.accumulator = 0x7F;
    alu.temp = 0x01;
    alu.set_op(Operation::ADD);
    assert_eq!(alu.calculate(), 0x80);
    assert!(alu.flags.sign);
}

#[test]
fn reset_zeroes_everything() {
    let mut alu = Alu::new();
    alu.accumulator = 0xAA;
    alu.temp = 0xBB;
    alu.set_op(Operation::ADD);
    alu.calculate();
    alu.reset();
    assert_eq!(alu.accumulator, 0);
    assert_eq!(alu.temp, 0);
    assert!(!alu.flags.zero);
    assert!(!alu.flags.carry);
    assert!(!alu.flags.sign);
    assert!(!alu.flags.parity);
    assert_eq!(alu.op, Operation::NOP);
}

#[test]
fn flag_value_reads_the_selected_flag() {
    let mut alu = Alu::new();
    alu.flags.sign = true;
    alu.flags.carry = true;
    assert!(!alu.flag_value(Flag::Zero));
    assert!(alu.flag_value(Flag::Sign));
    assert!(!alu.flag_value(Flag::Parity));
    assert!(alu.flag_value(Flag::Carry));
}
