use emuzcs::alu::{Flag, Operation};
use emuzcs::decoder::{InstrDecoder, InstrType, Register};
use emuzcs::fault::Fault;

fn decode(opcode: u8) -> Result<InstrType, Fault> {
    let mut d = InstrDecoder::new();
    d.load_opcode(opcode);
    d.get_type()
}

#[test]
fn opcode_table_classification() {
    assert_eq!(decode(0xFF), Ok(InstrType::HLT));
    assert_eq!(decode(0x3F), Ok(InstrType::LSP));
    assert_eq!(decode(0x24), Ok(InstrType::LPC));
    for opcode in 0x00u8..=0x06u8 {
        assert_eq!(decode(opcode), Ok(InstrType::MIV));
    }
    assert_eq!(decode(0x40), Ok(InstrType::MOV { mem_mov: false, mem_dir: false }));
    assert_eq!(decode(0x76), Ok(InstrType::MOV { mem_mov: false, mem_dir: false }));
    for opcode in [0x47u8, 0x4F, 0x57, 0x5F, 0x67, 0x6F, 0x77] {
        assert_eq!(decode(opcode), Ok(InstrType::MOV { mem_mov: true, mem_dir: true }));
    }
    for opcode in 0x78u8..=0x7Eu8 {
        assert_eq!(decode(opcode), Ok(InstrType::MOV { mem_mov: true, mem_dir: false }));
    }
    for opcode in [0x07u8, 0x0F, 0x17, 0x1F, 0x27, 0x2F, 0x37] {
        assert_eq!(decode(opcode), Ok(InstrType::PUSH { push: true }));
    }
    for opcode in 0x38u8..=0x3Eu8 {
        assert_eq!(decode(opcode), Ok(InstrType::PUSH { push: false }));
    }
    for opcode in [0xCCu8, 0xDC, 0xEC, 0xFC] {
        assert_eq!(decode(opcode), Ok(InstrType::JS));
    }
    for opcode in [0xC4u8, 0xD4, 0xE4, 0xF4] {
        assert_eq!(decode(opcode), Ok(InstrType::JR));
    }
}

#[test]
fn arithmetic_class_selects_by_the_low_field() {
    assert_eq!(decode(0x80), Ok(InstrType::ALUOP { cmp: false, op: Operation::ADD }));
    assert_eq!(decode(0x81), Ok(InstrType::ALUOP { cmp: false, op: Operation::ADDC }));
    assert_eq!(decode(0x82), Ok(InstrType::ALUOP { cmp: false, op: Operation::SUB }));
    assert_eq!(decode(0x83), Ok(InstrType::ALUOP { cmp: false, op: Operation::SUBB }));
    assert_eq!(decode(0x84), Ok(InstrType::ALUOP { cmp: false, op: Operation::SUB }));
    assert_eq!(decode(0x85), Err(Fault::Decode));
    assert_eq!(decode(0x86), Err(Fault::Decode));
    assert_eq!(decode(0x87), Err(Fault::Decode));
}

#[test]
fn compare_class_selects_by_the_low_field() {
    assert_eq!(decode(0xC0), Ok(InstrType::ALUOP { cmp: true, op: Operation::AND }));
    assert_eq!(decode(0xC1), Ok(InstrType::ALUOP { cmp: true, op: Operation::OR }));
    assert_eq!(decode(0xC2), Ok(InstrType::ALUOP { cmp: true, op: Operation::XOR }));
    assert_eq!(decode(0xC3), Ok(InstrType::ALUOP { cmp: true, op: Operation::NOT }));
    assert_eq!(decode(0xC5), Err(Fault::Decode));
    assert_eq!(decode(0xC6), Err(Fault::Decode));
    assert_eq!(decode(0xC7), Err(Fault::Decode));
}

#[test]
fn bytes_outside_every_range_are_decode_faults() {
    for opcode in [0x08u8, 0x10, 0x1E, 0x20, 0x23, 0x25, 0x30, 0x36, 0x7F] {
        assert_eq!(decode(opcode), Err(Fault::Decode));
    }
}

#[test]
fn register_fields_map_seven_codes() {
    let mut d = InstrDecoder::new();
    // 0x05: destination field 5 names H.
    d.load_opcode(0x05);
    assert_eq!(d.get_register(true), Ok(Register::H));
    // 0x0F: source field 1 names B.
    d.load_opcode(0x0F);
    assert_eq!(d.get_register(false), Ok(Register::B));
    // 0xB8: source field 7 names no register.
    d.load_opcode(0xB8);
    assert_eq!(d.get_register(false), Err(Fault::Decode));
    // 0x07: destination field 7 names no register.
    d.load_opcode(0x07);
    assert_eq!(d.get_register(true), Err(Fault::Decode));
}

#[test]
fn flag_field_maps_four_selectors() {
    let mut d = InstrDecoder::new();
    d.load_opcode(0xCC);
    assert_eq!(d.get_flag(), Flag::Zero);
    d.load_opcode(0xDC);
    assert_eq!(d.get_flag(), Flag::Sign);
    d.load_opcode(0xEC);
    assert_eq!(d.get_flag(), Flag::Parity);
    d.load_opcode(0xFC);
    assert_eq!(d.get_flag(), Flag::Carry);
}
