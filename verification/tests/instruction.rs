use gbemu::consoles::gameboy::registers::Flag;
use gbemu::instruction::{Instruction, OpCode, Target};

#[test]
fn test_from_opcode() {
    let op = Instruction::from_opcode(OpCode::ADD(Target::B));

    assert!(op.is_some());
    println!("{:#?}", op.as_ref().unwrap());
    assert!(matches!(op.as_ref().unwrap().opcode, OpCode::ADD(Target::B)));
}

#[test]
fn test_fetch() {
    let instruction =
        Instruction::fetch(Instruction::byte_from_opcode(OpCode::NOP).unwrap(), false).unwrap();
    assert!(instruction.opcode == OpCode::NOP);

    let instruction = Instruction::fetch(
        Instruction::byte_from_opcode(OpCode::SWAP(Target::A)).unwrap(),
        true,
    )
    .unwrap();
    assert!(instruction.opcode == OpCode::SWAP(Target::A));
}

#[test]
fn table_rows() {
    let i = Instruction::fetch(0x3E, false).unwrap();
    assert_eq!(i.opcode, OpCode::LD(Target::A, Target::D8));
    assert_eq!((i.length, i.cycles, i.optional_cycles), (2, 8, 0));
    assert_eq!(i.flags, vec![3, 3, 3, 3]);
    let i = Instruction::fetch(0xC2, false).unwrap();
    assert_eq!(i.opcode, OpCode::JUMP(Flag::NotZero));
    assert_eq!((i.length, i.cycles, i.optional_cycles), (3, 16, 12));
    // Later rows of the same byte replace earlier ones: 0x04 is DEC B.
    assert_eq!(Instruction::fetch(0x04, false).unwrap().opcode, OpCode::DEC(Target::B));
    assert_eq!(Instruction::fetch(0x34, false).unwrap().opcode, OpCode::DEC(Target::HL));
    assert!(Instruction::fetch(0x05, false).is_none());
    assert!(Instruction::look_up(0xD3).is_none());
    assert_eq!(Instruction::look_up(0x8C).unwrap().opcode, OpCode::ADC(Target::L));
    assert_eq!(Instruction::look_up(0x84).unwrap().opcode, OpCode::ADD(Target::H));
    let i = Instruction::fetch(0x7E, true).unwrap();
    assert_eq!(i.opcode, OpCode::BIT(7, Target::HL));
    assert_eq!(i.cycles, 16);
    assert_eq!(i.flags, vec![2, 0, 1, 3]);
    assert_eq!(Instruction::fetch(0xFF, true).unwrap().opcode, OpCode::SET(7, Target::A));
    assert_eq!(Instruction::fetch(0x0D, true).unwrap().opcode, OpCode::RRC(Target::L));
}

#[test]
fn byte_from_opcode_gives_first_row() {
    assert_eq!(Instruction::byte_from_opcode(OpCode::EndOfProgram), Some(0xFD));
    assert_eq!(Instruction::byte_from_opcode(OpCode::LD(Target::HL, Target::A)), Some(0x22));
    assert_eq!(Instruction::byte_from_opcode(OpCode::LD(Target::C, Target::A)), Some(0x4F));
    assert_eq!(Instruction::byte_from_opcode(OpCode::SWAP(Target::A)), Some(0x37));
    assert_eq!(Instruction::byte_from_opcode(OpCode::INC(Target::B)), None);
    assert_eq!(Instruction::byte_from_opcode(OpCode::LDA), None);
    assert!(Instruction::from_opcode(OpCode::RRCA).is_none());
    let i = Instruction::from_opcode(OpCode::LD(Target::A, Target::HL)).unwrap();
    assert_eq!(i.length, 1);
}

#[test]
fn every_row_round_trips_through_its_opcode() {
    for b in 0..=255u8 {
        let p = Instruction::fetch(b, true).unwrap();
        assert_eq!(Instruction::byte_from_opcode(p.opcode), Some(b));
        if let Some(u) = Instruction::fetch(b, false) {
            let first = Instruction::byte_from_opcode(u.opcode).unwrap();
            assert!(first <= b);
            assert_eq!(Instruction::fetch(first, false).unwrap().opcode, u.opcode);
        }
    }
}
