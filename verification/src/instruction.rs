use vstd::prelude::*;

pub mod opcode;

use crate::consoles::gameboy::registers::Flag;

verus! {

/// An operation of the processor, with its operands.
#[derive(Debug, Clone, Copy, PartialEq, Eq, Structural)]
pub enum OpCode {
    NOP,
    LD(Target, Target),
    LDA,
    ADD(Target),
    ADD16(Target, Target),
    ADC(Target),
    SUB(Target),
    SBC(Target),
    CP(Target),
    AND(Target),
    OR(Target),
    XOR(Target),
    INC(Target),
    DEC(Target),
    CCF,
    SCF,
    RRCA,
    RRLA,
    CPL(Target),
    SRL(Target),
    RR(Target),
    RL(Target),
    RRC(Target),
    RLC(Target),
    SRA(Target),
    SLA(Target),
    SWAP(Target),
    BIT(u8, Target),
    RES(u8, Target),
    SET(u8, Target),
    HALT,
    JUMP(Flag),
    JumpUnconditional,
    CALL(Flag),
    PREFIX,
    EnableInterrupt,
    DisableInterrupt,
    EndOfProgram,
}

/// An operand: a register, a register pair, an immediate or an address.
#[derive(Debug, Clone, Copy, PartialEq, Eq, Structural)]
pub enum Target {
    A,
    B,
    C,
    D,
    E,
    F,
    L,
    H,
    HL,
    HLP,
    HLM,
    BC,
    DE,
    R8,
    R16,
    D8,
    D16,
    A8,
    A16,
    SP,
    SpR8,
}

/// A decoded instruction: its operation, its length in bytes, its cycle counts and, for the
/// zero, sub, half carry and carry flags in that order, how it treats them.
#[derive(Debug, Clone)]
pub struct Instruction {
    pub opcode: OpCode,
    pub length: u8,
    pub cycles: u16,
    pub optional_cycles: u16,
    pub flags: Vec<u8>,
}

/// One row of an instruction table.
#[derive(Debug, Clone, Copy)]
pub struct Entry {
    pub opcode: OpCode,
    pub length: u8,
    pub cycles: u16,
    pub optional_cycles: u16,
    pub flags: (u8, u8, u8, u8),
}

/// The flag treatment that marks a flag as computed by the instruction.
pub const AFFECTED: u8 = 2;
/// The flag treatment that marks a flag as left alone by the instruction.
pub const NOT_AFFECTED: u8 = 3;

/// A table row.
pub open spec fn mk_entry(opcode: OpCode, length: u8, cycles: u16, optional_cycles: u16, flags: (u8, u8, u8, u8)) -> Entry {
    Entry { opcode, length, cycles, optional_cycles, flags }
}

/// The operand order of the load block and of most arithmetic rows: B, C, D, E, L, H, (HL), A.
pub open spec fn row_target(i: u8) -> Target {
    if i == 0 { Target::B }
    else if i == 1 { Target::C }
    else if i == 2 { Target::D }
    else if i == 3 { Target::E }
    else if i == 4 { Target::L }
    else if i == 5 { Target::H }
    else if i == 6 { Target::HL }
    else { Target::A }
}

/// The operand order of the ADD row and of the prefixed table: B, C, D, E, H, L, (HL), A.
pub open spec fn add_row_target(i: u8) -> Target {
    if i == 4 { Target::H } else if i == 5 { Target::L } else { row_target(i) }
}

/// The arithmetic block 0x80..=0xBF: eight operations, one per row of eight.
pub open spec fn alu_entry(byte: u8) -> Entry {
    let row = (byte - 0x80) / 8;
    let col = byte % 8;
    if row == 0 { mk_entry(OpCode::ADD(add_row_target(col)), 1, 4, 0, (2, 0, 2, 2)) }
    else if row == 1 { mk_entry(OpCode::ADC(row_target(col)), 1, 4, 0, (2, 0, 2, 2)) }
    else if row == 2 { mk_entry(OpCode::SUB(row_target(col)), 1, 4, 0, (2, 1, 2, 2)) }
    else if row == 3 { mk_entry(OpCode::SBC(row_target(col)), 1, 4, 0, (2, 1, 2, 2)) }
    else if row == 4 { mk_entry(OpCode::AND(row_target(col)), 1, 4, 0, (2, 0, 1, 0)) }
    else if row == 5 { mk_entry(OpCode::XOR(row_target(col)), 1, 4, 0, (2, 0, 0, 0)) }
    else if row == 6 { mk_entry(OpCode::OR(row_target(col)), 1, 4, 0, (2, 0, 0, 0)) }
    else { mk_entry(OpCode::CP(row_target(col)), 1, 4, 0, (2, 1, 2, 2)) }
}

/// The rows of the unprefixed table outside the load and arithmetic blocks.
pub open spec fn misc_entry(byte: u8) -> Option<Entry> {
    match byte {
        0x00 => Some(mk_entry(OpCode::NOP, 1, 4, 0, (3, 3, 3, 3))),
        0x01 => Some(mk_entry(OpCode::LD(Target::BC, Target::D16), 3, 12, 0, (3, 3, 3, 3))),
        0x02 => Some(mk_entry(OpCode::LD(Target::BC, Target::A), 1, 8, 0, (3, 3, 3, 3))),
        0x03 => Some(mk_entry(OpCode::INC(Target::BC), 1, 8, 0, (3, 3, 3, 3))),
        0x04 => Some(mk_entry(OpCode::DEC(Target::B), 1, 4, 0, (2, 1, 2, 3))),
        0x06 => Some(mk_entry(OpCode::LD(Target::B, Target::D8), 2, 8, 0, (3, 3, 3, 3))),
        0x08 => Some(mk_entry(OpCode::LD(Target::A16, Target::SP), 3, 12, 0, (3, 3, 3, 3))),
        0x09 => Some(mk_entry(OpCode::ADD16(Target::HL, Target::BC), 1, 8, 0, (3, 0, 2, 2))),
        0x0A => Some(mk_entry(OpCode::LD(Target::A, Target::BC), 1, 8, 0, (3, 3, 3, 3))),
        0x0C => Some(mk_entry(OpCode::INC(Target::C), 1, 4, 0, (2, 0, 2, 3))),
        0x0D => Some(mk_entry(OpCode::DEC(Target::C), 1, 4, 0, (2, 1, 2, 3))),
        0x0E => Some(mk_entry(OpCode::LD(Target::C, Target::D8), 2, 8, 0, (3, 3, 3, 3))),
        0x11 => Some(mk_entry(OpCode::LD(Target::DE, Target::D16), 3, 12, 0, (3, 3, 3, 3))),
        0x12 => Some(mk_entry(OpCode::LD(Target::DE, Target::A), 1, 8, 0, (3, 3, 3, 3))),
        0x13 => Some(mk_entry(OpCode::INC(Target::DE), 1, 8, 0, (3, 3, 3, 3))),
        0x14 => Some(mk_entry(OpCode::DEC(Target::D), 1, 4, 0, (2, 1, 2, 3))),
        0x16 => Some(mk_entry(OpCode::LD(Target::D, Target::D8), 2, 8, 0, (3, 3, 3, 3))),
        0x19 => Some(mk_entry(OpCode::ADD16(Target::HL, Target::DE), 1, 8, 0, (3, 0, 2, 2))),
        0x1A => Some(mk_entry(OpCode::LD(Target::A, Target::DE), 1, 8, 0, (3, 3, 3, 3))),
        0x1C => Some(mk_entry(OpCode::INC(Target::E), 1, 4, 0, (2, 0, 2, 3))),
        0x1D => Some(mk_entry(OpCode::DEC(Target::E), 1, 4, 0, (2, 1, 2, 3))),
        0x1E => Some(mk_entry(OpCode::LD(Target::E, Target::D8), 2, 8, 0, (3, 3, 3, 3))),
        0x21 => Some(mk_entry(OpCode::LD(Target::HL, Target::D16), 3, 12, 0, (3, 3, 3, 3))),
        0x22 => Some(mk_entry(OpCode::LD(Target::HL, Target::A), 1, 8, 0, (3, 3, 3, 3))),
        0x23 => Some(mk_entry(OpCode::INC(Target::HL), 1, 8, 0, (3, 3, 3, 3))),
        0x24 => Some(mk_entry(OpCode::DEC(Target::H), 1, 4, 0, (2, 1, 2, 3))),
        0x26 => Some(mk_entry(OpCode::LD(Target::H, Target::D8), 2, 8, 0, (3, 3, 3, 3))),
        0x29 => Some(mk_entry(OpCode::ADD16(Target::HL, Target::HL), 1, 8, 0, (3, 0, 2, 2))),
        0x2A => Some(mk_entry(OpCode::LD(Target::A, Target::HL), 1, 8, 0, (3, 3, 3, 3))),
        0x2C => Some(mk_entry(OpCode::INC(Target::L), 1, 4, 0, (2, 0, 2, 3))),
        0x2D => Some(mk_entry(OpCode::DEC(Target::L), 1, 4, 0, (2, 1, 2, 3))),
        0x2E => Some(mk_entry(OpCode::LD(Target::L, Target::D8), 2, 8, 0, (3, 3, 3, 3))),
        0x31 => Some(mk_entry(OpCode::LD(Target::SP, Target::D16), 3, 12, 0, (3, 3, 3, 3))),
        0x32 => Some(mk_entry(OpCode::LD(Target::HL, Target::A), 1, 8, 0, (3, 3, 3, 3))),
        0x33 => Some(mk_entry(OpCode::INC(Target::SP), 1, 8, 0, (3, 3, 3, 3))),
        0x34 => Some(mk_entry(OpCode::DEC(Target::HL), 1, 12, 0, (2, 1, 2, 3))),
        0x36 => Some(mk_entry(OpCode::LD(Target::HL, Target::D8), 2, 8, 0, (3, 3, 3, 3))),
        0x39 => Some(mk_entry(OpCode::ADD16(Target::HL, Target::SP), 1, 8, 0, (3, 0, 2, 2))),
        0x3A => Some(mk_entry(OpCode::LD(Target::A, Target::HL), 1, 8, 0, (3, 3, 3, 3))),
        0x3C => Some(mk_entry(OpCode::INC(Target::A), 1, 4, 0, (2, 0, 2, 3))),
        0x3D => Some(mk_entry(OpCode::DEC(Target::A), 1, 4, 0, (2, 1, 2, 3))),
        0x3E => Some(mk_entry(OpCode::LD(Target::A, Target::D8), 2, 8, 0, (3, 3, 3, 3))),
        0x76 => Some(mk_entry(OpCode::HALT, 1, 4, 0, (3, 3, 3, 3))),
        0xC2 => Some(mk_entry(OpCode::JUMP(Flag::NotZero), 3, 16, 12, (3, 3, 3, 3))),
        0xC3 => Some(mk_entry(OpCode::JumpUnconditional, 3, 16, 0, (3, 3, 3, 3))),
        0xC6 => Some(mk_entry(OpCode::ADD(Target::D8), 2, 8, 0, (2, 0, 2, 2))),
        0xCB => Some(mk_entry(OpCode::PREFIX, 1, 4, 0, (3, 3, 3, 3))),
        0xD6 => Some(mk_entry(OpCode::SUB(Target::D8), 2, 8, 0, (2, 1, 2, 2))),
        0xE0 => Some(mk_entry(OpCode::LD(Target::A8, Target::A), 2, 12, 0, (3, 3, 3, 3))),
        0xE2 => Some(mk_entry(OpCode::LD(Target::C, Target::A), 2, 8, 0, (3, 3, 3, 3))),
        0xE6 => Some(mk_entry(OpCode::AND(Target::D8), 2, 8, 0, (2, 0, 1, 0))),
        0xE8 => Some(mk_entry(OpCode::ADD16(Target::SP, Target::R8), 2, 16, 0, (0, 0, 2, 2))),
        0xEA => Some(mk_entry(OpCode::LD(Target::A16, Target::A), 3, 16, 0, (3, 3, 3, 3))),
        0xF0 => Some(mk_entry(OpCode::LD(Target::A, Target::A8), 2, 12, 0, (3, 3, 3, 3))),
        0xF2 => Some(mk_entry(OpCode::LD(Target::A, Target::C), 2, 8, 0, (3, 3, 3, 3))),
        0xF3 => Some(mk_entry(OpCode::DisableInterrupt, 1, 4, 0, (3, 3, 3, 3))),
        0xF6 => Some(mk_entry(OpCode::OR(Target::D8), 2, 8, 0, (2, 0, 0, 0))),
        0xF8 => Some(mk_entry(OpCode::LD(Target::HL, Target::SpR8), 2, 12, 0, (0, 0, 2, 2))),
        0xF9 => Some(mk_entry(OpCode::LD(Target::SP, Target::HL), 1, 8, 0, (3, 3, 3, 3))),
        0xFA => Some(mk_entry(OpCode::LD(Target::A, Target::A16), 3, 16, 0, (3, 3, 3, 3))),
        0xFB => Some(mk_entry(OpCode::EnableInterrupt, 1, 4, 0, (3, 3, 3, 3))),
        0xFD => Some(mk_entry(OpCode::EndOfProgram, 0, 0, 0, (3, 3, 3, 3))),
        _ => None,
    }
}

/// The unprefixed instruction table.
pub open spec fn unprefixed_entry(byte: u8) -> Option<Entry> {
    if 0x40 <= byte < 0x80 && byte != 0x76 {
        Some(mk_entry(OpCode::LD(row_target(((byte - 0x40) / 8) as u8), row_target(byte % 8)), 1, 4, 0, (3, 3, 3, 3)))
    } else if 0x80 <= byte < 0xC0 {
        Some(alu_entry(byte))
    } else {
        misc_entry(byte)
    }
}

/// The table of instructions that follow the prefix byte: every byte is decoded.
pub open spec fn prefixed_entry(byte: u8) -> Entry {
    let col = byte % 8;
    let t = add_row_target(col);
    if byte < 0x40 {
        let row = byte / 8;
        if row == 0 { mk_entry(OpCode::RLC(t), 2, 8, 0, (2, 0, 0, 2)) }
        else if row == 1 { mk_entry(OpCode::RRC(t), 2, 8, 0, (2, 0, 0, 2)) }
        else if row == 2 { mk_entry(OpCode::RL(t), 2, 8, 0, (2, 0, 0, 2)) }
        else if row == 3 { mk_entry(OpCode::RR(t), 2, 8, 0, (2, 0, 0, 2)) }
        else if row == 4 { mk_entry(OpCode::SLA(t), 2, 8, 0, (2, 0, 0, 2)) }
        else if row == 5 { mk_entry(OpCode::SRA(t), 2, 8, 0, (2, 0, 0, 0)) }
        else if row == 6 { mk_entry(OpCode::SWAP(t), 2, 8, 0, (2, 0, 0, 0)) }
        else { mk_entry(OpCode::SRL(t), 2, 8, 0, (2, 0, 0, 2)) }
    } else {
        let bit = (byte / 8) % 8;
        let cycles: u16 = if t == Target::HL { 16 } else { 8 };
        if byte < 0x80 { mk_entry(OpCode::BIT(bit, t), 2, cycles, 0, (2, 0, 1, 3)) }
        else if byte < 0xC0 { mk_entry(OpCode::RES(bit, t), 2, cycles, 0, (3, 3, 3, 3)) }
        else { mk_entry(OpCode::SET(bit, t), 2, cycles, 0, (3, 3, 3, 3)) }
    }
}

/// The row that `fetch` reads.
pub open spec fn table_entry(byte: u8, prefixed: bool) -> Option<Entry> {
    if prefixed { Some(prefixed_entry(byte)) } else { unprefixed_entry(byte) }
}

/// Whether the row of `byte` in the chosen table holds `op`.
pub open spec fn holds_opcode(byte: u8, prefixed: bool, op: OpCode) -> bool {
    match table_entry(byte, prefixed) {
        Some(e) => e.opcode == op,
        None => false,
    }
}

/// The first byte, from `from` on, whose row in the chosen table holds `op`.
pub open spec fn first_byte_from(op: OpCode, prefixed: bool, from: int) -> Option<u8>
    decreases 256 - from,
{
    if from < 0 || from >= 256 {
        None
    } else if holds_opcode(from as u8, prefixed, op) {
        Some(from as u8)
    } else {
        first_byte_from(op, prefixed, from + 1)
    }
}

/// The smallest byte whose row in the chosen table holds `op`.
pub open spec fn first_byte(op: OpCode, prefixed: bool) -> Option<u8> {
    first_byte_from(op, prefixed, 0)
}

/// The byte that encodes `op`: its first row in the unprefixed table, else its row in the
/// prefixed table.
pub open spec fn opcode_byte(op: OpCode) -> Option<u8> {
    match first_byte(op, false) {
        Some(b) => Some(b),
        None => first_byte(op, true),
    }
}

/// The table that `opcode_byte` found `op` in.
pub open spec fn opcode_is_prefixed(op: OpCode) -> bool {
    first_byte(op, false) is None
}

impl Entry {
    pub fn new(opcode: OpCode, length: u8, cycles: u16, optional_cycles: u16, flags: (u8, u8, u8, u8)) -> (e: Entry)
        ensures
            e == mk_entry(opcode, length, cycles, optional_cycles, flags),
    {
        Entry { opcode, length, cycles, optional_cycles, flags }
    }
}

impl Instruction {
    /// Whether this instruction is the table row `e`.
    pub open spec fn is_entry(&self, e: Entry) -> bool {
        &&& self.opcode == e.opcode
        &&& self.length == e.length
        &&& self.cycles == e.cycles
        &&& self.optional_cycles == e.optional_cycles
        &&& self.flags@ == seq![e.flags.0, e.flags.1, e.flags.2, e.flags.3]
    }

    pub fn new(opcode: OpCode, length: u8, cycles: u16, optional_cycles: u16, flags: Vec<u8>) -> (i: Instruction)
        ensures
            i.opcode == opcode,
            i.length == length,
            i.cycles == cycles,
            i.optional_cycles == optional_cycles,
            i.flags@ == flags@,
    {
        Instruction { opcode, length, cycles, optional_cycles, flags }
    }

    fn from_entry(e: Entry) -> (i: Instruction)
        ensures
            i.is_entry(e),
    {
        let mut flags: Vec<u8> = Vec::new();
        flags.push(e.flags.0);
        flags.push(e.flags.1);
        flags.push(e.flags.2);
        flags.push(e.flags.3);
        assert(flags@ =~= seq![e.flags.0, e.flags.1, e.flags.2, e.flags.3]);
        Instruction::new(e.opcode, e.length, e.cycles, e.optional_cycles, flags)
    }

    fn row_target(i: u8) -> (t: Target)
        requires
            i < 8,
        ensures
            t == row_target(i),
    {
        match i {
            0 => Target::B,
            1 => Target::C,
            2 => Target::D,
            3 => Target::E,
            4 => Target::L,
            5 => Target::H,
            6 => Target::HL,
            _ => Target::A,
        }
    }

    fn add_row_target(i: u8) -> (t: Target)
        requires
            i < 8,
        ensures
            t == add_row_target(i),
    {
        match i {
            4 => Target::H,
            5 => Target::L,
            _ => Self::row_target(i),
        }
    }

    fn misc_entry(byte: u8) -> (r: Option<Entry>)
        ensures
            r == misc_entry(byte),
    {
        match byte {
            0x00 => Some(Entry::new(OpCode::NOP, 1, 4, 0, (3, 3, 3, 3))),
            0x01 => Some(Entry::new(OpCode::LD(Target::BC, Target::D16), 3, 12, 0, (3, 3, 3, 3))),
            0x02 => Some(Entry::new(OpCode::LD(Target::BC, Target::A), 1, 8, 0, (3, 3, 3, 3))),
            0x03 => Some(Entry::new(OpCode::INC(Target::BC), 1, 8, 0, (3, 3, 3, 3))),
            0x04 => Some(Entry::new(OpCode::DEC(Target::B), 1, 4, 0, (2, 1, 2, 3))),
            0x06 => Some(Entry::new(OpCode::LD(Target::B, Target::D8), 2, 8, 0, (3, 3, 3, 3))),
            0x08 => Some(Entry::new(OpCode::LD(Target::A16, Target::SP), 3, 12, 0, (3, 3, 3, 3))),
            0x09 => Some(Entry::new(OpCode::ADD16(Target::HL, Target::BC), 1, 8, 0, (3, 0, 2, 2))),
            0x0A => Some(Entry::new(OpCode::LD(Target::A, Target::BC), 1, 8, 0, (3, 3, 3, 3))),
            0x0C => Some(Entry::new(OpCode::INC(Target::C), 1, 4, 0, (2, 0, 2, 3))),
            0x0D => Some(Entry::new(OpCode::DEC(Target::C), 1, 4, 0, (2, 1, 2, 3))),
            0x0E => Some(Entry::new(OpCode::LD(Target::C, Target::D8), 2, 8, 0, (3, 3, 3, 3))),
            0x11 => Some(Entry::new(OpCode::LD(Target::DE, Target::D16), 3, 12, 0, (3, 3, 3, 3))),
            0x12 => Some(Entry::new(OpCode::LD(Target::DE, Target::A), 1, 8, 0, (3, 3, 3, 3))),
            0x13 => Some(Entry::new(OpCode::INC(Target::DE), 1, 8, 0, (3, 3, 3, 3))),
            0x14 => Some(Entry::new(OpCode::DEC(Target::D), 1, 4, 0, (2, 1, 2, 3))),
            0x16 => Some(Entry::new(OpCode::LD(Target::D, Target::D8), 2, 8, 0, (3, 3, 3, 3))),
            0x19 => Some(Entry::new(OpCode::ADD16(Target::HL, Target::DE), 1, 8, 0, (3, 0, 2, 2))),
            0x1A => Some(Entry::new(OpCode::LD(Target::A, Target::DE), 1, 8, 0, (3, 3, 3, 3))),
            0x1C => Some(Entry::new(OpCode::INC(Target::E), 1, 4, 0, (2, 0, 2, 3))),
            0x1D => Some(Entry::new(OpCode::DEC(Target::E), 1, 4, 0, (2, 1, 2, 3))),
            0x1E => Some(Entry::new(OpCode::LD(Target::E, Target::D8), 2, 8, 0, (3, 3, 3, 3))),
            0x21 => Some(Entry::new(OpCode::LD(Target::HL, Target::D16), 3, 12, 0, (3, 3, 3, 3))),
            0x22 => Some(Entry::new(OpCode::LD(Target::HL, Target::A), 1, 8, 0, (3, 3, 3, 3))),
            0x23 => Some(Entry::new(OpCode::INC(Target::HL), 1, 8, 0, (3, 3, 3, 3))),
            0x24 => Some(Entry::new(OpCode::DEC(Target::H), 1, 4, 0, (2, 1, 2, 3))),
            0x26 => Some(Entry::new(OpCode::LD(Target::H, Target::D8), 2, 8, 0, (3, 3, 3, 3))),
            0x29 => Some(Entry::new(OpCode::ADD16(Target::HL, Target::HL), 1, 8, 0, (3, 0, 2, 2))),
            0x2A => Some(Entry::new(OpCode::LD(Target::A, Target::HL), 1, 8, 0, (3, 3, 3, 3))),
            0x2C => Some(Entry::new(OpCode::INC(Target::L), 1, 4, 0, (2, 0, 2, 3))),
            0x2D => Some(Entry::new(OpCode::DEC(Target::L), 1, 4, 0, (2, 1, 2, 3))),
            0x2E => Some(Entry::new(OpCode::LD(Target::L, Target::D8), 2, 8, 0, (3, 3, 3, 3))),
            0x31 => Some(Entry::new(OpCode::LD(Target::SP, Target::D16), 3, 12, 0, (3, 3, 3, 3))),
            0x32 => Some(Entry::new(OpCode::LD(Target::HL, Target::A), 1, 8, 0, (3, 3, 3, 3))),
            0x33 => Some(Entry::new(OpCode::INC(Target::SP), 1, 8, 0, (3, 3, 3, 3))),
            0x34 => Some(Entry::new(OpCode::DEC(Target::HL), 1, 12, 0, (2, 1, 2, 3))),
            0x36 => Some(Entry::new(OpCode::LD(Target::HL, Target::D8), 2, 8, 0, (3, 3, 3, 3))),
            0x39 => Some(Entry::new(OpCode::ADD16(Target::HL, Target::SP), 1, 8, 0, (3, 0, 2, 2))),
            0x3A => Some(Entry::new(OpCode::LD(Target::A, Target::HL), 1, 8, 0, (3, 3, 3, 3))),
            0x3C => Some(Entry::new(OpCode::INC(Target::A), 1, 4, 0, (2, 0, 2, 3))),
            0x3D => Some(Entry::new(OpCode::DEC(Target::A), 1, 4, 0, (2, 1, 2, 3))),
            0x3E => Some(Entry::new(OpCode::LD(Target::A, Target::D8), 2, 8, 0, (3, 3, 3, 3))),
            0x76 => Some(Entry::new(OpCode::HALT, 1, 4, 0, (3, 3, 3, 3))),
            0xC2 => Some(Entry::new(OpCode::JUMP(Flag::NotZero), 3, 16, 12, (3, 3, 3, 3))),
            0xC3 => Some(Entry::new(OpCode::JumpUnconditional, 3, 16, 0, (3, 3, 3, 3))),
            0xC6 => Some(Entry::new(OpCode::ADD(Target::D8), 2, 8, 0, (2, 0, 2, 2))),
            0xCB => Some(Entry::new(OpCode::PREFIX, 1, 4, 0, (3, 3, 3, 3))),
            0xD6 => Some(Entry::new(OpCode::SUB(Target::D8), 2, 8, 0, (2, 1, 2, 2))),
            0xE0 => Some(Entry::new(OpCode::LD(Target::A8, Target::A), 2, 12, 0, (3, 3, 3, 3))),
            0xE2 => Some(Entry::new(OpCode::LD(Target::C, Target::A), 2, 8, 0, (3, 3, 3, 3))),
            0xE6 => Some(Entry::new(OpCode::AND(Target::D8), 2, 8, 0, (2, 0, 1, 0))),
            0xE8 => Some(Entry::new(OpCode::ADD16(Target::SP, Target::R8), 2, 16, 0, (0, 0, 2, 2))),
            0xEA => Some(Entry::new(OpCode::LD(Target::A16, Target::A), 3, 16, 0, (3, 3, 3, 3))),
            0xF0 => Some(Entry::new(OpCode::LD(Target::A, Target::A8), 2, 12, 0, (3, 3, 3, 3))),
            0xF2 => Some(Entry::new(OpCode::LD(Target::A, Target::C), 2, 8, 0, (3, 3, 3, 3))),
            0xF3 => Some(Entry::new(OpCode::DisableInterrupt, 1, 4, 0, (3, 3, 3, 3))),
            0xF6 => Some(Entry::new(OpCode::OR(Target::D8), 2, 8, 0, (2, 0, 0, 0))),
            0xF8 => Some(Entry::new(OpCode::LD(Target::HL, Target::SpR8), 2, 12, 0, (0, 0, 2, 2))),
            0xF9 => Some(Entry::new(OpCode::LD(Target::SP, Target::HL), 1, 8, 0, (3, 3, 3, 3))),
            0xFA => Some(Entry::new(OpCode::LD(Target::A, Target::A16), 3, 16, 0, (3, 3, 3, 3))),
            0xFB => Some(Entry::new(OpCode::EnableInterrupt, 1, 4, 0, (3, 3, 3, 3))),
            0xFD => Some(Entry::new(OpCode::EndOfProgram, 0, 0, 0, (3, 3, 3, 3))),
            _ => None,
        }
    }

    fn alu_entry(byte: u8) -> (e: Entry)
        requires
            0x80 <= byte < 0xC0,
        ensures
            e == alu_entry(byte),
    {
        let row = (byte - 0x80) / 8;
        let col = byte % 8;
        let t = Self::row_target(col);
        match row {
            0 => Entry::new(OpCode::ADD(Self::add_row_target(col)), 1, 4, 0, (AFFECTED, 0, AFFECTED, AFFECTED)),
            1 => Entry::new(OpCode::ADC(t), 1, 4, 0, (AFFECTED, 0, AFFECTED, AFFECTED)),
            2 => Entry::new(OpCode::SUB(t), 1, 4, 0, (AFFECTED, 1, AFFECTED, AFFECTED)),
            3 => Entry::new(OpCode::SBC(t), 1, 4, 0, (AFFECTED, 1, AFFECTED, AFFECTED)),
            4 => Entry::new(OpCode::AND(t), 1, 4, 0, (AFFECTED, 0, 1, 0)),
            5 => Entry::new(OpCode::XOR(t), 1, 4, 0, (AFFECTED, 0, 0, 0)),
            6 => Entry::new(OpCode::OR(t), 1, 4, 0, (AFFECTED, 0, 0, 0)),
            _ => Entry::new(OpCode::CP(t), 1, 4, 0, (AFFECTED, 1, AFFECTED, AFFECTED)),
        }
    }

    /// The row of `byte` in the unprefixed table.
    fn unprefixed_entry(byte: u8) -> (r: Option<Entry>)
        ensures
            r == unprefixed_entry(byte),
    {
        if 0x40 <= byte && byte < 0x80 && byte != 0x76 {
            let dst = Self::row_target((byte - 0x40) / 8);
            let src = Self::row_target(byte % 8);
            Some(Entry::new(OpCode::LD(dst, src), 1, 4, 0, (NOT_AFFECTED, NOT_AFFECTED, NOT_AFFECTED, NOT_AFFECTED)))
        } else if 0x80 <= byte && byte < 0xC0 {
            Some(Self::alu_entry(byte))
        } else {
            Self::misc_entry(byte)
        }
    }

    /// The row of `byte` in the prefixed table.
    fn prefixed_entry(byte: u8) -> (e: Entry)
        ensures
            e == prefixed_entry(byte),
    {
        let col = byte % 8;
        let t = Self::add_row_target(col);
        if byte < 0x40 {
            let row = byte / 8;
            match row {
                0 => Entry::new(OpCode::RLC(t), 2, 8, 0, (AFFECTED, 0, 0, AFFECTED)),
                1 => Entry::new(OpCode::RRC(t), 2, 8, 0, (AFFECTED, 0, 0, AFFECTED)),
                2 => Entry::new(OpCode::RL(t), 2, 8, 0, (AFFECTED, 0, 0, AFFECTED)),
                3 => Entry::new(OpCode::RR(t), 2, 8, 0, (AFFECTED, 0, 0, AFFECTED)),
                4 => Entry::new(OpCode::SLA(t), 2, 8, 0, (AFFECTED, 0, 0, AFFECTED)),
                5 => Entry::new(OpCode::SRA(t), 2, 8, 0, (AFFECTED, 0, 0, 0)),
                6 => Entry::new(OpCode::SWAP(t), 2, 8, 0, (AFFECTED, 0, 0, 0)),
                _ => Entry::new(OpCode::SRL(t), 2, 8, 0, (AFFECTED, 0, 0, AFFECTED)),
            }
        } else {
            let bit = (byte / 8) % 8;
            let cycles: u16 = if t == Target::HL { 16 } else { 8 };
            if byte < 0x80 {
                Entry::new(OpCode::BIT(bit, t), 2, cycles, 0, (AFFECTED, 0, 1, NOT_AFFECTED))
            } else if byte < 0xC0 {
                Entry::new(OpCode::RES(bit, t), 2, cycles, 0, (NOT_AFFECTED, NOT_AFFECTED, NOT_AFFECTED, NOT_AFFECTED))
            } else {
                Entry::new(OpCode::SET(bit, t), 2, cycles, 0, (NOT_AFFECTED, NOT_AFFECTED, NOT_AFFECTED, NOT_AFFECTED))
            }
        }
    }

    /// The row of `byte` in the chosen table.
    fn table_entry(byte: u8, prefixed: bool) -> (r: Option<Entry>)
        ensures
            r == table_entry(byte, prefixed),
    {
        if prefixed {
            Some(Self::prefixed_entry(byte))
        } else {
            Self::unprefixed_entry(byte)
        }
    }

    /// The unprefixed instruction that `byte` encodes, if any.
    pub fn look_up(byte: u8) -> (r: Option<Instruction>)
        ensures
            match unprefixed_entry(byte) {
                Some(e) => r matches Some(i) && i.is_entry(e),
                None => r is None,
            },
    {
        if let Some(instruction) = Self::fetch(byte, false) {
            return Some(instruction);
        } else if let Some(instruction) = Self::fetch(byte, false) {
            return Some(instruction);
        }
        None
    }

    /// The instruction that `byte` encodes, in the prefixed table when `prefixed` holds.
    pub fn fetch(byte: u8, prefixed: bool) -> (r: Option<Instruction>)
        ensures
            match table_entry(byte, prefixed) {
                Some(e) => r matches Some(i) && i.is_entry(e),
                None => r is None,
            },
    {
        if prefixed {
            return Self::from_byte_prefixed(byte);
        }
        Self::from_byte(byte)
    }

    fn from_byte(byte: u8) -> (r: Option<Instruction>)
        ensures
            match unprefixed_entry(byte) {
                Some(e) => r matches Some(i) && i.is_entry(e),
                None => r is None,
            },
    {
        match Self::unprefixed_entry(byte) {
            Some(e) => Some(Self::from_entry(e)),
            None => None,
        }
    }

    fn from_byte_prefixed(byte: u8) -> (r: Option<Instruction>)
        ensures
            r matches Some(i) && i.is_entry(prefixed_entry(byte)),
    {
        Some(Self::from_entry(Self::prefixed_entry(byte)))
    }

    /// The first byte, in increasing order, whose row in the chosen table holds `op`.
    fn first_byte(op: OpCode, prefixed: bool) -> (r: Option<u8>)
        ensures
            r == first_byte(op, prefixed),
    {
        let mut b: u16 = 0;
        while b < 256
            invariant
                b <= 256,
                first_byte(op, prefixed) == first_byte_from(op, prefixed, b as int),
            decreases 256 - b,
        {
            let found = match Self::table_entry(b as u8, prefixed) {
                Some(e) => e.opcode == op,
                None => false,
            };
            if found {
                return Some(b as u8);
            }
            b = b + 1;
        }
        None
    }

    /// The instruction of `op`: its first row in the unprefixed table, else its row in the
    /// prefixed table.
    pub fn from_opcode(op: OpCode) -> (r: Option<Instruction>)
        ensures
            match opcode_byte(op) {
                Some(b) => r matches Some(i) && i.is_entry(table_entry(b, opcode_is_prefixed(op))->0) && i.opcode == op,
                None => r is None,
            },
    {
        if let Some(instruction) = Self::from_opcode_unprefixed(op) {
            return Some(instruction);
        } else if let Some(instruction) = Self::from_opcode_prefixed(op) {
            return Some(instruction);
        }
        return None;
    }

    fn from_opcode_unprefixed(op: OpCode) -> (r: Option<Instruction>)
        ensures
            match first_byte(op, false) {
                Some(b) => r matches Some(i) && i.is_entry(unprefixed_entry(b)->0) && i.opcode == op,
                None => r is None,
            },
    {
        proof { lemma_first_byte_holds(op, false, 0); }
        match Self::first_byte(op, false) {
            Some(b) => Self::from_byte(b),
            None => None,
        }
    }

    fn from_opcode_prefixed(op: OpCode) -> (r: Option<Instruction>)
        ensures
            match first_byte(op, true) {
                Some(b) => r matches Some(i) && i.is_entry(prefixed_entry(b)) && i.opcode == op,
                None => r is None,
            },
    {
        proof { lemma_first_byte_holds(op, true, 0); }
        match Self::first_byte(op, true) {
            Some(b) => Self::from_byte_prefixed(b),
            None => None,
        }
    }

    /// The byte that encodes `op`: its first row in the unprefixed table, else its row in
    /// the prefixed table.
    pub fn byte_from_opcode(op: OpCode) -> (r: Option<u8>)
        ensures
            r == opcode_byte(op),
    {
        if let Some(byte) = Self::byte_from_opcode_unprefixed(op) {
            return Some(byte);
        } else if let Some(byte) = Self::byte_from_opcode_prefixed(op) {
            return Some(byte);
        }
        None
    }

    fn byte_from_opcode_unprefixed(opcode: OpCode) -> (r: Option<u8>)
        ensures
            r == first_byte(opcode, false),
    {
        Self::first_byte(opcode, false)
    }

    fn byte_from_opcode_prefixed(opcode: OpCode) -> (r: Option<u8>)
        ensures
            r == first_byte(opcode, true),
    {
        Self::first_byte(opcode, true)
    }
}

/// A byte that `first_byte_from` returns holds the opcode, and no byte before it does.
pub proof fn lemma_first_byte_holds(op: OpCode, prefixed: bool, from: int)
    requires
        0 <= from <= 256,
    ensures
        first_byte_from(op, prefixed, from) matches Some(b) ==> from <= b && holds_opcode(b, prefixed, op)
            && forall|c: u8| from <= c < b ==> !holds_opcode(c, prefixed, op),
        first_byte_from(op, prefixed, from) is None ==> forall|c: u8| from <= c ==> !holds_opcode(c, prefixed, op),
    decreases 256 - from,
{
    if from < 256 {
        lemma_first_byte_holds(op, prefixed, from + 1);
    }
}

/// No two bytes of the prefixed table decode to the same operation.
pub proof fn lemma_prefixed_injective(b1: u8, b2: u8)
    requires
        prefixed_entry(b1).opcode == prefixed_entry(b2).opcode,
    ensures
        b1 == b2,
{
    assert(b1 == (b1 / 8) * 8 + b1 % 8);
    assert(b2 == (b2 / 8) * 8 + b2 % 8);
    assert((b1 / 8) as int == (b1 / 64) * 8 + (b1 / 8) % 8);
    assert((b2 / 8) as int == (b2 / 64) * 8 + (b2 / 8) % 8);
}

/// No row of the unprefixed table holds an operation of the prefixed table.
pub proof fn lemma_prefixed_ops_not_unprefixed(b: u8, c: u8)
    ensures
        !holds_opcode(c, false, prefixed_entry(b).opcode),
{
}

/// The byte that `byte_from_opcode` gives for an operation decodes, in the table it was
/// found in, back to that operation: `fetch` of it without the prefix gives the operation, or
/// no row of the unprefixed table holds the operation and `fetch` of it with the prefix gives
/// it. It gives a byte for every operation of either table, and none for any other.
pub proof fn lemma_opcode_byte_decodes(op: OpCode)
    ensures
        opcode_byte(op) matches Some(b) ==> table_entry(b, opcode_is_prefixed(op)) matches Some(e)
            && e.opcode == op,
        opcode_byte(op) matches Some(b) ==> {
            ||| table_entry(b, false) matches Some(e) && e.opcode == op
            ||| (forall|c: u8| !holds_opcode(c, false, op)) && (table_entry(b, true) matches Some(e)
                && e.opcode == op)
        },
        opcode_byte(op) is None <==> forall|c: u8| !holds_opcode(c, false, op) && !holds_opcode(c, true, op),
{
    lemma_first_byte_holds(op, false, 0);
    lemma_first_byte_holds(op, true, 0);
}

/// Every byte of the prefixed table is the byte `byte_from_opcode` gives for its operation,
/// found in the prefixed table.
pub proof fn lemma_prefixed_round_trip(b: u8)
    ensures
        opcode_byte(prefixed_entry(b).opcode) == Some(b),
        opcode_is_prefixed(prefixed_entry(b).opcode),
{
    let op = prefixed_entry(b).opcode;
    lemma_first_byte_holds(op, false, 0);
    lemma_first_byte_holds(op, true, 0);
    assert forall|c: u8| !holds_opcode(c, false, op) by {
        lemma_prefixed_ops_not_unprefixed(b, c);
    }
    assert(holds_opcode(b, true, op));
    let f = first_byte(op, true)->0;
    lemma_prefixed_injective(f, b);
}

/// For every byte of the unprefixed table, `byte_from_opcode` gives the first byte, at or
/// before it, that holds the same operation.
pub proof fn lemma_unprefixed_first_byte(b: u8)
    requires
        unprefixed_entry(b) is Some,
    ensures
        opcode_byte(unprefixed_entry(b)->0.opcode) matches Some(f) && f <= b
            && !opcode_is_prefixed(unprefixed_entry(b)->0.opcode)
            && unprefixed_entry(f)->0.opcode == unprefixed_entry(b)->0.opcode,
{
    let op = unprefixed_entry(b)->0.opcode;
    lemma_first_byte_holds(op, false, 0);
    assert(holds_opcode(b, false, op));
}

} // verus!
