use vstd::prelude::*;

use super::registers::Flag;
use super::target::Target;

verus! {

/// The operations of the Game Boy processor, with their operands.
#[allow(non_camel_case_types)]
#[derive(Debug, Clone, Copy, PartialEq, Eq, Structural)]
pub enum OpCode {
    ADC(Target),
    ADD(Target),
    ADD16(Target, Target),
    AND(Target),
    BIT(u8, Target),
    CALL(Flag),
    CALL_UC,
    /// Prefix of the second table.
    CB,
    /// Toggles the carry flag.
    CCF,
    /// Like SUB, but the result is not stored back into A.
    CP(Target),
    CPL,
    DDA,
    DEC(Target),
    DEC16(Target),
    DisableInterrupt,
    EnableInterrupt,
    HALT,
    INC(Target),
    INC16(Target),
    JUMP(Flag),
    JP,
    JP_HL,
    JR(Flag),
    /// JR r8 without a condition.
    JRUC,
    LD(Target, Target),
    LDH(Target, Target),
    LDA,
    NOP,
    OR(Target),
    POP(Target),
    PUSH(Target),
    RES(u8, Target),
    RET_UC,
    RET(Flag),
    RETI,
    /// Rotates a register left through the carry flag.
    RL(Target),
    RLA,
    /// Rotates a register left, not through the carry flag.
    RLC(Target),
    RLCA,
    RCA,
    /// Rotates a register right through the carry flag.
    RR(Target),
    RRA,
    /// Rotates a register right, not through the carry flag.
    RRC(Target),
    RRCA,
    /// Rotates A left, not through the carry flag.
    RRLA,
    RST(u16),
    SBC(Target),
    /// Sets the carry flag.
    SCF,
    SET(u8, Target),
    /// Shifts left by one.
    SLA(Target),
    /// Shifts right by one.
    SRA(Target),
    /// Shifts a register right.
    SRL(Target),
    STOP,
    SUB(Target),
    /// Swaps the upper and lower nibble.
    SWAP(Target),
    XOR(Target),
    EndOfProgram,
    /// Not a Game Boy instruction: a convenience, destination address first, then the value.
    STORE(Target, Target),
    /// Not a Game Boy instruction: a convenience, destination address first, then the value.
    STORE16(Target, Target),
}

/// The name of an operation, without its operands.
pub open spec fn opcode_name(op: OpCode) -> &'static str {
    match op {
        OpCode::ADC(_) => "ADC",
        OpCode::ADD(_) => "ADD",
        OpCode::ADD16(_, _) => "ADD16",
        OpCode::AND(_) => "AND",
        OpCode::BIT(_, _) => "BIT",
        OpCode::CALL(_) => "CALL",
        OpCode::CALL_UC => "CALL_UC",
        OpCode::CB => "CB",
        OpCode::CCF => "CCF",
        OpCode::CP(_) => "CP",
        OpCode::CPL => "CPL",
        OpCode::DDA => "DDA",
        OpCode::DEC(_) => "DEC",
        OpCode::DEC16(_) => "DEC16",
        OpCode::DisableInterrupt => "DisableInterrupt",
        OpCode::EnableInterrupt => "EnableInterrupt",
        OpCode::HALT => "HALT",
        OpCode::INC(_) => "INC",
        OpCode::INC16(_) => "INC16",
        OpCode::JUMP(_) => "JUMP",
        OpCode::JP => "JP",
        OpCode::JP_HL => "JP_HL",
        OpCode::JR(_) => "JR",
        OpCode::JRUC => "JRUC",
        OpCode::LD(_, _) => "LD",
        OpCode::LDH(_, _) => "LDH",
        OpCode::LDA => "LDA",
        OpCode::NOP => "NOP",
        OpCode::OR(_) => "OR",
        OpCode::POP(_) => "POP",
        OpCode::PUSH(_) => "PUSH",
        OpCode::RES(_, _) => "RES",
        OpCode::RET_UC => "RET_UC",
        OpCode::RET(_) => "RET",
        OpCode::RETI => "RETI",
        OpCode::RL(_) => "RL",
        OpCode::RLA => "RLA",
        OpCode::RLC(_) => "RLC",
        OpCode::RLCA => "RLCA",
        OpCode::RCA => "RCA",
        OpCode::RR(_) => "RR",
        OpCode::RRA => "RRA",
        OpCode::RRC(_) => "RRC",
        OpCode::RRCA => "RRCA",
        OpCode::RRLA => "RRLA",
        OpCode::RST(_) => "RST",
        OpCode::SBC(_) => "SBC",
        OpCode::SCF => "SCF",
        OpCode::SET(_, _) => "SET",
        OpCode::SLA(_) => "SLA",
        OpCode::SRA(_) => "SRA",
        OpCode::SRL(_) => "SRL",
        OpCode::STOP => "STOP",
        OpCode::SUB(_) => "SUB",
        OpCode::SWAP(_) => "SWAP",
        OpCode::XOR(_) => "XOR",
        OpCode::EndOfProgram => "EndOfProgram",
        OpCode::STORE(_, _) => "STORE",
        OpCode::STORE16(_, _) => "STORE16",
    }
}

impl OpCode {
    /// The name of the operation, without its operands.
    pub fn name(&self) -> (s: String)
        ensures
            s@ == opcode_name(*self)@,
    {
        match self {
            OpCode::ADC(_) => "ADC".to_owned(),
            OpCode::ADD(_) => "ADD".to_owned(),
            OpCode::ADD16(_, _) => "ADD16".to_owned(),
            OpCode::AND(_) => "AND".to_owned(),
            OpCode::BIT(_, _) => "BIT".to_owned(),
            OpCode::CALL(_) => "CALL".to_owned(),
            OpCode::CALL_UC => "CALL_UC".to_owned(),
            OpCode::CB => "CB".to_owned(),
            OpCode::CCF => "CCF".to_owned(),
            OpCode::CP(_) => "CP".to_owned(),
            OpCode::CPL => "CPL".to_owned(),
            OpCode::DDA => "DDA".to_owned(),
            OpCode::DEC(_) => "DEC".to_owned(),
            OpCode::DEC16(_) => "DEC16".to_owned(),
            OpCode::DisableInterrupt => "DisableInterrupt".to_owned(),
            OpCode::EnableInterrupt => "EnableInterrupt".to_owned(),
            OpCode::HALT => "HALT".to_owned(),
            OpCode::INC(_) => "INC".to_owned(),
            OpCode::INC16(_) => "INC16".to_owned(),
            OpCode::JUMP(_) => "JUMP".to_owned(),
            OpCode::JP => "JP".to_owned(),
            OpCode::JP_HL => "JP_HL".to_owned(),
            OpCode::JR(_) => "JR".to_owned(),
            OpCode::JRUC => "JRUC".to_owned(),
            OpCode::LD(_, _) => "LD".to_owned(),
            OpCode::LDH(_, _) => "LDH".to_owned(),
            OpCode::LDA => "LDA".to_owned(),
            OpCode::NOP => "NOP".to_owned(),
            OpCode::OR(_) => "OR".to_owned(),
            OpCode::POP(_) => "POP".to_owned(),
            OpCode::PUSH(_) => "PUSH".to_owned(),
            OpCode::RES(_, _) => "RES".to_owned(),
            OpCode::RET_UC => "RET_UC".to_owned(),
            OpCode::RET(_) => "RET".to_owned(),
            OpCode::RETI => "RETI".to_owned(),
            OpCode::RL(_) => "RL".to_owned(),
            OpCode::RLA => "RLA".to_owned(),
            OpCode::RLC(_) => "RLC".to_owned(),
            OpCode::RLCA => "RLCA".to_owned(),
            OpCode::RCA => "RCA".to_owned(),
            OpCode::RR(_) => "RR".to_owned(),
            OpCode::RRA => "RRA".to_owned(),
            OpCode::RRC(_) => "RRC".to_owned(),
            OpCode::RRCA => "RRCA".to_owned(),
            OpCode::RRLA => "RRLA".to_owned(),
            OpCode::RST(_) => "RST".to_owned(),
            OpCode::SBC(_) => "SBC".to_owned(),
            OpCode::SCF => "SCF".to_owned(),
            OpCode::SET(_, _) => "SET".to_owned(),
            OpCode::SLA(_) => "SLA".to_owned(),
            OpCode::SRA(_) => "SRA".to_owned(),
            OpCode::SRL(_) => "SRL".to_owned(),
            OpCode::STOP => "STOP".to_owned(),
            OpCode::SUB(_) => "SUB".to_owned(),
            OpCode::SWAP(_) => "SWAP".to_owned(),
            OpCode::XOR(_) => "XOR".to_owned(),
            OpCode::EndOfProgram => "EndOfProgram".to_owned(),
            OpCode::STORE(_, _) => "STORE".to_owned(),
            OpCode::STORE16(_, _) => "STORE16".to_owned(),
        }
    }
}

} // verus!
