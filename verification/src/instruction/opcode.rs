use vstd::prelude::*;

use crate::consoles::gameboy::registers::Flag;
use crate::consoles::gameboy::target::Target;

verus! {

/// The operations of the processor, with their operands, as the instruction set first named
/// them (without LDH).
#[allow(non_camel_case_types)]
#[derive(Debug, Clone, Copy, PartialEq, Eq, Structural)]
pub enum OpCode {
    ADC(Target),
    ADD(Target),
    ADD16(Target, Target),
    AND(Target),
    BIT(u8, Target),
    CALL(Flag),
    CALL_UC,
    /// Prefix of the second table.
    CB,
    /// Toggles the carry flag.
    CCF,
    /// Like SUB, but the result is not stored back into A.
    CP(Target),
    CPL,
    DDA,
    DEC(Target),
    DEC16(Target),
    DisableInterrupt,
    EnableInterrupt,
    HALT,
    INC(Target),
    INC16(Target),
    JUMP(Flag),
    JP,
    JP_HL,
    JR(Flag),
    /// JR r8 without a condition.
    JRUC,
    LD(Target, Target),
    LDA,
    NOP,
    OR(Target),
    POP(Target),
    PUSH(Target),
    RES(u8, Target),
    RET_UC,
    RET(Flag),
    RETI,
    /// Rotates a register left through the carry flag.
    RL(Target),
    RLA,
    /// Rotates a register left, not through the carry flag.
    RLC(Target),
    RLCA,
    RCA,
    /// Rotates a register right through the carry flag.
    RR(Target),
    RRA,
    /// Rotates a register right, not through the carry flag.
    RRC(Target),
    RRCA,
    /// Rotates A left, not through the carry flag.
    RRLA,
    RST(u16),
    SBC(Target),
    /// Sets the carry flag.
    SCF,
    SET(u8, Target),
    /// Shifts left by one.
    SLA(Target),
    /// Shifts right by one.
    SRA(Target),
    /// Shifts a register right.
    SRL(Target),
    STOP,
    SUB(Target),
    /// Swaps the upper and lower nibble.
    SWAP(Target),
    XOR(Target),
    EndOfProgram,
    /// Not a Game Boy instruction: a convenience, destination address first, then the value.
    STORE(Target, Target),
    /// Not a Game Boy instruction: a convenience, destination address first, then the value.
    STORE16(Target, Target),
}

} // verus!
