use vstd::prelude::*;

use super::opcode::OpCode;

verus! {

/// What an instruction does to one flag: clear it, raise it, set it from the result, or leave
/// it alone.
#[derive(Debug, Clone, Copy, PartialEq, Eq, Structural)]
pub enum FlagAction {
    Reset,
    Raise,
    Affected,
    NotAffected,
}

/// What an instruction does to each of the four flags.
#[derive(Debug, Clone, Copy, PartialEq, Eq, Structural)]
pub struct FlagAffection {
    pub zero_flag: FlagAction,
    pub sub_flag: FlagAction,
    pub half_carry_flag: FlagAction,
    pub carry_flag: FlagAction,
}

/// An instruction of the Game Boy processor: its operation, its length in bytes, the cycles it
/// takes (and takes when a condition fails), and what it does to the flags.
#[derive(Debug, Clone, Copy, PartialEq, Eq, Structural)]
pub struct Instruction {
    pub opcode: OpCode,
    pub length: u8,
    pub cycles: u8,
    pub optional_cycles: u8,
    pub flag_affection: FlagAffection,
}

} // verus!
