use vstd::prelude::*;

verus! {

/// An operand of an instruction: a register, a register pair, an immediate or an address.
#[allow(non_camel_case_types)]
#[derive(Debug, Clone, Copy, PartialEq, Eq, Structural)]
pub enum Target {
    A,
    B,
    C,
    D,
    E,
    F,
    L,
    H,
    HL,
    HLP,
    HLM,
    AF,
    BC,
    DE,
    R8,
    R16,
    D8,
    D16,
    A8,
    A16,
    SP,
    SP_R8,
}

/// The operands that hold or name sixteen bits.
pub open spec fn is_16bit_target(t: Target) -> bool {
    ||| t == Target::HL
    ||| t == Target::AF
    ||| t == Target::BC
    ||| t == Target::DE
    ||| t == Target::R16
    ||| t == Target::D16
    ||| t == Target::A16
    ||| t == Target::SP_R8
}

/// The name of an operand.
pub open spec fn target_name(t: Target) -> &'static str {
    match t {
        Target::A => "A",
        Target::B => "B",
        Target::C => "C",
        Target::D => "D",
        Target::E => "E",
        Target::F => "F",
        Target::L => "L",
        Target::H => "H",
        Target::HL => "HL",
        Target::HLP => "HLP",
        Target::HLM => "HLM",
        Target::AF => "AF",
        Target::BC => "BC",
        Target::DE => "DE",
        Target::R8 => "R8",
        Target::R16 => "R16",
        Target::D8 => "D8",
        Target::D16 => "D16",
        Target::A8 => "A8",
        Target::A16 => "A16",
        Target::SP => "SP",
        Target::SP_R8 => "SP_R8",
    }
}

impl Target {
    /// Whether the operand holds or names sixteen bits.
    pub fn is_16bit(&self) -> (r: bool)
        ensures
            r == is_16bit_target(*self),
    {
        *self == Target::HL || *self == Target::AF || *self == Target::BC || *self == Target::DE
            || *self == Target::R16 || *self == Target::D16 || *self == Target::A16
            || *self == Target::SP_R8
    }

    /// The name of the operand.
    pub fn name(&self) -> (s: String)
        ensures
            s@ == target_name(*self)@,
    {
        match self {
            Target::A => "A".to_owned(),
            Target::B => "B".to_owned(),
            Target::C => "C".to_owned(),
            Target::D => "D".to_owned(),
            Target::E => "E".to_owned(),
            Target::F => "F".to_owned(),
            Target::L => "L".to_owned(),
            Target::H => "H".to_owned(),
            Target::HL => "HL".to_owned(),
            Target::HLP => "HLP".to_owned(),
            Target::HLM => "HLM".to_owned(),
            Target::AF => "AF".to_owned(),
            Target::BC => "BC".to_owned(),
            Target::DE => "DE".to_owned(),
            Target::R8 => "R8".to_owned(),
            Target::R16 => "R16".to_owned(),
            Target::D8 => "D8".to_owned(),
            Target::D16 => "D16".to_owned(),
            Target::A8 => "A8".to_owned(),
            Target::A16 => "A16".to_owned(),
            Target::SP => "SP".to_owned(),
            Target::SP_R8 => "SP_R8".to_owned(),
        }
    }
}

} // verus!
