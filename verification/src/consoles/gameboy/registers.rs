use vstd::prelude::*;

use super::target::Target;
use crate::utils::conversion::{hex_char, u8_as_bit_string, u8_as_hex_string, u8_bit_chars};

verus! {

pub const ZERO_BIT_POS: u8 = 7;
pub const CARRY_BIT_POS: u8 = 4;
pub const HALF_CARRY_BIT_POS: u8 = 5;
pub const SUB_BIT_POS: u8 = 6;

/// The eight registers of the processor; `f` holds the flags.
#[derive(Debug)]
pub struct Registers {
    pub a: u8,
    pub f: u8,
    pub b: u8,
    pub c: u8,
    pub d: u8,
    pub e: u8,
    pub h: u8,
    pub l: u8,
}

/// A condition on the flag register: a flag, or the negation of one.
#[derive(Debug, Clone, Copy, PartialEq, Eq, Structural)]
pub enum Flag {
    Zero,
    Carry,
    HalfCarry,
    Sub,
    NotZero,
    NotCarry,
    NotHalfCarry,
    NotSub,
}

/// Two to the power `pos`, for the eight bit positions of a byte.
pub open spec fn pow2_u8(pos: u8) -> u8 {
    if pos == 0 { 1 }
    else if pos == 1 { 2 }
    else if pos == 2 { 4 }
    else if pos == 3 { 8 }
    else if pos == 4 { 16 }
    else if pos == 5 { 32 }
    else if pos == 6 { 64 }
    else { 128 }
}

/// Bit `pos` of `x`.
pub open spec fn bit_of(x: u8, pos: u8) -> bool {
    (x / pow2_u8(pos)) % 2 == 1
}

/// The bit of the flag register that a condition reads.
pub open spec fn flag_pos(flag: Flag) -> u8 {
    match flag {
        Flag::Zero | Flag::NotZero => ZERO_BIT_POS,
        Flag::Carry | Flag::NotCarry => CARRY_BIT_POS,
        Flag::HalfCarry | Flag::NotHalfCarry => HALF_CARRY_BIT_POS,
        Flag::Sub | Flag::NotSub => SUB_BIT_POS,
    }
}

/// The conditions that name a flag itself rather than its negation.
pub open spec fn is_plain_flag(flag: Flag) -> bool {
    flag == Flag::Zero || flag == Flag::Carry || flag == Flag::HalfCarry || flag == Flag::Sub
}

/// Whether the condition holds of the flag register `f`.
pub open spec fn flag_holds(f: u8, flag: Flag) -> bool {
    if is_plain_flag(flag) {
        bit_of(f, flag_pos(flag))
    } else {
        !bit_of(f, flag_pos(flag))
    }
}

/// The byte `f` with the bit at `pos` set to `v`.
pub open spec fn with_bit(f: u8, pos: u8, v: bool) -> u8 {
    if bit_of(f, pos) == v {
        f
    } else if v {
        (f + pow2_u8(pos)) as u8
    } else {
        (f - pow2_u8(pos)) as u8
    }
}

/// The flag register `f` with `flag` set to `v`.
pub open spec fn with_flag(f: u8, flag: Flag, v: bool) -> u8 {
    with_bit(f, flag_pos(flag), v)
}

/// The registers that hold eight bits.
pub open spec fn is_reg8(t: Target) -> bool {
    ||| t == Target::A
    ||| t == Target::B
    ||| t == Target::C
    ||| t == Target::D
    ||| t == Target::E
    ||| t == Target::F
    ||| t == Target::L
    ||| t == Target::H
}

/// The register pairs that `combined_register` reads.
pub open spec fn is_pair(t: Target) -> bool {
    t == Target::HL || t == Target::BC || t == Target::DE || t == Target::AF
}

/// The sixteen bit value of a high and a low byte.
pub open spec fn pair_value(hi: u8, lo: u8) -> int {
    hi * 256 + lo
}

/// How the shifts and masks on a byte read and write its bits.
pub proof fn lemma_u8_bits(x: u8, pos: u8)
    requires
        pos < 8,
    ensures
        (x >> pos) & 1u8 == (if bit_of(x, pos) { 1u8 } else { 0u8 }),
        (x & (1u8 << pos)) >> pos == (if bit_of(x, pos) { 1u8 } else { 0u8 }),
        ((x & (1u8 << pos)) != 0) == bit_of(x, pos),
        x | (1u8 << pos) == with_bit(x, pos, true),
        x & !(1u8 << pos) == with_bit(x, pos, false),
        (x >> 7u8 == 1u8) == bit_of(x, 7),
        (x >> 7u8 == 0u8) == !bit_of(x, 7),
        !x == (255 - x) as u8,
{
    assert(((x >> pos) & 1u8 == (if bit_of(x, pos) { 1u8 } else { 0u8 }))
        && ((x & (1u8 << pos)) >> pos == (if bit_of(x, pos) { 1u8 } else { 0u8 }))
        && (((x & (1u8 << pos)) != 0) == bit_of(x, pos))
        && (x | (1u8 << pos) == with_bit(x, pos, true))
        && (x & !(1u8 << pos) == with_bit(x, pos, false))
        && ((x >> 7u8 == 1u8) == bit_of(x, 7))
        && ((x >> 7u8 == 0u8) == !bit_of(x, 7))
        && (!x == (255 - x) as u8)) by (bit_vector)
        requires pos < 8;
}

/// Setting bit `pos` sets that bit to `v` and leaves every other bit.
pub proof fn lemma_with_bit(f: u8, pos: u8, v: bool)
    requires
        pos < 8,
    ensures
        bit_of(with_bit(f, pos, v), pos) == v,
        forall|q: u8| q < 8 && q != pos ==> bit_of(#[trigger] with_bit(f, pos, v), q) == bit_of(f, q),
{
    assert(bit_of(with_bit(f, pos, v), pos) == v) by (bit_vector)
        requires pos < 8;
    assert forall|q: u8| q < 8 && q != pos implies bit_of(#[trigger] with_bit(f, pos, v), q) == bit_of(f, q) by {
        assert(bit_of(with_bit(f, pos, v), q) == bit_of(f, q)) by (bit_vector)
            requires pos < 8, q < 8, q != pos;
    }
}

/// Setting a flag and then reading it gives back the value set; every other flag reads as
/// before, and a negated condition always reads the opposite of its flag.
pub proof fn lemma_flag_set_then_get(f: u8, flag: Flag, v: bool, other: Flag)
    requires
        is_plain_flag(flag),
    ensures
        flag_holds(with_flag(f, flag, v), flag) == v,
        flag_pos(other) != flag_pos(flag) ==> flag_holds(with_flag(f, flag, v), other) == flag_holds(f, other),
        !is_plain_flag(other) ==> flag_holds(f, other) == !bit_of(f, flag_pos(other)),
{
    lemma_with_bit(f, flag_pos(flag), v);
    assert(flag_pos(other) < 8);
}

/// Writing a register pair and reading it back gives the value written, and writing back
/// what a pair holds changes nothing.
pub proof fn lemma_pair_round_trip(r: Registers, t: Target, v: u16)
    requires
        is_pair(t),
    ensures
        r.with_pair(t, v).pair(t) == v,
        r.with_pair(t, r.pair(t) as u16) == r,
{
}

impl Registers {
    /// The eight bit register that `t` names.
    pub open spec fn reg8(&self, t: Target) -> u8 {
        match t {
            Target::A => self.a,
            Target::B => self.b,
            Target::C => self.c,
            Target::D => self.d,
            Target::E => self.e,
            Target::F => self.f,
            Target::L => self.l,
            _ => self.h,
        }
    }

    /// These registers with the eight bit register `t` set to `v`.
    pub open spec fn with_reg8(&self, t: Target, v: u8) -> Registers {
        Registers {
            a: if t == Target::A { v } else { self.a },
            f: if t == Target::F { v } else { self.f },
            b: if t == Target::B { v } else { self.b },
            c: if t == Target::C { v } else { self.c },
            d: if t == Target::D { v } else { self.d },
            e: if t == Target::E { v } else { self.e },
            h: if t == Target::H { v } else { self.h },
            l: if t == Target::L { v } else { self.l },
        }
    }

    /// The value of the register pair `t`.
    pub open spec fn pair(&self, t: Target) -> int {
        match t {
            Target::HL => pair_value(self.h, self.l),
            Target::BC => pair_value(self.b, self.c),
            Target::DE => pair_value(self.d, self.e),
            _ => pair_value(self.a, self.f),
        }
    }

    /// These registers with the pair `t` set to `v`.
    pub open spec fn with_pair(&self, t: Target, v: u16) -> Registers {
        let hi = (v / 256) as u8;
        let lo = (v % 256) as u8;
        Registers {
            a: if t == Target::AF { hi } else { self.a },
            f: if t == Target::AF { lo } else { self.f },
            b: if t == Target::BC { hi } else { self.b },
            c: if t == Target::BC { lo } else { self.c },
            d: if t == Target::DE { hi } else { self.d },
            e: if t == Target::DE { lo } else { self.e },
            h: if t == Target::HL { hi } else { self.h },
            l: if t == Target::HL { lo } else { self.l },
        }
    }

    /// These registers with the flag register `f` replaced.
    pub open spec fn with_f(&self, f: u8) -> Registers {
        self.with_reg8(Target::F, f)
    }

    /// All registers hold zero.
    pub open spec fn is_zeroed(&self) -> bool {
        self.a == 0 && self.f == 0 && self.b == 0 && self.c == 0 && self.d == 0 && self.e == 0
            && self.h == 0 && self.l == 0
    }

    pub fn new() -> (r: Registers)
        ensures
            r.is_zeroed(),
    {
        Registers { a: 0, b: 0, c: 0, d: 0, e: 0, f: 0, l: 0, h: 0 }
    }

    /// Whether the condition `flag` holds.
    pub fn get_flag(&self, flag: Flag) -> (r: bool)
        ensures
            r == flag_holds(self.f, flag),
    {
        let f = self.f;
        proof {
            lemma_u8_bits(f, 4);
            lemma_u8_bits(f, 5);
            lemma_u8_bits(f, 6);
            lemma_u8_bits(f, 7);
        }
        match flag {
            Flag::Zero => (f >> ZERO_BIT_POS) == 1,
            Flag::Carry => (f & (1 << CARRY_BIT_POS)) >= 1,
            Flag::HalfCarry => (f & (1 << HALF_CARRY_BIT_POS)) >= 1,
            Flag::Sub => (f & (1 << SUB_BIT_POS)) >= 1,
            Flag::NotZero => (f >> ZERO_BIT_POS) == 0,
            Flag::NotCarry => (f & (1 << CARRY_BIT_POS)) == 0,
            Flag::NotHalfCarry => (f & (1 << HALF_CARRY_BIT_POS)) == 0,
            Flag::NotSub => (f & (1 << SUB_BIT_POS)) == 0,
        }
    }

    /// The bit of a plain flag, as 0 or 1.
    pub fn filter_flag(&self, flag: Flag) -> (r: u8)
        requires
            is_plain_flag(flag),
        ensures
            r == (if bit_of(self.f, flag_pos(flag)) { 1u8 } else { 0u8 }),
    {
        let f = self.f;
        proof {
            lemma_u8_bits(f, 4);
            lemma_u8_bits(f, 5);
            lemma_u8_bits(f, 6);
            lemma_u8_bits(f, 7);
        }
        match flag {
            Flag::Zero => (f & (1 << ZERO_BIT_POS)) >> ZERO_BIT_POS,
            Flag::Carry => (f & (1 << CARRY_BIT_POS)) >> CARRY_BIT_POS,
            Flag::HalfCarry => (f & (1 << HALF_CARRY_BIT_POS)) >> HALF_CARRY_BIT_POS,
            _ => (f & (1 << SUB_BIT_POS)) >> SUB_BIT_POS,
        }
    }

    /// Sets a plain flag to `v`; every other register and flag bit stays.
    pub fn set_flag(&mut self, flag: Flag, v: bool)
        requires
            is_plain_flag(flag),
        ensures
            *final(self) == old(self).with_f(with_flag(old(self).f, flag, v)),
    {
        proof {
            lemma_u8_bits(self.f, flag_pos(flag));
        }
        let mut mask: u8 = match flag {
            Flag::Zero => 1 << ZERO_BIT_POS,
            Flag::Carry => 1 << CARRY_BIT_POS,
            Flag::HalfCarry => 1 << HALF_CARRY_BIT_POS,
            _ => 1 << SUB_BIT_POS,
        };
        if !v {
            mask = !mask;
            self.f = self.f & mask;
        } else {
            self.f = self.f | mask;
        }
    }

    /// Sets a plain flag to whether `bit` is non-zero.
    pub fn set_flag_from_u8(&mut self, flag: Flag, bit: u8)
        requires
            is_plain_flag(flag),
        ensures
            *final(self) == old(self).with_f(with_flag(old(self).f, flag, bit != 0)),
    {
        if bit == 0 {
            self.set_flag(flag, false);
        } else {
            self.set_flag(flag, true);
        }
    }

    /// Bit `bit` of the eight bit register `reg`.
    pub fn get_bit(&self, reg: Target, bit: &u32) -> (r: bool)
        requires
            is_reg8(reg),
            *bit < 8,
        ensures
            r == bit_of(self.reg8(reg), *bit as u8),
    {
        let b = *bit as u8;
        let mask: u8 = 1 << b;
        let v = match reg {
            Target::A => self.a,
            Target::B => self.b,
            Target::C => self.c,
            Target::D => self.d,
            Target::E => self.e,
            Target::F => self.f,
            Target::L => self.l,
            _ => self.h,
        };
        proof {
            lemma_u8_bits(v, b);
        }
        (v & mask) >= 1
    }

    /// With `v == 1` sets bit `bit` of `reg`. Otherwise it ands `reg` with `0b0111_1111` with bit
    /// `bit` flipped: below bit 7 that clears bit `bit` and bit 7, and at bit 7 it changes nothing.
    pub fn set_bit(&mut self, reg: Target, bit: &u32, v: u8)
        requires
            is_reg8(reg),
            *bit < 8,
        ensures
            *final(self) == old(self).with_reg8(
                reg,
                if v == 1 {
                    with_bit(old(self).reg8(reg), *bit as u8, true)
                } else if *bit < 7 {
                    with_bit(with_bit(old(self).reg8(reg), *bit as u8, false), 7, false)
                } else {
                    old(self).reg8(reg)
                },
            ),
    {
        let b = *bit as u8;
        let old_v = match reg {
            Target::A => self.a,
            Target::B => self.b,
            Target::C => self.c,
            Target::D => self.d,
            Target::E => self.e,
            Target::F => self.f,
            Target::L => self.l,
            _ => self.h,
        };
        proof {
            lemma_u8_bits(old_v, b);
            assert(b < 7 ==> old_v & (127u8 ^ (1u8 << b)) == with_bit(with_bit(old_v, b, false), 7, false)) by (bit_vector)
                requires b < 8;
            assert(b == 7 ==> old_v & (127u8 ^ (1u8 << b)) == old_v) by (bit_vector);
        }
        let new_v = if v == 1 {
            let mask: u8 = v << b;
            old_v | mask
        } else {
            let mut mask: u8 = 0b1111111;
            mask = mask ^ (1 << b);
            old_v & mask
        };
        match reg {
            Target::A => self.a = new_v,
            Target::B => self.b = new_v,
            Target::C => self.c = new_v,
            Target::D => self.d = new_v,
            Target::E => self.e = new_v,
            Target::F => self.f = new_v,
            Target::L => self.l = new_v,
            _ => self.h = new_v,
        }
    }

    /// The value of the register pair `reg` (HL, BC, DE or AF): high byte times 256 plus low byte.
    pub fn combined_register(&self, reg: Target) -> (r: u16)
        requires
            is_pair(reg),
        ensures
            r as int == self.pair(reg),
    {
        let (hi, lo) = match reg {
            Target::HL => (self.h, self.l),
            Target::BC => (self.b, self.c),
            Target::DE => (self.d, self.e),
            _ => (self.a, self.f),
        };
        assert(((hi as u16) << 8u16) | (lo as u16) == (hi as u16) * 256 + (lo as u16)) by (bit_vector);
        ((hi as u16) << 8) | lo as u16
    }

    /// Sets the register pair `reg` (HL, BC, DE or AF) to `v`: the high byte to `v / 256`, the
    /// low byte to `v % 256`.
    pub fn set_combined_register(&mut self, reg: Target, v: u16)
        requires
            is_pair(reg),
        ensures
            *final(self) == old(self).with_pair(reg, v),
    {
        let hi = ((v & 0b1111111100000000) >> 8) as u8;
        let lo = (v & 0b11111111) as u8;
        assert((v & 0xff00u16) >> 8u16 == v / 256) by (bit_vector);
        assert(v & 0xffu16 == v % 256) by (bit_vector);
        match reg {
            Target::HL => {
                self.h = hi;
                self.l = lo;
            },
            Target::BC => {
                self.b = hi;
                self.c = lo;
            },
            Target::DE => {
                self.d = hi;
                self.e = lo;
            },
            _ => {
                self.a = hi;
                self.f = lo;
            },
        }
    }

    /// The eight bit register `reg` as `0b` followed by its bits.
    pub fn register_as_bit_string(&self, reg: Target) -> (s: String)
        requires
            is_reg8(reg),
        ensures
            s@ == seq!['0', 'b'] + u8_bit_chars(self.reg8(reg)),
    {
        match reg {
            Target::A => u8_as_bit_string(self.a),
            Target::B => u8_as_bit_string(self.b),
            Target::C => u8_as_bit_string(self.c),
            Target::D => u8_as_bit_string(self.d),
            Target::E => u8_as_bit_string(self.e),
            Target::F => u8_as_bit_string(self.f),
            Target::L => u8_as_bit_string(self.l),
            _ => u8_as_bit_string(self.h),
        }
    }

    /// The eight bit register `reg` as `0x` followed by its two hexadecimal digits.
    pub fn register_as_hex_string(&self, reg: Target) -> (s: String)
        requires
            is_reg8(reg),
        ensures
            s@ == seq!['0', 'x', hex_char(self.reg8(reg) >> 4u8), hex_char(self.reg8(reg) & 15u8)],
    {
        match reg {
            Target::A => u8_as_hex_string(self.a),
            Target::B => u8_as_hex_string(self.b),
            Target::C => u8_as_hex_string(self.c),
            Target::D => u8_as_hex_string(self.d),
            Target::E => u8_as_hex_string(self.e),
            Target::F => u8_as_hex_string(self.f),
            Target::L => u8_as_hex_string(self.l),
            _ => u8_as_hex_string(self.h),
        }
    }

    /// The eight bit register `reg`.
    pub fn get_register(&self, reg: Target) -> (r: u8)
        requires
            is_reg8(reg),
        ensures
            r == self.reg8(reg),
    {
        match reg {
            Target::A => self.a,
            Target::B => self.b,
            Target::C => self.c,
            Target::D => self.d,
            Target::E => self.e,
            Target::F => self.f,
            Target::L => self.l,
            _ => self.h,
        }
    }

    /// Sets the eight bit register `reg` to `v`; every other register stays.
    pub fn set_register(&mut self, reg: Target, v: u8)
        requires
            is_reg8(reg),
        ensures
            *final(self) == old(self).with_reg8(reg, v),
    {
        match reg {
            Target::A => self.a = v,
            Target::B => self.b = v,
            Target::C => self.c = v,
            Target::D => self.d = v,
            Target::E => self.e = v,
            Target::F => self.f = v,
            Target::L => self.l = v,
            _ => self.h = v,
        }
    }

    /// Sets every register to zero.
    pub fn reset(&mut self)
        ensures
            final(self).is_zeroed(),
    {
        self.a = 0;
        self.b = 0;
        self.c = 0;
        self.d = 0;
        self.e = 0;
        self.f = 0;
        self.h = 0;
        self.l = 0;
    }

    /// Whether `reg` is one of the sixteen bit operands SP, SP_R8 and D16.
    pub fn is_16bit_target(&self, reg: Target) -> (r: bool)
        ensures
            r == (reg == Target::SP || reg == Target::SP_R8 || reg == Target::D16),
    {
        match reg {
            Target::SP | Target::SP_R8 | Target::D16 => true,
            _ => false,
        }
    }
}

} // verus!
