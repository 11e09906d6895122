use vstd::prelude::*;

use crate::consoles::bus::{
    bus_read, bus_written, bus_written_16, lemma_read_after_write, lemma_read_after_write_16, lemma_write_keeps_other_reads,
    lemma_write_keeps_choice, lemma_write_16_keeps_choice, read_held, reader, word_held,
    write_held, writer, Bus, BusError, ConnectionView,
};
use crate::consoles::memory_map::WRAM_START;
use crate::consoles::readable::Readable;
use crate::consoles::writeable::Writeable;

use super::instruction::{FlagAction, FlagAffection, Instruction};
use super::opcode::OpCode;
use super::registers::{
    bit_of, flag_holds, is_pair, is_plain_flag, is_reg8, lemma_u8_bits, with_flag, Flag, Registers,
    CARRY_BIT_POS, ZERO_BIT_POS,
};
use super::target::Target;
use crate::instruction::{Instruction as TableInstruction, OpCode as TableOpCode};
use crate::memory::{end_of_program_byte, lemma_end_of_program_byte};

verus! {

/// Everything the processor holds, as plain values.
pub ghost struct CpuView {
    pub regs: Registers,
    pub bus: Seq<ConnectionView>,
    pub pc: u16,
    pub sp: u16,
    pub addr: u16,
    pub is_prefixed: bool,
    pub interrupts_enabled: bool,
    pub is_stopped: bool,
}

/// `x` modulo 256, as a byte.
pub open spec fn wrap8(x: int) -> u8 {
    (x % 256) as u8
}

/// `x` modulo 65536, as a word.
pub open spec fn wrap16(x: int) -> u16 {
    (x % 65536) as u16
}

/// Whether a read of `a` through the bus gives a byte: a device answers and holds it.
pub open spec fn can_read(bus: Seq<ConnectionView>, a: int) -> bool {
    0 <= a < 0x10000 && read_held(bus, a) && reader(bus, a) is Some
}

/// The byte a read of `a` through the bus gives.
pub open spec fn byte_at(bus: Seq<ConnectionView>, a: int) -> u8 {
    bus[reader(bus, a)->0].device.byte(a)
}

/// The value an action gives a flag: cleared, raised, the value `affected` where the action
/// depends on the result, or none when the flag is left alone.
pub open spec fn action(a: FlagAction, affected: Option<bool>) -> Option<bool> {
    match a {
        FlagAction::Reset => Some(false),
        FlagAction::Raise => Some(true),
        FlagAction::Affected => affected,
        FlagAction::NotAffected => None,
    }
}

/// The flag register `f` with `flag` set to `v` where there is a value.
pub open spec fn apply(f: u8, flag: Flag, v: Option<bool>) -> u8 {
    match v {
        Some(b) => with_flag(f, flag, b),
        None => f,
    }
}

/// The flag register after an eight bit operation turned `old` into `new`: zero from the
/// result; half carry and carry, where the sub flag is raised, from a borrow, and where it is
/// cleared, from a carry.
#[verifier::opaque]
pub open spec fn flags_after(f: u8, fl: FlagAffection, old: u8, new: u8) -> u8 {
    let z = apply(f, Flag::Zero, action(fl.zero_flag, Some(new == 0)));
    let n = apply(z, Flag::Sub, action(fl.sub_flag, None));
    let h = apply(
        n,
        Flag::HalfCarry,
        action(
            fl.half_carry_flag,
            match fl.sub_flag {
                FlagAction::Reset => Some(old <= 0xF && new > 0xF),
                FlagAction::NotAffected => None,
                _ => Some(old > 0xF && new < 0x10),
            },
        ),
    );
    apply(
        h,
        Flag::Carry,
        action(
            fl.carry_flag,
            match fl.sub_flag {
                FlagAction::Reset => Some(old > new),
                FlagAction::NotAffected => None,
                _ => Some(old < new),
            },
        ),
    )
}

/// The flag register after a sixteen bit operation turned `old` into `new`.
#[verifier::opaque]
pub open spec fn flags_after_16(f: u8, fl: FlagAffection, old: u16, new: u16) -> u8 {
    let z = apply(f, Flag::Zero, action(fl.zero_flag, Some(new == 0)));
    let n = apply(z, Flag::Sub, action(fl.sub_flag, None));
    let h = apply(
        n,
        Flag::HalfCarry,
        action(
            fl.half_carry_flag,
            match fl.sub_flag {
                FlagAction::Reset => Some(false),
                _ => Some(old > 0xF && new <= 0xF),
            },
        ),
    );
    apply(
        h,
        Flag::Carry,
        action(
            fl.carry_flag,
            match fl.sub_flag {
                FlagAction::Affected => Some(old > 0 && old < new),
                FlagAction::Raise => Some(true),
                FlagAction::Reset => Some(false),
                FlagAction::NotAffected => None,
            },
        ),
    )
}

impl CpuView {
    pub open spec fn a(self) -> u8 {
        self.regs.a
    }

    /// The eight bit register `t`.
    pub open spec fn r8(self, t: Target) -> u8 {
        self.regs.reg8(t)
    }

    /// The value of the register pair `t`.
    pub open spec fn pair(self, t: Target) -> int {
        self.regs.pair(t)
    }

    pub open spec fn with_regs(self, regs: Registers) -> CpuView {
        CpuView { regs, ..self }
    }

    pub open spec fn with_r8(self, t: Target, v: u8) -> CpuView {
        self.with_regs(self.regs.with_reg8(t, v))
    }

    pub open spec fn with_pair(self, t: Target, v: u16) -> CpuView {
        self.with_regs(self.regs.with_pair(t, v))
    }

    pub open spec fn with_f(self, f: u8) -> CpuView {
        self.with_regs(self.regs.with_f(f))
    }

    pub open spec fn with_pc(self, pc: u16) -> CpuView {
        CpuView { pc, ..self }
    }

    pub open spec fn with_sp(self, sp: u16) -> CpuView {
        CpuView { sp, ..self }
    }

    /// This state with the plain flag `flag` set to `v`.
    pub open spec fn flag(self, flag: Flag, v: bool) -> CpuView {
        self.with_f(with_flag(self.regs.f, flag, v))
    }

    /// Whether the condition `flag` holds.
    pub open spec fn holds(self, flag: Flag) -> bool {
        flag_holds(self.regs.f, flag)
    }

    /// The carry flag as 0 or 1.
    pub open spec fn carry_bit(self) -> u8 {
        if bit_of(self.regs.f, CARRY_BIT_POS) { 1 } else { 0 }
    }

    /// Whether a read of `a` through the bus gives a byte.
    pub open spec fn readable(self, a: int) -> bool {
        can_read(self.bus, a)
    }

    /// The byte a read of `a` through the bus gives.
    pub open spec fn byte(self, a: int) -> u8 {
        byte_at(self.bus, a)
    }

    /// Whether a write to `a` through the bus runs: the device that takes it, if any, holds it.
    pub open spec fn writable(self, a: int) -> bool {
        0 <= a < 0x10000 && write_held(self.bus, a)
    }

    /// This state after writing `v` to `a` through the bus.
    pub open spec fn write(self, a: int, v: u8) -> CpuView {
        CpuView { bus: bus_written(self.bus, a as u16, v), ..self }
    }

    /// Whether a double width write to `a` through the bus runs.
    pub open spec fn word_writable(self, a: int) -> bool {
        0 <= a < 0x10000 && word_held(self.bus, a)
    }

    /// This state after writing `v` to `a` through the bus, low byte first.
    pub open spec fn write_word(self, a: int, v: u16) -> CpuView {
        CpuView { bus: bus_written_16(self.bus, a as u16, v), ..self }
    }

    /// The byte after the opcode can be read.
    pub open spec fn next_ok(self) -> bool {
        self.pc < 0xFFFF && self.readable(self.pc + 1)
    }

    pub open spec fn next_byte(self) -> u8 {
        self.byte(self.pc + 1)
    }

    /// The two bytes after the opcode can be read.
    pub open spec fn next_two_ok(self) -> bool {
        self.pc < 0xFFFE && self.readable(self.pc + 1) && self.readable(self.pc + 2)
    }

    /// This state after an eight bit operation turned `old` into `new`.
    pub open spec fn set_flags(self, fl: FlagAffection, old: u8, new: u8) -> CpuView {
        self.with_f(flags_after(self.regs.f, fl, old, new))
    }

    /// This state after a sixteen bit operation turned `old` into `new`.
    pub open spec fn set_flags_16(self, fl: FlagAffection, old: u16, new: u16) -> CpuView {
        self.with_f(flags_after_16(self.regs.f, fl, old, new))
    }

    // Rotations and shifts without flag effects of the table.

    /// RLA: A rotated left through the carry.
    pub open spec fn rla_spec(self) -> CpuView {
        let a = wrap8(self.a() * 2 + self.carry_bit());
        self.with_r8(Target::A, a).flag(Flag::Carry, self.a() >= 128).flag(Flag::Zero, a == 0)
    }

    /// RLCA: A rotated left, the bit shifted out into the carry.
    pub open spec fn rlca_spec(self) -> CpuView {
        let a = wrap8(self.a() * 2 + self.a() / 128);
        self.flag(Flag::Carry, self.a() >= 128).with_r8(Target::A, a).flag(Flag::Zero, a == 0)
    }

    /// RRA: A rotated right through the carry.
    pub open spec fn rra_spec(self) -> CpuView {
        let a = (self.a() / 2 + self.carry_bit() * 128) as u8;
        self.with_r8(Target::A, a).flag(Flag::Carry, self.a() % 2 == 1).flag(Flag::Zero, a == 0)
    }

    /// RRCA: A rotated right, the bit shifted out into the carry.
    pub open spec fn rrca_spec(self) -> CpuView {
        let a = (self.a() / 2 + (self.a() % 2) * 128) as u8;
        self.flag(Flag::Carry, self.a() % 2 == 1).with_r8(Target::A, a).flag(Flag::Zero, a == 0)
    }

    /// RLC: an eight bit register rotated left, or HL rotated left as sixteen bits.
    pub open spec fn rlc_spec(self, t: Target) -> CpuView {
        if t == Target::HL {
            let v = self.pair(Target::HL);
            self.flag(Flag::Carry, v >= 0x8000).with_pair(Target::HL, wrap16(v * 2 + v / 0x8000))
        } else {
            let old = self.r8(t);
            let new = wrap8(old * 2 + old / 128);
            self.flag(Flag::Carry, old >= 128).flag(Flag::Zero, new == 0).with_r8(t, new)
        }
    }

    /// RRC: a register rotated right, the old carry into bit 7 and bit 0 into the carry.
    pub open spec fn rrc_spec(self, t: Target) -> CpuView {
        let old = self.r8(t);
        let new = (old / 2 + self.carry_bit() * 128) as u8;
        self.flag(Flag::Carry, old % 2 == 1).flag(Flag::Zero, new == 0).with_r8(t, new)
    }

    /// SL: a register shifted left by one.
    pub open spec fn sl_spec(self, t: Target) -> CpuView {
        self.with_r8(t, wrap8(self.r8(t) * 2))
    }

    /// SLA: a register shifted left by one; the carry is raised when bit 7 was clear.
    pub open spec fn sla_spec(self, t: Target) -> CpuView {
        let old = self.r8(t);
        let new = wrap8(old * 2);
        self.flag(Flag::Carry, old < 128).flag(Flag::Zero, new == 0).flag(Flag::HalfCarry, false).flag(
            Flag::Sub,
            false,
        ).with_r8(t, new)
    }

    /// SRL: a register, or HL, shifted right by one, bit 0 into the carry.
    pub open spec fn srl_spec(self, t: Target) -> CpuView {
        if t == Target::HL {
            let v = self.pair(Target::HL);
            let new = v / 2;
            self.flag(Flag::Zero, new == 0).flag(Flag::Sub, false).flag(Flag::Carry, v % 2 == 1).flag(
                Flag::HalfCarry,
                false,
            ).with_pair(Target::HL, new as u16)
        } else {
            let old = self.r8(t);
            let new = old / 2;
            self.with_r8(t, new).flag(Flag::Zero, new == 0).flag(Flag::Sub, false).flag(
                Flag::Carry,
                old % 2 == 1,
            ).flag(Flag::HalfCarry, false)
        }
    }

    /// SRA: a register shifted right by one keeping bit 7, bit 0 into the carry; the result
    /// is stored in A.
    pub open spec fn sra_spec(self, t: Target) -> CpuView {
        let old = self.r8(t);
        let new = (old / 2 + (old / 128) * 128) as u8;
        self.flag(Flag::Zero, new == 0).flag(Flag::Sub, false).flag(Flag::Carry, old % 2 == 1).flag(
            Flag::HalfCarry,
            false,
        ).with_r8(Target::A, new)
    }

    /// SET: bit `b` of a register raised.
    pub open spec fn set_spec(self, b: u8, t: Target) -> CpuView {
        self.with_r8(t, super::registers::with_bit(self.r8(t), b, true))
    }

    /// RES: bit `b` of a register, or of HL, cleared.
    pub open spec fn res_spec(self, b: u8, t: Target) -> CpuView {
        if t == Target::HL {
            self.with_pair(Target::HL, (self.pair(Target::HL) as u16) & !(1u16 << b))
        } else {
            self.with_r8(t, super::registers::with_bit(self.r8(t), b, false))
        }
    }

    /// DDA: the decimal correction of A after an addition.
    pub open spec fn dda_spec(self) -> CpuView {
        let hc = self.holds(Flag::HalfCarry);
        let low = if hc || self.a() % 16 > 9 { 6int } else { 0 };
        let high = if hc || self.a() > 0x9F { 0x60int } else { 0 };
        let s1 = if hc || self.a() > 0x9F { self.flag(Flag::Carry, true) } else { self };
        let a = wrap8(self.a() + low + high);
        s1.with_r8(Target::A, a).flag(Flag::Zero, a == 0).flag(Flag::HalfCarry, false)
    }
}

/// The bus after writing `bytes[i]` to address `i` (modulo 0x10000), for each `i` in order.
pub open spec fn bus_filled(bus: Seq<ConnectionView>, bytes: Seq<u8>) -> Seq<ConnectionView>
    decreases bytes.len(),
{
    if bytes.len() == 0 {
        bus
    } else {
        bus_written(bus_filled(bus, bytes.drop_last()), ((bytes.len() - 1) % 0x10000) as u16, bytes.last())
    }
}

/// Every address that a program of `n` bytes is written to can be written.
pub open spec fn fill_held(bus: Seq<ConnectionView>, n: int) -> bool {
    forall|i: int| 0 <= i < n ==> #[trigger] write_held(bus, i % 0x10000)
}

impl CpuView {
    /// The two bytes after the opcode as an address, the first one high.
    pub open spec fn high_first(self) -> int {
        self.byte(self.pc + 1) * 256 + self.byte(self.pc + 2)
    }

    /// The two bytes after the opcode as an address, the first one low.
    pub open spec fn low_first(self) -> int {
        self.byte(self.pc + 2) * 256 + self.byte(self.pc + 1)
    }

    /// JP: the program counter takes the address after the opcode, low byte first.
    pub open spec fn jp_spec(self) -> CpuView {
        self.with_pc(self.low_first() as u16)
    }

    /// JR without a condition: the byte after the opcode is added to the program counter.
    pub open spec fn jruc_ok(self) -> bool {
        self.next_ok() && self.pc + self.next_byte() <= 0xFFFF
    }

    pub open spec fn jruc_spec(self) -> CpuView {
        self.with_pc((self.pc + self.next_byte()) as u16)
    }

    /// CALL: the address after the call is pushed as a word at the stack pointer, and the
    /// program counter takes the address after the opcode, read after that write.
    pub open spec fn call_ok(self) -> bool {
        &&& self.pc + 4 <= 0xFFFF
        &&& self.readable(self.pc + 3)
        &&& self.readable(self.pc + 4)
        &&& self.word_writable(self.sp as int)
        &&& self.write_word(self.sp as int, (self.pc + 3) as u16).readable(self.pc + 1)
        &&& self.write_word(self.sp as int, (self.pc + 3) as u16).readable(self.pc + 2)
    }

    pub open spec fn call_spec(self) -> CpuView {
        let s1 = self.write_word(self.sp as int, (self.pc + 3) as u16);
        s1.with_pc(s1.low_first() as u16)
    }

    /// RET: the program counter takes the word below the stack pointer, high byte first.
    pub open spec fn ret_ok(self) -> bool {
        self.sp >= 2 && self.readable(self.sp - 1) && self.readable(self.sp - 2)
    }

    pub open spec fn ret_spec(self) -> CpuView {
        self.with_pc((self.byte(self.sp - 1) * 256 + self.byte(self.sp - 2)) as u16)
    }

    /// PUSH: the low byte of a register pair at the stack pointer, the high byte below it,
    /// and the stack pointer lowered by two.
    pub open spec fn push_ok(self, t: Target) -> bool {
        is_pair(t) && self.sp >= 2 && self.writable(self.sp as int) && self.writable(self.sp - 1)
    }

    pub open spec fn push_spec(self, t: Target) -> CpuView {
        let v = self.pair(t);
        self.write(self.sp as int, (v % 256) as u8).write(self.sp - 1, (v / 256) as u8).with_sp(
            (self.sp - 2) as u16,
        )
    }

    /// POP: a register pair takes the two bytes above the stack pointer, the first one high,
    /// and the stack pointer rises by two.
    pub open spec fn pop_ok(self, t: Target) -> bool {
        is_pair(t) && self.sp + 2 <= 0xFFFF && self.readable(self.sp + 1) && self.readable(self.sp + 2)
    }

    pub open spec fn pop_spec(self, t: Target) -> CpuView {
        let v = self.byte(self.sp + 1) * 256 + self.byte(self.sp + 2);
        self.with_sp((self.sp + 2) as u16).with_pair(t, v as u16)
    }

    /// RST: the high byte of the program counter below the stack pointer, the low byte at it,
    /// the stack pointer lowered by two, and the program counter set to `address`.
    pub open spec fn rst_ok(self) -> bool {
        self.sp >= 1 && self.writable(self.sp - 1) && self.writable(self.sp as int)
    }

    pub open spec fn rst_spec(self, address: u16) -> CpuView {
        self.write(self.sp - 1, (self.pc / 256) as u8).write(self.sp as int, (self.pc % 256) as u8).with_sp(
            wrap16(self.sp - 2),
        ).with_pc(address)
    }

    // LD between eight bit places.

    /// The address an eight bit load reads or writes through the operand `t`.
    pub open spec fn load_address(self, t: Target) -> int {
        if t == Target::HL || t == Target::BC || t == Target::DE {
            self.pair(t)
        } else if t == Target::A8 {
            0xFF00 + self.next_byte()
        } else if t == Target::A16 {
            self.high_first()
        } else {
            self.pc + self.next_byte()
        }
    }

    pub open spec fn load_src_ok(self, src: Target) -> bool {
        if src == Target::HL || src == Target::BC || src == Target::DE {
            self.readable(self.load_address(src))
        } else if src == Target::A8 || src == Target::R8 {
            self.next_ok() && self.load_address(src) <= 0xFFFF && self.readable(self.load_address(src))
        } else if src == Target::A16 {
            self.next_two_ok() && self.readable(self.load_address(src))
        } else if src == Target::D8 {
            self.next_ok()
        } else {
            is_reg8(src)
        }
    }

    pub open spec fn load_value(self, src: Target) -> u8 {
        if src == Target::HL || src == Target::BC || src == Target::DE || src == Target::A8 || src
            == Target::A16 || src == Target::R8 {
            self.byte(self.load_address(src))
        } else if src == Target::D8 {
            self.next_byte()
        } else {
            self.r8(src)
        }
    }

    pub open spec fn load_dst_ok(self, dst: Target) -> bool {
        if dst == Target::HL || dst == Target::BC || dst == Target::DE {
            true
        } else if dst == Target::A8 {
            self.next_ok() && self.writable(self.load_address(dst))
        } else if dst == Target::A16 {
            self.next_two_ok() && self.writable(self.load_address(dst))
        } else {
            is_reg8(dst)
        }
    }

    pub open spec fn load_ok(self, dst: Target, src: Target) -> bool {
        self.load_src_ok(src) && self.load_dst_ok(dst)
    }

    /// LD: a register pair takes the value as sixteen bits; an address after the opcode is
    /// written with it; an eight bit register takes it.
    pub open spec fn load_spec(self, dst: Target, src: Target) -> CpuView {
        let v = self.load_value(src);
        if dst == Target::HL || dst == Target::BC || dst == Target::DE {
            self.with_pair(dst, v as u16)
        } else if dst == Target::A8 || dst == Target::A16 {
            self.write(self.load_address(dst), v)
        } else {
            self.with_r8(dst, v)
        }
    }

    // LDH between A and the I/O page.

    /// The I/O address that LDH names: 0xFF00 plus the byte at the address the byte after the
    /// opcode names.
    pub open spec fn ldh_address(self) -> int {
        0xFF00 + self.byte(self.next_byte() as int)
    }

    pub open spec fn ldh_ok(self, dst: Target, src: Target) -> bool {
        &&& dst == Target::A || dst == Target::A8
        &&& src == Target::A || src == Target::A8
        &&& (src == Target::A8 || dst == Target::A8) ==> self.next_ok() && self.readable(
            self.next_byte() as int,
        )
        &&& dst == Target::A8 ==> self.writable(self.ldh_address())
    }

    /// LDH: the value is A, or the I/O address itself; A takes its low byte, or the I/O
    /// address is written with it.
    pub open spec fn ldh_spec(self, dst: Target, src: Target) -> CpuView {
        let v = if src == Target::A { self.a() as int } else { self.ldh_address() };
        if dst == Target::A {
            self.with_r8(Target::A, (v % 256) as u8)
        } else {
            self.write(self.ldh_address(), (v % 256) as u8)
        }
    }

    // LD with a sixteen bit operand.

    pub open spec fn load16_src_ok(self, src: Target) -> bool {
        if src == Target::HL || src == Target::BC || src == Target::DE {
            self.readable(self.pair(src))
        } else if src == Target::A8 {
            self.next_ok() && self.readable(0xFF00 + self.next_byte())
        } else if src == Target::A16 {
            self.next_two_ok() && self.readable(self.high_first())
        } else if src == Target::D8 {
            self.next_ok()
        } else if src == Target::D16 {
            self.next_two_ok()
        } else if src == Target::SP {
            true
        } else if src == Target::SP_R8 {
            self.next_ok() && self.sp + self.next_byte() <= 0xFFFF && self.readable(self.sp + self.next_byte())
        } else {
            is_reg8(src)
        }
    }

    pub open spec fn load16_value(self, src: Target) -> u16 {
        if src == Target::HL || src == Target::BC || src == Target::DE {
            self.byte(self.pair(src)) as u16
        } else if src == Target::A8 {
            self.byte(0xFF00 + self.next_byte()) as u16
        } else if src == Target::A16 {
            self.byte(self.high_first()) as u16
        } else if src == Target::D8 {
            self.next_byte() as u16
        } else if src == Target::D16 {
            self.high_first() as u16
        } else if src == Target::SP {
            self.sp
        } else if src == Target::SP_R8 {
            self.byte(self.sp + self.next_byte()) as u16
        } else {
            self.r8(src) as u16
        }
    }

    /// The destinations LD with a sixteen bit operand writes: an I/O address, an address after
    /// the opcode, the stack pointer, or the stack pointer plus the byte after the opcode.
    pub open spec fn load16_dst_ok(self, dst: Target) -> bool {
        if dst == Target::A8 {
            self.next_ok() && self.word_writable(0xFF00 + self.next_byte())
        } else if dst == Target::A16 {
            self.next_two_ok() && self.word_writable(self.high_first())
        } else if dst == Target::SP {
            true
        } else if dst == Target::SP_R8 {
            self.next_ok() && self.sp + self.next_byte() <= 0xFFFF && self.word_writable(self.sp + self.next_byte())
        } else {
            false
        }
    }

    pub open spec fn load16_ok(self, dst: Target, src: Target) -> bool {
        self.load16_src_ok(src) && self.load16_dst_ok(dst)
    }

    pub open spec fn load16_spec(self, dst: Target, src: Target) -> CpuView {
        let v = self.load16_value(src);
        if dst == Target::A8 {
            self.write_word(0xFF00 + self.next_byte(), v)
        } else if dst == Target::A16 {
            self.write_word(self.high_first(), v)
        } else if dst == Target::SP {
            self.with_sp(v)
        } else {
            self.write_word(self.sp + self.next_byte(), v)
        }
    }
}

impl CpuView {
    /// The eight bit operand of ADC, ADD, AND, SBC and XOR: the byte HL points at, the byte
    /// after the opcode, or a register.
    pub open spec fn operand_ok(self, t: Target) -> bool {
        if t == Target::HL {
            self.readable(self.pair(Target::HL))
        } else if t == Target::D8 {
            self.next_ok()
        } else {
            is_reg8(t)
        }
    }

    pub open spec fn operand(self, t: Target) -> u8 {
        if t == Target::HL {
            self.byte(self.pair(Target::HL))
        } else if t == Target::D8 {
            self.next_byte()
        } else {
            self.r8(t)
        }
    }

    /// ADC: A plus the operand plus the carry.
    pub open spec fn adc_ok(self, t: Target, fl: FlagAffection) -> bool {
        fl.sub_flag != FlagAction::Affected && self.operand_ok(t) && self.operand(t) + self.carry_bit() <= 255
    }

    pub open spec fn adc_spec(self, t: Target, fl: FlagAffection) -> CpuView {
        let v = self.operand(t);
        let a = wrap8(self.a() + v + self.carry_bit());
        self.with_r8(Target::A, a).set_flags(fl, v, a)
    }

    /// ADD: A plus the operand.
    pub open spec fn add_ok(self, t: Target, fl: FlagAffection) -> bool {
        fl.sub_flag != FlagAction::Affected && self.operand_ok(t)
    }

    pub open spec fn add_spec(self, t: Target, fl: FlagAffection) -> CpuView {
        let v = self.operand(t);
        let a = wrap8(self.a() + v);
        self.with_r8(Target::A, a).set_flags(fl, v, a)
    }

    /// The value ADD with a sixteen bit destination adds: a register pair, the stack pointer,
    /// or the byte after the opcode.
    pub open spec fn add16_value(self, src: Target) -> int {
        if src == Target::SP {
            self.sp as int
        } else if src == Target::R8 {
            self.next_byte() as int
        } else {
            self.pair(src)
        }
    }

    pub open spec fn add16_ok(self, dst: Target, src: Target) -> bool {
        &&& src == Target::HL || src == Target::BC || src == Target::DE || src == Target::SP || src
            == Target::R8 && self.next_ok()
        &&& dst == Target::HL && self.pair(Target::HL) + self.add16_value(src) <= 0xFFFF || dst
            == Target::SP && self.sp + self.add16_value(src) <= 0xFFFF
    }

    /// ADD to HL or to the stack pointer.
    pub open spec fn add16_spec(self, dst: Target, src: Target, fl: FlagAffection) -> CpuView {
        let v = self.add16_value(src);
        if dst == Target::HL {
            let old = self.pair(Target::HL);
            self.with_pair(Target::HL, (old + v) as u16).set_flags_16(fl, old as u16, (old + v) as u16)
        } else {
            self.with_sp((self.sp + v) as u16).set_flags_16(fl, self.sp, (self.sp + v) as u16)
        }
    }

    /// AND, OR and XOR of A with the operand.
    pub open spec fn logic_ok(self, t: Target, fl: FlagAffection) -> bool {
        fl.sub_flag != FlagAction::Affected && self.operand_ok(t)
    }

    pub open spec fn and_spec(self, t: Target, fl: FlagAffection) -> CpuView {
        let a = self.a() & self.operand(t);
        self.with_r8(Target::A, a).set_flags(fl, self.a(), a)
    }

    /// OR with HL takes the low byte of HL itself, not the byte HL points at.
    pub open spec fn or_value(self, t: Target) -> u8 {
        if t == Target::HL {
            ((self.a() as u16) | (self.pair(Target::HL) as u16)) as u8
        } else {
            self.a() | self.operand(t)
        }
    }

    pub open spec fn or_ok(self, t: Target, fl: FlagAffection) -> bool {
        fl.sub_flag != FlagAction::Affected && (t == Target::HL || self.operand_ok(t))
    }

    pub open spec fn or_spec(self, t: Target, fl: FlagAffection) -> CpuView {
        let a = self.or_value(t);
        self.with_r8(Target::A, a).set_flags(fl, self.a(), a)
    }

    pub open spec fn xor_spec(self, t: Target, fl: FlagAffection) -> CpuView {
        let a = self.a() ^ self.operand(t);
        self.with_r8(Target::A, a).set_flags(fl, self.a(), a)
    }

    /// BIT: the flags from bit `b` of the byte HL points at or of a register.
    pub open spec fn bit_ok(self, b: u8, t: Target, fl: FlagAffection) -> bool {
        &&& fl.sub_flag != FlagAction::Affected
        &&& b < 8
        &&& if t == Target::HL { self.readable(self.pair(Target::HL)) } else { is_reg8(t) }
    }

    pub open spec fn bit_spec(self, b: u8, t: Target, fl: FlagAffection) -> CpuView {
        let v = if t == Target::HL { self.byte(self.pair(Target::HL)) } else { self.r8(t) };
        self.set_flags(fl, v, v & (1u8 << b))
    }

    /// The value CP compares A with: HL itself, the byte after the opcode, or a register.
    pub open spec fn cp_value(self, t: Target) -> int {
        if t == Target::HL {
            self.pair(Target::HL)
        } else if t == Target::D8 {
            self.next_byte() as int
        } else {
            self.r8(t) as int
        }
    }

    pub open spec fn cp_ok(self, t: Target) -> bool {
        &&& t == Target::HL || t == Target::D8 && self.next_ok() || is_reg8(t)
        &&& self.a() >= self.cp_value(t)
    }

    /// CP: the flags of A minus the value; A stays.
    pub open spec fn cp_spec(self, t: Target, fl: FlagAffection) -> CpuView {
        self.set_flags_16(fl, self.cp_value(t) as u16, (self.a() - self.cp_value(t)) as u16)
    }

    /// CPL: A inverted.
    pub open spec fn cpl_spec(self, fl: FlagAffection) -> CpuView {
        self.with_r8(Target::A, !self.a()).set_flags(fl, 0, 0)
    }

    /// DEC and INC of HL or of an eight bit register, wrapping.
    pub open spec fn step8_ok(self, t: Target, fl: FlagAffection) -> bool {
        t == Target::HL || is_reg8(t) && fl.sub_flag != FlagAction::Affected
    }

    pub open spec fn step8_spec(self, t: Target, fl: FlagAffection, delta: int) -> CpuView {
        if t == Target::HL {
            let old = self.pair(Target::HL);
            let new = wrap16(old + delta);
            self.with_pair(Target::HL, new).set_flags_16(fl, old as u16, new)
        } else {
            let old = self.r8(t);
            let new = wrap8(old + delta);
            self.set_flags(fl, old, new).with_r8(t, new)
        }
    }

    /// DEC16 and INC16 of the stack pointer or a register pair, wrapping.
    pub open spec fn step16_ok(self, t: Target) -> bool {
        t == Target::SP || is_pair(t)
    }

    pub open spec fn step16_spec(self, t: Target, fl: FlagAffection, delta: int) -> CpuView {
        if t == Target::SP {
            let new = wrap16(self.sp + delta);
            self.with_sp(new).set_flags_16(fl, self.sp, new)
        } else {
            let old = self.pair(t);
            let new = wrap16(old + delta);
            self.with_pair(t, new).set_flags_16(fl, old as u16, new)
        }
    }

    /// RL: an eight bit register rotated left through the carry.
    pub open spec fn rl_ok(self, t: Target, fl: FlagAffection) -> bool {
        t == Target::HL || is_reg8(t) && fl.sub_flag != FlagAction::Affected
    }

    /// RL of HL: the bytes are taken apart at bit 7 rather than bit 8 and put back together
    /// at bit 7; the zero flag tells whether the result is zero, sub and half carry are
    /// cleared, and the carry takes bit 7 of the low byte.
    pub open spec fn rl_hl_spec(self) -> CpuView {
        let old = self.pair(Target::HL) as u16;
        let lower = old & 0xFFu16;
        let upper = (old & 0xFF00u16) >> 7u16;
        let msb_upper = (upper >> 7u16) as u8;
        let msb_lower = (lower >> 7u16) as u8;
        let new_upper = ((upper as u8) << 1u8) | self.carry_bit();
        let new_lower = ((lower as u8) << 1u8) | msb_upper;
        let new_value = (((new_upper as u16) << 7u16) + new_lower as u16) as u16;
        self.with_pair(Target::HL, new_value).flag(Flag::Zero, new_value == 0).flag(Flag::Sub, false).flag(
            Flag::HalfCarry,
            false,
        ).flag(Flag::Carry, msb_lower > 0)
    }

    pub open spec fn rl_spec(self, t: Target, fl: FlagAffection) -> CpuView {
        if t == Target::HL {
            self.rl_hl_spec()
        } else {
            let old = self.r8(t);
            let new = wrap8(old * 2 + self.carry_bit());
            self.flag(Flag::Carry, old >= 128).with_r8(t, new).set_flags(fl, old, new)
        }
    }

    /// RR: a register rotated right through the carry.
    pub open spec fn rr_ok(self, t: Target, fl: FlagAffection) -> bool {
        is_reg8(t) && fl.sub_flag != FlagAction::Affected
    }

    pub open spec fn rr_spec(self, t: Target, fl: FlagAffection) -> CpuView {
        let old = self.r8(t);
        let new = (old / 2 + self.carry_bit() * 128) as u8;
        self.flag(Flag::Carry, old % 2 == 1).with_r8(t, new).set_flags(fl, old, new)
    }

    /// SBC: A minus the operand minus the carry, wrapping.
    pub open spec fn sbc_spec(self, t: Target, fl: FlagAffection) -> CpuView {
        let a = wrap8(self.a() - self.operand(t) - self.carry_bit());
        self.with_r8(Target::A, a).set_flags(fl, self.a(), a)
    }

    /// The value SUB takes from A: the low byte of HL itself, the byte after the opcode, or a
    /// register.
    pub open spec fn sub_value(self, t: Target) -> u8 {
        if t == Target::HL {
            (self.pair(Target::HL) % 256) as u8
        } else {
            self.operand(t)
        }
    }

    pub open spec fn sub_ok(self, t: Target, fl: FlagAffection) -> bool {
        fl.sub_flag != FlagAction::Affected && (t == Target::HL || self.operand_ok(t))
    }

    /// SUB: A minus the value, wrapping.
    pub open spec fn sub_spec(self, t: Target, fl: FlagAffection) -> CpuView {
        let a = wrap8(self.a() - self.sub_value(t));
        self.with_r8(Target::A, a).set_flags(fl, self.a(), a)
    }

    /// SWAP: the nibbles of a register swapped.
    pub open spec fn swap_spec(self, t: Target, fl: FlagAffection) -> CpuView {
        let old = self.r8(t);
        let v = (old / 16 + (old % 16) * 16) as u8;
        self.set_flags(fl, old, v).with_r8(t, v)
    }

    /// Whether LD moves sixteen bits: one of its operands is the stack pointer, the stack
    /// pointer plus an offset, or a word after the opcode.
    pub open spec fn is_wide_load(dst: Target, src: Target) -> bool {
        dst == Target::SP || dst == Target::SP_R8 || dst == Target::D16 || src == Target::SP || src
            == Target::SP_R8 || src == Target::D16
    }

    /// Whether `execute` carries out one of the additions, subtractions, comparisons, increments
    /// and decrements.
    #[verifier::opaque]
    pub open spec fn arith_ok(self, ins: Instruction) -> bool {
        let fl = ins.flag_affection;
        match ins.opcode {
            OpCode::ADC(t) => self.adc_ok(t, fl),
            OpCode::ADD(t) => self.add_ok(t, fl),
            OpCode::ADD16(d, t) => self.add16_ok(d, t),
            OpCode::SBC(t) => self.logic_ok(t, fl),
            OpCode::SUB(t) => self.sub_ok(t, fl),
            OpCode::CP(t) => self.cp_ok(t),
            OpCode::INC(t) => self.step8_ok(t, fl),
            OpCode::DEC(t) => self.step8_ok(t, fl),
            OpCode::INC16(t) => self.step16_ok(t),
            OpCode::DEC16(t) => self.step16_ok(t),
            _ => true,
        }
    }

    /// The state after `execute` carries out one of the additions, subtractions, comparisons,
    /// increments and decrements.
    #[verifier::opaque]
    pub open spec fn arith_spec(self, ins: Instruction) -> CpuView {
        let fl = ins.flag_affection;
        match ins.opcode {
            OpCode::ADC(t) => self.adc_spec(t, fl),
            OpCode::ADD(t) => self.add_spec(t, fl),
            OpCode::ADD16(d, t) => self.add16_spec(d, t, fl),
            OpCode::SBC(t) => self.sbc_spec(t, fl),
            OpCode::SUB(t) => self.sub_spec(t, fl),
            OpCode::CP(t) => self.cp_spec(t, fl),
            OpCode::INC(t) => self.step8_spec(t, fl, 1),
            OpCode::DEC(t) => self.step8_spec(t, fl, -1),
            OpCode::INC16(t) => self.step16_spec(t, fl, 1),
            OpCode::DEC16(t) => self.step16_spec(t, fl, -1),
            _ => self,
        }
    }

    /// Whether `execute` carries out one of the logic operations, decimal correction, carry flag
    /// operations and bit operations.
    #[verifier::opaque]
    pub open spec fn logic_ok_of(self, ins: Instruction) -> bool {
        let fl = ins.flag_affection;
        match ins.opcode {
            OpCode::AND(t) => self.logic_ok(t, fl),
            OpCode::OR(t) => self.or_ok(t, fl),
            OpCode::XOR(t) => self.logic_ok(t, fl),
            OpCode::CPL => fl.sub_flag != FlagAction::Affected,
            OpCode::BIT(b, t) => self.bit_ok(b, t, fl),
            OpCode::SET(b, t) => b < 8 && is_reg8(t),
            OpCode::RES(b, t) => if t == Target::HL { b < 16 } else { b < 8 && is_reg8(t) },
            _ => true,
        }
    }

    /// The state after `execute` carries out one of the logic operations, decimal correction, carry
    /// flag operations and bit operations.
    #[verifier::opaque]
    pub open spec fn logic_spec(self, ins: Instruction) -> CpuView {
        let fl = ins.flag_affection;
        match ins.opcode {
            OpCode::AND(t) => self.and_spec(t, fl),
            OpCode::OR(t) => self.or_spec(t, fl),
            OpCode::XOR(t) => self.xor_spec(t, fl),
            OpCode::CPL => self.cpl_spec(fl),
            OpCode::DDA => self.dda_spec(),
            OpCode::CCF => self.flag(Flag::Carry, !self.holds(Flag::Carry)),
            OpCode::SCF => self.flag(Flag::Carry, true),
            OpCode::BIT(b, t) => self.bit_spec(b, t, fl),
            OpCode::SET(b, t) => self.set_spec(b, t),
            OpCode::RES(b, t) => self.res_spec(b, t),
            _ => self,
        }
    }

    /// Whether `execute` carries out one of the rotations.
    #[verifier::opaque]
    pub open spec fn rotate_ok(self, ins: Instruction) -> bool {
        let fl = ins.flag_affection;
        match ins.opcode {
            OpCode::RL(t) => self.rl_ok(t, fl),
            OpCode::RLC(t) => t == Target::HL || is_reg8(t),
            OpCode::RR(t) => self.rr_ok(t, fl),
            OpCode::RRC(t) => is_reg8(t),
            _ => true,
        }
    }

    /// The state after `execute` carries out one of the rotations.
    #[verifier::opaque]
    pub open spec fn rotate_spec(self, ins: Instruction) -> CpuView {
        let fl = ins.flag_affection;
        match ins.opcode {
            OpCode::RL(t) => self.rl_spec(t, fl),
            OpCode::RLA => self.rla_spec(),
            OpCode::RLC(t) => self.rlc_spec(t),
            OpCode::RLCA => self.rlca_spec(),
            OpCode::RR(t) => self.rr_spec(t, fl),
            OpCode::RRA => self.rra_spec(),
            OpCode::RRC(t) => self.rrc_spec(t),
            OpCode::RRCA => self.rrca_spec(),
            _ => self,
        }
    }

    /// Whether `execute` carries out one of the shifts and nibble swaps.
    #[verifier::opaque]
    pub open spec fn shift_ok(self, ins: Instruction) -> bool {
        let fl = ins.flag_affection;
        match ins.opcode {
            OpCode::SLA(t) => is_reg8(t),
            OpCode::SRL(t) => t == Target::HL || is_reg8(t),
            OpCode::SRA(t) => is_reg8(t),
            OpCode::SWAP(t) => is_reg8(t) && fl.sub_flag != FlagAction::Affected,
            _ => true,
        }
    }

    /// The state after `execute` carries out one of the shifts and nibble swaps.
    #[verifier::opaque]
    pub open spec fn shift_spec(self, ins: Instruction) -> CpuView {
        let fl = ins.flag_affection;
        match ins.opcode {
            OpCode::SLA(t) => self.sla_spec(t),
            OpCode::SRL(t) => self.srl_spec(t),
            OpCode::SRA(t) => self.sra_spec(t),
            OpCode::SWAP(t) => self.swap_spec(t, fl),
            _ => self,
        }
    }

    /// Whether `execute` carries out one of the calls, jumps, returns and restarts.
    #[verifier::opaque]
    pub open spec fn flow_ok(self, ins: Instruction) -> bool {
        let fl = ins.flag_affection;
        match ins.opcode {
            OpCode::CALL(f) => self.holds(f) ==> self.call_ok(),
            OpCode::CALL_UC => self.call_ok(),
            OpCode::JUMP(f) => self.holds(f) ==> self.next_two_ok(),
            OpCode::JP => self.next_two_ok(),
            OpCode::JR(f) => self.holds(f) ==> self.jruc_ok(),
            OpCode::JRUC => self.jruc_ok(),
            OpCode::RET(f) => self.holds(f) ==> self.ret_ok(),
            OpCode::RET_UC => self.ret_ok(),
            OpCode::RETI => self.ret_ok(),
            OpCode::RST(_) => self.rst_ok(),
            _ => true,
        }
    }

    /// The state after `execute` carries out one of the calls, jumps, returns and restarts.
    #[verifier::opaque]
    pub open spec fn flow_spec(self, ins: Instruction) -> CpuView {
        let fl = ins.flag_affection;
        match ins.opcode {
            OpCode::CALL(f) => if self.holds(f) { self.call_spec() } else { self },
            OpCode::CALL_UC => self.call_spec(),
            OpCode::JUMP(f) => if self.holds(f) { self.jp_spec() } else { self },
            OpCode::JP => self.jp_spec(),
            OpCode::JR(f) => if self.holds(f) { self.jruc_spec() } else { self },
            OpCode::JP_HL => self.with_pc(self.pair(Target::HL) as u16),
            OpCode::JRUC => self.jruc_spec(),
            OpCode::RET(f) => if self.holds(f) { self.ret_spec() } else { self },
            OpCode::RET_UC => self.ret_spec(),
            OpCode::RETI => CpuView { interrupts_enabled: true, ..self.ret_spec() },
            OpCode::RST(address) => self.rst_spec(address),
            _ => self,
        }
    }

    /// Whether `execute` carries out one of the loads, stack operations, mode changes and the
    /// operations that do nothing.
    #[verifier::opaque]
    pub open spec fn misc_ok(self, ins: Instruction) -> bool {
        let fl = ins.flag_affection;
        match ins.opcode {
            OpCode::LD(d, t) => if CpuView::is_wide_load(d, t) { self.load16_ok(d, t) } else { self.load_ok(d, t) },
            OpCode::LDH(d, t) => self.ldh_ok(d, t),
            OpCode::POP(t) => self.pop_ok(t),
            OpCode::PUSH(t) => self.push_ok(t),
            _ => true,
        }
    }

    /// The state after `execute` carries out one of the loads, stack operations, mode changes and
    /// the operations that do nothing.
    #[verifier::opaque]
    pub open spec fn misc_spec(self, ins: Instruction) -> CpuView {
        let fl = ins.flag_affection;
        match ins.opcode {
            OpCode::LD(d, t) => if CpuView::is_wide_load(d, t) { self.load16_spec(d, t) } else { self.load_spec(d, t) },
            OpCode::LDH(d, t) => self.ldh_spec(d, t),
            OpCode::POP(t) => self.pop_spec(t),
            OpCode::PUSH(t) => self.push_spec(t),
            OpCode::CB => CpuView { is_prefixed: true, ..self },
            OpCode::STOP => CpuView { is_stopped: true, ..self },
            OpCode::DisableInterrupt => CpuView { interrupts_enabled: false, ..self },
            OpCode::EnableInterrupt => CpuView { interrupts_enabled: true, ..self },
            _ => self,
        }
    }

    /// Whether `execute` carries out the instruction: its operation is one the processor
    /// knows, and what it reads, writes and computes stays within the bus and the registers.
    pub open spec fn execute_ok(self, ins: Instruction) -> bool {
        let op = ins.opcode;
        if is_arith(op) {
            self.arith_ok(ins)
        } else if is_logic(op) {
            self.logic_ok_of(ins)
        } else if is_rotate(op) {
            self.rotate_ok(ins)
        } else if is_shift(op) {
            self.shift_ok(ins)
        } else if is_flow(op) {
            self.flow_ok(ins)
        } else if is_misc(op) {
            self.misc_ok(ins)
        } else {
            false
        }
    }

    /// The state after `execute` carries out the instruction.
    pub open spec fn execute_spec(self, ins: Instruction) -> CpuView {
        let op = ins.opcode;
        if is_arith(op) {
            self.arith_spec(ins)
        } else if is_logic(op) {
            self.logic_spec(ins)
        } else if is_rotate(op) {
            self.rotate_spec(ins)
        } else if is_shift(op) {
            self.shift_spec(ins)
        } else if is_flow(op) {
            self.flow_spec(ins)
        } else {
            self.misc_spec(ins)
        }
    }

    /// What `execute` adds to the program counter after the instruction: nothing after a
    /// call, a return, a restart or a jump taken on a condition; the length of the
    /// instruction otherwise.
    pub open spec fn pc_increment(self, ins: Instruction) -> int {
        match ins.opcode {
            OpCode::CALL(f) => if self.holds(f) { 0 } else { ins.length as int },
            OpCode::JUMP(f) => if self.holds(f) { 0 } else { ins.length as int },
            OpCode::RET(f) => if self.holds(f) { 0 } else { ins.length as int },
            OpCode::CALL_UC | OpCode::RET_UC | OpCode::RETI | OpCode::RST(_) => 0,
            _ => ins.length as int,
        }
    }

    /// The address `execute` gives for the next instruction: the program counter after the
    /// instruction plus the increment, wrapping.
    pub open spec fn next_pc(self, ins: Instruction) -> u16 {
        wrap16(self.execute_spec(ins).pc + self.pc_increment(ins))
    }
}

/// The additions, subtractions, comparisons, increments and decrements.
pub open spec fn is_arith(op: OpCode) -> bool {
    match op {
        OpCode::ADC(_) | OpCode::ADD(_) | OpCode::ADD16(_, _) | OpCode::SBC(_) | OpCode::SUB(_)
        | OpCode::CP(_) | OpCode::INC(_) | OpCode::DEC(_) | OpCode::INC16(_) | OpCode::DEC16(_) => true,
        _ => false,
    }
}

/// The logic operations, decimal correction, carry flag operations and bit operations.
pub open spec fn is_logic(op: OpCode) -> bool {
    match op {
        OpCode::AND(_) | OpCode::OR(_) | OpCode::XOR(_) | OpCode::CPL | OpCode::DDA
        | OpCode::CCF | OpCode::SCF | OpCode::BIT(_, _) | OpCode::SET(_, _) | OpCode::RES(_, _) => true,
        _ => false,
    }
}

/// The rotations.
pub open spec fn is_rotate(op: OpCode) -> bool {
    match op {
        OpCode::RL(_) | OpCode::RLA | OpCode::RLC(_) | OpCode::RLCA | OpCode::RR(_)
        | OpCode::RRA | OpCode::RRC(_) | OpCode::RRCA => true,
        _ => false,
    }
}

/// The shifts and nibble swaps.
pub open spec fn is_shift(op: OpCode) -> bool {
    match op {
        OpCode::SLA(_) | OpCode::SRL(_) | OpCode::SRA(_) | OpCode::SWAP(_) => true,
        _ => false,
    }
}

/// The calls, jumps, returns and restarts.
pub open spec fn is_flow(op: OpCode) -> bool {
    match op {
        OpCode::CALL(_) | OpCode::CALL_UC | OpCode::JUMP(_) | OpCode::JP | OpCode::JR(_)
        | OpCode::JP_HL | OpCode::JRUC | OpCode::RET(_) | OpCode::RET_UC | OpCode::RETI
        | OpCode::RST(_) => true,
        _ => false,
    }
}

/// The loads, stack operations, mode changes and the operations that do nothing.
pub open spec fn is_misc(op: OpCode) -> bool {
    match op {
        OpCode::LD(_, _) | OpCode::LDH(_, _) | OpCode::POP(_) | OpCode::PUSH(_) | OpCode::CB
        | OpCode::STOP | OpCode::DisableInterrupt | OpCode::EnableInterrupt | OpCode::HALT
        | OpCode::NOP | OpCode::STORE(_, _) => true,
        _ => false,
    }
}

/// The processor of the Game Boy: its registers, the bus to its devices, and its counters and
/// modes.
pub struct Cpu {
    pub registers: Registers,
    pub bus: Bus,
    pub pc: u16,
    pub sp: u16,
    pub addr: u16,
    pub is_prefixed: bool,
    pub interrupts_enabled: bool,
    pub is_stopped: bool,
}

impl View for Cpu {
    type V = CpuView;

    open spec fn view(&self) -> CpuView {
        CpuView {
            regs: self.registers,
            bus: self.bus@,
            pc: self.pc,
            sp: self.sp,
            addr: self.addr,
            is_prefixed: self.is_prefixed,
            interrupts_enabled: self.interrupts_enabled,
            is_stopped: self.is_stopped,
        }
    }
}

impl Cpu {
    /// The bus is valid.
    pub open spec fn wf(&self) -> bool {
        self.bus.wf()
    }

    /// A processor on `bus` with its registers zero, the program counter at zero and the stack
    /// pointer at the start of work RAM; interrupts are enabled.
    pub fn new(bus: Bus) -> (cpu: Cpu)
        requires
            bus.wf(),
        ensures
            cpu.wf(),
            cpu@.regs.is_zeroed(),
            cpu@.bus == bus@,
            cpu@.pc == 0,
            cpu@.sp == WRAM_START,
            cpu@.addr == 0,
            !cpu@.is_prefixed,
            cpu@.interrupts_enabled,
            !cpu@.is_stopped,
    {
        Cpu {
            registers: Registers::new(),
            bus,
            pc: 0x0,
            sp: WRAM_START as u16,
            addr: 0,
            is_prefixed: false,
            interrupts_enabled: true,
            is_stopped: false,
        }
    }

    /// Powering up sets nothing.
    pub fn power_up(&mut self)
        ensures
            *final(self) == *old(self),
    {
    }

    /// The value of A.
    pub fn get_reg_a(&self) -> (a: u8)
        ensures
            a == self@.a(),
    {
        self.registers.a
    }

    /// Sets a plain flag.
    fn set_flag(&mut self, flag: Flag, v: bool)
        requires
            is_plain_flag(flag),
        ensures
            final(self)@ == old(self)@.flag(flag, v),
            final(self).bus == old(self).bus,
    {
        self.registers.set_flag(flag, v);
    }

    /// Sets the flags an eight bit operation that turned `old_value` into `new_value` affects,
    /// as the instruction declares them.
    pub fn set_flags(&mut self, flags: FlagAffection, old_value: u8, new_value: u8)
        requires
            flags.sub_flag != FlagAction::Affected,
        ensures
            final(self)@ == old(self)@.set_flags(flags, old_value, new_value),
            final(self).bus == old(self).bus,
    {
        reveal(flags_after);
        match flags.zero_flag {
            FlagAction::Reset => self.set_flag(Flag::Zero, false),
            FlagAction::Raise => self.set_flag(Flag::Zero, true),
            FlagAction::Affected => self.set_flag(Flag::Zero, new_value == 0),
            _ => {},
        }
        match flags.sub_flag {
            FlagAction::Reset => self.set_flag(Flag::Sub, false),
            FlagAction::Raise => self.set_flag(Flag::Sub, true),
            _ => {},
        }
        match flags.half_carry_flag {
            FlagAction::Reset => self.set_flag(Flag::HalfCarry, false),
            FlagAction::Raise => self.set_flag(Flag::HalfCarry, true),
            FlagAction::Affected => match flags.sub_flag {
                FlagAction::Affected | FlagAction::Raise => self.set_flag(
                    Flag::HalfCarry,
                    old_value > 0b1111 && new_value < 0b10000,
                ),
                FlagAction::Reset => self.set_flag(
                    Flag::HalfCarry,
                    old_value <= 0b1111 && new_value > 0b1111,
                ),
                _ => {},
            },
            _ => {},
        }
        match flags.carry_flag {
            FlagAction::Reset => self.set_flag(Flag::Carry, false),
            FlagAction::Raise => self.set_flag(Flag::Carry, true),
            FlagAction::Affected => match flags.sub_flag {
                FlagAction::Affected | FlagAction::Raise => self.set_flag(Flag::Carry, old_value < new_value),
                FlagAction::Reset => self.set_flag(Flag::Carry, old_value > new_value),
                _ => {},
            },
            _ => {},
        }
    }

    /// Sets the flags a sixteen bit operation that turned `old_value` into `new_value` affects,
    /// as the instruction declares them.
    pub fn set_flags_16(&mut self, flags: FlagAffection, old_value: u16, new_value: u16)
        ensures
            final(self)@ == old(self)@.set_flags_16(flags, old_value, new_value),
            final(self).bus == old(self).bus,
    {
        reveal(flags_after_16);
        match flags.zero_flag {
            FlagAction::Reset => self.set_flag(Flag::Zero, false),
            FlagAction::Raise => self.set_flag(Flag::Zero, true),
            FlagAction::Affected => self.set_flag(Flag::Zero, new_value == 0),
            _ => {},
        }
        match flags.sub_flag {
            FlagAction::Reset => self.set_flag(Flag::Sub, false),
            FlagAction::Raise => self.set_flag(Flag::Sub, true),
            _ => {},
        }
        match flags.half_carry_flag {
            FlagAction::Reset => self.set_flag(Flag::HalfCarry, false),
            FlagAction::Raise => self.set_flag(Flag::HalfCarry, true),
            FlagAction::Affected => match flags.sub_flag {
                FlagAction::Reset => self.set_flag(Flag::HalfCarry, false),
                _ => self.set_flag(Flag::HalfCarry, old_value > 0b1111 && new_value <= 0b1111),
            },
            _ => {},
        }
        match flags.carry_flag {
            FlagAction::Reset => self.set_flag(Flag::Carry, false),
            FlagAction::Raise => self.set_flag(Flag::Carry, true),
            FlagAction::Affected => match flags.sub_flag {
                FlagAction::Affected => self.set_flag(Flag::Carry, old_value > 0 && old_value < new_value),
                FlagAction::Raise => self.set_flag(Flag::Carry, true),
                FlagAction::Reset => self.set_flag(Flag::Carry, false),
                _ => {},
            },
            _ => {},
        }
    }

    /// RLA: rotates A left through the carry; the zero flag tells whether A is zero.
    pub fn rla(&mut self)
        ensures
            final(self)@ == old(self)@.rla_spec(),
            final(self).bus == old(self).bus,
    {
        let a = self.registers.a;
        assert((a & 0x80u8) >> 7u8 != 0 <==> a >= 128) by (bit_vector);
        let msb = (a & 0x80) >> ZERO_BIT_POS;
        let carry = self.registers.filter_flag(Flag::Carry);
        assert((a << 1u8) | carry == wrap8(a * 2 + carry)) by (bit_vector)
            requires
                carry <= 1;
        self.registers.set_register(Target::A, (a << 1) | carry);
        self.set_flag(Flag::Carry, msb != 0);
        let z = self.registers.a == 0;
        self.set_flag(Flag::Zero, z);
    }

    /// RLCA: rotates A left, the bit shifted out into the carry; the zero flag tells whether A
    /// is zero.
    pub fn rlca(&mut self)
        ensures
            final(self)@ == old(self)@.rlca_spec(),
            final(self).bus == old(self).bus,
    {
        let a = self.registers.a;
        assert((a & 0x80u8) != 0 <==> a >= 128) by (bit_vector);
        self.set_flag(Flag::Carry, (a & 0x80) != 0);
        self.registers.set_register(Target::A, (a % 128) * 2 + a / 128);
        let z = self.registers.a == 0;
        self.set_flag(Flag::Zero, z);
    }

    /// RRA: rotates A right through the carry; the zero flag tells whether A is zero.
    pub fn rra(&mut self)
        ensures
            final(self)@ == old(self)@.rra_spec(),
            final(self).bus == old(self).bus,
    {
        let a = self.registers.a;
        let lsb = a & 1;
        assert(a & 1u8 == a % 2) by (bit_vector);
        let cf = self.registers.filter_flag(Flag::Carry);
        assert(cf << 7u8 == cf * 128) by (bit_vector)
            requires
                cf <= 1;
        let carry = cf << ZERO_BIT_POS;
        assert((a >> 1u8) | carry == a / 2 + carry) by (bit_vector)
            requires
                carry == 0 || carry == 128;
        self.registers.set_register(Target::A, (a >> 1) | carry);
        self.set_flag(Flag::Carry, lsb != 0);
        let z = self.registers.a == 0;
        self.set_flag(Flag::Zero, z);
    }

    /// RRCA: rotates A right, the bit shifted out into the carry; the zero flag tells whether A
    /// is zero.
    pub fn rrca(&mut self)
        ensures
            final(self)@ == old(self)@.rrca_spec(),
            final(self).bus == old(self).bus,
    {
        let a = self.registers.a;
        assert(a & 1u8 == a % 2) by (bit_vector);
        self.set_flag(Flag::Carry, (a & 1) != 0);
        self.registers.a = a / 2 + (a % 2) * 128;
        let z = self.registers.a == 0;
        self.set_flag(Flag::Zero, z);
    }

    /// RLC: rotates an eight bit register left, or HL as sixteen bits, the bit shifted out into
    /// the carry.
    pub fn rlc(&mut self, reg: Target)
        requires
            reg == Target::HL || is_reg8(reg),
        ensures
            final(self)@ == old(self)@.rlc_spec(reg),
            final(self).bus == old(self).bus,
    {
        if reg == Target::HL {
            let v = self.registers.combined_register(reg);
            assert((v & 0x8000u16) != 0 <==> v >= 0x8000) by (bit_vector);
            self.set_flag(Flag::Carry, (v & 0x8000) != 0);
            let rotated = (v % 0x8000) * 2 + v / 0x8000;
            assert(rotated == wrap16(v * 2 + v / 0x8000));
            self.registers.set_combined_register(reg, rotated);
        } else {
            let old = self.registers.get_register(reg);
            assert((old & 0x80u8) != 0 <==> old >= 128) by (bit_vector);
            self.set_flag(Flag::Carry, (old & 0x80) != 0);
            let new = (old % 128) * 2 + old / 128;
            assert(new == wrap8(old * 2 + old / 128));
            self.set_flag(Flag::Zero, new == 0);
            self.registers.set_register(reg, new);
        }
    }

    /// RRC: rotates a register right, the old carry into bit 7 and bit 0 into the carry.
    pub fn rrc(&mut self, reg: Target)
        requires
            is_reg8(reg),
        ensures
            final(self)@ == old(self)@.rrc_spec(reg),
            final(self).bus == old(self).bus,
    {
        let old = self.registers.get_register(reg);
        let old_carry: u8 = if self.registers.get_flag(Flag::Carry) { 1 } else { 0 };
        proof { lemma_u8_bits(self.registers.f, CARRY_BIT_POS); }
        let new_carry = old & 1;
        assert(old & 1u8 == old % 2) by (bit_vector);
        self.set_flag(Flag::Carry, new_carry == 1);
        assert((old >> 1u8) | (old_carry << 7u8) == old / 2 + old_carry * 128) by (bit_vector)
            requires
                old_carry <= 1;
        let new = (old >> 1) | (old_carry << 7);
        self.set_flag(Flag::Zero, new == 0);
        self.registers.set_register(reg, new);
    }

    /// SL: shifts a register left by one.
    pub fn sl(&mut self, reg: Target)
        requires
            is_reg8(reg),
        ensures
            final(self)@ == old(self)@.sl_spec(reg),
            final(self).bus == old(self).bus,
    {
        let v = self.registers.get_register(reg);
        assert(v << 1u8 == wrap8(v * 2)) by (bit_vector);
        self.registers.set_register(reg, v << 1);
    }

    /// SLA: shifts a register left by one; the carry is raised when bit 7 was clear, the zero
    /// flag tells whether the result is zero, half carry and sub are cleared.
    pub fn sla(&mut self, reg: Target)
        requires
            is_reg8(reg),
        ensures
            final(self)@ == old(self)@.sla_spec(reg),
            final(self).bus == old(self).bus,
    {
        let old = self.registers.get_register(reg);
        assert((old & 0x80u8) == 0 <==> old < 128) by (bit_vector);
        let bit = old & 0x80;
        assert(old << 1u8 == wrap8(old * 2)) by (bit_vector);
        let new = old << 1;
        self.set_flag(Flag::Carry, bit == 0);
        self.set_flag(Flag::Zero, new == 0);
        self.set_flag(Flag::HalfCarry, false);
        self.set_flag(Flag::Sub, false);
        self.registers.set_register(reg, new);
    }

    /// SRL: shifts a register, or HL, right by one, bit 0 into the carry; the zero flag tells
    /// whether the result is zero, sub and half carry are cleared.
    pub fn srl(&mut self, reg: Target)
        requires
            reg == Target::HL || is_reg8(reg),
        ensures
            final(self)@ == old(self)@.srl_spec(reg),
            final(self).bus == old(self).bus,
    {
        if reg == Target::HL {
            let mut v = self.registers.combined_register(reg);
            assert(v & 1u16 == v % 2) by (bit_vector);
            assert(v >> 1u16 == v / 2) by (bit_vector);
            let lsb = v & 1;
            v = v >> 1;
            self.set_flag(Flag::Zero, v == 0);
            self.set_flag(Flag::Sub, false);
            self.set_flag(Flag::Carry, lsb != 0);
            self.set_flag(Flag::HalfCarry, false);
            self.registers.set_combined_register(reg, v);
        } else {
            let old = self.registers.get_register(reg);
            assert(old & 1u8 == old % 2) by (bit_vector);
            assert(old >> 1u8 == old / 2) by (bit_vector);
            let lsb = old & 1;
            let new = old >> 1;
            self.registers.set_register(reg, new);
            self.set_flag(Flag::Zero, new == 0);
            self.set_flag(Flag::Sub, false);
            self.set_flag(Flag::Carry, lsb != 0);
            self.set_flag(Flag::HalfCarry, false);
        }
    }

    /// SRA: shifts a register right by one keeping bit 7, bit 0 into the carry, and stores the
    /// result in A.
    pub fn sra(&mut self, reg: Target)
        requires
            is_reg8(reg),
        ensures
            final(self)@ == old(self)@.sra_spec(reg),
            final(self).bus == old(self).bus,
    {
        let old = self.registers.get_register(reg);
        assert(old & 1u8 == old % 2) by (bit_vector);
        assert((old >> 1u8) | (old & 0x80u8) == old / 2 + (old / 128) * 128) by (bit_vector);
        let lsb = old & 1;
        let new = (old >> 1) | (old & 0x80);
        self.set_flag(Flag::Zero, new == 0);
        self.set_flag(Flag::Sub, false);
        self.set_flag(Flag::Carry, lsb != 0);
        self.set_flag(Flag::HalfCarry, false);
        self.registers.set_register(Target::A, new);
    }

    /// SET: raises bit `bit` of a register.
    pub fn set(&mut self, bit: u8, reg: Target)
        requires
            bit < 8,
            is_reg8(reg),
        ensures
            final(self)@ == old(self)@.set_spec(bit, reg),
            final(self).bus == old(self).bus,
    {
        let v = self.registers.get_register(reg);
        proof { lemma_u8_bits(v, bit); }
        self.registers.set_register(reg, v | (1 << bit));
    }

    /// RES: clears bit `bit` of a register, or of HL.
    pub fn res(&mut self, bit: u8, reg: Target)
        requires
            if reg == Target::HL { bit < 16 } else { bit < 8 && is_reg8(reg) },
        ensures
            final(self)@ == old(self)@.res_spec(bit, reg),
            final(self).bus == old(self).bus,
    {
        if reg == Target::HL {
            let v = self.registers.combined_register(Target::HL);
            let mask = !(1u16 << bit);
            self.registers.set_combined_register(Target::HL, v & mask);
        } else {
            let v = self.registers.get_register(reg);
            proof { lemma_u8_bits(v, bit); }
            let mask: u8 = !(1u8 << bit);
            self.registers.set_register(reg, v & mask);
        }
    }

    /// DDA: corrects A to decimal after an addition: six is added when the half carry is
    /// raised or the low digit is above nine, 0x60 (and the carry raised) when the half carry
    /// is raised or A is above 0x9F; the zero flag tells whether A is zero and the half carry
    /// is cleared.
    pub fn dda(&mut self)
        ensures
            final(self)@ == old(self)@.dda_spec(),
            final(self).bus == old(self).bus,
    {
        let mut correction: u8 = 0;
        let carry_flag = self.registers.get_flag(Flag::HalfCarry);
        let a = self.registers.a;
        let low = a % 16;
        if carry_flag || low > 9 {
            correction = 0x06;
        }
        if carry_flag || a > 0x9F {
            correction = correction + 0x60;
            self.set_flag(Flag::Carry, true);
        }
        let ghost s1 = self@;
        self.registers.a = a.wrapping_add(correction);
        assert(self@ == s1.with_r8(Target::A, wrap8(a + correction)));
        let z = self.registers.a == 0;
        self.set_flag(Flag::Zero, z);
        self.set_flag(Flag::HalfCarry, false);
    }

    /// JP (HL): the program counter takes the value of HL.
    pub fn jump_hl(&mut self)
        ensures
            final(self)@ == old(self)@.with_pc(old(self)@.pair(Target::HL) as u16),
            final(self).bus == old(self).bus,
    {
        self.pc = self.registers.combined_register(Target::HL);
    }

    /// Sets the program counter to 0x100, the stack pointer to 0xE000, and every register to
    /// zero.
    pub fn reset_registers(&mut self)
        ensures
            final(self).pc == 0x100,
            final(self).sp == 0xE000,
            final(self)@.regs.is_zeroed(),
            final(self).bus == old(self).bus,
            final(self).addr == old(self).addr,
            final(self).is_prefixed == old(self).is_prefixed,
            final(self).interrupts_enabled == old(self).interrupts_enabled,
            final(self).is_stopped == old(self).is_stopped,
    {
        self.pc = 0x100;
        self.sp = 0xE000;
        self.registers.reset();
    }
}

impl Cpu {
    /// The byte a read of `address` through the bus gives.
    pub fn read_memory(&self, address: u16) -> (b: u8)
        requires
            can_read(self@.bus, address as int),
        ensures
            b == self@.byte(address as int),
    {
        self.bus.read(address).unwrap()
    }

    /// Writes `byte` to `address` through the bus.
    pub fn write_to_memory(&mut self, address: u16, byte: u8)
        requires
            old(self).wf(),
            write_held(old(self)@.bus, address as int),
        ensures
            final(self).wf(),
            final(self)@ == old(self)@.write(address as int, byte),
    {
        let _ = self.bus.write(address, byte);
    }

    /// Writes `data` to `address` through the bus, low byte first.
    fn write_word(&mut self, address: u16, data: u16)
        requires
            old(self).wf(),
            word_held(old(self)@.bus, address as int),
        ensures
            final(self).wf(),
            final(self)@ == old(self)@.write_word(address as int, data),
    {
        let _ = self.bus.write_16(address, data);
    }

    /// Writes `bytes[i]` to address `i` (modulo 0x10000) through the bus, for each `i` in order.
    fn fill(&mut self, bytes: &Vec<u8>)
        requires
            old(self).wf(),
            fill_held(old(self)@.bus, bytes.len() as int),
        ensures
            final(self).wf(),
            final(self)@ == (CpuView { bus: bus_filled(old(self)@.bus, bytes@), ..old(self)@ }),
    {
        let ghost start = self@;
        let mut i: usize = 0;
        while i < bytes.len()
            invariant
                i <= bytes.len(),
                self.wf(),
                self@ == (CpuView { bus: bus_filled(start.bus, bytes@.take(i as int)), ..start }),
                forall|a: int| #[trigger] write_held(self@.bus, a) == write_held(start.bus, a),
                fill_held(start.bus, bytes.len() as int),
            decreases bytes.len() - i,
        {
            let address = (i % 0x10000) as u16;
            assert(write_held(start.bus, i as int % 0x10000));
            proof { lemma_write_keeps_choice(self@.bus, address, bytes@[i as int]); }
            self.write_to_memory(address, bytes[i]);
            assert(bytes@.take(i + 1).drop_last() =~= bytes@.take(i as int));
            i = i + 1;
        }
        assert(bytes@.take(bytes.len() as int) =~= bytes@);
    }

    /// Writes the program to the bus, byte `i` to address `i` (modulo 0x10000).
    pub fn load_program(&mut self, program: Vec<u8>)
        requires
            old(self).wf(),
            fill_held(old(self)@.bus, program.len() as int),
        ensures
            final(self).wf(),
            final(self)@ == (CpuView { bus: bus_filled(old(self)@.bus, program@), ..old(self)@ }),
    {
        self.fill(&program);
    }

    /// Writes zero to every address below 0xFFFF through the bus.
    pub fn zero_memory(&mut self)
        requires
            old(self).wf(),
            fill_held(old(self)@.bus, 0xFFFF),
        ensures
            final(self).wf(),
            final(self)@ == (CpuView {
                bus: bus_filled(old(self)@.bus, Seq::new(0xFFFF, |i: int| 0u8)),
                ..old(self)@
            }),
    {
        let zeros: Vec<u8> = vec![0u8; 0xFFFF];
        assert(zeros@ =~= Seq::new(0xFFFF, |i: int| 0u8));
        self.fill(&zeros);
    }

    /// Writes the byte of the end of program instruction to every address below 0xFFFF through
    /// the bus.
    pub fn set_memory_to_end_of_program(&mut self)
        requires
            old(self).wf(),
            fill_held(old(self)@.bus, 0xFFFF),
        ensures
            final(self).wf(),
            final(self)@ == (CpuView {
                bus: bus_filled(old(self)@.bus, Seq::new(0xFFFF, |i: int| end_of_program_byte())),
                ..old(self)@
            }),
    {
        proof { lemma_end_of_program_byte(); }
        let end = TableInstruction::byte_from_opcode(TableOpCode::EndOfProgram).unwrap();
        let bytes: Vec<u8> = vec![end; 0xFFFF];
        assert(bytes@ =~= Seq::new(0xFFFF, |i: int| end_of_program_byte()));
        self.fill(&bytes);
    }

    /// JP: the program counter takes the address after the opcode, low byte first.
    pub fn jp(&mut self)
        requires
            old(self)@.next_two_ok(),
        ensures
            final(self)@ == old(self)@.jp_spec(),
            final(self).bus == old(self).bus,
    {
        let lower_byte = self.read_memory(self.pc + 1) as u16;
        let upper_byte = self.read_memory(self.pc + 2) as u16;
        self.pc = upper_byte * 256 + lower_byte;
    }

    /// Jumps to the address after the opcode, low byte first, when `flag` holds; tells whether
    /// it jumped.
    pub fn jump_by_flag(&mut self, flag: Flag) -> (jumped: bool)
        requires
            old(self)@.holds(flag) ==> old(self)@.next_two_ok(),
        ensures
            jumped == old(self)@.holds(flag),
            final(self)@ == if jumped { old(self)@.jp_spec() } else { old(self)@ },
            final(self).bus == old(self).bus,
    {
        if self.registers.get_flag(flag) {
            let upper = self.read_memory(self.pc + 2) as u16;
            let lower = self.read_memory(self.pc + 1) as u16;
            self.pc = upper * 256 + lower;
            true
        } else {
            false
        }
    }

    /// JR without a condition: adds the byte after the opcode to the program counter.
    pub fn jruc(&mut self)
        requires
            old(self)@.jruc_ok(),
        ensures
            final(self)@ == old(self)@.jruc_spec(),
            final(self).bus == old(self).bus,
    {
        self.pc = self.pc + self.read_memory(self.pc + 1) as u16;
    }

    /// JR: adds the byte after the opcode to the program counter when `flag` holds; tells
    /// whether it did.
    pub fn jr(&mut self, flag: Flag) -> (jumped: bool)
        requires
            old(self)@.holds(flag) ==> old(self)@.jruc_ok(),
        ensures
            jumped == old(self)@.holds(flag),
            final(self)@ == if jumped { old(self)@.jruc_spec() } else { old(self)@ },
            final(self).bus == old(self).bus,
    {
        if self.registers.get_flag(flag) {
            self.pc = self.pc + self.read_memory(self.pc + 1) as u16;
            true
        } else {
            false
        }
    }

    /// CALL: when `flag` holds, pushes the address after the call as a word at the stack
    /// pointer and jumps to the address after the opcode; tells whether it called.
    pub fn call(&mut self, flag: Flag) -> (called: bool)
        requires
            old(self).wf(),
            old(self)@.holds(flag) ==> old(self)@.call_ok(),
        ensures
            final(self).wf(),
            called == old(self)@.holds(flag),
            final(self)@ == if called { old(self)@.call_spec() } else { old(self)@ },
    {
        if self.registers.get_flag(flag) {
            let lower = self.read_memory(self.pc + 3);
            let higher = self.read_memory(self.pc + 4);
            let _address = (higher as u16) * 256 + lower as u16;
            let ghost before = self@;
            proof { lemma_write_16_keeps_choice(before.bus, self.sp, (self.pc + 3) as u16); }
            self.write_word(self.sp, self.pc + 3);
            let lower = self.read_memory(self.pc + 1);
            let upper = self.read_memory(self.pc + 2);
            self.pc = (upper as u16) * 256 + lower as u16;
            true
        } else {
            false
        }
    }

    /// RET: when `flag` holds, the program counter takes the word below the stack pointer,
    /// high byte first; tells whether it returned.
    pub fn ret(&mut self, flag: Flag) -> (returned: bool)
        requires
            old(self)@.holds(flag) ==> old(self)@.ret_ok(),
        ensures
            returned == old(self)@.holds(flag),
            final(self)@ == if returned { old(self)@.ret_spec() } else { old(self)@ },
            final(self).bus == old(self).bus,
    {
        if self.registers.get_flag(flag) {
            let high = self.read_memory(self.sp - 1) as u16;
            let low = self.read_memory(self.sp - 2) as u16;
            self.pc = high * 256 + low;
            true
        } else {
            false
        }
    }

    /// PUSH: writes the low byte of a register pair at the stack pointer and the high byte
    /// below it, and lowers the stack pointer by two.
    pub fn push(&mut self, target: Target)
        requires
            old(self).wf(),
            old(self)@.push_ok(target),
        ensures
            final(self).wf(),
            final(self)@ == old(self)@.push_spec(target),
    {
        let v = self.registers.combined_register(target);
        proof { lemma_write_keeps_choice(self@.bus, self.sp, (v % 256) as u8); }
        self.write_to_memory(self.sp, (v % 256) as u8);
        self.write_to_memory(self.sp - 1, (v / 256) as u8);
        self.sp = self.sp - 2;
    }

    /// POP: a register pair takes the two bytes above the stack pointer, the first one high,
    /// and the stack pointer rises by two.
    pub fn pop(&mut self, target: Target)
        requires
            old(self)@.pop_ok(target),
        ensures
            final(self)@ == old(self)@.pop_spec(target),
            final(self).bus == old(self).bus,
    {
        let high = self.read_memory(self.sp + 1) as u16;
        let low = self.read_memory(self.sp + 2) as u16;
        let v = high * 256 + low;
        self.sp = self.sp.wrapping_add(2);
        self.registers.set_combined_register(target, v);
    }

    /// RST: pushes the program counter, high byte below the stack pointer and low byte at it,
    /// lowers the stack pointer by two and jumps to `address`.
    pub fn rst(&mut self, address: u16)
        requires
            old(self).wf(),
            old(self)@.rst_ok(),
        ensures
            final(self).wf(),
            final(self)@ == old(self)@.rst_spec(address),
    {
        proof { lemma_write_keeps_choice(self@.bus, (self.sp - 1) as u16, (self.pc / 256) as u8); }
        self.write_to_memory(self.sp - 1, (self.pc / 256) as u8);
        self.write_to_memory(self.sp, (self.pc % 256) as u8);
        self.sp = self.sp.wrapping_sub(2);
        self.pc = address;
    }

    /// The address an eight bit load reads or writes through `t`.
    fn load_address(&self, t: Target) -> (a: u16)
        requires
            t == Target::HL || t == Target::BC || t == Target::DE || (t == Target::A8 || t
                == Target::R8) && self@.next_ok() && self@.load_address(t) <= 0xFFFF || t
                == Target::A16 && self@.next_two_ok(),
        ensures
            a == self@.load_address(t),
    {
        match t {
            Target::HL | Target::BC | Target::DE => self.registers.combined_register(t),
            Target::A8 => 0xFF00 + self.read_memory(self.pc + 1) as u16,
            Target::A16 => (self.read_memory(self.pc + 1) as u16) * 256 + self.read_memory(self.pc + 2) as u16,
            _ => self.pc + self.read_memory(self.pc + 1) as u16,
        }
    }

    /// LD between eight bit places: the value is a byte read through a register pair, an I/O
    /// address, an address or offset after the opcode, the byte after the opcode, or a
    /// register; a register pair takes it as sixteen bits, an I/O address or an address after
    /// the opcode is written with it, or a register takes it.
    pub fn load(&mut self, dst: Target, src: Target)
        requires
            old(self).wf(),
            old(self)@.load_ok(dst, src),
        ensures
            final(self).wf(),
            final(self)@ == old(self)@.load_spec(dst, src),
    {
        let v = match src {
            Target::HL | Target::BC | Target::DE | Target::A8 | Target::A16 | Target::R8 => {
                let a = self.load_address(src);
                self.read_memory(a)
            },
            Target::D8 => self.read_memory(self.pc + 1),
            _ => self.registers.get_register(src),
        };
        match dst {
            Target::HL => self.registers.set_combined_register(Target::HL, v as u16),
            Target::BC => self.registers.set_combined_register(Target::BC, v as u16),
            Target::DE => self.registers.set_combined_register(Target::DE, v as u16),
            Target::A8 | Target::A16 => {
                let a = self.load_address(dst);
                self.write_to_memory(a, v);
            },
            _ => self.registers.set_register(dst, v),
        }
    }

    /// LDH: the value is A, or 0xFF00 plus the byte at the address the byte after the opcode
    /// names; A takes its low byte, or that I/O address is written with it.
    pub fn ldh(&mut self, dst: Target, src: Target)
        requires
            old(self).wf(),
            old(self)@.ldh_ok(dst, src),
        ensures
            final(self).wf(),
            final(self)@ == old(self)@.ldh_spec(dst, src),
    {
        let v: u16 = match src {
            Target::A => self.registers.a as u16,
            _ => {
                let at = self.read_memory(self.pc + 1) as u16;
                0xFF00 + self.read_memory(at) as u16
            },
        };
        match dst {
            Target::A => self.registers.a = (v % 256) as u8,
            _ => {
                let at = self.read_memory(self.pc + 1) as u16;
                let addr = 0xFF00 + self.read_memory(at) as u16;
                self.write_to_memory(addr, (v % 256) as u8);
            },
        }
    }

    /// LD with a sixteen bit operand: the value is a byte read through a register pair, an I/O
    /// address or an address after the opcode, the byte or the word (high byte first) after the
    /// opcode, the stack pointer, the byte at the stack pointer plus the byte after the opcode,
    /// or a register; it is written as a word to an I/O address, an address after the opcode or
    /// the stack pointer plus the byte after the opcode, or the stack pointer takes it.
    pub fn load_16(&mut self, dst: Target, src: Target)
        requires
            old(self).wf(),
            old(self)@.load16_ok(dst, src),
        ensures
            final(self).wf(),
            final(self)@ == old(self)@.load16_spec(dst, src),
    {
        let v: u16 = match src {
            Target::HL | Target::BC | Target::DE => {
                let a = self.registers.combined_register(src);
                self.read_memory(a) as u16
            },
            Target::A8 => {
                let a = 0xFF00 + self.read_memory(self.pc + 1) as u16;
                self.read_memory(a) as u16
            },
            Target::A16 => {
                let a = (self.read_memory(self.pc + 1) as u16) * 256 + self.read_memory(self.pc + 2) as u16;
                self.read_memory(a) as u16
            },
            Target::D8 => self.read_memory(self.pc + 1) as u16,
            Target::D16 => (self.read_memory(self.pc + 1) as u16) * 256 + self.read_memory(self.pc + 2) as u16,
            Target::SP => self.sp,
            Target::SP_R8 => {
                let a = self.sp + self.read_memory(self.pc + 1) as u16;
                self.read_memory(a) as u16
            },
            _ => self.registers.get_register(src) as u16,
        };
        match dst {
            Target::A8 => {
                let addr = 0xFF00 + self.read_memory(self.pc + 1) as u16;
                self.write_word(addr, v);
            },
            Target::A16 => {
                let addr = (self.read_memory(self.pc + 1) as u16) * 256 + self.read_memory(self.pc + 2) as u16;
                self.write_word(addr, v);
            },
            Target::SP => self.sp = v,
            _ => {
                let addr = self.sp + self.read_memory(self.pc + 1) as u16;
                self.write_word(addr, v);
            },
        }
    }
}
impl Cpu {
    /// The eight bit operand of ADC, ADD, AND, SBC and XOR.
    fn operand(&self, t: Target) -> (v: u8)
        requires
            self@.operand_ok(t),
        ensures
            v == self@.operand(t),
    {
        match t {
            Target::HL => {
                let a = self.registers.combined_register(Target::HL);
                self.read_memory(a)
            },
            Target::D8 => self.read_memory(self.pc + 1),
            _ => self.registers.get_register(t),
        }
    }

    /// ADC: adds the operand and the carry to A.
    pub fn adc(&mut self, reg: Target, flags: FlagAffection)
        requires
            old(self)@.adc_ok(reg, flags),
        ensures
            final(self)@ == old(self)@.adc_spec(reg, flags),
            final(self).bus == old(self).bus,
    {
        let v = self.operand(reg);
        let carry = self.registers.filter_flag(Flag::Carry);
        self.registers.a = self.registers.a.wrapping_add(v + carry);
        let a = self.registers.a;
        self.set_flags(flags, v, a);
    }

    /// ADD: adds the operand to A.
    pub fn add(&mut self, src: Target, flags: FlagAffection)
        requires
            old(self)@.add_ok(src, flags),
        ensures
            final(self)@ == old(self)@.add_spec(src, flags),
            final(self).bus == old(self).bus,
    {
        let v = self.operand(src);
        self.registers.a = self.registers.a.wrapping_add(v);
        let a = self.registers.a;
        self.set_flags(flags, v, a);
    }

    /// ADD to HL or to the stack pointer of a register pair, the stack pointer, or the byte
    /// after the opcode.
    pub fn add_16(&mut self, dst: Target, src: Target, flags: FlagAffection)
        requires
            old(self)@.add16_ok(dst, src),
        ensures
            final(self)@ == old(self)@.add16_spec(dst, src, flags),
            final(self).bus == old(self).bus,
    {
        let v: u16 = match src {
            Target::SP => self.sp,
            Target::R8 => self.read_memory(self.pc + 1) as u16,
            _ => self.registers.combined_register(src),
        };
        let (old, new) = match dst {
            Target::HL => {
                let old = self.registers.combined_register(dst);
                let new = old + v;
                self.registers.set_combined_register(Target::HL, new);
                (old, new)
            },
            _ => {
                let old = self.sp;
                self.sp = self.sp + v;
                let new = self.sp;
                (old, new)
            },
        };
        self.set_flags_16(flags, old, new);
    }

    /// AND: A and the operand.
    pub fn and(&mut self, src: Target, flags: FlagAffection)
        requires
            old(self)@.logic_ok(src, flags),
        ensures
            final(self)@ == old(self)@.and_spec(src, flags),
            final(self).bus == old(self).bus,
    {
        let old = self.registers.a;
        let v = self.operand(src);
        self.registers.set_register(Target::A, old & v);
        let a = self.registers.a;
        self.set_flags(flags, old, a);
    }

    /// OR: A or the operand; with HL, A or the low byte of HL itself.
    pub fn or(&mut self, src: Target, flags: FlagAffection)
        requires
            old(self)@.or_ok(src, flags),
        ensures
            final(self)@ == old(self)@.or_spec(src, flags),
            final(self).bus == old(self).bus,
    {
        let old = self.registers.a;
        match src {
            Target::HL => {
                self.registers.a = (self.registers.a as u16 | self.registers.combined_register(Target::HL)) as u8;
            },
            _ => {
                let bits = self.operand(src);
                self.registers.set_register(Target::A, old | bits);
            },
        }
        let a = self.registers.a;
        self.set_flags(flags, old, a);
    }

    /// XOR: A exclusive or the operand.
    pub fn xor(&mut self, src: Target, flags: FlagAffection)
        requires
            old(self)@.logic_ok(src, flags),
        ensures
            final(self)@ == old(self)@.xor_spec(src, flags),
            final(self).bus == old(self).bus,
    {
        let old = self.registers.a;
        let bits = self.operand(src);
        self.registers.set_register(Target::A, old ^ bits);
        let a = self.registers.a;
        self.set_flags(flags, old, a);
    }

    /// BIT: sets the flags from bit `bit_pos` of the byte HL points at or of a register.
    pub fn bit(&mut self, bit_pos: u8, reg: Target, flags: FlagAffection)
        requires
            old(self)@.bit_ok(bit_pos, reg, flags),
        ensures
            final(self)@ == old(self)@.bit_spec(bit_pos, reg, flags),
            final(self).bus == old(self).bus,
    {
        let v = match reg {
            Target::HL => {
                let a = self.registers.combined_register(Target::HL);
                self.read_memory(a)
            },
            _ => self.registers.get_register(reg),
        };
        let bit = v & (1u8 << bit_pos);
        self.set_flags(flags, v, bit);
    }

    /// CP: sets the flags of A minus HL itself, the byte after the opcode, or a register; A
    /// stays.
    pub fn cp(&mut self, reg: Target, flags: FlagAffection)
        requires
            old(self)@.cp_ok(reg),
        ensures
            final(self)@ == old(self)@.cp_spec(reg, flags),
            final(self).bus == old(self).bus,
    {
        let v: u16 = match reg {
            Target::HL => self.registers.combined_register(Target::HL),
            Target::D8 => self.read_memory(self.pc + 1) as u16,
            _ => self.registers.get_register(reg) as u16,
        };
        let result = self.registers.a as u16 - v;
        self.set_flags_16(flags, v, result);
    }

    /// CPL: inverts A.
    pub fn cpl(&mut self, flags: FlagAffection)
        requires
            flags.sub_flag != FlagAction::Affected,
        ensures
            final(self)@ == old(self)@.cpl_spec(flags),
            final(self).bus == old(self).bus,
    {
        self.registers.a = !self.registers.a;
        self.set_flags(flags, 0, 0);
    }

    /// DEC: lowers HL or an eight bit register by one, wrapping.
    pub fn dec(&mut self, target: Target, flags: FlagAffection)
        requires
            old(self)@.step8_ok(target, flags),
        ensures
            final(self)@ == old(self)@.step8_spec(target, flags, -1),
            final(self).bus == old(self).bus,
    {
        if target == Target::HL {
            let old = self.registers.combined_register(target);
            let v = old.wrapping_sub(1);
            self.registers.set_combined_register(Target::HL, v);
            self.set_flags_16(flags, old, v);
        } else {
            let old = self.registers.get_register(target);
            let new = old.wrapping_sub(1);
            self.set_flags(flags, old, new);
            self.registers.set_register(target, new);
        }
    }

    /// INC: raises HL or an eight bit register by one, wrapping.
    pub fn inc(&mut self, target: Target, flags: FlagAffection)
        requires
            old(self)@.step8_ok(target, flags),
        ensures
            final(self)@ == old(self)@.step8_spec(target, flags, 1),
            final(self).bus == old(self).bus,
    {
        if target == Target::HL {
            let old = self.registers.combined_register(target);
            let v = old.wrapping_add(1);
            self.registers.set_combined_register(Target::HL, v);
            self.set_flags_16(flags, old, v);
        } else {
            let old = self.registers.get_register(target);
            let new = old.wrapping_add(1);
            self.set_flags(flags, old, new);
            self.registers.set_register(target, new);
        }
    }

    /// DEC16: lowers the stack pointer or a register pair by one, wrapping.
    pub fn dec_16(&mut self, target: Target, flags: FlagAffection)
        requires
            old(self)@.step16_ok(target),
        ensures
            final(self)@ == old(self)@.step16_spec(target, flags, -1),
            final(self).bus == old(self).bus,
    {
        if target == Target::SP {
            let old = self.sp;
            self.sp = self.sp.wrapping_sub(1);
            let new = self.sp;
            self.set_flags_16(flags, old, new);
        } else {
            let old = self.registers.combined_register(target);
            let new = old.wrapping_sub(1);
            self.registers.set_combined_register(target, new);
            self.set_flags_16(flags, old, new);
        }
    }

    /// INC16: raises the stack pointer or a register pair by one, wrapping.
    pub fn inc_16(&mut self, target: Target, flags: FlagAffection)
        requires
            old(self)@.step16_ok(target),
        ensures
            final(self)@ == old(self)@.step16_spec(target, flags, 1),
            final(self).bus == old(self).bus,
    {
        if target == Target::SP {
            let old = self.sp;
            self.sp = self.sp.wrapping_add(1);
            let new = self.sp;
            self.set_flags_16(flags, old, new);
        } else {
            let old = self.registers.combined_register(target);
            let new = old.wrapping_add(1);
            self.registers.set_combined_register(target, new);
            self.set_flags_16(flags, old, new);
        }
    }

    /// RL of HL, as `rl_hl_spec` describes.
    fn rl_hl(&mut self)
        ensures
            final(self)@ == old(self)@.rl_hl_spec(),
            final(self).bus == old(self).bus,
    {
        let old_carry: u8 = if self.registers.get_flag(Flag::Carry) { 1 } else { 0 };
        let old = self.registers.combined_register(Target::HL);
        let lower = old & 0xFFu16;
        let upper = (old & 0xFF00u16) >> 7u16;
        let msb_upper = (upper >> 7u16) as u8;
        let msb_lower = (lower >> 7u16) as u8;
        let new_upper = ((upper as u8) << 1u8) | old_carry;
        let new_carry = msb_lower;
        let new_lower = ((lower as u8) << 1u8) | msb_upper;
        assert(((new_upper as u16) << 7u16) + (new_lower as u16) <= 0xFFFF) by (bit_vector);
        let new_value = ((new_upper as u16) << 7u16) + new_lower as u16;
        self.registers.set_combined_register(Target::HL, new_value);
        self.set_flag(Flag::Zero, new_value == 0);
        self.set_flag(Flag::Sub, false);
        self.set_flag(Flag::HalfCarry, false);
        self.set_flag(Flag::Carry, new_carry > 0);
    }

    /// RL: rotates an eight bit register left through the carry; HL is rotated as
    /// `rl_hl_spec` describes.
    pub fn rl(&mut self, reg: Target, flags: FlagAffection)
        requires
            old(self)@.rl_ok(reg, flags),
        ensures
            final(self)@ == old(self)@.rl_spec(reg, flags),
            final(self).bus == old(self).bus,
    {
        if reg == Target::HL {
            self.rl_hl();
        } else {
            let old_carry: u8 = if self.registers.get_flag(Flag::Carry) { 1 } else { 0 };
            let old = self.registers.get_register(reg);
            let new_carry = old / 128;
            self.registers.set_flag_from_u8(Flag::Carry, new_carry);
            let new = (old % 128) * 2 + old_carry;
            self.registers.set_register(reg, new);
            self.set_flags(flags, old, new);
        }
    }

    /// RR: rotates a register right through the carry.
    pub fn rr(&mut self, reg: Target, flags: FlagAffection)
        requires
            old(self)@.rr_ok(reg, flags),
        ensures
            final(self)@ == old(self)@.rr_spec(reg, flags),
            final(self).bus == old(self).bus,
    {
        let old = self.registers.get_register(reg);
        let new_carry = old % 2;
        let old_carry: u8 = if self.registers.get_flag(Flag::Carry) { 1 } else { 0 };
        let new = old / 2 + old_carry * 128;
        self.registers.set_flag_from_u8(Flag::Carry, new_carry);
        self.registers.set_register(reg, new);
        self.set_flags(flags, old, new);
    }

    /// SBC: takes the operand and the carry from A, wrapping.
    pub fn sbc(&mut self, reg: Target, flags: FlagAffection)
        requires
            old(self)@.logic_ok(reg, flags),
        ensures
            final(self)@ == old(self)@.sbc_spec(reg, flags),
            final(self).bus == old(self).bus,
    {
        let v = self.operand(reg);
        let carry = self.registers.filter_flag(Flag::Carry);
        let old = self.registers.a;
        self.registers.set_register(Target::A, old.wrapping_sub(v).wrapping_sub(carry));
        let a = self.registers.a;
        self.set_flags(flags, old, a);
    }

    /// SUB: takes the low byte of HL itself, the byte after the opcode, or a register from A,
    /// wrapping.
    pub fn sub(&mut self, src: Target, flags: FlagAffection)
        requires
            old(self)@.sub_ok(src, flags),
        ensures
            final(self)@ == old(self)@.sub_spec(src, flags),
            final(self).bus == old(self).bus,
    {
        let v = match src {
            Target::HL => (self.registers.combined_register(Target::HL) % 256) as u8,
            _ => self.operand(src),
        };
        let old = self.registers.a;
        self.registers.set_register(Target::A, old.wrapping_sub(v));
        let a = self.registers.a;
        self.set_flags(flags, old, a);
    }

    /// SWAP: swaps the upper and lower nibble of a register.
    pub fn swap(&mut self, reg: Target, flags: FlagAffection)
        requires
            is_reg8(reg),
            flags.sub_flag != FlagAction::Affected,
        ensures
            final(self)@ == old(self)@.swap_spec(reg, flags),
            final(self).bus == old(self).bus,
    {
        let old = self.registers.get_register(reg);
        let v = old / 16 + (old % 16) * 16;
        self.set_flags(flags, old, v);
        self.registers.set_register(reg, v);
    }

    /// STORE: a convenience that is not a Game Boy instruction; it changes nothing.
    pub fn store(&mut self, dst: Target, src: Target)
        ensures
            *final(self) == *old(self),
    {
        if dst.is_16bit() {
            self.store_16(dst, src);
        }
    }

    /// STORE16: changes nothing.
    pub fn store_16(&mut self, dst: Target, src: Target)
        ensures
            *final(self) == *old(self),
    {
    }

    /// Carries out an addition, a subtraction, a comparison, an increment or a decrement.
    fn execute_arith(&mut self, instruction: &Instruction)
        requires
            old(self)@.arith_ok(*instruction),
            is_arith(instruction.opcode),
        ensures
            final(self)@ == old(self)@.arith_spec(*instruction),
            final(self).bus == old(self).bus,
    {
        reveal(CpuView::arith_ok);
        reveal(CpuView::arith_spec);
        let flags = instruction.flag_affection;
        match instruction.opcode {
            OpCode::ADC(target) => self.adc(target, flags),
            OpCode::ADD(target) => self.add(target, flags),
            OpCode::ADD16(dst, src) => self.add_16(dst, src, flags),
            OpCode::SBC(target) => self.sbc(target, flags),
            OpCode::SUB(target) => self.sub(target, flags),
            OpCode::CP(target) => self.cp(target, flags),
            OpCode::INC(target) => self.inc(target, flags),
            OpCode::DEC(target) => self.dec(target, flags),
            OpCode::INC16(target) => self.inc_16(target, flags),
            OpCode::DEC16(target) => self.dec_16(target, flags),
            _ => {},
        }
    }

    /// Carries out a logic operation, the decimal correction, a carry flag operation or a bit
    /// operation.
    fn execute_logic(&mut self, instruction: &Instruction)
        requires
            old(self)@.logic_ok_of(*instruction),
            is_logic(instruction.opcode),
        ensures
            final(self)@ == old(self)@.logic_spec(*instruction),
            final(self).bus == old(self).bus,
    {
        reveal(CpuView::logic_ok_of);
        reveal(CpuView::logic_spec);
        let flags = instruction.flag_affection;
        match instruction.opcode {
            OpCode::AND(target) => self.and(target, flags),
            OpCode::OR(target) => self.or(target, flags),
            OpCode::XOR(target) => self.xor(target, flags),
            OpCode::CPL => self.cpl(flags),
            OpCode::DDA => self.dda(),
            OpCode::CCF => {
                let carry = self.registers.get_flag(Flag::Carry);
                self.set_flag(Flag::Carry, !carry);
            },
            OpCode::SCF => self.set_flag(Flag::Carry, true),
            OpCode::BIT(bit, target) => self.bit(bit, target, flags),
            OpCode::SET(bit, target) => self.set(bit, target),
            OpCode::RES(bit, target) => self.res(bit, target),
            _ => {},
        }
    }

    /// Carries out a rotation.
    fn execute_rotate(&mut self, instruction: &Instruction)
        requires
            old(self)@.rotate_ok(*instruction),
            is_rotate(instruction.opcode),
        ensures
            final(self)@ == old(self)@.rotate_spec(*instruction),
            final(self).bus == old(self).bus,
    {
        reveal(CpuView::rotate_ok);
        reveal(CpuView::rotate_spec);
        let flags = instruction.flag_affection;
        match instruction.opcode {
            OpCode::RL(target) => self.rl(target, flags),
            OpCode::RLA => self.rla(),
            OpCode::RLC(target) => self.rlc(target),
            OpCode::RLCA => self.rlca(),
            OpCode::RR(target) => self.rr(target, flags),
            OpCode::RRA => self.rra(),
            OpCode::RRC(target) => self.rrc(target),
            OpCode::RRCA => self.rrca(),
            _ => {},
        }
    }

    /// Carries out a shift or a nibble swap.
    fn execute_shift(&mut self, instruction: &Instruction)
        requires
            old(self)@.shift_ok(*instruction),
            is_shift(instruction.opcode),
        ensures
            final(self)@ == old(self)@.shift_spec(*instruction),
            final(self).bus == old(self).bus,
    {
        reveal(CpuView::shift_ok);
        reveal(CpuView::shift_spec);
        let flags = instruction.flag_affection;
        match instruction.opcode {
            OpCode::SLA(target) => self.sla(target),
            OpCode::SRL(target) => self.srl(target),
            OpCode::SRA(target) => self.sra(target),
            OpCode::SWAP(target) => self.swap(target, flags),
            _ => {},
        }
    }

    /// Carries out a load, a stack operation, a mode change or an operation that does nothing.
    fn execute_misc(&mut self, instruction: &Instruction)
        requires
            old(self).wf(),
            old(self)@.misc_ok(*instruction),
            is_misc(instruction.opcode),
        ensures
            final(self).wf(),
            final(self)@ == old(self)@.misc_spec(*instruction),
    {
        reveal(CpuView::misc_ok);
        reveal(CpuView::misc_spec);
        match instruction.opcode {
            OpCode::DisableInterrupt => self.interrupts_enabled = false,
            OpCode::EnableInterrupt => self.interrupts_enabled = true,
            OpCode::HALT => {},
            OpCode::LD(dst, src) => {
                if self.registers.is_16bit_target(dst) || self.registers.is_16bit_target(src) {
                    self.load_16(dst, src);
                } else {
                    self.load(dst, src);
                }
            },
            OpCode::LDH(dst, src) => self.ldh(dst, src),
            OpCode::NOP => {},
            OpCode::POP(target) => self.pop(target),
            OpCode::PUSH(target) => self.push(target),
            OpCode::CB => self.is_prefixed = true,
            OpCode::STOP => self.is_stopped = true,
            OpCode::STORE(dst, src) => self.store(dst, src),
            _ => {},
        }
    }

    /// Carries out a call, a jump, a return or a restart; gives what the program counter is
    /// to be moved on by after it.
    fn execute_flow(&mut self, instruction: &Instruction) -> (pc_increment: u16)
        requires
            old(self).wf(),
            old(self)@.flow_ok(*instruction),
            is_flow(instruction.opcode),
        ensures
            final(self).wf(),
            final(self)@ == old(self)@.flow_spec(*instruction),
            pc_increment == old(self)@.pc_increment(*instruction),
    {
        reveal(CpuView::flow_ok);
        reveal(CpuView::flow_spec);
        let mut pc_increment = instruction.length as u16;
        match instruction.opcode {
            OpCode::CALL(flag) => {
                if self.call(flag) {
                    pc_increment = 0;
                }
            },
            OpCode::CALL_UC => {
                if self.registers.get_flag(Flag::Zero) {
                    self.call(Flag::Zero);
                } else {
                    self.call(Flag::NotZero);
                }
                pc_increment = 0;
            },
            OpCode::JUMP(flag) => {
                if self.jump_by_flag(flag) {
                    pc_increment = 0;
                }
            },
            OpCode::JP => self.jp(),
            OpCode::JR(flag) => {
                self.jr(flag);
            },
            OpCode::JP_HL => self.jump_hl(),
            OpCode::JRUC => self.jruc(),
            OpCode::RET(flag) => {
                if self.ret(flag) {
                    pc_increment = 0;
                }
            },
            OpCode::RET_UC => {
                if self.registers.get_flag(Flag::Zero) {
                    self.ret(Flag::Zero);
                } else {
                    self.ret(Flag::NotZero);
                }
                pc_increment = 0;
            },
            OpCode::RETI => {
                if self.registers.get_flag(Flag::Zero) {
                    self.ret(Flag::Zero);
                } else {
                    self.ret(Flag::NotZero);
                }
                pc_increment = 0;
                self.interrupts_enabled = true;
            },
            OpCode::RST(address) => {
                self.rst(address);
                pc_increment = 0;
            },
            _ => {},
        }
        pc_increment
    }

    /// Carries out the instruction and gives the address of the next one: the program counter
    /// after the instruction plus its length, or plus nothing after a call, a return, a
    /// restart or a jump taken on a condition. The program counter itself is not moved on.
    pub fn execute(&mut self, instruction: &Instruction) -> (next_pc: u16)
        requires
            old(self).wf(),
            old(self)@.execute_ok(*instruction),
        ensures
            final(self).wf(),
            final(self)@ == old(self)@.execute_spec(*instruction),
            next_pc == old(self)@.next_pc(*instruction),
    {
        let mut pc_increment = instruction.length as u16;
        let op = instruction.opcode;
        if is_arith_op(op) {
            self.execute_arith(instruction);
        } else if is_logic_op(op) {
            self.execute_logic(instruction);
        } else if is_rotate_op(op) {
            self.execute_rotate(instruction);
        } else if is_shift_op(op) {
            self.execute_shift(instruction);
        } else if is_flow_op(op) {
            pc_increment = self.execute_flow(instruction);
        } else {
            self.execute_misc(instruction);
        }
        self.pc.wrapping_add(pc_increment)
    }
}

/// Whether `op` is one of the operations `is_arith` names.
fn is_arith_op(op: OpCode) -> (r: bool)
    ensures
        r == is_arith(op),
{
    match op {
        OpCode::ADC(_) | OpCode::ADD(_) | OpCode::ADD16(_, _) | OpCode::SBC(_) | OpCode::SUB(_)
        | OpCode::CP(_) | OpCode::INC(_) | OpCode::DEC(_) | OpCode::INC16(_) | OpCode::DEC16(_) => true,
        _ => false,
    }
}

/// Whether `op` is one of the operations `is_logic` names.
fn is_logic_op(op: OpCode) -> (r: bool)
    ensures
        r == is_logic(op),
{
    match op {
        OpCode::AND(_) | OpCode::OR(_) | OpCode::XOR(_) | OpCode::CPL | OpCode::DDA
        | OpCode::CCF | OpCode::SCF | OpCode::BIT(_, _) | OpCode::SET(_, _) | OpCode::RES(_, _) => true,
        _ => false,
    }
}

/// Whether `op` is one of the operations `is_rotate` names.
fn is_rotate_op(op: OpCode) -> (r: bool)
    ensures
        r == is_rotate(op),
{
    match op {
        OpCode::RL(_) | OpCode::RLA | OpCode::RLC(_) | OpCode::RLCA | OpCode::RR(_)
        | OpCode::RRA | OpCode::RRC(_) | OpCode::RRCA => true,
        _ => false,
    }
}

/// Whether `op` is one of the operations `is_shift` names.
fn is_shift_op(op: OpCode) -> (r: bool)
    ensures
        r == is_shift(op),
{
    match op {
        OpCode::SLA(_) | OpCode::SRL(_) | OpCode::SRA(_) | OpCode::SWAP(_) => true,
        _ => false,
    }
}

/// Whether `op` is one of the operations `is_flow` names.
fn is_flow_op(op: OpCode) -> (r: bool)
    ensures
        r == is_flow(op),
{
    match op {
        OpCode::CALL(_) | OpCode::CALL_UC | OpCode::JUMP(_) | OpCode::JP | OpCode::JR(_)
        | OpCode::JP_HL | OpCode::JRUC | OpCode::RET(_) | OpCode::RET_UC | OpCode::RETI
        | OpCode::RST(_) => true,
        _ => false,
    }
}

/// PUSH and then POP gives the pushed register pair back, and the stack pointer where it was,
/// when the device that takes the writes to the two stack addresses also answers their reads.
pub proof fn lemma_push_then_pop(s: CpuView, t: Target, u: Target)
    requires
        s.push_ok(t),
        is_pair(u),
        reader(s.bus, s.sp as int) == writer(s.bus, s.sp as int),
        reader(s.bus, s.sp - 1) == writer(s.bus, s.sp - 1),
        writer(s.bus, s.sp as int) is Some,
        writer(s.bus, s.sp - 1) is Some,
    ensures
        s.push_spec(t).pop_ok(u),
        s.push_spec(t).pop_spec(u).pair(u) == s.pair(t),
        s.push_spec(t).pop_spec(u).sp == s.sp,
{
    let v = s.pair(t);
    let lo = (v % 256) as u8;
    let hi = (v / 256) as u8;
    let b1 = bus_written(s.bus, s.sp, lo);
    lemma_write_keeps_choice(s.bus, s.sp, lo);
    lemma_read_after_write(s.bus, s.sp, lo, (s.sp - 1) as u16);
    let b2 = bus_written(b1, (s.sp - 1) as u16, hi);
    lemma_write_keeps_choice(b1, (s.sp - 1) as u16, hi);
    lemma_read_after_write(b1, (s.sp - 1) as u16, hi, s.sp);
    assert(bus_read(b2, s.sp) == Ok::<u8, BusError<u16>>(lo));
    assert(bus_read(b2, (s.sp - 1) as u16) == Ok::<u8, BusError<u16>>(hi));
    let p = s.push_spec(t);
    assert(p.bus == b2);
    assert(p.byte(p.sp + 1) == hi);
    assert(p.byte(p.sp + 2) == lo);
    super::registers::lemma_pair_round_trip(p.regs, u, (hi * 256 + lo) as u16);
}

/// CALL and then RET, with the stack pointer moved back up over the pushed word, returns to
/// the instruction after the call, when the device that takes the pushed word also answers
/// reads of both its bytes.
pub proof fn lemma_call_then_ret(s: CpuView)
    requires
        s.call_ok(),
        s.sp < 0xFFFE,
        reader(s.bus, s.sp as int) == writer(s.bus, s.sp as int),
        reader(s.bus, s.sp + 1) == writer(s.bus, s.sp as int),
        writer(s.bus, s.sp as int) is Some,
    ensures
        s.call_spec().with_sp((s.sp + 2) as u16).ret_ok(),
        s.call_spec().with_sp((s.sp + 2) as u16).ret_spec().pc == s.pc + 3,
{
    let ret_to = (s.pc + 3) as u16;
    lemma_write_16_keeps_choice(s.bus, s.sp, ret_to);
    lemma_read_after_write_16(s.bus, s.sp, ret_to);
    let c = s.call_spec().with_sp((s.sp + 2) as u16);
    assert(c.bus == bus_written_16(s.bus, s.sp, ret_to));
    assert(c.byte(c.sp - 2) == (ret_to % 256) as u8);
    assert(c.byte(c.sp - 1) == (ret_to / 256) as u8);
}

/// RLCA and then RRCA, or RRCA and then RLCA, gives A back.
pub proof fn lemma_rotate_a_round_trip(s: CpuView)
    ensures
        s.rlca_spec().rrca_spec().a() == s.a(),
        s.rrca_spec().rlca_spec().a() == s.a(),
{
    let a = s.a() as int;
    assert(wrap8(a * 2 + a / 128) == (a % 128) * 2 + a / 128);
    crate::cpu::lemma_rotate_byte(s.a());
}

/// Writing a program through the bus keeps which device answers each address, and which
/// addresses the devices hold.
proof fn lemma_fill_keeps_choice(bus: Seq<ConnectionView>, program: Seq<u8>)
    requires
        fill_held(bus, program.len() as int),
    ensures
        forall|a: int| #[trigger] reader(bus_filled(bus, program), a) == reader(bus, a),
        forall|a: int| #[trigger] writer(bus_filled(bus, program), a) == writer(bus, a),
        forall|a: int| #[trigger] read_held(bus_filled(bus, program), a) == read_held(bus, a),
        forall|a: int| #[trigger] write_held(bus_filled(bus, program), a) == write_held(bus, a),
    decreases program.len(),
{
    if program.len() > 0 {
        let rest = program.drop_last();
        lemma_fill_keeps_choice(bus, rest);
        let n = program.len() - 1;
        assert(write_held(bus, n % 0x10000));
        lemma_write_keeps_choice(bus_filled(bus, rest), (n % 0x10000) as u16, program.last());
    }
}

/// After a program of at most 0x10000 bytes is written through the bus, each of its
/// addresses reads back its byte, where the device that takes writes to the address also
/// answers its reads.
pub proof fn lemma_load_program_reads_back(bus: Seq<ConnectionView>, program: Seq<u8>, i: int)
    requires
        program.len() <= 0x10000,
        fill_held(bus, program.len() as int),
        0 <= i < program.len(),
        reader(bus, i) == writer(bus, i),
        writer(bus, i) is Some,
    ensures
        bus_read(bus_filled(bus, program), i as u16) == Ok::<u8, BusError<u16>>(program[i]),
    decreases program.len(),
{
    let rest = program.drop_last();
    let n = program.len() - 1;
    lemma_fill_keeps_choice(bus, rest);
    let b = bus_filled(bus, rest);
    assert(write_held(bus, n % 0x10000));
    assert(write_held(bus, i % 0x10000));
    if i == n {
        lemma_read_after_write(b, n as u16, program.last(), n as u16);
    } else {
        lemma_load_program_reads_back(bus, rest, i);
        assert(read_held(bus, i));
        lemma_write_keeps_other_reads(b, n as u16, program.last(), i as u16);
    }
}

/// LD between two eight bit registers copies the source into the destination, leaves every
/// other register and the bus as they were, and can always be carried out; so does `execute`
/// of that LD.
pub proof fn lemma_load_register_to_register(s: CpuView, dst: Target, src: Target, ins: Instruction)
    requires
        is_reg8(dst),
        is_reg8(src),
        ins.opcode == OpCode::LD(dst, src),
    ensures
        s.load_ok(dst, src),
        s.load_spec(dst, src).r8(dst) == s.r8(src),
        forall|t: Target| is_reg8(t) && t != dst ==> #[trigger] s.load_spec(dst, src).r8(t) == s.r8(t),
        s.load_spec(dst, src).bus == s.bus,
        s.load_spec(dst, src).pc == s.pc,
        s.execute_ok(ins),
        s.execute_spec(ins).r8(dst) == s.r8(src),
        s.execute_spec(ins).bus == s.bus,
{
    reveal(CpuView::misc_ok);
    reveal(CpuView::misc_spec);
    assert(!CpuView::is_wide_load(dst, src));
}

/// DAA with the half carry clear leaves a valid decimal low digit: a low digit above nine
/// is corrected by six (and carries into the high digit), a low digit of nine or less stays.
/// The zero flag then tells whether A is zero, and the half carry stays clear.
pub proof fn lemma_dda_low_digit(s: CpuView)
    requires
        !s.holds(Flag::HalfCarry),
    ensures
        s.dda_spec().a() % 16 <= 9,
        s.a() % 16 > 9 ==> s.dda_spec().a() % 16 == s.a() % 16 - 10,
        s.a() % 16 <= 9 ==> s.dda_spec().a() % 16 == s.a() % 16,
        s.dda_spec().holds(Flag::Zero) <==> s.dda_spec().a() == 0,
        !s.dda_spec().holds(Flag::HalfCarry),
        s.dda_spec().bus == s.bus,
{
    let a = s.a() as int;
    let low = if a % 16 > 9 { 6int } else { 0 };
    let high = if a > 0x9F { 0x60int } else { 0 };
    let x = a + low + high;
    assert(wrap8(x) as int == x % 256);
    assert((x % 256) % 16 == x % 16) by (nonlinear_arith)
        requires x >= 0;
    assert(x % 16 == (a + low) % 16) by (nonlinear_arith)
        requires x == a + low + high, high == 0 || high == 0x60;
    let s1 = if a > 0x9F { s.flag(Flag::Carry, true) } else { s };
    let r = wrap8(x);
    let s2 = s1.with_r8(Target::A, r);
    let s3 = s2.flag(Flag::Zero, r == 0);
    super::registers::lemma_flag_set_then_get(s2.regs.f, Flag::Zero, r == 0, Flag::Zero);
    super::registers::lemma_flag_set_then_get(s3.regs.f, Flag::HalfCarry, false, Flag::Zero);
    super::registers::lemma_flag_set_then_get(s3.regs.f, Flag::HalfCarry, false, Flag::HalfCarry);
}

/// A relative jump adds the byte after the opcode to the program counter; registers and bus
/// stay as they were.
pub proof fn lemma_relative_jump(s: CpuView)
    requires
        s.jruc_ok(),
    ensures
        s.jruc_spec().pc == s.pc + s.byte(s.pc + 1),
        s.jruc_spec().regs == s.regs,
        s.jruc_spec().bus == s.bus,
        s.jruc_spec().sp == s.sp,
{
}

} // verus!
