use vstd::prelude::*;

use crate::consoles::gameboy::registers::{bit_of, flag_holds, lemma_u8_bits, with_bit, with_flag, Flag, Registers};
use crate::consoles::gameboy::target::Target as RegTarget;
use crate::instruction::{table_entry, Instruction, OpCode, Target};
use crate::memory::{Memory, MEMORY_SIZE};

verus! {

/// Everything the processor holds, as plain values.
pub ghost struct CpuView {
    pub regs: Registers,
    pub mem: Seq<u8>,
    pub pc: u16,
    pub sp: u16,
    pub addr: u16,
    pub is_prefixed: bool,
    pub interrupts_enabled: bool,
}

/// The register that an operand names.
pub open spec fn reg_target(t: Target) -> RegTarget {
    match t {
        Target::A => RegTarget::A,
        Target::B => RegTarget::B,
        Target::C => RegTarget::C,
        Target::D => RegTarget::D,
        Target::E => RegTarget::E,
        Target::F => RegTarget::F,
        Target::L => RegTarget::L,
        Target::H => RegTarget::H,
        Target::BC => RegTarget::BC,
        Target::DE => RegTarget::DE,
        _ => RegTarget::HL,
    }
}

/// The eight bit registers, the flag register included.
pub open spec fn is_r8(t: Target) -> bool {
    ||| t == Target::A
    ||| t == Target::B
    ||| t == Target::C
    ||| t == Target::D
    ||| t == Target::E
    ||| t == Target::F
    ||| t == Target::L
    ||| t == Target::H
}

/// The eight bit registers other than the flag register.
pub open spec fn is_r8_no_f(t: Target) -> bool {
    is_r8(t) && t != Target::F
}

/// The register pairs HL, BC and DE.
pub open spec fn is_pair16(t: Target) -> bool {
    t == Target::HL || t == Target::BC || t == Target::DE
}

/// The operands that make LD move sixteen bits.
pub open spec fn is_16bit_operand(t: Target) -> bool {
    t == Target::SP || t == Target::SpR8 || t == Target::D16
}

/// An address inside the memory.
pub open spec fn in_mem(addr: int) -> bool {
    0 <= addr < MEMORY_SIZE
}

impl CpuView {
    pub open spec fn a(self) -> u8 {
        self.regs.a
    }

    /// The eight bit register `t`.
    pub open spec fn r8(self, t: Target) -> u8 {
        self.regs.reg8(reg_target(t))
    }

    /// The value of the register pair `t`.
    pub open spec fn pair(self, t: Target) -> int {
        self.regs.pair(reg_target(t))
    }

    /// The carry flag as 0 or 1.
    pub open spec fn carry_bit(self) -> int {
        if bit_of(self.regs.f, 4) { 1 } else { 0 }
    }

    pub open spec fn with_regs(self, regs: Registers) -> CpuView {
        CpuView { regs, ..self }
    }

    pub open spec fn with_r8(self, t: Target, v: u8) -> CpuView {
        self.with_regs(self.regs.with_reg8(reg_target(t), v))
    }

    pub open spec fn with_mem(self, mem: Seq<u8>) -> CpuView {
        CpuView { mem, ..self }
    }

    pub open spec fn with_sp(self, sp: u16) -> CpuView {
        CpuView { sp, ..self }
    }

    pub open spec fn with_pc(self, pc: u16) -> CpuView {
        CpuView { pc, ..self }
    }

    /// This state with the plain flag `flag` set to `v`.
    pub open spec fn flag(self, flag: Flag, v: bool) -> CpuView {
        self.with_regs(self.regs.with_f(with_flag(self.regs.f, flag, v)))
    }

    /// The byte after the opcode, when it lies inside the memory.
    pub open spec fn next_ok(self) -> bool {
        in_mem(self.pc + 1)
    }

    pub open spec fn next_byte(self) -> u8 {
        self.mem[self.pc + 1]
    }

    /// The eight bit operand of ADD, SUB, AND, OR and XOR: a register, the byte HL points
    /// at, or the byte after the opcode.
    pub open spec fn operand8(self, t: Target) -> u8 {
        if is_r8(t) {
            self.r8(t)
        } else if t == Target::HL {
            self.mem[self.pair(Target::HL)]
        } else {
            self.next_byte()
        }
    }

    pub open spec fn operand8_ok(self, t: Target, immediate: bool) -> bool {
        ||| is_r8(t)
        ||| t == Target::HL && in_mem(self.pair(Target::HL))
        ||| immediate && t == Target::D8 && self.next_ok()
    }

    // ADC: adds a register, or the value of HL, and the carry to A.
    pub open spec fn adc_value(self, t: Target) -> int {
        if t == Target::HL { self.pair(Target::HL) } else { self.r8(t) as int }
    }

    pub open spec fn adc_ok(self, t: Target) -> bool {
        &&& is_r8_no_f(t) || t == Target::HL
        &&& self.a() + self.adc_value(t) + self.carry_bit() <= 0xFFFF
    }

    pub open spec fn adc_spec(self, t: Target) -> CpuView {
        let s = self.a() + self.adc_value(t) + self.carry_bit();
        self.flag(Flag::Zero, s == 256).flag(Flag::Carry, s > 255).flag(
            Flag::HalfCarry,
            self.a() < 16 && s > 15,
        ).flag(Flag::Sub, false).with_r8(Target::A, (s % 256) as u8)
    }

    // ADD: adds an eight bit operand to A.
    pub open spec fn add_ok(self, t: Target) -> bool {
        &&& self.operand8_ok(t, true)
        &&& !(self.a() < 15 && self.a() + self.operand8(t) > 255)
    }

    pub open spec fn add_spec(self, t: Target) -> CpuView {
        let s = self.a() + self.operand8(t);
        let r = (s % 256) as u8;
        self.flag(Flag::Carry, s > 255).flag(Flag::HalfCarry, self.a() < 15 && s >= 15).with_r8(
            Target::A,
            r,
        ).flag(Flag::Zero, r == 0).flag(Flag::Sub, false)
    }

    // ADD16: copies a sixteen bit value into HL or SP.
    pub open spec fn add16_value(self, src: Target) -> int {
        if src == Target::HL {
            self.regs.h * 256 + self.regs.h
        } else if src == Target::SP {
            self.sp as int
        } else if src == Target::R8 {
            self.next_byte() as int
        } else {
            self.pair(src)
        }
    }

    pub open spec fn add16_ok(self, dst: Target, src: Target) -> bool {
        &&& is_pair16(src) || src == Target::SP || (src == Target::R8 && self.next_ok())
        &&& dst == Target::HL || dst == Target::SP
    }

    pub open spec fn add16_spec(self, dst: Target, src: Target) -> CpuView {
        let v = self.add16_value(src) as u16;
        if dst == Target::HL {
            self.with_regs(self.regs.with_pair(RegTarget::HL, v))
        } else {
            self.with_sp(v)
        }
    }

    // BIT: tests a bit of a register; the zero flag is set when the bit is set.
    pub open spec fn bit_ok(self, b: u8, t: Target) -> bool {
        is_r8_no_f(t) && b < 8
    }

    pub open spec fn bit_spec(self, b: u8, t: Target) -> CpuView {
        self.flag(Flag::Zero, bit_of(self.r8(t), b)).flag(Flag::Carry, false).flag(
            Flag::HalfCarry,
            true,
        ).flag(Flag::Sub, false)
    }

    // CP: compares A with an operand, setting flags only.
    pub open spec fn cp_value(self, t: Target) -> int {
        if t == Target::HL {
            self.pair(Target::HL)
        } else if t == Target::R8 {
            self.next_byte() as int
        } else {
            self.r8(t) as int
        }
    }

    pub open spec fn cp_ok(self, t: Target) -> bool {
        &&& is_r8_no_f(t) || t == Target::HL || (t == Target::R8 && self.next_ok())
        &&& self.cp_value(t) <= self.a()
    }

    pub open spec fn cp_spec(self, t: Target) -> CpuView {
        let v = self.cp_value(t);
        self.flag(Flag::Zero, self.a() - v == 0).flag(Flag::Sub, true).flag(
            Flag::HalfCarry,
            t == Target::R8,
        ).flag(Flag::Carry, t == Target::R8 || self.a() < v)
    }


    // LD between eight bit registers and memory.
    /// The address that an operand of LD names: a register pair, 0xFF00 plus the next byte,
    /// the two bytes after the opcode (high byte first), the next byte as an offset from the
    /// program counter, or the address of the next byte itself.
    pub open spec fn ld_addr(self, t: Target) -> int {
        if is_pair16(t) {
            self.pair(t)
        } else if t == Target::A8 {
            0xFF00 + self.next_byte()
        } else if t == Target::A16 {
            self.next_byte() * 256 + self.mem[self.pc + 2]
        } else if t == Target::R8 {
            self.pc + self.next_byte()
        } else {
            self.pc + 1
        }
    }

    pub open spec fn ld_addr_ok(self, t: Target) -> bool {
        &&& (t == Target::A8 || t == Target::A16 || t == Target::R8) ==> self.next_ok()
        &&& t == Target::A16 ==> in_mem(self.pc + 2)
        &&& in_mem(self.ld_addr(t))
    }

    pub open spec fn load_dst_ok(self, t: Target) -> bool {
        ||| is_r8(t)
        ||| (is_pair16(t) || t == Target::A8 || t == Target::A16) && self.ld_addr_ok(t)
    }

    pub open spec fn load_src_ok(self, t: Target) -> bool {
        ||| is_r8(t)
        ||| (is_pair16(t) || t == Target::A8 || t == Target::A16 || t == Target::R8 || t == Target::D8)
            && self.ld_addr_ok(t)
    }

    pub open spec fn load_value(self, src: Target) -> u8 {
        if is_r8(src) { self.r8(src) } else { self.mem[self.ld_addr(src)] }
    }

    pub open spec fn load_spec(self, dst: Target, src: Target) -> CpuView {
        let v = self.load_value(src);
        if is_r8(dst) {
            self.with_r8(dst, v)
        } else {
            self.with_mem(self.mem.update(self.ld_addr(dst), v))
        }
    }

    // LD with a sixteen bit operand.
    /// The address that the two bytes after the opcode give when the first is shifted left by
    /// eight plus the second.
    pub open spec fn shifted_addr(self) -> int {
        ((self.next_byte() as u16) << ((8 + self.mem[self.pc + 2]) as u16)) as int
    }

    pub open spec fn ld16_src_ok(self, src: Target) -> bool {
        ||| is_r8_no_f(src)
        ||| is_pair16(src) && in_mem(self.pair(src))
        ||| src == Target::A8 && self.next_ok() && in_mem(0xFF00 + self.next_byte())
        ||| src == Target::A16 && self.next_ok() && in_mem(self.pc + 2) && self.mem[self.pc + 2] < 8
            && in_mem(self.shifted_addr())
        ||| src == Target::D8 && self.next_ok()
        ||| src == Target::D16 && self.next_ok() && in_mem(self.pc + 2)
        ||| src == Target::SP
        ||| src == Target::SpR8 && self.next_ok() && in_mem(self.sp + self.next_byte())
    }

    pub open spec fn ld16_value(self, src: Target) -> u16 {
        if is_r8_no_f(src) {
            self.r8(src) as u16
        } else if is_pair16(src) {
            self.mem[self.pair(src)] as u16
        } else if src == Target::A8 {
            self.mem[0xFF00 + self.next_byte()] as u16
        } else if src == Target::A16 {
            self.mem[self.shifted_addr()] as u16
        } else if src == Target::D8 {
            self.next_byte() as u16
        } else if src == Target::D16 {
            (self.next_byte() * 256 + self.mem[self.pc + 2]) as u16
        } else if src == Target::SP {
            self.sp
        } else {
            self.mem[self.sp + self.next_byte()] as u16
        }
    }

    pub open spec fn ld16_dst_ok(self, dst: Target) -> bool {
        ||| is_r8_no_f(dst)
        ||| is_pair16(dst) && in_mem(self.pair(dst))
        ||| dst == Target::A8 && self.next_ok() && in_mem(0xFF00 + self.next_byte())
        ||| dst == Target::A16 && self.next_ok() && in_mem(self.pc + 2) && in_mem(
            self.next_byte() * 256 + self.mem[self.pc + 2],
        )
        ||| dst == Target::D16 && self.next_ok() && in_mem(self.pc + 2)
        ||| dst == Target::SP
        ||| dst == Target::SpR8 && self.next_ok() && in_mem(self.sp + self.next_byte())
    }

    /// A register pair destination names the byte it points at, and the value is stored
    /// there low byte first; SP takes the value; every other destination is a copy that is
    /// dropped, so the state stays.
    pub open spec fn ld16_spec(self, dst: Target, src: Target) -> CpuView {
        let v = self.ld16_value(src);
        if is_pair16(dst) {
            let a = self.mem[self.pair(dst)] as int;
            self.with_mem(self.mem.update(a, (v % 256) as u8).update(a + 1, (v / 256) as u8))
        } else if dst == Target::SP {
            self.with_sp(v)
        } else {
            self
        }
    }


    // One instruction.
    /// Whether LD moves sixteen bits: when either operand is SP, SP plus offset, or a sixteen
    /// bit immediate.
    pub open spec fn is_wide_load(dst: Target, src: Target) -> bool {
        is_16bit_operand(dst) || is_16bit_operand(src)
    }

    /// The instructions that `execute` carries out, with the operands it accepts.
    pub open spec fn execute_ok(self, op: OpCode) -> bool {
        match op {
            OpCode::ADC(t) => self.adc_ok(t),
            OpCode::ADD(t) => self.add_ok(t),
            OpCode::ADD16(d, s) => self.add16_ok(d, s),
            OpCode::AND(t) => self.operand8_ok(t, true),
            OpCode::OR(t) => self.operand8_ok(t, true),
            OpCode::XOR(t) => self.operand8_ok(t, false),
            OpCode::SUB(t) => self.operand8_ok(t, true),
            OpCode::SBC(t) => self.sbc_ok(t),
            OpCode::BIT(b, t) => self.bit_ok(b, t),
            OpCode::RES(b, t) => is_r8_no_f(t) && b < 8,
            OpCode::SET(b, t) => is_r8_no_f(t) && b < 8,
            OpCode::CP(t) => self.cp_ok(t),
            OpCode::CPL(t) => is_r8(t),
            OpCode::DEC(t) => is_r8(t) || CpuView::is_wide(t),
            OpCode::INC(t) => is_r8(t) || CpuView::is_wide(t),
            OpCode::JUMP(_) => self.next_ok(),
            OpCode::LD(d, s) => if CpuView::is_wide_load(d, s) {
                self.ld16_dst_ok(d) && self.ld16_src_ok(s)
            } else {
                self.load_dst_ok(d) && self.load_src_ok(s)
            },
            OpCode::RL(t) => is_r8(t),
            OpCode::RLC(t) => is_r8(t),
            OpCode::RR(t) => is_r8(t),
            OpCode::RRC(t) => is_r8(t),
            OpCode::SLA(t) => is_r8(t),
            OpCode::SRL(t) => is_r8(t),
            OpCode::SRA(t) => is_r8(t),
            OpCode::SWAP(t) => is_r8(t),
            OpCode::CALL(_) | OpCode::CCF | OpCode::DisableInterrupt | OpCode::EnableInterrupt
            | OpCode::HALT | OpCode::JumpUnconditional | OpCode::NOP | OpCode::PREFIX | OpCode::SCF => true,
            _ => false,
        }
    }

    /// The state after `execute` carries out `op`, before the program counter advances.
    pub open spec fn execute_spec(self, op: OpCode) -> CpuView {
        match op {
            OpCode::ADC(t) => self.adc_spec(t),
            OpCode::ADD(t) => self.add_spec(t),
            OpCode::ADD16(d, s) => self.add16_spec(d, s),
            OpCode::AND(t) => self.with_r8(Target::A, self.a() & self.operand8(t)),
            OpCode::OR(t) => self.with_r8(Target::A, self.a() | self.operand8(t)),
            OpCode::XOR(t) => self.with_r8(Target::A, self.a() ^ self.operand8(t)),
            OpCode::SUB(t) => self.sub_spec(t),
            OpCode::SBC(t) => self.sbc_spec(t),
            OpCode::BIT(b, t) => self.bit_spec(b, t),
            OpCode::RES(b, t) => self.res_spec(b, t),
            OpCode::SET(b, t) => self.set_spec(b, t),
            OpCode::CP(t) => self.cp_spec(t),
            OpCode::CPL(t) => self.with_r8(t, (255 - self.r8(t)) as u8),
            OpCode::DEC(t) => self.dec_spec(t),
            OpCode::INC(t) => self.inc_spec(t),
            OpCode::JUMP(flag) => if flag_holds(self.regs.f, flag) {
                self.with_pc(self.next_byte() as u16)
            } else {
                self
            },
            OpCode::JumpUnconditional => self.with_pc(self.addr),
            OpCode::LD(d, s) => if CpuView::is_wide_load(d, s) {
                self.ld16_spec(d, s)
            } else {
                self.load_spec(d, s)
            },
            OpCode::RL(t) => self.rl_spec(t),
            OpCode::RLC(t) => self.rlc_spec(t),
            OpCode::RR(t) => self.rr_spec(t),
            OpCode::RRC(t) => self.rrc_spec(t),
            OpCode::SLA(t) => self.sla_spec(t),
            OpCode::SRL(t) => self.sr_spec(t),
            OpCode::SRA(t) => self.sra_spec(t),
            OpCode::SWAP(t) => self.swap_spec(t),
            OpCode::CCF => self.flag(Flag::Carry, !flag_holds(self.regs.f, Flag::Zero)),
            OpCode::SCF => self.flag(Flag::Carry, true),
            OpCode::DisableInterrupt => CpuView { interrupts_enabled: false, ..self },
            OpCode::EnableInterrupt => CpuView { interrupts_enabled: true, ..self },
            OpCode::PREFIX => CpuView { is_prefixed: true, ..self },
            _ => self,
        }
    }

    /// How far the program counter advances after `op`: not at all after a jump taken,
    /// else by the length of the instruction.
    pub open spec fn pc_increment(self, op: OpCode, length: u8) -> int {
        match op {
            OpCode::JUMP(flag) => if flag_holds(self.regs.f, flag) { 0 } else { length as int },
            _ => length as int,
        }
    }

    /// The program counter `execute` returns: the one after the instruction, advanced.
    pub open spec fn execute_result(self, op: OpCode, length: u8) -> u16 {
        ((self.execute_spec(op).pc + self.pc_increment(op, length)) % 65536) as u16
    }

    // One step of the fetch and execute loop.
    /// The byte the program counter points at.
    pub open spec fn current_byte(self) -> u8 {
        self.mem[self.pc as int]
    }

    /// The state with the prefix mode cleared.
    pub open spec fn unprefixed(self) -> CpuView {
        CpuView { is_prefixed: false, ..self }
    }

    /// Whether the program counter points at the end of the program.
    pub open spec fn at_end(self) -> bool {
        self.current_byte() == crate::memory::end_of_program_byte()
    }

    /// Whether `tick` runs without failing: the program counter is inside the memory, and
    /// unless it points at the end of the program, the byte decodes, in the table the prefix
    /// mode selects, to an instruction that `execute` carries out.
    pub open spec fn tick_ok(self) -> bool {
        &&& in_mem(self.pc as int)
        &&& !self.at_end() ==> (table_entry(self.current_byte(), self.is_prefixed) matches Some(e)
            && self.unprefixed().execute_ok(e.opcode))
    }

    /// The state after one `tick`: unchanged at the end of the program; otherwise the
    /// decoded instruction carried out with the prefix mode cleared first, and the program
    /// counter set to what `execute` returns.
    pub open spec fn tick_spec(self) -> CpuView {
        if self.at_end() {
            self
        } else {
            let e = table_entry(self.current_byte(), self.is_prefixed)->0;
            let s = self.unprefixed();
            s.execute_spec(e.opcode).with_pc(s.execute_result(e.opcode, e.length))
        }
    }

    // DEC and INC on eight bit registers, and on sixteen bit pairs and SP.
    #[verifier::opaque]
    pub open spec fn dec8_spec(self, t: Target) -> CpuView {
        let s1 = self.flag(Flag::HalfCarry, false).flag(Flag::Carry, false).flag(Flag::Sub, true);
        let v = ((s1.r8(t) + 255) % 256) as u8;
        s1.with_r8(t, v).flag(Flag::Zero, v == 0)
    }

    #[verifier::opaque]
    pub open spec fn inc8_spec(self, t: Target) -> CpuView {
        let s1 = self.flag(Flag::HalfCarry, self.r8(t) == 15);
        let s2 = s1.flag(Flag::Carry, s1.r8(t) == 255);
        let s3 = s2.flag(Flag::Sub, false);
        let v = ((s3.r8(t) + 1) % 256) as u8;
        s3.with_r8(t, v).flag(Flag::Zero, v == 0)
    }

    pub open spec fn is_wide(t: Target) -> bool {
        is_pair16(t) || t == Target::SP
    }

    pub open spec fn step16_spec(self, t: Target, delta: int) -> CpuView {
        if t == Target::SP {
            self.with_sp(((self.sp + delta + 65536) % 65536) as u16)
        } else {
            self.with_regs(self.regs.with_pair(reg_target(t), ((self.pair(t) + delta + 65536) % 65536) as u16))
        }
    }

    pub open spec fn dec_spec(self, t: Target) -> CpuView {
        if is_r8(t) { self.dec8_spec(t) } else { self.step16_spec(t, -1) }
    }

    pub open spec fn inc_spec(self, t: Target) -> CpuView {
        if is_r8(t) { self.inc8_spec(t) } else { self.step16_spec(t, 1) }
    }

    // SUB: subtracts an operand from A.
    pub open spec fn sub_spec(self, t: Target) -> CpuView {
        let v = self.operand8(t);
        self.flag(Flag::Zero, v >= self.a()).with_r8(Target::A, ((self.a() - v + 256) % 256) as u8).flag(
            Flag::Sub,
            true,
        ).flag(Flag::HalfCarry, false).flag(Flag::Carry, false)
    }

    // SBC: subtracts an operand and the carry from A.
    pub open spec fn sbc_ok(self, t: Target) -> bool {
        let v = self.cp_value(t);
        &&& is_r8_no_f(t) || t == Target::HL || (t == Target::R8 && self.next_ok())
        &&& !(self.a() > 15 && self.a() < v + self.carry_bit())
        &&& v + self.carry_bit() <= 0xFFFF
    }

    pub open spec fn sbc_spec(self, t: Target) -> CpuView {
        let v = self.cp_value(t);
        let c = self.carry_bit();
        let a = self.a() as int;
        self.flag(Flag::Zero, a == v).flag(Flag::Sub, true).flag(
            Flag::Carry,
            a > 15 && a - v - c < 16,
        ).flag(Flag::Zero, a < v + c).with_r8(Target::A, ((a - v - c) % 256) as u8)
    }

    // Rotations and shifts of one eight bit register.
    pub open spec fn rl_spec(self, t: Target) -> CpuView {
        self.with_r8(t, ((self.r8(t) % 128) * 2 + self.r8(t) / 128) as u8)
    }

    pub open spec fn rr_spec(self, t: Target) -> CpuView {
        self.with_r8(t, (self.r8(t) / 2 + (self.r8(t) % 2) * 128) as u8)
    }

    pub open spec fn rlc_spec(self, t: Target) -> CpuView {
        let out = self.r8(t) >= 128;
        let s1 = self.with_r8(t, ((self.r8(t) % 128) * 2) as u8);
        let s2 = s1.with_r8(t, (s1.r8(t) + s1.carry_bit()) as u8);
        s2.flag(Flag::Carry, out)
    }

    pub open spec fn rrc_spec(self, t: Target) -> CpuView {
        let out = self.r8(t) % 2 == 1;
        let s1 = self.with_r8(t, self.r8(t) / 2);
        let s2 = s1.with_r8(t, (s1.r8(t) + s1.carry_bit() * 128) as u8);
        s2.flag(Flag::Carry, out)
    }

    pub open spec fn sl_spec(self, t: Target) -> CpuView {
        self.with_r8(t, ((self.r8(t) % 128) * 2) as u8)
    }

    pub open spec fn sla_spec(self, t: Target) -> CpuView {
        self.with_r8(t, ((self.r8(t) % 128) * 2 + self.r8(t) % 2) as u8)
    }

    pub open spec fn sr_spec(self, t: Target) -> CpuView {
        self.with_r8(t, self.r8(t) / 2)
    }

    pub open spec fn sra_spec(self, t: Target) -> CpuView {
        self.with_r8(t, (self.r8(t) / 2 + (self.r8(t) / 128) * 128) as u8)
    }

    pub open spec fn swap_spec(self, t: Target) -> CpuView {
        self.with_r8(t, (self.r8(t) / 16 + (self.r8(t) % 16) * 16) as u8)
    }

    // RES and SET clear and set one bit of a register.
    pub open spec fn res_spec(self, b: u8, t: Target) -> CpuView {
        self.with_r8(t, with_bit(self.r8(t), b, false))
    }

    pub open spec fn set_spec(self, b: u8, t: Target) -> CpuView {
        self.with_r8(t, with_bit(self.r8(t), b, true))
    }
}

/// The processor: its registers, its memory, and its counters and modes.
pub struct Cpu {
    pub registers: Registers,
    pub memory: Memory,
    pub pc: u16,
    pub sp: u16,
    pub addr: u16,
    pub is_prefixed: bool,
    pub interrupts_enabled: bool,
}

impl View for Cpu {
    type V = CpuView;

    open spec fn view(&self) -> CpuView {
        CpuView {
            regs: self.registers,
            mem: self.memory@,
            pc: self.pc,
            sp: self.sp,
            addr: self.addr,
            is_prefixed: self.is_prefixed,
            interrupts_enabled: self.interrupts_enabled,
        }
    }
}

impl Cpu {
    /// The memory holds its full size.
    pub open spec fn wf(&self) -> bool {
        self.memory.wf()
    }

    pub fn new() -> (cpu: Cpu)
        ensures
            cpu.wf(),
            cpu@.regs.is_zeroed(),
            cpu@.pc == 0,
            cpu@.sp == 0,
            cpu@.addr == 0,
            !cpu@.is_prefixed,
            cpu@.interrupts_enabled,
            forall|i: int| 0 <= i < 0xFF ==> cpu@.mem[i] == crate::memory::end_of_program_byte(),
            forall|i: int| 0xFF <= i < MEMORY_SIZE ==> cpu@.mem[i] == 0,
    {
        Cpu {
            registers: Registers::new(),
            memory: Memory::new(),
            pc: 0,
            sp: 0,
            addr: 0,
            is_prefixed: false,
            interrupts_enabled: true,
        }
    }

    fn reg_target(t: Target) -> (r: RegTarget)
        ensures
            r == reg_target(t),
    {
        match t {
            Target::A => RegTarget::A,
            Target::B => RegTarget::B,
            Target::C => RegTarget::C,
            Target::D => RegTarget::D,
            Target::E => RegTarget::E,
            Target::F => RegTarget::F,
            Target::L => RegTarget::L,
            Target::H => RegTarget::H,
            Target::BC => RegTarget::BC,
            Target::DE => RegTarget::DE,
            _ => RegTarget::HL,
        }
    }

    fn get8(&self, t: Target) -> (v: u8)
        requires
            is_r8(t),
        ensures
            v == self@.r8(t),
    {
        match t {
            Target::A => self.registers.a,
            Target::B => self.registers.b,
            Target::C => self.registers.c,
            Target::D => self.registers.d,
            Target::E => self.registers.e,
            Target::F => self.registers.f,
            Target::L => self.registers.l,
            _ => self.registers.h,
        }
    }

    fn set8(&mut self, t: Target, v: u8)
        requires
            is_r8(t),
        ensures
            final(self)@ == old(self)@.with_r8(t, v),
            final(self).wf() == old(self).wf(),
    {
        match t {
            Target::A => self.registers.a = v,
            Target::B => self.registers.b = v,
            Target::C => self.registers.c = v,
            Target::D => self.registers.d = v,
            Target::E => self.registers.e = v,
            Target::F => self.registers.f = v,
            Target::L => self.registers.l = v,
            _ => self.registers.h = v,
        }
    }

    fn pair16(&self, t: Target) -> (v: u16)
        requires
            is_pair16(t),
        ensures
            v as int == self@.pair(t),
    {
        self.registers.combined_register(Self::reg_target(t))
    }

    fn set_flag(&mut self, flag: Flag, v: bool)
        requires
            flag == Flag::Zero || flag == Flag::Carry || flag == Flag::HalfCarry || flag == Flag::Sub,
        ensures
            final(self)@ == old(self)@.flag(flag, v),
            final(self).wf() == old(self).wf(),
    {
        self.registers.set_flag(flag, v);
    }

    fn carry(&self) -> (c: u8)
        ensures
            c as int == self@.carry_bit(),
    {
        self.registers.filter_flag(Flag::Carry)
    }

    /// The byte after the opcode.
    fn next_byte(&self) -> (b: u8)
        requires
            self.wf(),
            self@.next_ok(),
        ensures
            b == self@.next_byte(),
    {
        self.memory.read_byte(self.pc + 1)
    }

    /// The eight bit operand of ADD, SUB, AND, OR and XOR.
    fn operand8(&self, t: Target, immediate: bool) -> (v: u8)
        requires
            self.wf(),
            self@.operand8_ok(t, immediate),
        ensures
            v == self@.operand8(t),
    {
        if t == Target::HL {
            self.memory.read_byte(self.pair16(Target::HL))
        } else if t == Target::D8 {
            self.next_byte()
        } else {
            self.get8(t)
        }
    }


    /// Whether the byte after the opcode lies inside the memory.
    fn next_ok(&self) -> (r: bool)
        ensures
            r == self@.next_ok(),
    {
        (self.pc as u32) + 1 < MEMORY_SIZE as u32
    }

    fn operand8_ok(&self, t: Target, immediate: bool) -> (r: bool)
        ensures
            r == self@.operand8_ok(t, immediate),
    {
        is_r8_exec(t) || (t == Target::HL && (self.pair16(Target::HL) as u32) < MEMORY_SIZE as u32)
            || (immediate && t == Target::D8 && self.next_ok())
    }

    /// Whether an LD operand names a readable place: a register, or an address inside the
    /// memory.
    fn ld_addr_ok(&self, t: Target) -> (r: bool)
        requires
            self.wf(),
            is_pair16(t) || t == Target::A8 || t == Target::A16 || t == Target::R8 || t == Target::D8,
        ensures
            r == self@.ld_addr_ok(t),
    {
        let size = MEMORY_SIZE as u32;
        if is_pair16_exec(t) {
            (self.pair16(t) as u32) < size
        } else if t == Target::D8 {
            self.next_ok()
        } else if !self.next_ok() {
            false
        } else if t == Target::A8 {
            0xFF00 + (self.next_byte() as u32) < size
        } else if t == Target::R8 {
            (self.pc as u32) + (self.next_byte() as u32) < size
        } else if (self.pc as u32) + 2 < size {
            (self.next_byte() as u32) * 256 + (self.memory.read_byte(self.pc + 2) as u32) < size
        } else {
            false
        }
    }

    fn ld16_src_ok(&self, src: Target) -> (r: bool)
        requires
            self.wf(),
        ensures
            r == self@.ld16_src_ok(src),
    {
        let size = MEMORY_SIZE as u32;
        if is_r8_exec(src) {
            src != Target::F
        } else if is_pair16_exec(src) {
            (self.pair16(src) as u32) < size
        } else if src == Target::SP {
            true
        } else if !self.next_ok() {
            false
        } else if src == Target::A8 {
            0xFF00 + (self.next_byte() as u32) < size
        } else if src == Target::D8 {
            true
        } else if src == Target::SpR8 {
            (self.sp as u32) + (self.next_byte() as u32) < size
        } else if src == Target::D16 {
            (self.pc as u32) + 2 < size
        } else if src == Target::A16 && (self.pc as u32) + 2 < size {
            let shift = self.memory.read_byte(self.pc + 2);
            if shift < 8 {
                let hi = self.next_byte() as u16;
                ((hi << (8 + shift as u16)) as u32) < size
            } else {
                false
            }
        } else {
            false
        }
    }

    fn ld16_dst_ok(&self, dst: Target) -> (r: bool)
        requires
            self.wf(),
        ensures
            r == self@.ld16_dst_ok(dst),
    {
        let size = MEMORY_SIZE as u32;
        if is_r8_exec(dst) {
            dst != Target::F
        } else if is_pair16_exec(dst) {
            (self.pair16(dst) as u32) < size
        } else if dst == Target::SP {
            true
        } else if !self.next_ok() {
            false
        } else if dst == Target::A8 {
            0xFF00 + (self.next_byte() as u32) < size
        } else if dst == Target::SpR8 {
            (self.sp as u32) + (self.next_byte() as u32) < size
        } else if dst == Target::D16 {
            (self.pc as u32) + 2 < size
        } else if dst == Target::A16 && (self.pc as u32) + 2 < size {
            (self.next_byte() as u32) * 256 + (self.memory.read_byte(self.pc + 2) as u32) < size
        } else {
            false
        }
    }

    /// Whether `execute` carries out `op` in this state without failing.
    pub fn execute_is_defined(&self, op: OpCode) -> (r: bool)
        requires
            self.wf(),
        ensures
            r == self@.execute_ok(op),
    {
        let a = self.registers.a as u32;
        let carry = self.carry() as u32;
        match op {
            OpCode::ADC(t) => {
                if is_r8_exec(t) && t != Target::F {
                    a + (self.get8(t) as u32) + carry <= 0xFFFF
                } else if t == Target::HL {
                    a + (self.pair16(t) as u32) + carry <= 0xFFFF
                } else {
                    false
                }
            },
            OpCode::ADD(t) => {
                if self.operand8_ok(t, true) {
                    let v = self.operand8(t, true) as u32;
                    !(a < 15 && a + v > 255)
                } else {
                    false
                }
            },
            OpCode::ADD16(d, s) => {
                (is_pair16_exec(s) || s == Target::SP || (s == Target::R8 && self.next_ok()))
                    && (d == Target::HL || d == Target::SP)
            },
            OpCode::AND(t) => self.operand8_ok(t, true),
            OpCode::OR(t) => self.operand8_ok(t, true),
            OpCode::XOR(t) => self.operand8_ok(t, false),
            OpCode::SUB(t) => self.operand8_ok(t, true),
            OpCode::SBC(t) => {
                let v: u32 = if is_r8_exec(t) && t != Target::F {
                    self.get8(t) as u32
                } else if t == Target::HL {
                    self.pair16(t) as u32
                } else if t == Target::R8 && self.next_ok() {
                    self.next_byte() as u32
                } else {
                    return false;
                };
                !(a > 15 && a < v + carry) && v + carry <= 0xFFFF
            },
            OpCode::BIT(b, t) => is_r8_exec(t) && t != Target::F && b < 8,
            OpCode::RES(b, t) => is_r8_exec(t) && t != Target::F && b < 8,
            OpCode::SET(b, t) => is_r8_exec(t) && t != Target::F && b < 8,
            OpCode::CP(t) => {
                let v: u32 = if is_r8_exec(t) && t != Target::F {
                    self.get8(t) as u32
                } else if t == Target::HL {
                    self.pair16(t) as u32
                } else if t == Target::R8 && self.next_ok() {
                    self.next_byte() as u32
                } else {
                    return false;
                };
                v <= a
            },
            OpCode::CPL(t) => is_r8_exec(t),
            OpCode::DEC(t) => is_r8_exec(t) || is_pair16_exec(t) || t == Target::SP,
            OpCode::INC(t) => is_r8_exec(t) || is_pair16_exec(t) || t == Target::SP,
            OpCode::JUMP(_) => self.next_ok(),
            OpCode::LD(d, s) => {
                if is_16bit_operand_exec(d) || is_16bit_operand_exec(s) {
                    self.ld16_dst_ok(d) && self.ld16_src_ok(s)
                } else {
                    let dst_ok = is_r8_exec(d) || ((is_pair16_exec(d) || d == Target::A8 || d == Target::A16)
                        && self.ld_addr_ok(d));
                    let src_ok = is_r8_exec(s) || ((is_pair16_exec(s) || s == Target::A8 || s == Target::A16
                        || s == Target::R8 || s == Target::D8) && self.ld_addr_ok(s));
                    dst_ok && src_ok
                }
            },
            OpCode::RL(t) | OpCode::RLC(t) | OpCode::RR(t) | OpCode::RRC(t) | OpCode::SLA(t)
            | OpCode::SRL(t) | OpCode::SRA(t) | OpCode::SWAP(t) => is_r8_exec(t),
            OpCode::CALL(_) | OpCode::CCF | OpCode::DisableInterrupt | OpCode::EnableInterrupt
            | OpCode::HALT | OpCode::JumpUnconditional | OpCode::NOP | OpCode::PREFIX | OpCode::SCF => true,
            _ => false,
        }
    }

    /// Whether `tick` runs without failing in this state.
    pub fn tick_is_defined(&self) -> (r: bool)
        requires
            self.wf(),
        ensures
            r == self@.tick_ok(),
    {
        if self.pc as u32 >= MEMORY_SIZE as u32 {
            return false;
        }
        let byte = self.memory.read_byte(self.pc);
        proof { crate::memory::lemma_end_of_program_byte(); }
        if byte == 0xFD {
            return true;
        }
        match Instruction::fetch(byte, self.is_prefixed) {
            Some(instruction) => {
                assert(self@.unprefixed().execute_ok(instruction.opcode) == self@.execute_ok(instruction.opcode));
                self.execute_is_defined(instruction.opcode)
            },
            None => false,
        }
    }

    /// Adds a register, or the value of HL, and the carry to A.
    pub fn adc(&mut self, reg: Target)
        requires
            old(self).wf(),
            old(self)@.adc_ok(reg),
        ensures
            final(self).wf(),
            final(self)@ == old(self)@.adc_spec(reg),
    {
        let v: u16 = if reg == Target::HL { self.pair16(Target::HL) } else { self.get8(reg) as u16 };
        let carry = self.carry() as u16;
        let a = self.registers.a as u16;
        let sum = a + v + carry;
        self.set_flag(Flag::Zero, sum == 256);
        self.set_flag(Flag::Carry, sum > 255);
        self.set_flag(Flag::HalfCarry, self.registers.a < 0b10000 && sum > 0b1111);
        self.set_flag(Flag::Sub, false);
        self.registers.a = (sum % 256) as u8;
    }

    /// Adds an eight bit operand to A.
    pub fn add(&mut self, src: Target)
        requires
            old(self).wf(),
            old(self)@.add_ok(src),
        ensures
            final(self).wf(),
            final(self)@ == old(self)@.add_spec(src),
    {
        let v = self.operand8(src, true);
        let a = self.registers.a;
        self.set_flag(Flag::Carry, a as u16 + v as u16 > 255);
        self.set_flag(Flag::HalfCarry, a < 0b1111 && a + v >= 0b1111);
        self.registers.a = ((a as u16 + v as u16) % 256) as u8;
        self.set_flag(Flag::Zero, self.registers.a == 0);
        self.set_flag(Flag::Sub, false);
    }

    /// Copies a sixteen bit value into HL or SP (HL as a source reads H twice).
    pub fn add_16(&mut self, dst: Target, src: Target)
        requires
            old(self).wf(),
            old(self)@.add16_ok(dst, src),
        ensures
            final(self).wf(),
            final(self)@ == old(self)@.add16_spec(dst, src),
    {
        let v: u16 = if src == Target::HL {
            (self.registers.h as u16) * 256 + self.registers.h as u16
        } else if src == Target::SP {
            self.sp
        } else if src == Target::R8 {
            self.next_byte() as u16
        } else {
            self.pair16(src)
        };
        if dst == Target::HL {
            self.registers.set_combined_register(RegTarget::HL, v);
        } else {
            self.sp = v;
        }
    }

    /// Ands A with an eight bit operand.
    pub fn and(&mut self, src: Target)
        requires
            old(self).wf(),
            old(self)@.operand8_ok(src, true),
        ensures
            final(self).wf(),
            final(self)@ == old(self)@.with_r8(Target::A, old(self)@.a() & old(self)@.operand8(src)),
    {
        let v = self.operand8(src, true);
        self.registers.a = self.registers.a & v;
    }

    /// Ors A with an eight bit operand.
    pub fn or(&mut self, src: Target)
        requires
            old(self).wf(),
            old(self)@.operand8_ok(src, true),
        ensures
            final(self).wf(),
            final(self)@ == old(self)@.with_r8(Target::A, old(self)@.a() | old(self)@.operand8(src)),
    {
        let v = self.operand8(src, true);
        self.registers.a = self.registers.a | v;
    }

    /// Exclusive-ors A with a register or with the byte HL points at.
    pub fn xor(&mut self, src: Target)
        requires
            old(self).wf(),
            old(self)@.operand8_ok(src, false),
        ensures
            final(self).wf(),
            final(self)@ == old(self)@.with_r8(Target::A, old(self)@.a() ^ old(self)@.operand8(src)),
    {
        let v = self.operand8(src, false);
        self.registers.a = self.registers.a ^ v;
    }

    /// Tests bit `bit` of a register: the zero flag is set when the bit is set, carry and sub
    /// are cleared and half carry is set.
    pub fn bit(&mut self, bit: u8, reg: Target)
        requires
            old(self).wf(),
            old(self)@.bit_ok(bit, reg),
        ensures
            final(self).wf(),
            final(self)@ == old(self)@.bit_spec(bit, reg),
    {
        let v = self.get8(reg);
        let b = v & (1 << bit);
        proof { crate::consoles::gameboy::registers::lemma_u8_bits(v, bit); }
        self.set_flag(Flag::Zero, b != 0);
        self.set_flag(Flag::Carry, false);
        self.set_flag(Flag::HalfCarry, true);
        self.set_flag(Flag::Sub, false);
    }

    /// Compares A with an operand, setting the flags only.
    pub fn cp(&mut self, reg: Target)
        requires
            old(self).wf(),
            old(self)@.cp_ok(reg),
        ensures
            final(self).wf(),
            final(self)@ == old(self)@.cp_spec(reg),
    {
        let v: u16 = if reg == Target::HL {
            self.pair16(Target::HL)
        } else if reg == Target::R8 {
            self.next_byte() as u16
        } else {
            self.get8(reg) as u16
        };
        let a = self.registers.a as u16;
        let result = a - v;
        self.set_flag(Flag::Zero, result == 0);
        self.set_flag(Flag::Sub, true);
        self.set_flag(Flag::HalfCarry, reg == Target::R8);
        self.set_flag(Flag::Carry, reg == Target::R8 || a < v);
    }

    /// Flips every bit of an eight bit register.
    pub fn cpl(&mut self, reg: Target)
        requires
            old(self).wf(),
            is_r8(reg),
        ensures
            final(self).wf(),
            final(self)@ == old(self)@.with_r8(reg, (255 - old(self)@.r8(reg)) as u8),
    {
        let v = self.get8(reg);
        proof { lemma_u8_bits(v, 0); }
        self.set8(reg, !v);
    }

    /// Decrements an eight bit register (clearing half carry and carry, setting sub, then
    /// setting zero from the result), or a register pair or SP.
    pub fn dec(&mut self, target: Target)
        requires
            old(self).wf(),
            is_r8(target) || CpuView::is_wide(target),
        ensures
            final(self).wf(),
            final(self)@ == old(self)@.dec_spec(target),
    {
        proof { reveal(CpuView::dec8_spec); }
        if !is_r8_exec(target) {
            self.dec_16(target);
            return;
        }
        self.set_flag(Flag::HalfCarry, false);
        self.set_flag(Flag::Carry, false);
        self.set_flag(Flag::Sub, true);
        let v = self.get8(target).wrapping_sub(1);
        self.set8(target, v);
        self.set_flag(Flag::Zero, v == 0);
    }

    /// Decrements a register pair or SP, wrapping at zero.
    pub fn dec_16(&mut self, target: Target)
        requires
            old(self).wf(),
            CpuView::is_wide(target),
        ensures
            final(self).wf(),
            final(self)@ == old(self)@.step16_spec(target, -1),
    {
        if target == Target::SP {
            self.sp = self.sp.wrapping_sub(1);
            return;
        }
        let v = self.pair16(target).wrapping_sub(1);
        self.registers.set_combined_register(Self::reg_target(target), v);
    }

    /// Increments an eight bit register (setting half carry when it held 15, carry when it
    /// held 255, clearing sub, then setting zero from the result), or a register pair or SP.
    pub fn inc(&mut self, target: Target)
        requires
            old(self).wf(),
            is_r8(target) || CpuView::is_wide(target),
        ensures
            final(self).wf(),
            final(self)@ == old(self)@.inc_spec(target),
    {
        proof { reveal(CpuView::inc8_spec); }
        if !is_r8_exec(target) {
            self.inc_16(target);
            return;
        }
        let hc = self.get8(target) == 0b1111;
        self.set_flag(Flag::HalfCarry, hc);
        let c = self.get8(target) == 0b11111111;
        self.set_flag(Flag::Carry, c);
        self.set_flag(Flag::Sub, false);
        let v = self.get8(target).wrapping_add(1);
        self.set8(target, v);
        self.set_flag(Flag::Zero, v == 0);
    }

    /// Increments a register pair or SP, wrapping at the top.
    pub fn inc_16(&mut self, target: Target)
        requires
            old(self).wf(),
            CpuView::is_wide(target),
        ensures
            final(self).wf(),
            final(self)@ == old(self)@.step16_spec(target, 1),
    {
        if target == Target::SP {
            self.sp = self.sp.wrapping_add(1);
            return;
        }
        let v = self.pair16(target).wrapping_add(1);
        self.registers.set_combined_register(Self::reg_target(target), v);
    }


    /// Copies an eight bit value between registers and memory.
    pub fn load(&mut self, dst: Target, src: Target)
        requires
            old(self).wf(),
            old(self)@.load_dst_ok(dst),
            old(self)@.load_src_ok(src),
        ensures
            final(self).wf(),
            final(self)@ == old(self)@.load_spec(dst, src),
    {
        let v = if is_r8_exec(src) { self.get8(src) } else { self.memory.read_byte(self.ld_addr(src)) };
        if is_r8_exec(dst) {
            self.set8(dst, v);
        } else {
            let address = self.ld_addr(dst);
            self.memory.write_byte(address, v);
        }
    }

    /// The address that an operand of LD names.
    fn ld_addr(&self, t: Target) -> (a: u16)
        requires
            self.wf(),
            is_pair16(t) || t == Target::A8 || t == Target::A16 || t == Target::R8 || t == Target::D8,
            self@.ld_addr_ok(t),
        ensures
            a as int == self@.ld_addr(t),
    {
        if is_pair16_exec(t) {
            self.pair16(t)
        } else if t == Target::A8 {
            0xFF00 + self.next_byte() as u16
        } else if t == Target::A16 {
            (self.next_byte() as u16) * 256 + self.memory.read_byte(self.pc + 2) as u16
        } else if t == Target::R8 {
            self.pc + self.next_byte() as u16
        } else {
            self.pc + 1
        }
    }

    /// Copies a sixteen bit value; see `CpuView::ld16_spec` for where it lands.
    pub fn load_16(&mut self, dst: Target, src: Target)
        requires
            old(self).wf(),
            old(self)@.ld16_dst_ok(dst),
            old(self)@.ld16_src_ok(src),
        ensures
            final(self).wf(),
            final(self)@ == old(self)@.ld16_spec(dst, src),
    {
        let v: u16 = if is_r8_exec(src) {
            self.get8(src) as u16
        } else if is_pair16_exec(src) {
            self.memory.read_byte(self.pair16(src)) as u16
        } else if src == Target::A8 {
            self.memory.read_byte(0xFF00 + self.next_byte() as u16) as u16
        } else if src == Target::A16 {
            let hi = self.next_byte() as u16;
            let shift = 8 + self.memory.read_byte(self.pc + 2) as u16;
            self.memory.read_byte(hi << shift) as u16
        } else if src == Target::D8 {
            self.next_byte() as u16
        } else if src == Target::D16 {
            (self.next_byte() as u16) * 256 + self.memory.read_byte(self.pc + 2) as u16
        } else if src == Target::SP {
            self.sp
        } else {
            self.memory.read_byte(self.sp + self.next_byte() as u16) as u16
        };
        if is_pair16_exec(dst) {
            let a = self.memory.read_byte(self.pair16(dst)) as u16;
            self.memory.write_byte(a, (v % 256) as u8);
            self.memory.write_byte(a + 1, (v / 256) as u8);
        } else if dst == Target::SP {
            self.sp = v;
        }
    }

    /// Clears bit `bit` of a register.
    pub fn res(&mut self, bit: u8, reg: Target)
        requires
            old(self).wf(),
            is_r8_no_f(reg),
            bit < 8,
        ensures
            final(self).wf(),
            final(self)@ == old(self)@.res_spec(bit, reg),
    {
        let v = self.get8(reg);
        let mask: u8 = !(1 << bit);
        proof { lemma_u8_bits(v, bit); }
        self.set8(reg, v & mask);
    }

    /// Sets bit `bit` of a register.
    pub fn set(&mut self, bit: u8, reg: Target)
        requires
            old(self).wf(),
            is_r8_no_f(reg),
            bit < 8,
        ensures
            final(self).wf(),
            final(self)@ == old(self)@.set_spec(bit, reg),
    {
        let v = self.get8(reg);
        proof { lemma_u8_bits(v, bit); }
        self.set8(reg, v | (1 << bit));
    }

    /// Rotates a register left by one bit.
    pub fn rl(&mut self, reg: Target)
        requires
            old(self).wf(),
            is_r8(reg),
        ensures
            final(self).wf(),
            final(self)@ == old(self)@.rl_spec(reg),
    {
        let v = self.get8(reg);
        self.set8(reg, (v % 128) * 2 + v / 128);
    }

    /// Rotates a register right by one bit.
    pub fn rr(&mut self, reg: Target)
        requires
            old(self).wf(),
            is_r8(reg),
        ensures
            final(self).wf(),
            final(self)@ == old(self)@.rr_spec(reg),
    {
        let v = self.get8(reg);
        self.set8(reg, v / 2 + (v % 2) * 128);
    }

    /// Shifts a register left by one, ors in the carry, and sets the carry to the bit shifted out.
    pub fn rlc(&mut self, reg: Target)
        requires
            old(self).wf(),
            is_r8(reg),
        ensures
            final(self).wf(),
            final(self)@ == old(self)@.rlc_spec(reg),
    {
        let v = self.get8(reg);
        let out = v >= 128;
        self.set8(reg, (v % 128) * 2);
        let flag_bit = self.carry();
        let shifted = self.get8(reg);
        self.set8(reg, shifted + flag_bit);
        self.set_flag(Flag::Carry, out);
    }

    /// Shifts a register right by one, ors in the carry as bit 7, and sets the carry to the bit
    /// shifted out.
    pub fn rrc(&mut self, reg: Target)
        requires
            old(self).wf(),
            is_r8(reg),
        ensures
            final(self).wf(),
            final(self)@ == old(self)@.rrc_spec(reg),
    {
        let v = self.get8(reg);
        let out = v % 2 == 1;
        self.set8(reg, v / 2);
        let flag_bit = self.carry();
        let shifted = self.get8(reg);
        self.set8(reg, shifted + flag_bit * 128);
        self.set_flag(Flag::Carry, out);
    }

    /// Subtracts an operand and the carry from A.
    pub fn sbc(&mut self, reg: Target)
        requires
            old(self).wf(),
            old(self)@.sbc_ok(reg),
        ensures
            final(self).wf(),
            final(self)@ == old(self)@.sbc_spec(reg),
    {
        let v: u16 = if reg == Target::HL {
            self.pair16(Target::HL)
        } else if reg == Target::R8 {
            self.next_byte() as u16
        } else {
            self.get8(reg) as u16
        };
        let carry = self.carry() as u16;
        let a = self.registers.a;
        self.set_flag(Flag::Zero, a as u16 == v);
        self.set_flag(Flag::Sub, true);
        let c = a > 0b1111 && (a as u16) - v - carry < 0b10000;
        self.set_flag(Flag::Carry, c);
        self.set_flag(Flag::Zero, (a as u16) < v + carry);
        let w = (a as u16).wrapping_sub(v).wrapping_sub(carry);
        self.registers.a = (w % 256) as u8;
    }

    /// Shifts a register left by one.
    pub fn sl(&mut self, reg: Target)
        requires
            old(self).wf(),
            is_r8(reg),
        ensures
            final(self).wf(),
            final(self)@ == old(self)@.sl_spec(reg),
    {
        let v = self.get8(reg);
        self.set8(reg, (v % 128) * 2);
    }

    /// Shifts a register left by one and ors in its old lowest bit.
    pub fn sla(&mut self, reg: Target)
        requires
            old(self).wf(),
            is_r8(reg),
        ensures
            final(self).wf(),
            final(self)@ == old(self)@.sla_spec(reg),
    {
        let v = self.get8(reg);
        self.set8(reg, (v % 128) * 2 + v % 2);
    }

    /// Shifts a register right by one.
    pub fn sr(&mut self, reg: Target)
        requires
            old(self).wf(),
            is_r8(reg),
        ensures
            final(self).wf(),
            final(self)@ == old(self)@.sr_spec(reg),
    {
        let v = self.get8(reg);
        self.set8(reg, v / 2);
    }

    /// Shifts a register right by one, keeping its top bit.
    pub fn sra(&mut self, reg: Target)
        requires
            old(self).wf(),
            is_r8(reg),
        ensures
            final(self).wf(),
            final(self)@ == old(self)@.sra_spec(reg),
    {
        let v = self.get8(reg);
        self.set8(reg, v / 2 + (v / 128) * 128);
    }

    /// Subtracts an eight bit operand from A; zero is set when the operand is at least A.
    pub fn sub(&mut self, src: Target)
        requires
            old(self).wf(),
            old(self)@.operand8_ok(src, true),
        ensures
            final(self).wf(),
            final(self)@ == old(self)@.sub_spec(src),
    {
        let v = self.operand8(src, true);
        let a = self.registers.a;
        self.set_flag(Flag::Zero, v >= a);
        self.registers.a = a.wrapping_sub(v);
        assert(self.registers.a == ((a - v + 256) % 256) as u8);
        self.set_flag(Flag::Sub, true);
        self.set_flag(Flag::HalfCarry, false);
        self.set_flag(Flag::Carry, false);
    }

    /// Swaps the two halves of a register.
    pub fn swap(&mut self, reg: Target)
        requires
            old(self).wf(),
            is_r8(reg),
        ensures
            final(self).wf(),
            final(self)@ == old(self)@.swap_spec(reg),
    {
        let v = self.get8(reg);
        self.set8(reg, v / 16 + (v % 16) * 16);
    }

    pub fn set_a(&mut self, value: u8)
        ensures
            final(self)@ == old(self)@.with_r8(Target::A, value),
            final(self).wf() == old(self).wf(),
    {
        self.registers.a = value;
    }

    pub fn set_b(&mut self, value: u8)
        ensures
            final(self)@ == old(self)@.with_r8(Target::B, value),
            final(self).wf() == old(self).wf(),
    {
        self.registers.b = value;
    }

    pub fn get_pc(&self) -> (pc: u16)
        ensures
            pc == self.pc,
    {
        self.pc
    }

    pub fn get_reg_a(&self) -> (a: u8)
        ensures
            a == self.registers.a,
    {
        self.registers.a
    }

    /// Sets the program counter to 0, the stack pointer to 1 and every register to 0.
    pub fn reset_registers(&mut self)
        ensures
            final(self).pc == 0,
            final(self).sp == 1,
            final(self).registers.is_zeroed(),
            final(self)@.mem == old(self)@.mem,
            final(self).addr == old(self).addr,
            final(self).is_prefixed == old(self).is_prefixed,
            final(self).interrupts_enabled == old(self).interrupts_enabled,
            final(self).wf() == old(self).wf(),
    {
        self.pc = 0;
        self.sp = 1;
        self.registers.reset();
    }

    /// Stores `byte` at `address`.
    pub fn write_to_memory(&mut self, address: u16, byte: u8)
        requires
            old(self).wf(),
            address < MEMORY_SIZE,
        ensures
            final(self).wf(),
            final(self)@ == old(self)@.with_mem(old(self)@.mem.update(address as int, byte)),
    {
        self.memory.write_byte(address, byte);
    }

    /// The byte at `address`.
    pub fn read_memory(&self, address: u16) -> (b: u8)
        requires
            self.wf(),
            address < MEMORY_SIZE,
        ensures
            b == self@.mem[address as int],
    {
        self.memory.read_byte(address)
    }

    /// Sets every byte of the memory to zero.
    pub fn zero_memory(&mut self)
        requires
            old(self).wf(),
        ensures
            final(self).wf(),
            final(self)@ == old(self)@.with_mem(Seq::new(MEMORY_SIZE as nat, |i: int| 0u8)),
    {
        let mut i: u16 = 0;
        while i < 0xFFFF
            invariant
                self.wf(),
                self@ == old(self)@.with_mem(self@.mem),
                forall|j: int| 0 <= j < i ==> self@.mem[j] == 0,
            decreases 0xFFFF - i,
        {
            self.memory.write_byte(i, 0);
            i = i + 1;
        }
        assert(self@.mem =~= Seq::new(MEMORY_SIZE as nat, |i: int| 0u8));
    }


    /// Carries out one instruction and returns the program counter advanced past it: by its
    /// length, or not at all after a jump taken.
    /// Carries out one instruction and returns the program counter advanced past it: by its
    /// length, or not at all after a jump taken.
    pub fn execute(&mut self, instruction: &Instruction) -> (next_pc: u16)
        requires
            old(self).wf(),
            old(self)@.execute_ok(instruction.opcode),
        ensures
            final(self).wf(),
            final(self)@ == old(self)@.execute_spec(instruction.opcode),
            next_pc == old(self)@.execute_result(instruction.opcode, instruction.length),
    {
        let mut pc_increment = instruction.length as u16;
        let op = instruction.opcode;
        if is_arithmetic(op) {
            self.execute_arithmetic(op);
        } else if is_bitwise(op) {
            self.execute_bitwise(op);
        } else {
            match op {
                OpCode::JUMP(flag) => {
                    let value = self.next_byte();
                    if self.jump_by_flag(flag, value as u16) {
                        pc_increment = 0;
                    }
                },
                OpCode::JumpUnconditional => {
                    let address = self.addr;
                    self.jump(address);
                },
                OpCode::LD(dst, src) => {
                    if is_16bit_operand_exec(dst) || is_16bit_operand_exec(src) {
                        self.load_16(dst, src);
                    } else {
                        self.load(dst, src);
                    }
                },
                OpCode::CCF => {
                    let zero = self.registers.get_flag(Flag::Zero);
                    self.set_flag(Flag::Carry, !zero);
                },
                OpCode::SCF => self.set_flag(Flag::Carry, true),
                OpCode::DisableInterrupt => self.interrupts_enabled = false,
                OpCode::EnableInterrupt => self.interrupts_enabled = true,
                OpCode::PREFIX => self.is_prefixed = true,
                _ => {},
            }
        }
        self.pc.wrapping_add(pc_increment)
    }

    /// The arithmetic and logic instructions.
    fn execute_arithmetic(&mut self, op: OpCode)
        requires
            old(self).wf(),
            old(self)@.execute_ok(op),
            is_arithmetic_op(op),
        ensures
            final(self).wf(),
            final(self)@ == old(self)@.execute_spec(op),
    {
        match op {
            OpCode::ADC(target) => self.adc(target),
            OpCode::ADD(target) => self.add(target),
            OpCode::ADD16(dst, src) => self.add_16(dst, src),
            OpCode::AND(target) => self.and(target),
            OpCode::CP(target) => self.cp(target),
            OpCode::CPL(target) => self.cpl(target),
            OpCode::DEC(target) => self.dec(target),
            OpCode::INC(target) => self.inc(target),
            OpCode::OR(target) => self.or(target),
            OpCode::SBC(target) => self.sbc(target),
            OpCode::SUB(target) => self.sub(target),
            _ => self.xor(target_of(op)),
        }
    }

    /// The instructions that test, set, rotate or shift the bits of one register.
    fn execute_bitwise(&mut self, op: OpCode)
        requires
            old(self).wf(),
            old(self)@.execute_ok(op),
            is_bitwise_op(op),
        ensures
            final(self).wf(),
            final(self)@ == old(self)@.execute_spec(op),
    {
        match op {
            OpCode::BIT(bit, target) => self.bit(bit, target),
            OpCode::RES(bit, target) => self.res(bit, target),
            OpCode::SET(bit, target) => self.set(bit, target),
            OpCode::RL(target) => self.rl(target),
            OpCode::RLC(target) => self.rlc(target),
            OpCode::RR(target) => self.rr(target),
            OpCode::RRC(target) => self.rrc(target),
            OpCode::SLA(target) => self.sla(target),
            OpCode::SRL(target) => self.sr(target),
            OpCode::SRA(target) => self.sra(target),
            _ => self.swap(target_of(op)),
        }
    }

    /// Runs one instruction. At the end of the program it changes nothing and returns false;
    /// otherwise it decodes the byte the program counter points at, carries it out, moves the
    /// program counter on and returns true.
    pub fn tick(&mut self) -> (running: bool)
        requires
            old(self).wf(),
            old(self)@.tick_ok(),
        ensures
            final(self).wf(),
            running == !old(self)@.at_end(),
            final(self)@ == old(self)@.tick_spec(),
    {
        let instruction_byte = self.memory.read_byte(self.pc);
        proof { crate::memory::lemma_end_of_program_byte(); }
        let end = Instruction::byte_from_opcode(OpCode::EndOfProgram).unwrap();
        if instruction_byte == end {
            return false;
        }
        let instruction = Instruction::fetch(instruction_byte, self.is_prefixed).unwrap();
        self.is_prefixed = false;
        let next_pc = self.execute(&instruction);
        self.pc = next_pc;
        true
    }

    /// Sets the program counter to `address`.
    pub fn jump(&mut self, address: u16)
        ensures
            final(self)@ == old(self)@.with_pc(address),
            final(self).wf() == old(self).wf(),
    {
        self.pc = address;
    }

    /// Sets the program counter to `address` when the condition holds, and says whether it did.
    pub fn jump_by_flag(&mut self, flag: Flag, address: u16) -> (jumped: bool)
        ensures
            jumped == flag_holds(old(self).registers.f, flag),
            final(self)@ == (if jumped { old(self)@.with_pc(address) } else { old(self)@ }),
            final(self).wf() == old(self).wf(),
    {
        if self.registers.get_flag(flag) {
            self.pc = address;
            return true;
        }
        false
    }
}

/// Whether `op` is an arithmetic or logic instruction.
pub open spec fn is_arithmetic_op(op: OpCode) -> bool {
    match op {
        OpCode::ADC(_) | OpCode::ADD(_) | OpCode::ADD16(_, _) | OpCode::AND(_) | OpCode::CP(_)
        | OpCode::CPL(_) | OpCode::DEC(_) | OpCode::INC(_) | OpCode::OR(_) | OpCode::SBC(_)
        | OpCode::SUB(_) | OpCode::XOR(_) => true,
        _ => false,
    }
}

/// Whether `op` tests, sets, rotates or shifts the bits of one register.
pub open spec fn is_bitwise_op(op: OpCode) -> bool {
    match op {
        OpCode::BIT(_, _) | OpCode::RES(_, _) | OpCode::SET(_, _) | OpCode::RL(_) | OpCode::RLC(_)
        | OpCode::RR(_) | OpCode::RRC(_) | OpCode::SLA(_) | OpCode::SRL(_) | OpCode::SRA(_)
        | OpCode::SWAP(_) => true,
        _ => false,
    }
}

fn is_arithmetic(op: OpCode) -> (r: bool)
    ensures
        r == is_arithmetic_op(op),
{
    match op {
        OpCode::ADC(_) | OpCode::ADD(_) | OpCode::ADD16(_, _) | OpCode::AND(_) | OpCode::CP(_)
        | OpCode::CPL(_) | OpCode::DEC(_) | OpCode::INC(_) | OpCode::OR(_) | OpCode::SBC(_)
        | OpCode::SUB(_) | OpCode::XOR(_) => true,
        _ => false,
    }
}

fn is_bitwise(op: OpCode) -> (r: bool)
    ensures
        r == is_bitwise_op(op),
{
    match op {
        OpCode::BIT(_, _) | OpCode::RES(_, _) | OpCode::SET(_, _) | OpCode::RL(_) | OpCode::RLC(_)
        | OpCode::RR(_) | OpCode::RRC(_) | OpCode::SLA(_) | OpCode::SRL(_) | OpCode::SRA(_)
        | OpCode::SWAP(_) => true,
        _ => false,
    }
}

/// The single register operand of XOR and SWAP.
fn target_of(op: OpCode) -> (t: Target)
    ensures
        op matches OpCode::XOR(x) ==> t == x,
        op matches OpCode::SWAP(x) ==> t == x,
{
    match op {
        OpCode::XOR(t) => t,
        OpCode::SWAP(t) => t,
        _ => Target::A,
    }
}

/// Whether `t` makes LD move sixteen bits.
pub fn is_16bit_operand_exec(t: Target) -> (r: bool)
    ensures
        r == is_16bit_operand(t),
{
    t == Target::SP || t == Target::SpR8 || t == Target::D16
}

/// Whether `t` is one of the register pairs HL, BC and DE.
pub fn is_pair16_exec(t: Target) -> (r: bool)
    ensures
        r == is_pair16(t),
{
    t == Target::HL || t == Target::BC || t == Target::DE
}

/// Whether `t` is an eight bit register.
pub fn is_r8_exec(t: Target) -> (r: bool)
    ensures
        r == is_r8(t),
{
    match t {
        Target::A | Target::B | Target::C | Target::D | Target::E | Target::F | Target::L | Target::H => true,
        _ => false,
    }
}


/// Flipping every bit of a register twice gives the register back.
pub proof fn lemma_cpl_twice(s: CpuView, t: Target)
    requires
        is_r8(t),
    ensures
        s.execute_spec(OpCode::CPL(t)).execute_spec(OpCode::CPL(t)) == s,
{
    let once = s.execute_spec(OpCode::CPL(t));
    assert(once.r8(t) == (255 - s.r8(t)) as u8);
    assert(once.execute_spec(OpCode::CPL(t)).regs == s.regs);
}

/// Swapping the halves of a register twice gives the register back.
pub proof fn lemma_swap_twice(s: CpuView, t: Target)
    requires
        is_r8(t),
    ensures
        s.swap_spec(t).swap_spec(t) == s,
{
    let once = s.swap_spec(t);
    assert(once.r8(t) == (s.r8(t) / 16 + (s.r8(t) % 16) * 16) as u8);
    assert(s.swap_spec(t).swap_spec(t).regs == s.regs);
}

/// Writing an eight bit register and reading it back gives the value written; a second write
/// replaces the first; writing back what a register holds changes nothing; and setting a flag
/// leaves every register other than F.
pub proof fn lemma_r8_frame(s: CpuView, t: Target, v: u8, w: u8, flag: Flag, x: bool)
    requires
        is_r8(t),
    ensures
        s.with_r8(t, v).r8(t) == v,
        s.with_r8(t, v).with_r8(t, w) == s.with_r8(t, w),
        s.with_r8(t, s.r8(t)) == s,
        t != Target::F ==> s.flag(flag, x).r8(t) == s.r8(t),
{
    assert(s.with_r8(t, v).with_r8(t, w).regs == s.with_r8(t, w).regs);
    assert(s.with_r8(t, s.r8(t)).regs == s.regs);
}

/// Rotating a byte left by one and then right by one, or the reverse, gives it back.
pub proof fn lemma_rotate_byte(r: u8)
    ensures
        (((r % 128) * 2 + r / 128) / 2 + (((r % 128) * 2 + r / 128) % 2) * 128) == r,
        (((r / 2 + (r % 2) * 128) % 128) * 2 + (r / 2 + (r % 2) * 128) / 128) == r,
{
    assert((((r % 128) * 2 + r / 128) / 2 + (((r % 128) * 2 + r / 128) % 2) * 128) == r) by (nonlinear_arith)
        requires 0 <= r < 256;
    assert((((r / 2 + (r % 2) * 128) % 128) * 2 + (r / 2 + (r % 2) * 128) / 128) == r) by (nonlinear_arith)
        requires 0 <= r < 256;
}

/// Rotating a register left and then right, or right and then left, gives it back.
pub proof fn lemma_rotate_round_trip(s: CpuView, t: Target)
    requires
        is_r8(t),
    ensures
        s.rl_spec(t).rr_spec(t) == s,
        s.rr_spec(t).rl_spec(t) == s,
{
    let r = s.r8(t);
    lemma_rotate_byte(r);
    let left = ((r % 128) * 2 + r / 128) as u8;
    let right = (r / 2 + (r % 2) * 128) as u8;
    lemma_r8_frame(s, t, left, right, Flag::Zero, false);
    lemma_r8_frame(s, t, left, r, Flag::Zero, false);
    lemma_r8_frame(s, t, right, r, Flag::Zero, false);
}

/// INC on an eight bit register other than F adds one to it, wrapping.
pub proof fn lemma_inc8_value(s: CpuView, t: Target)
    requires
        is_r8_no_f(t),
    ensures
        s.inc8_spec(t).r8(t) == ((s.r8(t) + 1) % 256) as u8,
{
    reveal(CpuView::inc8_spec);
    let r = s.r8(t);
    let s1 = s.flag(Flag::HalfCarry, r == 15);
    lemma_r8_frame(s, t, 0, 0, Flag::HalfCarry, r == 15);
    let s2 = s1.flag(Flag::Carry, s1.r8(t) == 255);
    lemma_r8_frame(s1, t, 0, 0, Flag::Carry, s1.r8(t) == 255);
    let s3 = s2.flag(Flag::Sub, false);
    lemma_r8_frame(s2, t, 0, 0, Flag::Sub, false);
    let up = ((r + 1) % 256) as u8;
    lemma_r8_frame(s3, t, up, 0, Flag::Zero, up == 0);
    lemma_r8_frame(s3.with_r8(t, up), t, 0, 0, Flag::Zero, up == 0);
}

/// DEC on an eight bit register other than F subtracts one from it, wrapping.
pub proof fn lemma_dec8_value(s: CpuView, t: Target)
    requires
        is_r8_no_f(t),
    ensures
        s.dec8_spec(t).r8(t) == ((s.r8(t) + 255) % 256) as u8,
{
    reveal(CpuView::dec8_spec);
    let r = s.r8(t);
    let e1 = s.flag(Flag::HalfCarry, false);
    lemma_r8_frame(s, t, 0, 0, Flag::HalfCarry, false);
    let e2 = e1.flag(Flag::Carry, false);
    lemma_r8_frame(e1, t, 0, 0, Flag::Carry, false);
    let e3 = e2.flag(Flag::Sub, true);
    lemma_r8_frame(e2, t, 0, 0, Flag::Sub, true);
    let dn = ((r + 255) % 256) as u8;
    lemma_r8_frame(e3, t, dn, 0, Flag::Zero, dn == 0);
    lemma_r8_frame(e3.with_r8(t, dn), t, 0, 0, Flag::Zero, dn == 0);
}

/// Incrementing an eight bit register other than F and then decrementing it gives its value
/// back, and so does the reverse order; only the flags differ.
pub proof fn lemma_inc_then_dec_restores_register(s: CpuView, t: Target)
    requires
        is_r8_no_f(t),
    ensures
        s.inc8_spec(t).dec8_spec(t).r8(t) == s.r8(t),
        s.dec8_spec(t).inc8_spec(t).r8(t) == s.r8(t),
{
    let r = s.r8(t);
    let i = s.inc8_spec(t);
    let d = s.dec8_spec(t);
    lemma_inc8_value(s, t);
    lemma_dec8_value(i, t);
    lemma_dec8_value(s, t);
    lemma_inc8_value(d, t);
    let up = ((r + 1) % 256) as u8;
    let dn = ((r + 255) % 256) as u8;
    assert(((up + 255) % 256) as u8 == r);
    assert(((dn + 1) % 256) as u8 == r);
}

/// Adding a register other than A and F to A and then subtracting it gives A back.
pub proof fn lemma_add_then_sub_restores_a(s: CpuView, t: Target)
    requires
        is_r8_no_f(t),
        t != Target::A,
        s.add_ok(t),
    ensures
        s.add_spec(t).execute_ok(OpCode::SUB(t)),
        s.add_spec(t).sub_spec(t).a() == s.a(),
{
    let v = s.r8(t);
    let sum = s.a() + v;
    let r = (sum % 256) as u8;
    let s1 = s.flag(Flag::Carry, sum > 255);
    lemma_r8_frame(s, t, 0, 0, Flag::Carry, sum > 255);
    let s2 = s1.flag(Flag::HalfCarry, s.a() < 15 && sum >= 15);
    lemma_r8_frame(s1, t, 0, 0, Flag::HalfCarry, s.a() < 15 && sum >= 15);
    let s3 = s2.with_r8(Target::A, r);
    assert(s3.r8(t) == v);
    let s4 = s3.flag(Flag::Zero, r == 0);
    lemma_r8_frame(s3, t, 0, 0, Flag::Zero, r == 0);
    lemma_r8_frame(s3, Target::A, 0, 0, Flag::Zero, r == 0);
    let s5 = s4.flag(Flag::Sub, false);
    lemma_r8_frame(s4, t, 0, 0, Flag::Sub, false);
    lemma_r8_frame(s4, Target::A, 0, 0, Flag::Sub, false);
    assert(s5 == s.add_spec(t));
    assert(s5.r8(t) == v);
    assert(s5.a() == r);
    let t1 = s5.flag(Flag::Zero, v >= r);
    lemma_r8_frame(s5, Target::A, 0, 0, Flag::Zero, v >= r);
    let back = ((r - v + 256) % 256) as u8;
    assert(back == s.a());
    let t2 = t1.with_r8(Target::A, back);
    lemma_r8_frame(t1, Target::A, back, 0, Flag::Sub, true);
    lemma_r8_frame(t2, Target::A, 0, 0, Flag::Sub, true);
    let t3 = t2.flag(Flag::Sub, true);
    lemma_r8_frame(t3, Target::A, 0, 0, Flag::HalfCarry, false);
    let t4 = t3.flag(Flag::HalfCarry, false);
    lemma_r8_frame(t4, Target::A, 0, 0, Flag::Carry, false);
}

/// Setting a bit and then testing it clears the zero flag's inverse: after SET the BIT test
/// sets the zero flag, and after RES it clears it; RES after SET is RES alone.
pub proof fn lemma_set_res_bit(s: CpuView, b: u8, t: Target)
    requires
        is_r8_no_f(t),
        b < 8,
    ensures
        bit_of(s.set_spec(b, t).r8(t), b),
        !bit_of(s.res_spec(b, t).r8(t), b),
        s.set_spec(b, t).res_spec(b, t) == s.res_spec(b, t),
        flag_holds(s.set_spec(b, t).bit_spec(b, t).regs.f, Flag::Zero),
        !flag_holds(s.res_spec(b, t).bit_spec(b, t).regs.f, Flag::Zero),
{
    crate::consoles::gameboy::registers::lemma_with_bit(s.r8(t), b, true);
    crate::consoles::gameboy::registers::lemma_with_bit(s.r8(t), b, false);
    let r = s.r8(t);
    assert(with_bit(with_bit(r, b, true), b, false) == with_bit(r, b, false)) by (bit_vector)
        requires b < 8;
    assert(s.set_spec(b, t).res_spec(b, t).regs == s.res_spec(b, t).regs);
    let f1 = s.set_spec(b, t).regs.f;
    let f2 = s.res_spec(b, t).regs.f;
    crate::consoles::gameboy::registers::lemma_flag_set_then_get(f1, Flag::Zero, true, Flag::Zero);
    crate::consoles::gameboy::registers::lemma_flag_set_then_get(f2, Flag::Zero, false, Flag::Zero);
    let g1 = with_flag(f1, Flag::Zero, true);
    let g2 = with_flag(f2, Flag::Zero, false);
    crate::consoles::gameboy::registers::lemma_with_bit(g1, 4, false);
    crate::consoles::gameboy::registers::lemma_with_bit(with_bit(g1, 4, false), 5, true);
    crate::consoles::gameboy::registers::lemma_with_bit(with_bit(with_bit(g1, 4, false), 5, true), 6, false);
    crate::consoles::gameboy::registers::lemma_with_bit(g2, 4, false);
    crate::consoles::gameboy::registers::lemma_with_bit(with_bit(g2, 4, false), 5, true);
    crate::consoles::gameboy::registers::lemma_with_bit(with_bit(with_bit(g2, 4, false), 5, true), 6, false);
}

/// At the end of the program a tick changes nothing.
pub proof fn lemma_tick_at_end(s: CpuView)
    requires
        s.at_end(),
    ensures
        s.tick_spec() == s,
{
}

/// CP compares A with its operand without changing A: the zero flag is raised exactly when A
/// equals the compared value, and the sub flag is raised.
pub proof fn lemma_cp_compares(s: CpuView, t: Target)
    requires
        s.cp_ok(t),
    ensures
        flag_holds(s.cp_spec(t).regs.f, Flag::Zero) <==> s.a() == s.cp_value(t),
        flag_holds(s.cp_spec(t).regs.f, Flag::Sub),
        s.cp_spec(t).a() == s.a(),
        s.cp_spec(t).mem == s.mem,
        s.cp_spec(t).pc == s.pc,
{
    let v = s.cp_value(t);
    let s1 = s.flag(Flag::Zero, s.a() - v == 0);
    let s2 = s1.flag(Flag::Sub, true);
    let s3 = s2.flag(Flag::HalfCarry, t == Target::R8);
    crate::consoles::gameboy::registers::lemma_flag_set_then_get(s.regs.f, Flag::Zero, s.a() - v == 0, Flag::Zero);
    crate::consoles::gameboy::registers::lemma_flag_set_then_get(s1.regs.f, Flag::Sub, true, Flag::Zero);
    crate::consoles::gameboy::registers::lemma_flag_set_then_get(s1.regs.f, Flag::Sub, true, Flag::Sub);
    crate::consoles::gameboy::registers::lemma_flag_set_then_get(s2.regs.f, Flag::HalfCarry, t == Target::R8, Flag::Zero);
    crate::consoles::gameboy::registers::lemma_flag_set_then_get(s2.regs.f, Flag::HalfCarry, t == Target::R8, Flag::Sub);
    crate::consoles::gameboy::registers::lemma_flag_set_then_get(s3.regs.f, Flag::Carry, t == Target::R8 || s.a() < v, Flag::Zero);
    crate::consoles::gameboy::registers::lemma_flag_set_then_get(s3.regs.f, Flag::Carry, t == Target::R8 || s.a() < v, Flag::Sub);
}

/// A conditional JUMP whose condition holds makes the byte after the opcode the next program
/// counter, with nothing added; one whose condition fails moves on by the instruction's
/// length. Nothing but the program counter changes.
pub proof fn lemma_jump_target(s: CpuView, flag: Flag, length: u8)
    requires
        s.execute_ok(OpCode::JUMP(flag)),
    ensures
        flag_holds(s.regs.f, flag) ==> s.execute_result(OpCode::JUMP(flag), length) == s.next_byte(),
        !flag_holds(s.regs.f, flag) ==> s.execute_result(OpCode::JUMP(flag), length) as int
            == (s.pc + length) % 65536,
        s.execute_spec(OpCode::JUMP(flag)).regs == s.regs,
        s.execute_spec(OpCode::JUMP(flag)).mem == s.mem,
{
}

} // verus!