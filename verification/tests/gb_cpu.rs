use gbemu::consoles::addressable::Addressable;
use gbemu::consoles::bus::{Bus, BusError, Device};
use gbemu::consoles::fake_cartridge::FakeCartridge;
use gbemu::consoles::gameboy::cpu::Cpu;
use gbemu::consoles::gameboy::instruction::FlagAction::{Affected, NotAffected, Raise, Reset};
use gbemu::consoles::gameboy::instruction::{FlagAction, FlagAffection, Instruction as GbInstruction};
use gbemu::consoles::gameboy::opcode::OpCode as GbOpCode;
use gbemu::consoles::gameboy::registers::{Flag, ZERO_BIT_POS};
use gbemu::consoles::gameboy::target::Target;
use gbemu::consoles::memory::Memory;
use gbemu::consoles::memory_map::{
    H_RAM_END, H_RAM_START, ROM_BANK_00_END, ROM_BANK_00_START, WRAM_END, WRAM_START,
};
use gbemu::consoles::readable::Readable;
use gbemu::consoles::writeable::Writeable;
use gbemu::instruction::{Instruction, OpCode};

fn setup() -> Cpu {
    let mut bus = Bus::new();
    let end = Instruction::byte_from_opcode(OpCode::EndOfProgram).unwrap();

    let mut memory = Memory::new(0x10000, Some(end));
    memory.assign_address_range(WRAM_START..=WRAM_END);
    bus.connect(Device::Memory(memory), true, true);

    let mut h_ram = Memory::new(126, Some(end));
    h_ram.assign_address_range(H_RAM_START..=H_RAM_END);
    bus.connect(Device::Memory(h_ram), true, true);

    let mut cartridge = FakeCartridge::new();
    cartridge.assign_address_range(ROM_BANK_00_START..=ROM_BANK_00_END);
    bus.connect(Device::FakeCartridge(cartridge), true, true);

    Cpu::new(bus)
}

fn flags(zero: FlagAction, sub: FlagAction, half: FlagAction, carry: FlagAction) -> FlagAffection {
    FlagAffection { zero_flag: zero, sub_flag: sub, half_carry_flag: half, carry_flag: carry }
}

fn instruction(opcode: GbOpCode, length: u8, flag_affection: FlagAffection) -> GbInstruction {
    GbInstruction { opcode, length, cycles: 4, optional_cycles: 4, flag_affection }
}

#[test]
fn test_call_and_ret() {
    let mut cpu = setup();

    println!("pc = {} sp = {}", cpu.pc, cpu.sp);
    let address1 = cpu.pc + 10;
    let address2 = cpu.pc + 3;

    let _ = cpu.bus.write_16(1, address1);

    let _ = cpu.bus.write(cpu.pc + 1, (address1 & 0b11111111) as u8);
    let _ = cpu.bus.write(cpu.pc + 2, ((address1 & 0b1111111100000000) >> 8) as u8);
    assert!(cpu.call(Flag::NotZero));
    assert_eq!(cpu.pc, address1);

    cpu.sp += 2;

    assert!(cpu.ret(Flag::NotZero));
    assert_eq!(cpu.pc, address2);
}

#[test]
fn cpu_test_jump() {
    let mut cpu = setup();

    let address = 100_u16;
    let _ = cpu.bus.write(cpu.pc + 1, (address & 0xFF) as u8);
    let _ = cpu.bus.write(cpu.pc + 2, (address >> 8) as u8);
    cpu.jp();

    assert_eq!(cpu.pc, 100);
}

#[test]
fn test_jump_hl() {
    let mut cpu = setup();

    cpu.registers.set_combined_register(Target::HL, 0b0000001010001000);

    cpu.jump_hl();

    assert_eq!(cpu.pc, 0b0000001010001000);
}

#[test]
fn test_jruc() {
    let mut cpu = setup();

    let initial = cpu.pc as u8;
    cpu.write_to_memory(cpu.pc + 1, initial + 100);
    cpu.jruc();

    assert_eq!(cpu.pc as u8, initial + 100);
}

#[test]
fn test_push_and_pop() {
    let mut cpu = setup();
    cpu.sp += 2;

    cpu.registers.set_combined_register(Target::HL, 0b1000100000010001);

    cpu.push(Target::HL);

    assert_eq!(cpu.bus.read(cpu.sp + 1).unwrap(), 0b10001000);
    assert_eq!(cpu.bus.read(cpu.sp + 2).unwrap(), 0b00010001);

    cpu.pop(Target::BC);

    assert_eq!(cpu.registers.combined_register(Target::BC), 0b1000100000010001);
}

#[test]
fn test_rla() {
    let mut cpu = setup();

    cpu.registers.a = 0b10000000;
    cpu.rla();

    assert!(cpu.registers.get_flag(Flag::Carry));
    assert_eq!(cpu.registers.a, 0);

    cpu.rla();

    assert!(!cpu.registers.get_flag(Flag::Carry));
    assert_eq!(cpu.registers.a, 1);
}

#[test]
fn cpu_test_rlc() {
    let mut cpu = setup();

    cpu.registers.set_flag(Flag::Carry, true);
    cpu.registers.a = 1;
    cpu.rlc(Target::A);

    assert_eq!(cpu.registers.a, 2);
    assert!(!cpu.registers.get_flag(Flag::Carry));

    cpu.registers.a = 0b10000000;
    cpu.rlc(Target::A);

    assert_eq!(cpu.registers.a, 1);
    assert!(cpu.registers.get_flag(Flag::Carry));
}

#[test]
fn test_rra() {
    let mut cpu = setup();

    cpu.registers.a = 1;
    cpu.rra();

    assert!(cpu.registers.get_flag(Flag::Carry));
    assert_eq!(cpu.registers.a, 0);

    cpu.rra();

    assert!(!cpu.registers.get_flag(Flag::Carry));
    assert_eq!(cpu.registers.a, 0b10000000);
}

#[test]
fn test_rrca() {
    let mut cpu = setup();

    cpu.registers.a = 1;
    cpu.rrca();

    assert!(cpu.registers.get_flag(Flag::Carry));
    assert_eq!(cpu.registers.a, (1 << ZERO_BIT_POS));
}

#[test]
fn cpu_test_sla() {
    let mut cpu = setup();

    cpu.registers.a = 1;
    cpu.sla(Target::A);

    assert_eq!(cpu.registers.a, 2);
}

#[test]
fn cpu_test_sra() {
    let mut cpu = setup();

    cpu.registers.a = 0b10000000;
    cpu.sra(Target::A);

    assert_eq!(cpu.registers.a, 0b11000000);
}

#[test]
fn new_cpu_starts_at_work_ram() {
    let cpu = setup();
    assert_eq!(cpu.pc, 0);
    assert_eq!(cpu.sp, 0xC000);
    assert_eq!(cpu.get_reg_a(), 0);
    assert!(cpu.interrupts_enabled);
    assert!(!cpu.is_prefixed);
    assert!(!cpu.is_stopped);
    assert_eq!(cpu.read_memory(0xC000), 0xFD);
    assert_eq!(cpu.read_memory(0xFF80), 0xFD);
    assert_eq!(cpu.read_memory(0x0000), 0);
}

#[test]
fn bus_refuses_unmapped_addresses() {
    let mut cpu = setup();
    assert_eq!(cpu.bus.read(0x8000), Err(BusError::ReadError(0x8000)));
    assert_eq!(cpu.bus.write(0x8000, 1), Err(BusError::WriteError(0x8000)));
    assert_eq!(cpu.bus.write_16(0xA000, 1), Err(BusError::WriteError(0xA000)));
    assert_eq!(cpu.bus.write(0xC010, 9), Ok(()));
    assert_eq!(cpu.bus.read(0xC010), Ok(9));
}

#[test]
fn bus_read_goes_to_first_readable_device() {
    let mut bus = Bus::new();
    let mut first = Memory::new(16, Some(1));
    first.assign_address_range(0x10..=0x1F);
    let mut second = Memory::new(32, Some(2));
    second.assign_address_range(0x10..=0x2F);
    bus.connect_readable(Device::Memory(first));
    bus.connect(Device::Memory(second), true, true);
    assert_eq!(bus.read(0x10), Ok(1));
    assert_eq!(bus.read(0x20), Ok(2));
    assert_eq!(bus.write(0x10, 7), Ok(()));
    assert_eq!(bus.read(0x10), Ok(1));
    assert_eq!(bus.read(0x2F), Ok(2));
}

#[test]
fn load_program_reads_back() {
    let mut cpu = setup();
    cpu.load_program(vec![0x3E, 0x42, 0x00]);
    assert_eq!(cpu.read_memory(0), 0x3E);
    assert_eq!(cpu.read_memory(1), 0x42);
    assert_eq!(cpu.read_memory(2), 0x00);
    assert_eq!(cpu.read_memory(3), 0);
}

#[test]
fn zero_memory_and_end_of_program() {
    let mut bus = Bus::new();
    let mut memory = Memory::new(0x10000, None);
    memory.assign_address_range(WRAM_START..=WRAM_END);
    bus.connect(Device::Memory(memory), true, true);
    let mut cartridge = FakeCartridge::new();
    cartridge.assign_address_range(ROM_BANK_00_START..=ROM_BANK_00_END);
    bus.connect(Device::FakeCartridge(cartridge), true, true);
    let mut cpu = Cpu::new(bus);
    assert_eq!(cpu.read_memory(0xC123), 0);
    cpu.set_memory_to_end_of_program();
    assert_eq!(cpu.read_memory(0x0010), 0xFD);
    assert_eq!(cpu.read_memory(0xC123), 0xFD);
    cpu.zero_memory();
    assert_eq!(cpu.read_memory(0x0010), 0);
    assert_eq!(cpu.read_memory(0xC123), 0);
}

#[test]
fn set_flags_follows_the_declared_actions() {
    let mut cpu = setup();
    cpu.set_flags(flags(Affected, Reset, Affected, Affected), 0x0F, 0x10);
    assert!(!cpu.registers.get_flag(Flag::Zero));
    assert!(!cpu.registers.get_flag(Flag::Sub));
    assert!(cpu.registers.get_flag(Flag::HalfCarry));
    assert!(!cpu.registers.get_flag(Flag::Carry));

    cpu.set_flags(flags(Affected, Raise, Affected, Affected), 0x10, 0x0F);
    assert!(!cpu.registers.get_flag(Flag::Zero));
    assert!(cpu.registers.get_flag(Flag::Sub));
    assert!(cpu.registers.get_flag(Flag::HalfCarry));
    assert!(!cpu.registers.get_flag(Flag::Carry));

    cpu.set_flags(flags(Affected, Reset, Reset, Affected), 0x20, 0x00);
    assert!(cpu.registers.get_flag(Flag::Zero));
    assert!(!cpu.registers.get_flag(Flag::Sub));
    assert!(!cpu.registers.get_flag(Flag::HalfCarry));
    assert!(cpu.registers.get_flag(Flag::Carry));

    cpu.set_flags(flags(NotAffected, NotAffected, NotAffected, NotAffected), 1, 2);
    assert!(cpu.registers.get_flag(Flag::Zero));
    assert!(cpu.registers.get_flag(Flag::Carry));
}

#[test]
fn set_flags_16_follows_the_declared_actions() {
    let mut cpu = setup();
    cpu.set_flags_16(flags(Affected, Reset, Affected, Affected), 0x0100, 0x0000);
    assert!(cpu.registers.get_flag(Flag::Zero));
    assert!(!cpu.registers.get_flag(Flag::HalfCarry));
    assert!(!cpu.registers.get_flag(Flag::Carry));

    cpu.set_flags_16(flags(Affected, Affected, Affected, Affected), 1, 2);
    assert!(!cpu.registers.get_flag(Flag::Zero));
    assert!(!cpu.registers.get_flag(Flag::HalfCarry));
    assert!(cpu.registers.get_flag(Flag::Carry));
}

#[test]
fn execute_add_moves_on_by_length() {
    let mut cpu = setup();
    cpu.registers.a = 0x0F;
    cpu.registers.b = 1;
    let ins = instruction(GbOpCode::ADD(Target::B), 1, flags(Affected, Reset, Affected, Affected));
    let next = cpu.execute(&ins);
    assert_eq!(next, 1);
    assert_eq!(cpu.pc, 0);
    assert_eq!(cpu.registers.a, 0x10);
    assert!(cpu.registers.get_flag(Flag::HalfCarry));
    assert!(!cpu.registers.get_flag(Flag::Zero));
}

#[test]
fn execute_call_stays_at_target() {
    let mut cpu = setup();
    cpu.write_to_memory(1, 0x34);
    cpu.write_to_memory(2, 0x12);
    let none = flags(NotAffected, NotAffected, NotAffected, NotAffected);
    let next = cpu.execute(&instruction(GbOpCode::CALL_UC, 3, none));
    assert_eq!(next, 0x1234);
    assert_eq!(cpu.read_memory(0xC000), 3);
    assert_eq!(cpu.read_memory(0xC001), 0);
    let next = cpu.execute(&instruction(GbOpCode::JP, 3, none));
    assert_eq!(cpu.pc, 0);
    assert_eq!(next, 3);
}

#[test]
fn execute_modes_and_carry() {
    let mut cpu = setup();
    let none = flags(NotAffected, NotAffected, NotAffected, NotAffected);
    assert_eq!(cpu.execute(&instruction(GbOpCode::DisableInterrupt, 1, none)), 1);
    assert!(!cpu.interrupts_enabled);
    cpu.execute(&instruction(GbOpCode::EnableInterrupt, 1, none));
    assert!(cpu.interrupts_enabled);
    cpu.execute(&instruction(GbOpCode::CB, 1, none));
    assert!(cpu.is_prefixed);
    cpu.execute(&instruction(GbOpCode::STOP, 2, none));
    assert!(cpu.is_stopped);
    cpu.execute(&instruction(GbOpCode::SCF, 1, none));
    assert!(cpu.registers.get_flag(Flag::Carry));
    cpu.execute(&instruction(GbOpCode::CCF, 1, none));
    assert!(!cpu.registers.get_flag(Flag::Carry));
}

#[test]
fn arithmetic_with_declared_flags() {
    let add = flags(Affected, Reset, Affected, Affected);
    let sub = flags(Affected, Raise, Affected, Affected);
    let mut cpu = setup();
    cpu.registers.a = 254;
    cpu.registers.c = 1;
    cpu.registers.set_flag(Flag::Carry, true);
    cpu.adc(Target::C, add);
    assert_eq!(cpu.registers.a, 0);
    assert!(cpu.registers.get_flag(Flag::Zero));

    cpu.registers.a = 5;
    cpu.registers.d = 3;
    cpu.sub(Target::D, sub);
    assert_eq!(cpu.registers.a, 2);
    assert!(cpu.registers.get_flag(Flag::Sub));

    cpu.registers.a = 3;
    cpu.registers.set_flag(Flag::Carry, true);
    cpu.sbc(Target::D, sub);
    assert_eq!(cpu.registers.a, 0xFF);

    cpu.registers.a = 3;
    cpu.registers.e = 5;
    cpu.xor(Target::E, add);
    assert_eq!(cpu.registers.a, 6);
    cpu.and(Target::E, add);
    assert_eq!(cpu.registers.a, 4);
    cpu.registers.set_combined_register(Target::HL, 0x1203);
    cpu.or(Target::HL, add);
    assert_eq!(cpu.registers.a, 7);

    cpu.registers.set_combined_register(Target::HL, 0x0003);
    cpu.registers.a = 9;
    cpu.sub(Target::HL, sub);
    assert_eq!(cpu.registers.a, 6);

    cpu.registers.a = 0x80 + 4;
    cpu.swap(Target::A, add);
    assert_eq!(cpu.registers.a, 72);

    cpu.registers.a = 1;
    cpu.cpl(sub);
    assert_eq!(cpu.registers.a, 0b11111110);
}

#[test]
fn increments_and_sixteen_bit_addition() {
    let fl = flags(Affected, Reset, Affected, NotAffected);
    let mut cpu = setup();
    cpu.registers.b = 0xFF;
    cpu.inc(Target::B, fl);
    assert_eq!(cpu.registers.b, 0);
    assert!(cpu.registers.get_flag(Flag::Zero));
    cpu.dec(Target::B, fl);
    assert_eq!(cpu.registers.b, 0xFF);

    cpu.registers.set_combined_register(Target::HL, 0);
    cpu.dec(Target::HL, fl);
    assert_eq!(cpu.registers.combined_register(Target::HL), 0xFFFF);
    cpu.inc(Target::HL, fl);
    assert_eq!(cpu.registers.combined_register(Target::HL), 0);

    cpu.inc_16(Target::SP, fl);
    assert_eq!(cpu.sp, 0xC001);
    cpu.dec_16(Target::DE, fl);
    assert_eq!(cpu.registers.combined_register(Target::DE), 0xFFFF);

    cpu.registers.set_combined_register(Target::BC, 0x0180);
    cpu.registers.set_combined_register(Target::HL, 0x0180);
    cpu.add_16(Target::HL, Target::BC, fl);
    assert_eq!(cpu.registers.h, 3);
    assert_eq!(cpu.registers.l, 0);

    cpu.registers.a = 7;
    cpu.registers.b = 7;
    cpu.cp(Target::B, flags(Affected, Raise, NotAffected, NotAffected));
    assert!(cpu.registers.get_flag(Flag::Zero));
    assert_eq!(cpu.registers.a, 7);
}

#[test]
fn bit_rotations_and_shifts() {
    let bit = flags(Affected, Reset, Raise, NotAffected);
    let mut cpu = setup();
    cpu.registers.c = 0b10000000;
    cpu.bit(7, Target::C, bit);
    assert!(!cpu.registers.get_flag(Flag::Zero));
    assert!(cpu.registers.get_flag(Flag::HalfCarry));
    cpu.bit(6, Target::C, bit);
    assert!(cpu.registers.get_flag(Flag::Zero));

    cpu.set(3, Target::C);
    assert_eq!(cpu.registers.c, 0b10001000);
    cpu.res(7, Target::C);
    assert_eq!(cpu.registers.c, 0b00001000);
    cpu.registers.set_combined_register(Target::HL, 0xFFFF);
    cpu.res(15, Target::HL);
    assert_eq!(cpu.registers.combined_register(Target::HL), 0x7FFF);

    let none = flags(NotAffected, NotAffected, NotAffected, NotAffected);
    cpu.registers.set_flag(Flag::Carry, false);
    cpu.registers.d = 0b10000001;
    cpu.rl(Target::D, none);
    assert_eq!(cpu.registers.d, 0b00000010);
    assert!(cpu.registers.get_flag(Flag::Carry));
    cpu.rr(Target::D, none);
    assert_eq!(cpu.registers.d, 0b10000001);
    assert!(!cpu.registers.get_flag(Flag::Carry));

    cpu.registers.e = 1;
    cpu.rrc(Target::E);
    assert_eq!(cpu.registers.e, 0);
    assert!(cpu.registers.get_flag(Flag::Carry));
    cpu.rrc(Target::E);
    assert_eq!(cpu.registers.e, 0b10000000);

    cpu.registers.a = 0b10000001;
    cpu.rlca();
    assert_eq!(cpu.registers.a, 0b00000011);
    assert!(cpu.registers.get_flag(Flag::Carry));

    cpu.registers.h = 2;
    cpu.srl(Target::H);
    assert_eq!(cpu.registers.h, 1);
    cpu.registers.l = 3;
    cpu.sl(Target::L);
    assert_eq!(cpu.registers.l, 6);
}

#[test]
fn decimal_correction() {
    let mut cpu = setup();
    cpu.registers.a = 0x0C;
    cpu.dda();
    assert_eq!(cpu.registers.a, 0x12);
    assert!(!cpu.registers.get_flag(Flag::Carry));
    cpu.registers.a = 0xA0;
    cpu.dda();
    assert_eq!(cpu.registers.a, 0x00);
    assert!(cpu.registers.get_flag(Flag::Carry));
    assert!(cpu.registers.get_flag(Flag::Zero));
}

#[test]
fn loads_through_the_bus() {
    let mut cpu = setup();
    cpu.registers.set_combined_register(Target::HL, 0xC020);
    cpu.write_to_memory(0xC020, 0x5A);
    cpu.load(Target::B, Target::HL);
    assert_eq!(cpu.registers.b, 0x5A);

    cpu.write_to_memory(1, 0x77);
    cpu.load(Target::C, Target::D8);
    assert_eq!(cpu.registers.c, 0x77);

    cpu.write_to_memory(1, 0xC0);
    cpu.write_to_memory(2, 0x30);
    cpu.registers.a = 0x99;
    cpu.load(Target::A16, Target::A);
    assert_eq!(cpu.read_memory(0xC030), 0x99);

    cpu.load(Target::DE, Target::C);
    assert_eq!(cpu.registers.combined_register(Target::DE), 0x0077);

    cpu.write_to_memory(1, 0x12);
    cpu.write_to_memory(2, 0x34);
    cpu.load_16(Target::SP, Target::D16);
    assert_eq!(cpu.sp, 0x1234);

    cpu.sp = 0xC000;
    cpu.write_to_memory(1, 0x10);
    cpu.load_16(Target::SP_R8, Target::SP);
    assert_eq!(cpu.read_memory(0xC010), 0x00);
    assert_eq!(cpu.read_memory(0xC011), 0xC0);

    cpu.write_to_memory(1, 0x85);
    cpu.write_to_memory(0x85, 0x03);
    cpu.ldh(Target::A, Target::A8);
    assert_eq!(cpu.registers.a, 0x03);
}

#[test]
fn restart_pushes_the_program_counter() {
    let mut cpu = setup();
    cpu.pc = 0x0123;
    cpu.sp = 0xC010;
    cpu.rst(0x38);
    assert_eq!(cpu.pc, 0x38);
    assert_eq!(cpu.sp, 0xC00E);
    assert_eq!(cpu.read_memory(0xC00F), 0x01);
    assert_eq!(cpu.read_memory(0xC010), 0x23);
}

#[test]
fn conditional_jumps() {
    let mut cpu = setup();
    cpu.write_to_memory(1, 0x20);
    cpu.write_to_memory(2, 0x00);
    assert!(!cpu.jump_by_flag(Flag::Zero));
    assert_eq!(cpu.pc, 0);
    assert!(cpu.jump_by_flag(Flag::NotZero));
    assert_eq!(cpu.pc, 0x20);
    cpu.pc = 0;
    assert!(cpu.jr(Flag::NotCarry));
    assert_eq!(cpu.pc, 0x20);
}

#[test]
fn reset_registers_sets_counters() {
    let mut cpu = setup();
    cpu.registers.a = 3;
    cpu.reset_registers();
    assert_eq!(cpu.pc, 0x100);
    assert_eq!(cpu.sp, 0xE000);
    assert_eq!(cpu.registers.a, 0);
}

#[test]
fn rotating_a_left_then_right_gives_it_back() {
    let mut cpu = setup();
    for a in [0u8, 1, 0x80, 0x81, 0x5A, 0xFF] {
        cpu.registers.a = a;
        cpu.rlca();
        cpu.rrca();
        assert_eq!(cpu.registers.a, a);
        cpu.rrca();
        cpu.rlca();
        assert_eq!(cpu.registers.a, a);
    }
}
