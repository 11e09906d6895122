use gbemu::consoles::cartridge::{create, Cartridge};
use gbemu::consoles::fake_cartridge::FakeCartridge;
use gbemu::consoles::console::create_for;
use gbemu::consoles::gameboy::game_boy::GameBoy;
use gbemu::consoles::gameboy::gbcartridge::GbCartridge;
use gbemu::consoles::gameboy::opcode::OpCode;
use gbemu::consoles::gameboy::registers::Flag;
use gbemu::consoles::gameboy::target::Target;
use gbemu::consoles::readable::Readable;
use gbemu::filio::last_n_segments;
use gbemu::instruction::{Instruction, OpCode as TableOpCode};

#[test]
fn create_accepts_game_boy_color_roms() {
    assert_eq!(create("roms/Pokemon-Silver.gbc".to_string()).unwrap(), "roms/Pokemon-Silver.gbc");
    assert_eq!(create("a.b.gbc".to_string()).unwrap(), "a.b.gbc");
}

#[test]
fn create_names_unknown_suffixes() {
    let e = create("roms/game.gb".to_string()).unwrap_err();
    assert_eq!(e.what, "Suffix unknown: gb");
    let e = create("roms/game.".to_string()).unwrap_err();
    assert_eq!(e.what, "Suffix unknown: ");
}

#[test]
fn create_refuses_paths_without_a_dot() {
    let e = create("roms/game".to_string()).unwrap_err();
    assert_eq!(e.what, "Invalid path: roms/game");
}

#[test]
fn game_boy_maps_memory_and_cartridge() {
    let cart = GbCartridge::new("x.gbc".to_string(), vec![1, 2, 3, 4]);
    assert_eq!(cart.dump_raw(), "1234");
    assert_eq!(cart.data(), &vec![1, 2, 3, 4]);
    let gb = GameBoy::new(cart);
    let cpu = gb.cpu();
    assert_eq!(cpu.pc, 0);
    assert_eq!(cpu.sp, 0xC000);
    assert_eq!(cpu.read_memory(2), 3);
    assert_eq!(cpu.read_memory(0xC000), 0xFD);
    assert_eq!(cpu.read_memory(0xCFFF), 0xFD);
    assert!(cpu.bus.read(0xD000).is_err());
}

#[test]
fn every_cartridge_gets_a_game_boy() {
    let cart = GbCartridge::new("x.gbc".to_string(), vec![9]);
    let gb = create_for(Cartridge::GameBoy(cart)).ok().unwrap();
    assert_eq!(gb.cpu().read_memory(0), 9);
    assert_eq!(gb.cpu().pc, 0);
    assert_eq!(gb.cpu().sp, 0xC000);
}

#[test]
fn other_cartridges_get_no_console() {
    let e = create_for(Cartridge::Fake(FakeCartridge::new())).err().unwrap();
    assert_eq!(e.what, "No Console present for the rom provided");
}

#[test]
fn end_of_program_is_encoded_by_0xfd() {
    let b = Instruction::byte_from_opcode(TableOpCode::EndOfProgram).unwrap();
    assert_eq!(b, 0xFD);
    assert!(matches!(Instruction::fetch(b, false).unwrap().opcode, TableOpCode::EndOfProgram));
}

#[test]
fn last_segment_of_a_path() {
    assert_eq!(last_n_segments(1, "saves/gbc/Pokemon-Silver"), "Pokemon-Silver");
    assert_eq!(last_n_segments(2, "a/b/c"), "c");
    assert_eq!(last_n_segments(1, "abc"), "bc");
    assert_eq!(last_n_segments(1, "dir/"), "");
}

#[test]
fn names_of_operations_and_operands() {
    assert_eq!(OpCode::ADC(Target::A).name(), "ADC");
    assert_eq!(OpCode::RST(0x38).name(), "RST");
    assert_eq!(OpCode::CALL(Flag::Zero).name(), "CALL");
    assert_eq!(OpCode::EndOfProgram.name(), "EndOfProgram");
    assert_eq!(Target::SP_R8.name(), "SP_R8");
    assert_eq!(Target::HL.name(), "HL");
    assert!(Target::HL.is_16bit());
    assert!(!Target::SP.is_16bit());
}
