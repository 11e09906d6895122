use gbemu::consoles::addressable::Addressable;
use gbemu::consoles::bus::BusError;
use gbemu::consoles::fake_cartridge::FakeCartridge;
use gbemu::consoles::gameboy::memory::{Memory, ECHO_OF_INTERNAL_RAM, RAM};
use gbemu::consoles::memory::Memory as RangeMemory;
use gbemu::consoles::readable::Readable;
use gbemu::consoles::writeable::Writeable;

#[test]
fn memory_test_memory() {
    let mut mem = Memory::new();
    let _ = mem.write(RAM, 100);
    assert!(mem.read(RAM).unwrap() == 100);
    assert!(mem.read(ECHO_OF_INTERNAL_RAM).unwrap() == 100);
    let _ = mem.write(RAM + 40, 10);
    assert!(mem.read(RAM + 40).unwrap() == 10);
    assert!(mem.read(ECHO_OF_INTERNAL_RAM + 40).unwrap() == 10);
}

#[test]
fn echo_writes_stay_in_the_echo() {
    let mut mem = Memory::new();
    let _ = mem.write(ECHO_OF_INTERNAL_RAM + 5, 7);
    assert_eq!(mem.read(ECHO_OF_INTERNAL_RAM + 5), Ok(7));
    assert_eq!(mem.read(RAM + 5), Ok(0xFD));
    let _ = mem.write_16(RAM + 8, 0x1234);
    assert_eq!(mem.read(RAM + 8), Ok(0x12));
    assert_eq!(mem.read(ECHO_OF_INTERNAL_RAM + 9), Ok(0x34));
    assert_eq!(mem.get_size(), 0x10000);
    assert!(mem.in_range(0xFFFF));
}

#[test]
fn new_memory_holds_logo() {
    let mem = Memory::new();
    assert_eq!(mem.read(104), Ok(0xCE));
    assert_eq!(mem.read(104 + 47), Ok(0x3E));
    assert_eq!(mem.read(0), Ok(0xFD));
    assert_eq!(mem.read_as_hex_strign(104), "0xCE");
    assert_eq!(mem.read_as_binary_string(105), "0b11101101");
}

#[test]
fn range_memory_is_indexed_from_its_start() {
    let mut mem = RangeMemory::new(4, Some(0xAB));
    mem.assign_address_range(0x100..=0x103);
    assert!(mem.in_range(0x100));
    assert!(mem.in_range(0x103));
    assert!(!mem.in_range(0x104));
    assert!(!mem.in_range(0xFF));
    assert_eq!(mem.read(0x102), Ok(0xAB));
    assert_eq!(mem.write(0x101, 5), Ok(()));
    assert_eq!(mem.read(0x101), Ok(5));
    assert_eq!(mem.write_16(0x102, 0xBEEF), Ok(()));
    assert_eq!(mem.read(0x102), Ok(0xEF));
    assert_eq!(mem.read(0x103), Ok(0xBE));
    assert_eq!(mem.as_hex_dump(), vec!["0xab", "0x5", "0xef", "0xbe"]);
}

#[test]
fn range_memory_without_default_is_zero() {
    let mem = RangeMemory::new(3, None);
    assert_eq!(mem.as_hex_dump(), vec!["0x0", "0x0", "0x0"]);
    assert_eq!(mem.read(2), Ok(0));
}

#[test]
fn fake_cartridge_reads_at_the_address() {
    let mut cart = FakeCartridge::new();
    assert_eq!(cart.read(0x3FFF), Ok(0));
    assert!(!cart.in_range(1));
    cart.assign_address_range(0..=0x3FFF);
    assert!(cart.in_range(0x3FFF));
    assert!(!cart.in_range(0x4000));
    assert_eq!(cart.write(2, 12), Ok(()));
    assert_eq!(cart.write_16(3, 0x0102), Ok(()));
    assert_eq!(cart.read(3), Ok(2));
    assert_eq!(cart.read(4), Ok(1));
    assert!(cart.dump_raw().starts_with("0012210000"));
    assert_eq!(cart.dump(), cart.dump_raw());
    assert_eq!(cart.dump_raw().len(), 0x4000 + 1);
}

#[test]
fn bus_errors_compare() {
    assert_ne!(BusError::ReadError(1u16), BusError::WriteError(1u16));
}
