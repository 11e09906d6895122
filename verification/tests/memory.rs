use gbemu::memory::Memory;

#[test]
fn test_memory() {
    let mut mem = Memory::new();
    mem.write_byte(0, 100);
    assert!(mem.read_byte(0) == 100);
    mem.write_byte(40, 10);
    assert!(mem.read_byte(40) == 10);
}

#[test]
fn new_memory_layout() {
    let mem = Memory::new();
    assert_eq!(mem.read_byte(0), 0xFD);
    assert_eq!(mem.read_byte(0xFE), 0xFD);
    assert_eq!(mem.read_byte(0xFF), 0);
    assert_eq!(mem.read_byte(0xFFFE), 0);
    assert_eq!(mem.read_as_binary_string(0), "0b11111101");
    assert_eq!(mem.read_as_hex_strign(0), "0xFD");
}

#[test]
fn write_leaves_other_bytes() {
    let mut mem = Memory::new();
    mem.write_byte(0x1000, 7);
    assert_eq!(mem.read_byte(0x1000), 7);
    assert_eq!(mem.read_byte(0x0FFF), 0);
    assert_eq!(mem.read_byte(0x1001), 0);
}
