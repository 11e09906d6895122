use gbemu::consoles::gameboy::registers::{Flag, Registers};
use gbemu::consoles::gameboy::target::Target;

#[test]
fn registers_test_bit() {
    let mut reg = Registers::new();
    reg.a = 1;
    assert!(reg.get_bit(Target::A, &0));

    reg.a = 2;
    assert!(!reg.get_bit(Target::A, &0));
    assert!(reg.get_bit(Target::A, &1));
}

#[test]
fn test_set_bit() {
    let mut reg = Registers::new();
    reg.set_bit(Target::A, &0, 1);
    assert!(reg.a == 1);
    reg.set_bit(Target::A, &2, 1);
    assert!(reg.a == 5);
    reg.set_bit(Target::A, &0, 0);
    assert!(reg.a == 4);
}

#[test]
fn test_convert_to_bit_string() {
    let mut reg = Registers::new();

    reg.a = 5;

    assert!(reg.register_as_bit_string(Target::A).as_str().as_bytes() == "0b00000101".as_bytes());
}

#[test]
fn test_convert_to_hex_string() {
    let mut reg = Registers::new();

    reg.a = 128;

    assert!(reg.register_as_hex_string(Target::A).as_str().as_bytes() == "0x80".as_bytes());

    reg.a = 128 + 15;

    assert!(reg.register_as_hex_string(Target::A).as_str().as_bytes() == "0x8F".as_bytes());
}

#[test]
fn flag_set_then_get_for_every_flag() {
    let flags = [
        (Flag::Zero, Flag::NotZero),
        (Flag::Carry, Flag::NotCarry),
        (Flag::HalfCarry, Flag::NotHalfCarry),
        (Flag::Sub, Flag::NotSub),
    ];
    let mut reg = Registers::new();
    for (flag, negated) in flags {
        reg.set_flag(flag, true);
        assert!(reg.get_flag(flag));
        assert!(!reg.get_flag(negated));
        assert_eq!(reg.filter_flag(flag), 1);
        reg.set_flag(flag, false);
        assert!(!reg.get_flag(flag));
        assert!(reg.get_flag(negated));
        assert_eq!(reg.filter_flag(flag), 0);
    }
    reg.set_flag(Flag::Zero, true);
    reg.set_flag(Flag::Carry, true);
    assert_eq!(reg.f, 0b1001_0000);
    reg.set_flag_from_u8(Flag::Sub, 7);
    assert_eq!(reg.f, 0b1101_0000);
    reg.set_flag_from_u8(Flag::Zero, 0);
    assert_eq!(reg.f, 0b0101_0000);
}

#[test]
fn combined_register_round_trip() {
    let mut reg = Registers::new();
    for t in [Target::HL, Target::BC, Target::DE, Target::AF] {
        reg.set_combined_register(t, 0xBEEF);
        assert_eq!(reg.combined_register(t), 0xBEEF);
    }
    assert_eq!((reg.h, reg.l), (0xBE, 0xEF));
    assert_eq!((reg.a, reg.f), (0xBE, 0xEF));
    reg.reset();
    assert_eq!(reg.combined_register(Target::BC), 0);
}

#[test]
fn clearing_a_low_bit_also_clears_bit_seven() {
    let mut reg = Registers::new();
    reg.b = 0xFF;
    reg.set_bit(Target::B, &0, 0);
    assert_eq!(reg.b, 0b0111_1110);
    reg.b = 0xFF;
    reg.set_bit(Target::B, &7, 0);
    assert_eq!(reg.b, 0xFF);
}

#[test]
fn sixteen_bit_targets() {
    let reg = Registers::new();
    assert!(reg.is_16bit_target(Target::SP));
    assert!(reg.is_16bit_target(Target::SP_R8));
    assert!(reg.is_16bit_target(Target::D16));
    assert!(!reg.is_16bit_target(Target::HL));
    assert!(Target::HL.is_16bit());
    assert!(Target::AF.is_16bit());
    assert!(!Target::SP.is_16bit());
    assert!(!Target::A.is_16bit());
}
