use gb_core::instructions::FlagCondition;
use gb_core::registers::{Flags, RegisterU16, RegisterU8, Registers, FLAGS_ALL};

#[test]
fn power_on_state() {
    let reg = Registers::new();
    assert_eq!(reg.pc, 0x0100);
    assert_eq!(reg.sp, 0xFFFE);
    assert_eq!(reg.a, 0);
    assert_eq!(reg.f, 0);
    assert_eq!(reg.get_u16(&RegisterU16::BC), 0);
    assert_eq!(reg.get_u16(&RegisterU16::DE), 0);
    assert_eq!(reg.get_u16(&RegisterU16::HL), 0);
    assert_eq!(Registers::default().pc, 0);
}

#[test]
fn eight_bit_registers_are_independent() {
    let all = [
        RegisterU8::A,
        RegisterU8::B,
        RegisterU8::C,
        RegisterU8::D,
        RegisterU8::E,
        RegisterU8::H,
        RegisterU8::L,
    ];
    let mut reg = Registers::new();
    for (i, r) in all.iter().enumerate() {
        reg.set_u8(r, 0x10 + i as u8);
    }
    for (i, r) in all.iter().enumerate() {
        assert_eq!(reg.get_u8(r), 0x10 + i as u8);
    }
    assert_eq!(reg.f, 0);
    assert_eq!(reg.sp, 0xFFFE);
}

#[test]
fn pairs_are_high_byte_then_low_byte() {
    let mut reg = Registers::new();
    reg.set_u16(&RegisterU16::BC, 0x1234);
    assert_eq!((reg.b, reg.c), (0x12, 0x34));
    reg.set_u16(&RegisterU16::DE, 0x5678);
    assert_eq!((reg.d, reg.e), (0x56, 0x78));
    reg.set_u16(&RegisterU16::HL, 0x9ABC);
    assert_eq!((reg.h, reg.l), (0x9A, 0xBC));
    reg.set_u16(&RegisterU16::SP, 0xDEF0);
    assert_eq!(reg.sp, 0xDEF0);

    assert_eq!(reg.get_u16(&RegisterU16::BC), 0x1234);
    assert_eq!(reg.get_split_u16(&RegisterU16::HL), (0x9A, 0xBC));
    assert_eq!(reg.get_split_u16(&RegisterU16::SP), (0xDE, 0xF0));

    reg.set_split_u16(&RegisterU16::SP, 0x01, 0x02);
    assert_eq!(reg.sp, 0x0102);
    reg.set_split_u16(&RegisterU16::DE, 0xAA, 0xBB);
    assert_eq!(reg.get_u16(&RegisterU16::DE), 0xAABB);
}

#[test]
fn low_nibble_of_f_stays_zero() {
    let mut reg = Registers::new();
    reg.set_u16(&RegisterU16::AF, 0x12FF);
    assert_eq!(reg.a, 0x12);
    assert_eq!(reg.f, 0xF0);
    assert_eq!(reg.get_u16(&RegisterU16::AF), 0x12F0);

    reg.set_split_u16(&RegisterU16::AF, 0x34, 0x0F);
    assert_eq!(reg.f, 0x00);
}

#[test]
fn flags_are_the_upper_bits_of_f() {
    assert_eq!(Flags::Z.bit(), 0x80);
    assert_eq!(Flags::N.bit(), 0x40);
    assert_eq!(Flags::H.bit(), 0x20);
    assert_eq!(Flags::CY.bit(), 0x10);
    assert_eq!(FLAGS_ALL, 0xF0);

    let mut reg = Registers::new();
    reg.f = 0x80 | 0x10;
    assert!(reg.get_flag(Flags::Z));
    assert!(!reg.get_flag(Flags::N));
    assert!(!reg.get_flag(Flags::H));
    assert!(reg.get_flag(Flags::CY));
}

#[test]
fn set_flag_changes_only_what_the_mask_selects() {
    let mut reg = Registers::new();
    reg.set_flag(Flags::Z, true, FLAGS_ALL);
    assert_eq!(reg.f, 0x80);
    reg.set_flag(Flags::Z, true, FLAGS_ALL);
    assert_eq!(reg.f, 0x80);

    reg.set_flag(Flags::CY, true, 0xE0);
    assert_eq!(reg.f, 0x80);
    reg.set_flag(Flags::Z, false, 0x70);
    assert_eq!(reg.f, 0x80);

    reg.set_flag(Flags::CY, true, 0x10);
    assert_eq!(reg.f, 0x90);
    reg.set_flag(Flags::Z, false, 0x80);
    assert_eq!(reg.f, 0x10);
    reg.set_flag(Flags::H, false, FLAGS_ALL);
    assert_eq!(reg.f, 0x10);
}

#[test]
fn flag_conditions() {
    let mut reg = Registers::new();
    assert!(!reg.get_flag_condition(FlagCondition::Z));
    assert!(reg.get_flag_condition(FlagCondition::NZ));
    assert!(!reg.get_flag_condition(FlagCondition::C));
    assert!(reg.get_flag_condition(FlagCondition::NC));

    reg.f = Flags::Z.bit() | Flags::CY.bit();
    assert!(reg.get_flag_condition(FlagCondition::Z));
    assert!(!reg.get_flag_condition(FlagCondition::NZ));
    assert!(reg.get_flag_condition(FlagCondition::C));
    assert!(!reg.get_flag_condition(FlagCondition::NC));
}
