use gb_core::registers::{Alu, Direction, Flags, RegisterU16, Registers, FLAGS_ALL};

#[test]
fn alu_add() {
    let mut reg = Registers::default();
    reg.a = Alu::add_u8(&mut reg, 0, 3, false, FLAGS_ALL);
    assert_eq!(reg.a, 3);
    assert_eq!(reg.f, 0);

    reg.a = Alu::add_u8(&mut reg, 255, 1, false, FLAGS_ALL);
    assert_eq!(reg.a, 0);
    assert_eq!(reg.f, Flags::Z.bit() | Flags::CY.bit() | Flags::H.bit());

    reg.f = 0;
    reg.a = Alu::add_u8(&mut reg, 255, 1, false, FLAGS_ALL ^ Flags::CY.bit());
    assert!(reg.f & Flags::CY.bit() == 0);

    reg.set_u16(&RegisterU16::HL, 0xfff);
    Alu::add_u16(&mut reg, &RegisterU16::HL, 1, false, FLAGS_ALL);
    assert_eq!(reg.get_u16(&RegisterU16::HL), 0x1000);
    assert_eq!(reg.f, Flags::H.bit());

    reg.set_u16(&RegisterU16::HL, 0xffff);
    Alu::add_u16(&mut reg, &RegisterU16::HL, 1, false, FLAGS_ALL);
    assert_eq!(reg.get_u16(&RegisterU16::HL), 0);
    assert_eq!(reg.f, Flags::H.bit() | Flags::Z.bit() | Flags::CY.bit());
}

#[test]
fn alu_sub() {
    let mut reg = Registers::default();

    reg.a = Alu::sub(&mut reg, 1, 1, false, FLAGS_ALL);
    assert_eq!(reg.a, 0);
    assert_eq!(reg.f, Flags::Z.bit() | Flags::N.bit());

    reg.a = Alu::sub(&mut reg, 0, 1, false, FLAGS_ALL);
    assert_eq!(reg.a, 255);
    assert_eq!(reg.f, Flags::N.bit() | Flags::CY.bit() | Flags::H.bit());
}

#[test]
fn alu_cmp() {
    let mut reg = Registers::default();
    reg.a = 2;
    Alu::cmp(&mut reg, 2);
    assert_eq!(reg.a, 2);
    assert_eq!(reg.f, Flags::Z.bit() | Flags::N.bit());

    reg.a = 1;
    Alu::cmp(&mut reg, 2);
    assert_eq!(reg.a, 1);
    assert_eq!(reg.f, Flags::CY.bit() | Flags::N.bit() | Flags::H.bit());

    reg.a = 2;
    Alu::cmp(&mut reg, 1);
    assert_eq!(reg.a, 2);
    assert_eq!(reg.f, Flags::N.bit());
}

#[test]
fn dda() {
    let mut reg = Registers::default();
    reg.f = 0;
    reg.a = 0x77;
    Alu::daa(&mut reg);
    assert_eq!(reg.a, 0x77);

    reg.f = 0;
    reg.a = 0x7C;
    Alu::daa(&mut reg);
    assert_eq!(reg.a, 0x82);

    reg.f = Flags::H.bit();
    reg.a = 0x9C;
    Alu::daa(&mut reg);
    assert_eq!(reg.a, 0x02);
    assert_eq!(reg.f, Flags::CY.bit());

    reg.f = Flags::H.bit() | Flags::N.bit();
    reg.a = 0x0D;
    Alu::daa(&mut reg);
    assert_eq!(reg.a, 0x07);
    assert_eq!(reg.f, Flags::N.bit());
}

#[test]
fn rotate() {
    let mut reg = Registers::default();
    reg.f = 0;
    assert_eq!(Alu::rotate(&mut reg, Direction::Left, 0b0010, false), 0b0100);
    assert_eq!(reg.f, 0);

    reg.f = 0;
    assert_eq!(Alu::rotate(&mut reg, Direction::Left, 0x80, false), 1);
    assert_eq!(reg.f, Flags::CY.bit());

    reg.f = 0;
    assert_eq!(Alu::rotate(&mut reg, Direction::Left, 0x80, true), 0);
    assert_eq!(reg.f, Flags::CY.bit() | Flags::Z.bit());

    reg.f = Flags::CY.bit();
    assert_eq!(Alu::rotate(&mut reg, Direction::Left, 0x80, true), 1);
    assert_eq!(reg.f, Flags::CY.bit());

    reg.f = 0;
    assert_eq!(Alu::rotate(&mut reg, Direction::Right, 0b0010, false), 1);
    assert_eq!(reg.f, 0);

    reg.f = 0;
    assert_eq!(Alu::rotate(&mut reg, Direction::Right, 0x01, false), 0x80);
    assert_eq!(reg.f, Flags::CY.bit());

    reg.f = 0;
    assert_eq!(Alu::rotate(&mut reg, Direction::Right, 0x01, true), 0);
    assert_eq!(reg.f, Flags::CY.bit() | Flags::Z.bit());

    reg.f = Flags::CY.bit();
    assert_eq!(Alu::rotate(&mut reg, Direction::Right, 0x01, true), 0x80);
    assert_eq!(reg.f, Flags::CY.bit());
}

#[test]
fn add_sets_flags_for_every_pair_of_bytes() {
    for a in 0..=255u16 {
        for b in 0..=255u16 {
            let mut reg = Registers::default();
            let res = Alu::add_u8(&mut reg, a as u8, b as u8, false, FLAGS_ALL);
            assert_eq!(res as u16, (a + b) % 256);
            assert_eq!(reg.get_flag(Flags::Z), (a + b) % 256 == 0);
            assert_eq!(reg.get_flag(Flags::CY), a + b >= 256);
            assert_eq!(reg.get_flag(Flags::H), (a & 0xF) + (b & 0xF) >= 0x10);
            assert!(!reg.get_flag(Flags::N));
        }
    }
}

#[test]
fn sub_sets_flags_for_every_pair_of_bytes() {
    for a in 0..=255u8 {
        for b in 0..=255u8 {
            let mut reg = Registers::default();
            let res = Alu::sub(&mut reg, a, b, false, FLAGS_ALL);
            assert_eq!(res, a.wrapping_sub(b));
            assert!(reg.get_flag(Flags::N));
            assert_eq!(reg.get_flag(Flags::Z), a == b);
            assert_eq!(reg.get_flag(Flags::CY), a < b);
            assert_eq!(reg.get_flag(Flags::H), (a & 0xF) < (b & 0xF));
        }
    }
}

#[test]
fn add_with_carry_counts_the_carry_in_both_carries() {
    let mut reg = Registers::default();
    assert_eq!(Alu::add_u8(&mut reg, 0x0F, 0x00, true, FLAGS_ALL), 0x10);
    assert_eq!(reg.f, Flags::H.bit());

    assert_eq!(Alu::add_u8(&mut reg, 0xFF, 0x00, true, FLAGS_ALL), 0x00);
    assert_eq!(reg.f, Flags::Z.bit() | Flags::H.bit() | Flags::CY.bit());
}

#[test]
fn sub_with_borrow_counts_the_borrow_in_both_borrows() {
    let mut reg = Registers::default();
    assert_eq!(Alu::sub(&mut reg, 0x10, 0x0F, true, FLAGS_ALL), 0x00);
    assert_eq!(reg.f, Flags::Z.bit() | Flags::N.bit() | Flags::H.bit());

    assert_eq!(Alu::sub(&mut reg, 0x00, 0xFF, true, FLAGS_ALL), 0x00);
    assert_eq!(
        reg.f,
        Flags::Z.bit() | Flags::N.bit() | Flags::H.bit() | Flags::CY.bit()
    );
}

#[test]
fn add_u16_carries_out_of_bit_11_and_bit_15() {
    let mut reg = Registers::default();
    reg.set_u16(&RegisterU16::HL, 0x0FFF);
    Alu::add_u16(&mut reg, &RegisterU16::HL, 0x0001, false, 0x70);
    assert_eq!(reg.get_u16(&RegisterU16::HL), 0x1000);
    assert_eq!(reg.f, Flags::H.bit());

    reg.f = Flags::Z.bit();
    reg.set_u16(&RegisterU16::HL, 0x8000);
    Alu::add_u16(&mut reg, &RegisterU16::HL, 0x8000, false, 0x70);
    assert_eq!(reg.get_u16(&RegisterU16::HL), 0x0000);
    assert_eq!(reg.f, Flags::Z.bit() | Flags::CY.bit());
}

#[test]
fn dec_u16_wraps_and_keeps_the_flags() {
    let mut reg = Registers::default();
    reg.f = 0xF0;
    reg.set_u16(&RegisterU16::BC, 0x0000);
    Alu::dec_u16(&mut reg, &RegisterU16::BC);
    assert_eq!(reg.get_u16(&RegisterU16::BC), 0xFFFF);
    assert_eq!(reg.f, 0xF0);

    Alu::dec_u16(&mut reg, &RegisterU16::BC);
    assert_eq!(reg.get_u16(&RegisterU16::BC), 0xFFFE);
}

#[test]
fn logic_operations_store_into_the_accumulator() {
    let mut reg = Registers::default();
    reg.a = 0b1100;
    Alu::and(&mut reg, 0b1010);
    assert_eq!(reg.a, 0b1000);
    assert_eq!(reg.f, Flags::H.bit());

    reg.a = 0b1100;
    Alu::and(&mut reg, 0b0011);
    assert_eq!(reg.a, 0);
    assert_eq!(reg.f, Flags::Z.bit() | Flags::H.bit());

    reg.a = 0b1100;
    Alu::or(&mut reg, 0b1010);
    assert_eq!(reg.a, 0b1110);
    assert_eq!(reg.f, 0);

    reg.a = 0;
    Alu::or(&mut reg, 0);
    assert_eq!(reg.f, Flags::Z.bit());

    reg.a = 0b1100;
    Alu::xor(&mut reg, 0b1010);
    assert_eq!(reg.a, 0b0110);
    assert_eq!(reg.f, 0);

    reg.a = 0x5A;
    Alu::xor(&mut reg, 0x5A);
    assert_eq!(reg.a, 0);
    assert_eq!(reg.f, Flags::Z.bit());
}

#[test]
fn cmp_never_changes_a_register_but_f() {
    for a in 0..=255u8 {
        for b in [0u8, 1, 0x0F, 0x10, 0x7F, 0x80, 0xFF] {
            let mut reg = Registers::new();
            reg.a = a;
            reg.b = 0x12;
            reg.l = 0x34;
            let before = reg;
            Alu::cmp(&mut reg, b);
            assert_eq!(reg.a, a);
            let mut expected = before;
            expected.f = reg.f;
            assert_eq!(reg, expected);
        }
    }
}

fn bcd(value: u16) -> u8 {
    ((value / 10) * 16 + value % 10) as u8
}

#[test]
fn daa_after_add_gives_the_decimal_sum() {
    let mut reg = Registers::default();
    reg.a = Alu::add_u8(&mut reg, 0x15, 0x27, false, FLAGS_ALL);
    Alu::daa(&mut reg);
    assert_eq!(reg.a, 0x42);
    assert_eq!(reg.f, 0);

    for x in 0..100u16 {
        for y in 0..100u16 {
            for carry in [false, true] {
                let mut reg = Registers::default();
                reg.a = Alu::add_u8(&mut reg, bcd(x), bcd(y), carry, FLAGS_ALL);
                Alu::daa(&mut reg);
                let sum = x + y + carry as u16;
                assert_eq!(reg.a, bcd(sum % 100));
                assert_eq!(reg.get_flag(Flags::CY), sum >= 100);
                assert!(!reg.get_flag(Flags::H));
            }
        }
    }
}

#[test]
fn daa_after_sub_gives_the_decimal_difference() {
    for x in 0..100u16 {
        for y in 0..100u16 {
            let mut reg = Registers::default();
            reg.a = Alu::sub(&mut reg, bcd(x), bcd(y), false, FLAGS_ALL);
            Alu::daa(&mut reg);
            assert_eq!(reg.a, bcd((100 + x - y) % 100));
            assert_eq!(reg.get_flag(Flags::CY), x < y);
            assert!(reg.get_flag(Flags::N));
        }
    }
}

#[test]
fn shifts_fill_with_zero_or_keep_the_sign() {
    let mut reg = Registers::default();
    assert_eq!(Alu::shift(&mut reg, Direction::Left, 0x81, false), 0x02);
    assert_eq!(reg.f, Flags::CY.bit());

    assert_eq!(Alu::shift(&mut reg, Direction::Right, 0x81, true), 0xC0);
    assert_eq!(reg.f, Flags::CY.bit());

    assert_eq!(Alu::shift(&mut reg, Direction::Right, 0x81, false), 0x40);
    assert_eq!(reg.f, Flags::CY.bit());

    assert_eq!(Alu::shift(&mut reg, Direction::Right, 0x01, false), 0x00);
    assert_eq!(reg.f, Flags::CY.bit() | Flags::Z.bit());

    assert_eq!(Alu::shift(&mut reg, Direction::Left, 0x40, false), 0x80);
    assert_eq!(reg.f, 0);
}

#[test]
fn swap_exchanges_the_nibbles() {
    let mut reg = Registers::default();
    reg.f = 0xF0;
    assert_eq!(Alu::swap(&mut reg, 0xA5), 0x5A);
    assert_eq!(reg.f, 0);
    assert_eq!(Alu::swap(&mut reg, 0x00), 0x00);
    assert_eq!(reg.f, Flags::Z.bit());
}

#[test]
fn bit_sets_zero_where_the_bit_is_clear_and_keeps_carry() {
    let mut reg = Registers::default();
    reg.f = Flags::CY.bit() | Flags::N.bit();
    Alu::bit(&mut reg, 3, 0b0000_1000);
    assert_eq!(reg.f, Flags::H.bit() | Flags::CY.bit());
    Alu::bit(&mut reg, 4, 0b0000_1000);
    assert_eq!(reg.f, Flags::Z.bit() | Flags::H.bit() | Flags::CY.bit());
    reg.f = 0;
    Alu::bit(&mut reg, 7, 0x80);
    assert_eq!(reg.f, Flags::H.bit());
}

#[test]
fn cpl_and_carry_operations() {
    let mut reg = Registers::default();
    reg.a = 0x35;
    reg.f = Flags::Z.bit() | Flags::CY.bit();
    Alu::cpl(&mut reg);
    assert_eq!(reg.a, 0xCA);
    assert_eq!(
        reg.f,
        Flags::Z.bit() | Flags::N.bit() | Flags::H.bit() | Flags::CY.bit()
    );

    Alu::set_carry(&mut reg, false);
    assert_eq!(reg.f, Flags::Z.bit());
    Alu::set_carry(&mut reg, true);
    assert_eq!(reg.f, Flags::Z.bit() | Flags::CY.bit());
}

#[test]
fn offsets_are_signed_and_flags_come_from_the_low_byte() {
    assert_eq!(Alu::offset(0x0100, 0x05), 0x0105);
    assert_eq!(Alu::offset(0x0100, 0xFE), 0x00FE);
    assert_eq!(Alu::offset(0x0000, 0xFF), 0xFFFF);
    assert_eq!(Alu::offset(0xFFFF, 0x01), 0x0000);

    let mut reg = Registers::default();
    reg.f = Flags::Z.bit() | Flags::N.bit();
    assert_eq!(Alu::add_offset(&mut reg, 0xFFF8, 0x08), 0x0000);
    assert_eq!(reg.f, Flags::H.bit() | Flags::CY.bit());
    assert_eq!(Alu::add_offset(&mut reg, 0x0001, 0xFF), 0x0000);
    assert_eq!(reg.f, Flags::H.bit() | Flags::CY.bit());
    assert_eq!(Alu::add_offset(&mut reg, 0x0100, 0xF0), 0x00F0);
    assert_eq!(reg.f, 0);
}
