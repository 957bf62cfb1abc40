use gb_core::instructions::{
    cbprefixed, decode, unprefixed, FlagCondition, Instruction, Operand, OperandU16, OperandU8,
};
use gb_core::registers::{RegisterU16, RegisterU8};

fn reg(r: RegisterU8) -> OperandU8 {
    OperandU8::Register(r)
}

fn at_hl() -> OperandU8 {
    OperandU8::Memory(OperandU16::RegisterPair(RegisterU16::HL))
}

fn in_order(index: u8) -> OperandU8 {
    match index {
        0 => reg(RegisterU8::B),
        1 => reg(RegisterU8::C),
        2 => reg(RegisterU8::D),
        3 => reg(RegisterU8::E),
        4 => reg(RegisterU8::H),
        5 => reg(RegisterU8::L),
        6 => at_hl(),
        _ => reg(RegisterU8::A),
    }
}

#[test]
fn literal_vectors() {
    assert_eq!(decode(0x00, false), Instruction::NOP);
    assert_eq!(
        decode(0xC3, false),
        Instruction::JP(None, OperandU16::Immediate)
    );
    assert_eq!(
        decode(0x47, false),
        Instruction::LD(
            Operand::U8(reg(RegisterU8::B)),
            Operand::U8(reg(RegisterU8::A))
        )
    );
    assert_eq!(
        decode(0x80, false),
        Instruction::ADD(
            Operand::U8(reg(RegisterU8::A)),
            Operand::U8(reg(RegisterU8::B))
        )
    );
    assert_eq!(decode(0x40, true), Instruction::BIT(0, reg(RegisterU8::B)));
    assert_eq!(decode(0xFF, true), Instruction::SET(7, reg(RegisterU8::A)));
}

#[test]
fn every_opcode_without_prefix_decodes() {
    let illegal = [
        0xD3u8, 0xDB, 0xDD, 0xE3, 0xE4, 0xEB, 0xEC, 0xED, 0xF4, 0xFC, 0xFD,
    ];
    for byte in 0..=255u8 {
        if byte == 0xCB {
            continue;
        }
        let instruction = decode(byte, false);
        assert_eq!(instruction, unprefixed::decode_byte(byte));
        if illegal.contains(&byte) {
            assert_eq!(instruction, Instruction::ILLEGAL(byte));
        } else {
            assert!(!matches!(instruction, Instruction::ILLEGAL(_)));
        }
    }
}

#[test]
fn every_opcode_after_the_prefix_follows_the_register_order() {
    for byte in 0..=255u8 {
        let operand = in_order(byte % 8);
        let y = (byte / 8) % 8;
        let expected = match byte / 64 {
            0 => match y {
                0 => Instruction::RLC(operand),
                1 => Instruction::RRC(operand),
                2 => Instruction::RL(operand),
                3 => Instruction::RR(operand),
                4 => Instruction::SLA(operand),
                5 => Instruction::SRA(operand),
                6 => Instruction::SWAP(operand),
                _ => Instruction::SRL(operand),
            },
            1 => Instruction::BIT(y, operand),
            2 => Instruction::RES(y, operand),
            _ => Instruction::SET(y, operand),
        };
        assert_eq!(decode(byte, true), expected);
        assert_eq!(cbprefixed::decode_byte(byte), expected);
    }
}

#[test]
fn loads_between_registers_and_halt() {
    for byte in 0x40..=0x7Fu8 {
        let expected = if byte == 0x76 {
            Instruction::HALT
        } else {
            Instruction::LD(
                Operand::U8(in_order((byte / 8) % 8)),
                Operand::U8(in_order(byte % 8)),
            )
        };
        assert_eq!(decode(byte, false), expected);
    }
}

#[test]
fn chosen_opcodes_of_each_kind() {
    let a = reg(RegisterU8::A);
    assert_eq!(
        decode(0x01, false),
        Instruction::LD(
            Operand::U16(OperandU16::RegisterPair(RegisterU16::BC)),
            Operand::U16(OperandU16::Immediate)
        )
    );
    assert_eq!(
        decode(0x08, false),
        Instruction::LD(
            Operand::U8(OperandU8::Memory(OperandU16::Immediate)),
            Operand::U16(OperandU16::RegisterPair(RegisterU16::SP))
        )
    );
    assert_eq!(decode(0x07, false), Instruction::RLCA);
    assert_eq!(decode(0x0F, false), Instruction::RRCA);
    assert_eq!(decode(0x17, false), Instruction::RLA);
    assert_eq!(decode(0x1F, false), Instruction::RRA);
    assert_eq!(decode(0x10, false), Instruction::STOP(OperandU8::Immediate));
    assert_eq!(
        decode(0x18, false),
        Instruction::JR(None, OperandU8::Immediate)
    );
    assert_eq!(
        decode(0x38, false),
        Instruction::JR(Some(FlagCondition::C), OperandU8::Immediate)
    );
    assert_eq!(decode(0x22, false), Instruction::LD22);
    assert_eq!(decode(0x2A, false), Instruction::LD2A);
    assert_eq!(decode(0x32, false), Instruction::LD32);
    assert_eq!(decode(0x3A, false), Instruction::LD3A);
    assert_eq!(decode(0x27, false), Instruction::DAA);
    assert_eq!(decode(0x2F, false), Instruction::CPL);
    assert_eq!(decode(0x37, false), Instruction::SCF);
    assert_eq!(decode(0x3F, false), Instruction::CCF);
    assert_eq!(
        decode(0x34, false),
        Instruction::INC(Operand::U8(at_hl()))
    );
    assert_eq!(
        decode(0x3B, false),
        Instruction::DEC(Operand::U16(OperandU16::RegisterPair(RegisterU16::SP)))
    );
    assert_eq!(decode(0x8E, false), Instruction::ADC(a.clone(), at_hl()));
    assert_eq!(
        decode(0xBF, false),
        Instruction::CP(a.clone(), a.clone())
    );
    assert_eq!(
        decode(0xC0, false),
        Instruction::RET(Some(FlagCondition::NZ))
    );
    assert_eq!(decode(0xC9, false), Instruction::RET(None));
    assert_eq!(decode(0xD9, false), Instruction::RETI);
    assert_eq!(
        decode(0xCD, false),
        Instruction::CALL(None, OperandU16::Immediate)
    );
    assert_eq!(
        decode(0xDC, false),
        Instruction::CALL(Some(FlagCondition::C), OperandU16::Immediate)
    );
    assert_eq!(decode(0xF1, false), Instruction::POP(RegisterU16::AF));
    assert_eq!(decode(0xE5, false), Instruction::PUSH(RegisterU16::HL));
    assert_eq!(decode(0xC7, false), Instruction::RST(0));
    assert_eq!(decode(0xFF, false), Instruction::RST(7));
    assert_eq!(
        decode(0xE0, false),
        Instruction::LDH(
            OperandU8::MemoryU8(Box::new(OperandU8::Immediate)),
            a.clone()
        )
    );
    assert_eq!(
        decode(0xF2, false),
        Instruction::LDH(
            a.clone(),
            OperandU8::MemoryU8(Box::new(reg(RegisterU8::C)))
        )
    );
    assert_eq!(
        decode(0xE8, false),
        Instruction::ADD(
            Operand::U16(OperandU16::RegisterPair(RegisterU16::SP)),
            Operand::U8(OperandU8::Immediate)
        )
    );
    assert_eq!(
        decode(0xE9, false),
        Instruction::JP(None, OperandU16::RegisterPair(RegisterU16::HL))
    );
    assert_eq!(decode(0xF8, false), Instruction::LDF8);
    assert_eq!(decode(0xF3, false), Instruction::DI);
    assert_eq!(decode(0xFB, false), Instruction::EI);
    assert_eq!(decode(0xFE, false), Instruction::CP(a, OperandU8::Immediate));
}
