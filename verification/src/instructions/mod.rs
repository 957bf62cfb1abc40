//! Decoded instructions, their operand descriptors and the decoder.
//!
//! The opcode map is stated here by its structure: an opcode is read as the
//! three fields `x` (bits 7-6), `y` (bits 5-3) and `z` (bits 2-0), and the
//! instruction follows from them.  The two tables that the decoder looks an
//! opcode up in are proved to agree with this description entry by entry.

pub mod cbprefixed;
pub mod unprefixed;

use vstd::prelude::*;

use crate::registers::{RegisterU16, RegisterU8};

verus! {

/// An operand of either width.
#[derive(Debug, Clone, PartialEq, Eq)]
pub enum Operand {
    U8(OperandU8),
    U16(OperandU16),
}

/// An 8-bit operand.
#[derive(Debug, PartialEq, Eq)]
pub enum OperandU8 {
    /// One of the seven general registers.
    Register(RegisterU8),
    /// The byte that follows the opcode.
    Immediate,
    /// The byte at the address that the 16-bit operand yields.
    Memory(OperandU16),
    /// The byte at `0xFF00 + v`, where `v` is the value of the inner operand.
    MemoryU8(Box<OperandU8>),
}

impl Clone for OperandU8 {
    fn clone(&self) -> (r: Self)
        ensures
            r == *self,
        decreases *self,
    {
        match self {
            OperandU8::Register(reg) => OperandU8::Register(*reg),
            OperandU8::Immediate => OperandU8::Immediate,
            OperandU8::Memory(addr) => OperandU8::Memory(*addr),
            OperandU8::MemoryU8(inner) => {
                let copy: OperandU8 = (**inner).clone();
                OperandU8::MemoryU8(Box::new(copy))
            },
        }
    }
}

/// A 16-bit operand.
#[derive(Debug, Clone, Copy, PartialEq, Eq)]
pub enum OperandU16 {
    RegisterPair(RegisterU16),
    /// The little-endian word that follows the opcode.
    Immediate,
}

/// The condition that gates a branch, call or return.
#[derive(Debug, Clone, Copy, PartialEq, Eq)]
pub enum FlagCondition {
    Z,
    NZ,
    C,
    NC,
}

#[allow(clippy::upper_case_acronyms)]
#[derive(Debug, Clone, PartialEq, Eq)]
pub enum Instruction {
    NOP,
    LD(Operand, Operand),
    /// LD (HL+), A
    LD22,
    /// LD A, (HL+)
    LD2A,
    /// LD (HL-), A
    LD32,
    /// LD A, (HL-)
    LD3A,
    /// LD HL, SP+e8
    LDF8,
    INC(Operand),
    DEC(Operand),
    ADD(Operand, Operand),
    STOP(OperandU8),
    JR(Option<FlagCondition>, OperandU8),
    DAA,
    CPL,
    SCF,
    CCF,
    HALT,
    ADC(OperandU8, OperandU8),
    SUB(OperandU8, OperandU8),
    SBC(OperandU8, OperandU8),
    AND(OperandU8, OperandU8),
    XOR(OperandU8, OperandU8),
    OR(OperandU8, OperandU8),
    CP(OperandU8, OperandU8),
    RET(Option<FlagCondition>),
    POP(RegisterU16),
    JP(Option<FlagCondition>, OperandU16),
    PUSH(RegisterU16),
    /// Call of the fixed address `8 * n`.
    RST(u8),
    CALL(Option<FlagCondition>, OperandU16),
    RETI,
    LDH(OperandU8, OperandU8),
    DI,
    EI,
    /// The rotations of the accumulator, which always clear Zero.
    RLCA,
    RRCA,
    RLA,
    RRA,
    RLC(OperandU8),
    RRC(OperandU8),
    RL(OperandU8),
    RR(OperandU8),
    SLA(OperandU8),
    SRA(OperandU8),
    SWAP(OperandU8),
    SRL(OperandU8),
    BIT(u8, OperandU8),
    RES(u8, OperandU8),
    SET(u8, OperandU8),
    ILLEGAL(u8),
}

/// The operand that is the register `r`.
pub open spec fn reg(r: RegisterU8) -> OperandU8 {
    OperandU8::Register(r)
}

/// The operand that is the byte at the address in the register pair `r`.
pub open spec fn at_pair(r: RegisterU16) -> OperandU8 {
    OperandU8::Memory(OperandU16::RegisterPair(r))
}

/// The operand that is the byte at the address that follows the opcode.
pub open spec fn at_immediate() -> OperandU8 {
    OperandU8::Memory(OperandU16::Immediate)
}

/// The operand that is the byte in the page at 0xFF00 at the offset that
/// `offset` yields.
pub open spec fn at_high(offset: OperandU8) -> OperandU8 {
    OperandU8::MemoryU8(Box::new(offset))
}

/// The 16-bit operand that is the register pair `r`.
pub open spec fn pair(r: RegisterU16) -> OperandU16 {
    OperandU16::RegisterPair(r)
}

/// The 8-bit operand that a 3-bit field selects: B, C, D, E, H, L, (HL), A.
pub open spec fn operand_at(index: int) -> OperandU8 {
    if index == 0 {
        reg(RegisterU8::B)
    } else if index == 1 {
        reg(RegisterU8::C)
    } else if index == 2 {
        reg(RegisterU8::D)
    } else if index == 3 {
        reg(RegisterU8::E)
    } else if index == 4 {
        reg(RegisterU8::H)
    } else if index == 5 {
        reg(RegisterU8::L)
    } else if index == 6 {
        at_pair(RegisterU16::HL)
    } else {
        reg(RegisterU8::A)
    }
}

/// The register pair that a 2-bit field selects in loads and arithmetic:
/// BC, DE, HL, SP.
pub open spec fn pair_at(index: int) -> RegisterU16 {
    if index == 0 {
        RegisterU16::BC
    } else if index == 1 {
        RegisterU16::DE
    } else if index == 2 {
        RegisterU16::HL
    } else {
        RegisterU16::SP
    }
}

/// The register pair that a 2-bit field selects in PUSH and POP:
/// BC, DE, HL, AF.
pub open spec fn stack_pair_at(index: int) -> RegisterU16 {
    if index == 0 {
        RegisterU16::BC
    } else if index == 1 {
        RegisterU16::DE
    } else if index == 2 {
        RegisterU16::HL
    } else {
        RegisterU16::AF
    }
}

/// The condition that a 2-bit field selects: NZ, Z, NC, C.
pub open spec fn condition_at(index: int) -> FlagCondition {
    if index == 0 {
        FlagCondition::NZ
    } else if index == 1 {
        FlagCondition::Z
    } else if index == 2 {
        FlagCondition::NC
    } else {
        FlagCondition::C
    }
}

/// The operation on the accumulator that a 3-bit field selects:
/// ADD, ADC, SUB, SBC, AND, XOR, OR, CP.
pub open spec fn accumulator_op(index: int, src: OperandU8) -> Instruction {
    let a = reg(RegisterU8::A);
    if index == 0 {
        Instruction::ADD(Operand::U8(a), Operand::U8(src))
    } else if index == 1 {
        Instruction::ADC(a, src)
    } else if index == 2 {
        Instruction::SUB(a, src)
    } else if index == 3 {
        Instruction::SBC(a, src)
    } else if index == 4 {
        Instruction::AND(a, src)
    } else if index == 5 {
        Instruction::XOR(a, src)
    } else if index == 6 {
        Instruction::OR(a, src)
    } else {
        Instruction::CP(a, src)
    }
}

/// The rotation or shift that a 3-bit field selects after the prefix:
/// RLC, RRC, RL, RR, SLA, SRA, SWAP, SRL.
pub open spec fn rotation_at(index: int, operand: OperandU8) -> Instruction {
    if index == 0 {
        Instruction::RLC(operand)
    } else if index == 1 {
        Instruction::RRC(operand)
    } else if index == 2 {
        Instruction::RL(operand)
    } else if index == 3 {
        Instruction::RR(operand)
    } else if index == 4 {
        Instruction::SLA(operand)
    } else if index == 5 {
        Instruction::SRA(operand)
    } else if index == 6 {
        Instruction::SWAP(operand)
    } else {
        Instruction::SRL(operand)
    }
}

/// The instruction of an opcode after the prefix: `x` selects rotation, BIT,
/// RES or SET, `y` the rotation or the bit, `z` the operand.
pub open spec fn decode_prefixed(byte: u8) -> Instruction {
    let x = byte / 64;
    let y = (byte / 8) % 8;
    let operand = operand_at((byte % 8) as int);
    if x == 0 {
        rotation_at(y as int, operand)
    } else if x == 1 {
        Instruction::BIT(y as u8, operand)
    } else if x == 2 {
        Instruction::RES(y as u8, operand)
    } else {
        Instruction::SET(y as u8, operand)
    }
}

/// The first quarter of the opcode map (`x` = 0): loads of immediates,
/// 16-bit arithmetic, increments, decrements and relative jumps.
pub open spec fn decode_quarter0(byte: u8, y: int, z: int) -> Instruction {
    let p = y / 2;
    let low = y % 2 == 0;
    let a = reg(RegisterU8::A);
    if z == 0 {
        if y == 0 {
            Instruction::NOP
        } else if y == 1 {
            Instruction::LD(Operand::U8(at_immediate()), Operand::U16(pair(RegisterU16::SP)))
        } else if y == 2 {
            Instruction::STOP(OperandU8::Immediate)
        } else if y == 3 {
            Instruction::JR(None, OperandU8::Immediate)
        } else {
            Instruction::JR(Some(condition_at(y - 4)), OperandU8::Immediate)
        }
    } else if z == 1 {
        if low {
            Instruction::LD(Operand::U16(pair(pair_at(p))), Operand::U16(OperandU16::Immediate))
        } else {
            Instruction::ADD(
                Operand::U16(pair(RegisterU16::HL)),
                Operand::U16(pair(pair_at(p))),
            )
        }
    } else if z == 2 {
        if p == 0 || p == 1 {
            if low {
                Instruction::LD(Operand::U8(at_pair(pair_at(p))), Operand::U8(a))
            } else {
                Instruction::LD(Operand::U8(a), Operand::U8(at_pair(pair_at(p))))
            }
        } else if p == 2 {
            if low {
                Instruction::LD22
            } else {
                Instruction::LD2A
            }
        } else {
            if low {
                Instruction::LD32
            } else {
                Instruction::LD3A
            }
        }
    } else if z == 3 {
        if low {
            Instruction::INC(Operand::U16(pair(pair_at(p))))
        } else {
            Instruction::DEC(Operand::U16(pair(pair_at(p))))
        }
    } else if z == 4 {
        Instruction::INC(Operand::U8(operand_at(y)))
    } else if z == 5 {
        Instruction::DEC(Operand::U8(operand_at(y)))
    } else if z == 6 {
        Instruction::LD(Operand::U8(operand_at(y)), Operand::U8(OperandU8::Immediate))
    } else {
        if y == 0 {
            Instruction::RLCA
        } else if y == 1 {
            Instruction::RRCA
        } else if y == 2 {
            Instruction::RLA
        } else if y == 3 {
            Instruction::RRA
        } else if y == 4 {
            Instruction::DAA
        } else if y == 5 {
            Instruction::CPL
        } else if y == 6 {
            Instruction::SCF
        } else {
            Instruction::CCF
        }
    }
}

/// The last quarter of the opcode map (`x` = 3): returns, jumps, calls, the
/// stack, loads through the high page and arithmetic with an immediate.
pub open spec fn decode_quarter3(byte: u8, y: int, z: int) -> Instruction {
    let p = y / 2;
    let low = y % 2 == 0;
    let a = reg(RegisterU8::A);
    if z == 0 {
        if y < 4 {
            Instruction::RET(Some(condition_at(y)))
        } else if y == 4 {
            Instruction::LDH(at_high(OperandU8::Immediate), a)
        } else if y == 5 {
            Instruction::ADD(
                Operand::U16(pair(RegisterU16::SP)),
                Operand::U8(OperandU8::Immediate),
            )
        } else if y == 6 {
            Instruction::LDH(a, at_high(OperandU8::Immediate))
        } else {
            Instruction::LDF8
        }
    } else if z == 1 {
        if low {
            Instruction::POP(stack_pair_at(p))
        } else if p == 0 {
            Instruction::RET(None)
        } else if p == 1 {
            Instruction::RETI
        } else if p == 2 {
            Instruction::JP(None, pair(RegisterU16::HL))
        } else {
            Instruction::LD(
                Operand::U16(pair(RegisterU16::SP)),
                Operand::U16(pair(RegisterU16::HL)),
            )
        }
    } else if z == 2 {
        if y < 4 {
            Instruction::JP(Some(condition_at(y)), OperandU16::Immediate)
        } else if y == 4 {
            Instruction::LDH(at_high(reg(RegisterU8::C)), a)
        } else if y == 5 {
            Instruction::LD(Operand::U8(at_immediate()), Operand::U8(a))
        } else if y == 6 {
            Instruction::LDH(a, at_high(reg(RegisterU8::C)))
        } else {
            Instruction::LD(Operand::U8(a), Operand::U8(at_immediate()))
        }
    } else if z == 3 {
        if y == 0 {
            Instruction::JP(None, OperandU16::Immediate)
        } else if y == 6 {
            Instruction::DI
        } else if y == 7 {
            Instruction::EI
        } else {
            Instruction::ILLEGAL(byte)
        }
    } else if z == 4 {
        if y < 4 {
            Instruction::CALL(Some(condition_at(y)), OperandU16::Immediate)
        } else {
            Instruction::ILLEGAL(byte)
        }
    } else if z == 5 {
        if low {
            Instruction::PUSH(stack_pair_at(p))
        } else if p == 0 {
            Instruction::CALL(None, OperandU16::Immediate)
        } else {
            Instruction::ILLEGAL(byte)
        }
    } else if z == 6 {
        accumulator_op(y, OperandU8::Immediate)
    } else {
        Instruction::RST(y as u8)
    }
}

/// The instruction of an opcode without prefix.  The second quarter holds
/// the loads between registers, with HALT in the place of `LD (HL), (HL)`;
/// the third the arithmetic on the accumulator.  At the prefix byte 0xCB,
/// which is no opcode, the value has no meaning.
pub open spec fn decode_unprefixed(byte: u8) -> Instruction {
    let x = byte / 64;
    let y = ((byte / 8) % 8) as int;
    let z = (byte % 8) as int;
    if x == 0 {
        decode_quarter0(byte, y, z)
    } else if x == 1 {
        if byte == 0x76 {
            Instruction::HALT
        } else {
            Instruction::LD(Operand::U8(operand_at(y)), Operand::U8(operand_at(z)))
        }
    } else if x == 2 {
        accumulator_op(y, operand_at(z))
    } else {
        decode_quarter3(byte, y, z)
    }
}

/// Whether a byte is one of the eleven that are no opcode.
pub open spec fn is_illegal_opcode(byte: u8) -> bool {
    byte == 0xD3 || byte == 0xDB || byte == 0xDD || byte == 0xE3 || byte == 0xE4 || byte == 0xEB
        || byte == 0xEC || byte == 0xED || byte == 0xF4 || byte == 0xFC || byte == 0xFD
}

/// The instruction that `opcode` stands for, in the table after the prefix
/// if `cb_prefixed`, else in the table without prefix.
pub open spec fn decode_spec(opcode: u8, cb_prefixed: bool) -> Instruction {
    if cb_prefixed {
        decode_prefixed(opcode)
    } else {
        decode_unprefixed(opcode)
    }
}

/// Decodes one opcode.  The prefix byte 0xCB is no opcode of the table
/// without prefix: the byte after it is decoded with `cb_prefixed`.
pub fn decode(opcode: u8, cb_prefixed: bool) -> (instruction: Instruction)
    requires
        cb_prefixed || opcode != 0xCB,
    ensures
        instruction == decode_spec(opcode, cb_prefixed),
        instruction is ILLEGAL <==> !cb_prefixed && is_illegal_opcode(opcode),
        instruction is ILLEGAL ==> instruction == Instruction::ILLEGAL(opcode),
{
    if cb_prefixed {
        cbprefixed::decode_byte(opcode)
    } else {
        unprefixed::decode_byte(opcode)
    }
}

} // verus!
