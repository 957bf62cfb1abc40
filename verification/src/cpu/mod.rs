//! The execution dispatcher: fetch, decode, execute.
//!
//! The processor owns the register file and the memory.  Each function
//! states that it leaves the machine in the state, and returns the result,
//! that the semantics give.

pub mod laws;
pub mod semantics;

use vstd::prelude::*;

use crate::error::CoreError;
use crate::instructions::{decode, FlagCondition, Instruction, Operand, OperandU16, OperandU8};
use crate::interrupt::Interrupt;
use crate::memory_mapping::MemoryMapping;
use crate::registers::alu::{Alu, Direction, FLAGS_NHC, FLAGS_ZNH};
use crate::registers::{Flags, RegisterU16, RegisterU8, Registers, FLAGS_ALL};
use semantics::{AccumulatorOp, ByteOp, Machine, Place, Step};

verus! {

/// The state `machine` together with the result `result`.
pub open spec fn outcome<T>(machine: Machine, result: Result<T, CoreError>) -> Step<T> {
    Step { machine, result }
}

pub struct Cpu {
    registers: Registers,
    memory: MemoryMapping,
}

/// The machine cycles that the access to an 8-bit operand takes.
fn operand_cycles(operand: &OperandU8) -> (cycles: u8)
    ensures
        cycles == semantics::operand_cycles(*operand),
        cycles <= 3,
{
    match operand {
        OperandU8::Register(_) => 0,
        OperandU8::Immediate => 1,
        OperandU8::Memory(OperandU16::RegisterPair(_)) => 1,
        OperandU8::Memory(OperandU16::Immediate) => 3,
        OperandU8::MemoryU8(inner) => match **inner {
            OperandU8::Immediate => 2,
            _ => 1,
        },
    }
}

/// The machine cycles that the read of a 16-bit operand takes.
fn operand16_cycles(operand: &OperandU16) -> (cycles: u8)
    ensures
        cycles == semantics::operand16_cycles(*operand),
        cycles <= 2,
{
    match operand {
        OperandU16::RegisterPair(_) => 0,
        OperandU16::Immediate => 2,
    }
}

/// The machine cycles that `instruction` takes, with its branch taken or
/// not.
pub fn timing(instruction: &Instruction, branch: bool) -> (cycles: u8)
    ensures
        cycles == semantics::timing(*instruction, branch),
        1 <= cycles <= 8,
{
    match instruction {
        Instruction::LD(Operand::U8(d), Operand::U8(s)) => 1 + operand_cycles(d) + operand_cycles(
            s,
        ),
        Instruction::LD(Operand::U16(_), Operand::U16(s)) => if operand16_cycles(s) == 0 {
            2
        } else {
            3
        },
        Instruction::LD(Operand::U8(d), Operand::U16(s)) => 2 + operand_cycles(d)
            + operand16_cycles(s),
        Instruction::LDH(d, s) => 1 + operand_cycles(d) + operand_cycles(s),
        Instruction::LD22 | Instruction::LD2A | Instruction::LD32 | Instruction::LD3A => 2,
        Instruction::LDF8 => 3,
        Instruction::INC(Operand::U8(op)) | Instruction::DEC(Operand::U8(op)) => 1 + 2
            * operand_cycles(op),
        Instruction::INC(Operand::U16(_)) | Instruction::DEC(Operand::U16(_)) => 2,
        Instruction::ADD(Operand::U8(_), Operand::U8(s)) => 1 + operand_cycles(s),
        Instruction::ADD(Operand::U16(_), Operand::U16(s)) => 2 + operand16_cycles(s),
        Instruction::ADD(Operand::U16(_), Operand::U8(_)) => 4,
        Instruction::ADC(_, s) | Instruction::SUB(_, s) | Instruction::SBC(_, s) | Instruction::AND(
            _,
            s,
        ) | Instruction::XOR(_, s) | Instruction::OR(_, s) | Instruction::CP(_, s) => 1
            + operand_cycles(s),
        Instruction::JR(_, _) => if branch {
            3
        } else {
            2
        },
        Instruction::JP(_, op) => {
            let read: u8 = operand16_cycles(op);
            if branch && read != 0 {
                2 + read
            } else {
                1 + read
            }
        },
        Instruction::CALL(_, op) => {
            let read: u8 = operand16_cycles(op);
            if branch {
                4 + read
            } else {
                1 + read
            }
        },
        Instruction::RET(None) | Instruction::RETI => 4,
        Instruction::RET(Some(_)) => if branch {
            5
        } else {
            2
        },
        Instruction::RST(_) | Instruction::PUSH(_) => 4,
        Instruction::POP(_) => 3,
        Instruction::RLC(op) | Instruction::RRC(op) | Instruction::RL(op) | Instruction::RR(op)
        | Instruction::SLA(op) | Instruction::SRA(op) | Instruction::SWAP(op) | Instruction::SRL(
            op,
        ) | Instruction::RES(_, op) | Instruction::SET(_, op) => 2 + 2 * operand_cycles(op),
        Instruction::BIT(_, op) => 2 + operand_cycles(op),
        _ => 1,
    }
}

/// An operation on the accumulator with the operand value `b`.
fn accumulate(reg: &mut Registers, op: AccumulatorOp, b: u8)
    ensures
        *final(reg) == semantics::accumulate(*old(reg), op, b),
{
    proof {
        reveal(semantics::accumulate);
    }
    let a: u8 = reg.a;
    let cy: bool = reg.get_flag(Flags::CY);
    match op {
        AccumulatorOp::Add => {
            let res: u8 = Alu::add_u8(reg, a, b, false, FLAGS_ALL);
            reg.set_u8(&RegisterU8::A, res);
        },
        AccumulatorOp::Adc => {
            let res: u8 = Alu::add_u8(reg, a, b, cy, FLAGS_ALL);
            reg.set_u8(&RegisterU8::A, res);
        },
        AccumulatorOp::Sub => {
            let res: u8 = Alu::sub(reg, a, b, false, FLAGS_ALL);
            reg.set_u8(&RegisterU8::A, res);
        },
        AccumulatorOp::Sbc => {
            let res: u8 = Alu::sub(reg, a, b, cy, FLAGS_ALL);
            reg.set_u8(&RegisterU8::A, res);
        },
        AccumulatorOp::And => Alu::and(reg, b),
        AccumulatorOp::Xor => Alu::xor(reg, b),
        AccumulatorOp::Or => Alu::or(reg, b),
        AccumulatorOp::Cp => Alu::cmp(reg, b),
    }
}

/// A byte operation on the value `v`: commits the flags and returns the
/// new byte.
fn apply_byte_op(reg: &mut Registers, op: ByteOp, v: u8) -> (res: u8)
    requires
        semantics::byte_op_valid(op),
    ensures
        res == semantics::byte_op_result(*old(reg), op, v),
        *final(reg) == semantics::byte_op_regs(*old(reg), op, v),
{
    proof {
        reveal(semantics::byte_op_result);
        reveal(semantics::byte_op_regs);
    }
    match op {
        ByteOp::Rlc => Alu::rotate(reg, Direction::Left, v, false),
        ByteOp::Rrc => Alu::rotate(reg, Direction::Right, v, false),
        ByteOp::Rl => Alu::rotate(reg, Direction::Left, v, true),
        ByteOp::Rr => Alu::rotate(reg, Direction::Right, v, true),
        ByteOp::Sla => Alu::shift(reg, Direction::Left, v, false),
        ByteOp::Sra => Alu::shift(reg, Direction::Right, v, true),
        ByteOp::Swap => Alu::swap(reg, v),
        ByteOp::Srl => Alu::shift(reg, Direction::Right, v, false),
        ByteOp::ResetBit(n) => v & !(1u8 << n),
        ByteOp::SetBit(n) => v | (1u8 << n),
    }
}

/// A rotation of the accumulator, which clears Zero whatever the result.
fn rotate_accumulator(reg: &mut Registers, dir: Direction, through_carry: bool)
    ensures
        *final(reg) == semantics::rotate_accumulator(*old(reg), dir, through_carry),
{
    proof {
        reveal(semantics::rotate_accumulator);
    }
    let a: u8 = reg.a;
    let res: u8 = Alu::rotate(reg, dir, a, through_carry);
    reg.set_u8(&RegisterU8::A, res);
    reg.set_flag(Flags::Z, false, FLAGS_ALL);
}

impl Cpu {
    /// The state of the machine: the registers and the contents of memory.
    pub closed spec fn view(&self) -> Machine {
        Machine { regs: self.registers, mem: self.memory@ }
    }

    /// A processor after power-on, with `memory` as it was prepared.
    pub fn new(memory: MemoryMapping) -> (cpu: Cpu)
        ensures
            cpu@ == (Machine { regs: Registers::power_on(), mem: memory@ }),
            cpu@.wf(),
    {
        proof {
            memory.lemma_view_wf();
        }
        Cpu { registers: Registers::new(), memory }
    }

    /// The register file, to look at.
    pub fn registers(&self) -> (registers: &Registers)
        ensures
            *registers == self@.regs,
    {
        &self.registers
    }

    /// The memory, to look at.
    pub fn memory(&self) -> (memory: &MemoryMapping)
        ensures
            memory@ == self@.mem,
    {
        &self.memory
    }

    fn read_at(&self, addr: u16) -> (result: Result<u8, CoreError>)
        ensures
            outcome(self@, result) == semantics::read_at(self@, addr),
    {
        self.memory.get(addr)
    }

    fn write_at(&mut self, addr: u16, val: u8) -> (result: Result<(), CoreError>)
        ensures
            outcome(final(self)@, result) == semantics::write_at(old(self)@, addr, val),
    {
        self.memory.set(addr, val)
    }

    fn fetch8(&mut self) -> (result: Result<u8, CoreError>)
        ensures
            outcome(final(self)@, result) == semantics::fetch8(old(self)@),
    {
        proof {
            reveal(semantics::fetch8);
        }
        let byte: u8 = self.memory.get(self.registers.pc)?;
        self.registers.pc = self.registers.pc.wrapping_add(1);
        Ok(byte)
    }

    fn fetch16(&mut self) -> (result: Result<u16, CoreError>)
        ensures
            outcome(final(self)@, result) == semantics::fetch16(old(self)@),
    {
        proof {
            reveal(semantics::fetch16);
        }
        let lo: u8 = self.fetch8()?;
        let hi: u8 = self.fetch8()?;
        Ok(hi as u16 * 256 + lo as u16)
    }

    fn locate(&mut self, operand: &OperandU8, opcode: u8) -> (result: Result<Place, CoreError>)
        ensures
            outcome(final(self)@, result) == semantics::locate(old(self)@, *operand, opcode),
    {
        proof {
            reveal(semantics::locate);
        }
        match operand {
            OperandU8::Register(r) => Ok(Place::Register(*r)),
            OperandU8::Immediate => {
                let byte: u8 = self.fetch8()?;
                Ok(Place::Value(byte))
            },
            OperandU8::Memory(OperandU16::RegisterPair(rr)) => Ok(
                Place::Memory(self.registers.get_u16(rr)),
            ),
            OperandU8::Memory(OperandU16::Immediate) => {
                let addr: u16 = self.fetch16()?;
                Ok(Place::Memory(addr))
            },
            OperandU8::MemoryU8(inner) => match **inner {
                OperandU8::Register(r) => Ok(
                    Place::Memory(0xFF00 + self.registers.get_u8(&r) as u16),
                ),
                OperandU8::Immediate => {
                    let byte: u8 = self.fetch8()?;
                    Ok(Place::Memory(0xFF00 + byte as u16))
                },
                _ => Err(CoreError::UnimplementedOpcode(opcode)),
            },
        }
    }

    fn load(&self, place: Place) -> (result: Result<u8, CoreError>)
        ensures
            outcome(self@, result) == semantics::load(self@, place),
    {
        proof {
            reveal(semantics::load);
        }
        match place {
            Place::Register(r) => Ok(self.registers.get_u8(&r)),
            Place::Memory(addr) => self.read_at(addr),
            Place::Value(v) => Ok(v),
        }
    }

    fn store(&mut self, place: Place, val: u8, opcode: u8) -> (result: Result<(), CoreError>)
        ensures
            outcome(final(self)@, result) == semantics::store(old(self)@, place, val, opcode),
    {
        proof {
            reveal(semantics::store);
        }
        match place {
            Place::Register(r) => {
                self.registers.set_u8(&r, val);
                Ok(())
            },
            Place::Memory(addr) => self.write_at(addr, val),
            Place::Value(_) => Err(CoreError::UnimplementedOpcode(opcode)),
        }
    }

    fn read8(&mut self, operand: &OperandU8, opcode: u8) -> (result: Result<u8, CoreError>)
        ensures
            outcome(final(self)@, result) == semantics::read8(old(self)@, *operand, opcode),
    {
        proof {
            reveal(semantics::read8);
        }
        let place: Place = self.locate(operand, opcode)?;
        self.load(place)
    }

    fn read16(&mut self, operand: &OperandU16) -> (result: Result<u16, CoreError>)
        ensures
            outcome(final(self)@, result) == semantics::read16(old(self)@, *operand),
    {
        proof {
            reveal(semantics::read16);
        }
        match operand {
            OperandU16::RegisterPair(rr) => Ok(self.registers.get_u16(rr)),
            OperandU16::Immediate => self.fetch16(),
        }
    }

    fn push16(&mut self, val: u16) -> (result: Result<(), CoreError>)
        ensures
            outcome(final(self)@, result) == semantics::push16(old(self)@, val),
    {
        proof {
            reveal(semantics::push16);
        }
        let sp: u16 = self.registers.sp;
        self.write_at(sp.wrapping_sub(1), (val / 256) as u8)?;
        self.write_at(sp.wrapping_sub(2), (val % 256) as u8)?;
        self.registers.sp = sp.wrapping_sub(2);
        Ok(())
    }

    fn pop16(&mut self) -> (result: Result<u16, CoreError>)
        ensures
            outcome(final(self)@, result) == semantics::pop16(old(self)@),
    {
        proof {
            reveal(semantics::pop16);
        }
        let sp: u16 = self.registers.sp;
        let lo: u8 = self.read_at(sp)?;
        let hi: u8 = self.read_at(sp.wrapping_add(1))?;
        self.registers.sp = sp.wrapping_add(2);
        Ok(hi as u16 * 256 + lo as u16)
    }

    /// Whether a branch with the condition `condition` is taken.
    fn taken(&self, condition: &Option<FlagCondition>) -> (taken: bool)
        ensures
            taken == semantics::taken(self@.regs, *condition),
    {
        match condition {
            None => true,
            Some(c) => self.registers.get_flag_condition(*c),
        }
    }

    fn load8(&mut self, dst: &OperandU8, src: &OperandU8, opcode: u8) -> (result: Result<
        (),
        CoreError,
    >)
        ensures
            outcome(final(self)@, result) == semantics::load8(old(self)@, *dst, *src, opcode),
    {
        proof {
            reveal(semantics::load8);
        }
        let val: u8 = self.read8(src, opcode)?;
        let place: Place = self.locate(dst, opcode)?;
        self.store(place, val, opcode)
    }

    fn load16(&mut self, dst: &OperandU16, src: &OperandU16, opcode: u8) -> (result: Result<
        (),
        CoreError,
    >)
        ensures
            outcome(final(self)@, result) == semantics::load16(old(self)@, *dst, *src, opcode),
    {
        proof {
            reveal(semantics::load16);
        }
        match dst {
            OperandU16::Immediate => Err(CoreError::UnimplementedOpcode(opcode)),
            OperandU16::RegisterPair(rr) => {
                let val: u16 = self.read16(src)?;
                self.registers.set_u16(rr, val);
                Ok(())
            },
        }
    }

    fn store16(&mut self, dst: &OperandU8, src: &OperandU16, opcode: u8) -> (result: Result<
        (),
        CoreError,
    >)
        ensures
            outcome(final(self)@, result) == semantics::store16(old(self)@, *dst, *src, opcode),
    {
        proof {
            reveal(semantics::store16);
        }
        let val: u16 = self.read16(src)?;
        let place: Place = self.locate(dst, opcode)?;
        match place {
            Place::Memory(addr) => {
                self.write_at(addr, (val % 256) as u8)?;
                self.write_at(addr.wrapping_add(1), (val / 256) as u8)
            },
            _ => Err(CoreError::UnimplementedOpcode(opcode)),
        }
    }

    fn load_hl_step(&mut self, to_memory: bool, up: bool) -> (result: Result<(), CoreError>)
        ensures
            outcome(final(self)@, result) == semantics::load_hl_step(
                old(self)@,
                to_memory,
                if up {
                    1
                } else {
                    -1
                },
            ),
    {
        proof {
            reveal(semantics::load_hl_step);
        }
        let hl: u16 = self.registers.get_u16(&RegisterU16::HL);
        if to_memory {
            self.write_at(hl, self.registers.a)?;
        } else {
            let byte: u8 = self.read_at(hl)?;
            self.registers.set_u8(&RegisterU8::A, byte);
        }
        let next: u16 = if up {
            hl.wrapping_add(1)
        } else {
            hl.wrapping_sub(1)
        };
        self.registers.set_u16(&RegisterU16::HL, next);
        Ok(())
    }

    fn add_offset(&mut self, dst: &RegisterU16, src: &OperandU8, opcode: u8) -> (result: Result<
        (),
        CoreError,
    >)
        ensures
            outcome(final(self)@, result) == semantics::add_offset(old(self)@, *dst, *src, opcode),
    {
        proof {
            reveal(semantics::add_offset);
        }
        let e8: u8 = self.read8(src, opcode)?;
        let sp: u16 = self.registers.sp;
        let sum: u16 = Alu::add_offset(&mut self.registers, sp, e8);
        self.registers.set_u16(dst, sum);
        Ok(())
    }

    fn add16(&mut self, dst: &OperandU16, src: &OperandU16, opcode: u8) -> (result: Result<
        (),
        CoreError,
    >)
        ensures
            outcome(final(self)@, result) == semantics::add16(old(self)@, *dst, *src, opcode),
    {
        proof {
            reveal(semantics::add16);
        }
        match dst {
            OperandU16::Immediate => Err(CoreError::UnimplementedOpcode(opcode)),
            OperandU16::RegisterPair(rr) => {
                let val: u16 = self.read16(src)?;
                Alu::add_u16(&mut self.registers, rr, val, false, FLAGS_NHC);
                Ok(())
            },
        }
    }

    fn arithmetic8(
        &mut self,
        op: AccumulatorOp,
        dst: &OperandU8,
        src: &OperandU8,
        opcode: u8,
    ) -> (result: Result<(), CoreError>)
        ensures
            outcome(final(self)@, result) == semantics::arithmetic8(
                old(self)@,
                op,
                *dst,
                *src,
                opcode,
            ),
    {
        proof {
            reveal(semantics::arithmetic8);
        }
        match dst {
            OperandU8::Register(RegisterU8::A) => {
                let b: u8 = self.read8(src, opcode)?;
                accumulate(&mut self.registers, op, b);
                Ok(())
            },
            _ => Err(CoreError::UnimplementedOpcode(opcode)),
        }
    }

    fn step8(&mut self, operand: &OperandU8, up: bool, opcode: u8) -> (result: Result<
        (),
        CoreError,
    >)
        ensures
            outcome(final(self)@, result) == semantics::step8(old(self)@, *operand, up, opcode),
    {
        proof {
            reveal(semantics::step8);
        }
        let place: Place = self.locate(operand, opcode)?;
        let val: u8 = self.load(place)?;
        let res: u8 = if up {
            Alu::add_u8(&mut self.registers, val, 1, false, FLAGS_ZNH)
        } else {
            Alu::sub(&mut self.registers, val, 1, false, FLAGS_ZNH)
        };
        self.store(place, res, opcode)
    }

    fn step16(&mut self, operand: &OperandU16, up: bool, opcode: u8) -> (result: Result<
        (),
        CoreError,
    >)
        ensures
            outcome(final(self)@, result) == semantics::step16(old(self)@, *operand, up, opcode),
    {
        proof {
            reveal(semantics::step16);
        }
        match operand {
            OperandU16::Immediate => Err(CoreError::UnimplementedOpcode(opcode)),
            OperandU16::RegisterPair(rr) => {
                if up {
                    proof {
                        self.registers.lemma_with_no_flags(
                            Alu::add16_flags(self.registers.pair(*rr), 1, false),
                        );
                    }
                    Alu::add_u16(&mut self.registers, rr, 1, false, 0);
                } else {
                    Alu::dec_u16(&mut self.registers, rr);
                }
                Ok(())
            },
        }
    }

    fn modify8(&mut self, op: ByteOp, operand: &OperandU8, opcode: u8) -> (result: Result<
        (),
        CoreError,
    >)
        ensures
            outcome(final(self)@, result) == semantics::modify8(old(self)@, op, *operand, opcode),
    {
        proof {
            reveal(semantics::modify8);
        }
        let valid: bool = match op {
            ByteOp::ResetBit(n) => n < 8,
            ByteOp::SetBit(n) => n < 8,
            _ => true,
        };
        if !valid {
            return Err(CoreError::UnimplementedOpcode(opcode));
        }
        let place: Place = self.locate(operand, opcode)?;
        let val: u8 = self.load(place)?;
        let res: u8 = apply_byte_op(&mut self.registers, op, val);
        self.store(place, res, opcode)
    }

    fn test_bit(&mut self, n: u8, operand: &OperandU8, opcode: u8) -> (result: Result<
        (),
        CoreError,
    >)
        ensures
            outcome(final(self)@, result) == semantics::test_bit(old(self)@, n, *operand, opcode),
    {
        proof {
            reveal(semantics::test_bit);
        }
        if n >= 8 {
            return Err(CoreError::UnimplementedOpcode(opcode));
        }
        let val: u8 = self.read8(operand, opcode)?;
        Alu::bit(&mut self.registers, n, val);
        Ok(())
    }

    fn jump_relative(
        &mut self,
        condition: &Option<FlagCondition>,
        operand: &OperandU8,
        opcode: u8,
    ) -> (result: Result<(), CoreError>)
        ensures
            outcome(final(self)@, result) == semantics::jump_relative(
                old(self)@,
                *condition,
                *operand,
                opcode,
            ),
    {
        proof {
            reveal(semantics::jump_relative);
        }
        let branch: bool = self.taken(condition);
        let e8: u8 = self.read8(operand, opcode)?;
        if branch {
            self.registers.pc = Alu::offset(self.registers.pc, e8);
        }
        Ok(())
    }

    fn jump(&mut self, condition: &Option<FlagCondition>, operand: &OperandU16) -> (result: Result<
        (),
        CoreError,
    >)
        ensures
            outcome(final(self)@, result) == semantics::jump(old(self)@, *condition, *operand),
    {
        proof {
            reveal(semantics::jump);
        }
        let branch: bool = self.taken(condition);
        let addr: u16 = self.read16(operand)?;
        if branch {
            self.registers.pc = addr;
        }
        Ok(())
    }

    fn enter(&mut self, addr: u16) -> (result: Result<(), CoreError>)
        ensures
            outcome(final(self)@, result) == semantics::enter(old(self)@, addr),
    {
        proof {
            reveal(semantics::enter);
        }
        self.push16(self.registers.pc)?;
        self.registers.pc = addr;
        Ok(())
    }

    fn call(&mut self, condition: &Option<FlagCondition>, operand: &OperandU16) -> (result: Result<
        (),
        CoreError,
    >)
        ensures
            outcome(final(self)@, result) == semantics::call(old(self)@, *condition, *operand),
    {
        proof {
            reveal(semantics::call);
        }
        let branch: bool = self.taken(condition);
        let addr: u16 = self.read16(operand)?;
        if branch {
            self.enter(addr)
        } else {
            Ok(())
        }
    }

    fn ret(&mut self, condition: &Option<FlagCondition>) -> (result: Result<(), CoreError>)
        ensures
            outcome(final(self)@, result) == semantics::ret(old(self)@, *condition),
    {
        proof {
            reveal(semantics::ret);
        }
        if self.taken(condition) {
            let addr: u16 = self.pop16()?;
            self.registers.pc = addr;
        }
        Ok(())
    }

    fn restart(&mut self, n: u8, opcode: u8) -> (result: Result<(), CoreError>)
        ensures
            outcome(final(self)@, result) == semantics::restart(old(self)@, n, opcode),
    {
        proof {
            reveal(semantics::restart);
        }
        if n >= 8 {
            return Err(CoreError::UnimplementedOpcode(opcode));
        }
        self.enter(8 * n as u16)
    }

    fn pop_pair(&mut self, rr: &RegisterU16) -> (result: Result<(), CoreError>)
        ensures
            outcome(final(self)@, result) == semantics::pop_pair(old(self)@, *rr),
    {
        proof {
            reveal(semantics::pop_pair);
        }
        let val: u16 = self.pop16()?;
        self.registers.set_u16(rr, val);
        Ok(())
    }

    fn skip_operand(&mut self, operand: &OperandU8, opcode: u8) -> (result: Result<(), CoreError>)
        ensures
            outcome(final(self)@, result) == semantics::skip_operand(old(self)@, *operand, opcode),
    {
        proof {
            reveal(semantics::skip_operand);
        }
        self.read8(operand, opcode)?;
        Ok(())
    }

    fn load_any(&mut self, dst: &Operand, src: &Operand, opcode: u8) -> (result: Result<
        (),
        CoreError,
    >)
        ensures
            outcome(final(self)@, result) == semantics::load_any(old(self)@, *dst, *src, opcode),
    {
        match (dst, src) {
            (Operand::U8(d), Operand::U8(s)) => self.load8(d, s, opcode),
            (Operand::U16(d), Operand::U16(s)) => self.load16(d, s, opcode),
            (Operand::U8(d), Operand::U16(s)) => self.store16(d, s, opcode),
            (Operand::U16(_), Operand::U8(_)) => Err(CoreError::UnimplementedOpcode(opcode)),
        }
    }

    fn add_any(&mut self, dst: &Operand, src: &Operand, opcode: u8) -> (result: Result<
        (),
        CoreError,
    >)
        ensures
            outcome(final(self)@, result) == semantics::add_any(old(self)@, *dst, *src, opcode),
    {
        match (dst, src) {
            (Operand::U8(d), Operand::U8(s)) => self.arithmetic8(AccumulatorOp::Add, d, s, opcode),
            (Operand::U16(d), Operand::U16(s)) => self.add16(d, s, opcode),
            (Operand::U16(OperandU16::RegisterPair(RegisterU16::SP)), Operand::U8(s)) => {
                self.add_offset(&RegisterU16::SP, s, opcode)
            },
            _ => Err(CoreError::UnimplementedOpcode(opcode)),
        }
    }

    /// What a load or STOP does.
    fn perform_load(&mut self, instruction: &Instruction, opcode: u8) -> (result: Result<
        (),
        CoreError,
    >)
        requires
            semantics::is_load(*instruction),
        ensures
            outcome(final(self)@, result) == semantics::effect_load(
                old(self)@,
                *instruction,
                opcode,
            ),
    {
        match instruction {
            Instruction::STOP(op) => self.skip_operand(op, opcode),
            Instruction::LD(dst, src) => self.load_any(dst, src, opcode),
            Instruction::LDH(dst, src) => self.load8(dst, src, opcode),
            Instruction::LD22 => self.load_hl_step(true, true),
            Instruction::LD2A => self.load_hl_step(false, true),
            Instruction::LD32 => self.load_hl_step(true, false),
            Instruction::LD3A => self.load_hl_step(false, false),
            _ => self.add_offset(&RegisterU16::HL, &OperandU8::Immediate, opcode),
        }
    }

    /// What an increment, a decrement or arithmetic does.
    fn perform_arithmetic(&mut self, instruction: &Instruction, opcode: u8) -> (result: Result<
        (),
        CoreError,
    >)
        ensures
            outcome(final(self)@, result) == semantics::effect_arithmetic(
                old(self)@,
                *instruction,
                opcode,
            ),
    {
        match instruction {
            Instruction::INC(Operand::U8(op)) => self.step8(op, true, opcode),
            Instruction::INC(Operand::U16(op)) => self.step16(op, true, opcode),
            Instruction::DEC(Operand::U8(op)) => self.step8(op, false, opcode),
            Instruction::DEC(Operand::U16(op)) => self.step16(op, false, opcode),
            Instruction::ADD(dst, src) => self.add_any(dst, src, opcode),
            Instruction::ADC(dst, src) => self.arithmetic8(AccumulatorOp::Adc, dst, src, opcode),
            Instruction::SUB(dst, src) => self.arithmetic8(AccumulatorOp::Sub, dst, src, opcode),
            Instruction::SBC(dst, src) => self.arithmetic8(AccumulatorOp::Sbc, dst, src, opcode),
            Instruction::AND(dst, src) => self.arithmetic8(AccumulatorOp::And, dst, src, opcode),
            Instruction::XOR(dst, src) => self.arithmetic8(AccumulatorOp::Xor, dst, src, opcode),
            Instruction::OR(dst, src) => self.arithmetic8(AccumulatorOp::Or, dst, src, opcode),
            Instruction::CP(dst, src) => self.arithmetic8(AccumulatorOp::Cp, dst, src, opcode),
            _ => Ok(()),
        }
    }

    /// What a jump, a call, a return or a stack operation does.
    fn perform_control_flow(&mut self, instruction: &Instruction, opcode: u8) -> (result: Result<
        (),
        CoreError,
    >)
        ensures
            outcome(final(self)@, result) == semantics::effect_control_flow(
                old(self)@,
                *instruction,
                opcode,
            ),
    {
        match instruction {
            Instruction::JR(condition, op) => self.jump_relative(condition, op, opcode),
            Instruction::JP(condition, op) => self.jump(condition, op),
            Instruction::CALL(condition, op) => self.call(condition, op),
            Instruction::RET(condition) => self.ret(condition),
            Instruction::RETI => self.ret(&None),
            Instruction::RST(n) => self.restart(*n, opcode),
            Instruction::PUSH(rr) => {
                let val: u16 = self.registers.get_u16(rr);
                self.push16(val)
            },
            Instruction::POP(rr) => self.pop_pair(rr),
            _ => Ok(()),
        }
    }

    /// What an operation after the prefix does.
    fn perform_bit_operation(&mut self, instruction: &Instruction, opcode: u8) -> (result: Result<
        (),
        CoreError,
    >)
        ensures
            outcome(final(self)@, result) == semantics::effect_bit_operation(
                old(self)@,
                *instruction,
                opcode,
            ),
    {
        match instruction {
            Instruction::RLC(op) => self.modify8(ByteOp::Rlc, op, opcode),
            Instruction::RRC(op) => self.modify8(ByteOp::Rrc, op, opcode),
            Instruction::RL(op) => self.modify8(ByteOp::Rl, op, opcode),
            Instruction::RR(op) => self.modify8(ByteOp::Rr, op, opcode),
            Instruction::SLA(op) => self.modify8(ByteOp::Sla, op, opcode),
            Instruction::SRA(op) => self.modify8(ByteOp::Sra, op, opcode),
            Instruction::SWAP(op) => self.modify8(ByteOp::Swap, op, opcode),
            Instruction::SRL(op) => self.modify8(ByteOp::Srl, op, opcode),
            Instruction::BIT(n, op) => self.test_bit(*n, op, opcode),
            Instruction::RES(n, op) => self.modify8(ByteOp::ResetBit(*n), op, opcode),
            Instruction::SET(n, op) => self.modify8(ByteOp::SetBit(*n), op, opcode),
            _ => Ok(()),
        }
    }

    /// What an instruction without operand does.
    fn perform_plain(&mut self, instruction: &Instruction) -> (result: Result<(), CoreError>)
        ensures
            outcome(final(self)@, result) == semantics::effect_plain(old(self)@, *instruction),
    {
        match instruction {
            Instruction::DAA => Alu::daa(&mut self.registers),
            Instruction::CPL => Alu::cpl(&mut self.registers),
            Instruction::SCF => Alu::set_carry(&mut self.registers, true),
            Instruction::CCF => {
                let carry: bool = self.registers.get_flag(Flags::CY);
                Alu::set_carry(&mut self.registers, !carry);
            },
            Instruction::RLCA => rotate_accumulator(&mut self.registers, Direction::Left, false),
            Instruction::RRCA => rotate_accumulator(&mut self.registers, Direction::Right, false),
            Instruction::RLA => rotate_accumulator(&mut self.registers, Direction::Left, true),
            Instruction::RRA => rotate_accumulator(&mut self.registers, Direction::Right, true),
            Instruction::ILLEGAL(byte) => {
                return Err(CoreError::IllegalOpcode(*byte));
            },
            _ => {},
        }
        Ok(())
    }

    /// What `instruction` does to the registers and the memory.
    fn perform(&mut self, instruction: &Instruction, opcode: u8) -> (result: Result<(), CoreError>)
        ensures
            outcome(final(self)@, result) == semantics::effect(old(self)@, *instruction, opcode),
    {
        match instruction {
            Instruction::LD(_, _)
            | Instruction::LDH(_, _)
            | Instruction::LD22
            | Instruction::LD2A
            | Instruction::LD32
            | Instruction::LD3A
            | Instruction::LDF8
            | Instruction::STOP(_) => self.perform_load(instruction, opcode),
            Instruction::INC(_)
            | Instruction::DEC(_)
            | Instruction::ADD(_, _)
            | Instruction::ADC(_, _)
            | Instruction::SUB(_, _)
            | Instruction::SBC(_, _)
            | Instruction::AND(_, _)
            | Instruction::XOR(_, _)
            | Instruction::OR(_, _)
            | Instruction::CP(_, _) => self.perform_arithmetic(instruction, opcode),
            Instruction::JR(_, _)
            | Instruction::JP(_, _)
            | Instruction::CALL(_, _)
            | Instruction::RET(_)
            | Instruction::RETI
            | Instruction::RST(_)
            | Instruction::PUSH(_)
            | Instruction::POP(_) => self.perform_control_flow(instruction, opcode),
            Instruction::RLC(_)
            | Instruction::RRC(_)
            | Instruction::RL(_)
            | Instruction::RR(_)
            | Instruction::SLA(_)
            | Instruction::SRA(_)
            | Instruction::SWAP(_)
            | Instruction::SRL(_)
            | Instruction::BIT(_, _)
            | Instruction::RES(_, _)
            | Instruction::SET(_, _) => self.perform_bit_operation(instruction, opcode),
            _ => self.perform_plain(instruction),
        }
    }

    /// Whether the branch of `instruction` is taken in the present state.
    fn branch_taken(&self, instruction: &Instruction) -> (branch: bool)
        ensures
            branch == semantics::taken(self@.regs, semantics::condition_of(*instruction)),
    {
        match instruction {
            Instruction::JR(c, _) => self.taken(c),
            Instruction::JP(c, _) => self.taken(c),
            Instruction::CALL(c, _) => self.taken(c),
            Instruction::RET(c) => self.taken(c),
            _ => true,
        }
    }

    /// Executes one decoded instruction and returns the machine cycles it
    /// took.  `opcode` is the byte that the instruction was decoded from.
    ///
    /// An `ILLEGAL` instruction fails with `IllegalOpcode`, an instruction
    /// in a form that the processor does not have with
    /// `UnimplementedOpcode`, and a memory access with the error of the
    /// memory map.  What was done before the failure stays done.
    pub fn execute(
        &mut self,
        instruction: &Instruction,
        opcode: u8,
        interrupt: &mut Interrupt,
    ) -> (result: Result<u8, CoreError>)
        ensures
            outcome(final(self)@, result) == semantics::execute(old(self)@, *instruction, opcode),
            final(interrupt)@ == semantics::interrupts_after(
                old(interrupt)@,
                *instruction,
                result is Ok,
            ),
            old(self)@.wf() ==> final(self)@.wf(),
    {
        proof {
            laws::lemma_execute(self@, *instruction, opcode);
        }
        let branch: bool = self.branch_taken(instruction);
        self.perform(instruction, opcode)?;
        match instruction {
            Instruction::DI => interrupt.reset_ime(),
            Instruction::EI => interrupt.set_ime(),
            Instruction::RETI => interrupt.set_ime_forced(),
            _ => {},
        }
        Ok(timing(instruction, branch))
    }

    /// Advances the processor by exactly one instruction: fetches the
    /// opcode at the program counter, decodes it, executes it, and returns
    /// the instruction with the machine cycles it took.
    pub fn step(&mut self, interrupt: &mut Interrupt) -> (result: Result<
        (Instruction, u8),
        CoreError,
    >)
        ensures
            outcome(final(self)@, result) == semantics::step(old(self)@),
            final(interrupt)@ == (match result {
                Ok(pair) => semantics::interrupts_after(old(interrupt)@, pair.0, true),
                Err(_) => old(interrupt)@,
            }),
            old(self)@.wf() ==> final(self)@.wf(),
            match result {
                Ok(pair) => 1 <= pair.1 <= 6,
                Err(e) => !(e is UnimplementedOpcode),
            },
    {
        proof {
            laws::lemma_step(self@);
        }
        let byte: u8 = self.fetch8()?;
        let (instruction, opcode) = if byte == 0xCB {
            let second: u8 = self.fetch8()?;
            (decode(second, true), second)
        } else {
            (decode(byte, false), byte)
        };
        let cycles: u8 = self.execute(&instruction, opcode, interrupt)?;
        Ok((instruction, cycles))
    }

    /// Asks the interrupt controller for an interrupt to service.  Where
    /// there is one, the program counter is pushed and execution continues
    /// at the handler, whose address is returned.
    pub fn service_interrupt(&mut self, interrupt: &mut Interrupt) -> (result: Result<
        Option<u16>,
        CoreError,
    >)
        ensures
            outcome(final(self)@, result) == semantics::service(
                old(self)@,
                old(interrupt)@.pending_vector(),
            ),
            final(interrupt)@ == old(interrupt)@.after_handle(),
            old(self)@.wf() ==> final(self)@.wf(),
    {
        proof {
            if interrupt@.pending_vector() is Some {
                laws::lemma_memory_access(self@, interrupt@.pending_vector()->Some_0, 0, 0);
            }
        }
        match interrupt.handle_interrupts() {
            None => Ok(None),
            Some(vector) => {
                self.enter(vector)?;
                Ok(Some(vector))
            },
        }
    }
}

} // verus!
