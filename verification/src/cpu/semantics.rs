//! What the instructions do, as functions from one state of the machine to
//! the next.
//!
//! A state is the register file and the contents of memory.  Every function
//! here gives the state after a piece of work together with its result: a
//! value, or the error that ended the work.  Work that fails keeps what it
//! had done before the failing access.
//!
//! Most definitions are opaque to the prover, so that a proof unfolds only
//! what it names with `reveal`.

use vstd::prelude::*;

use crate::error::CoreError;
use crate::instructions::{FlagCondition, Instruction, Operand, OperandU16, OperandU8};
use crate::interrupt::InterruptState;
use crate::memory_mapping::MemoryView;
use crate::registers::alu::{Alu, Direction, FLAGS_NHC, FLAGS_ZNH};
use crate::registers::{FlagSet, Flags, RegisterU16, RegisterU8, Registers, FLAGS_ALL};

verus! {

/// The state that an instruction works on.
pub struct Machine {
    pub regs: Registers,
    pub mem: MemoryView,
}

/// The state after a piece of work, and what the work yielded.
pub struct Step<T> {
    pub machine: Machine,
    pub result: Result<T, CoreError>,
}

/// Where an 8-bit operand is found once its address is known.
#[derive(Debug, Clone, Copy, PartialEq, Eq)]
pub enum Place {
    Register(RegisterU8),
    Memory(u16),
    /// An immediate byte: it has a value and cannot be stored to.
    Value(u8),
}

/// The operations that combine the accumulator with an operand.
#[derive(Debug, Clone, Copy, PartialEq, Eq)]
pub enum AccumulatorOp {
    Add,
    Adc,
    Sub,
    Sbc,
    And,
    Xor,
    Or,
    Cp,
}

/// The operations that change one byte in place.
#[derive(Debug, Clone, Copy, PartialEq, Eq)]
pub enum ByteOp {
    Rlc,
    Rrc,
    Rl,
    Rr,
    Sla,
    Sra,
    Swap,
    Srl,
    /// Clears the bit with this number.
    ResetBit(u8),
    /// Sets the bit with this number.
    SetBit(u8),
}

/// `x` modulo 65536.
pub open spec fn wrap16(x: int) -> u16 {
    (x % 0x10000) as u16
}

/// Work that ended well in the state `machine` with the value `value`.
pub open spec fn done<T>(machine: Machine, value: T) -> Step<T> {
    Step { machine, result: Ok(value) }
}

/// Work that ended in the state `machine` with the error `error`.
pub open spec fn failed<T>(machine: Machine, error: CoreError) -> Step<T> {
    Step { machine, result: Err(error) }
}

impl Machine {
    pub open spec fn with_regs(self, regs: Registers) -> Machine {
        Machine { regs, ..self }
    }

    pub open spec fn with_pc(self, pc: u16) -> Machine {
        Machine { regs: Registers { pc, ..self.regs }, ..self }
    }

    pub open spec fn with_sp(self, sp: u16) -> Machine {
        Machine { regs: Registers { sp, ..self.regs }, ..self }
    }

    /// The flags are well formed and every region of memory has its size.
    pub open spec fn wf(self) -> bool {
        self.regs.wf() && self.mem.wf()
    }
}

/// Reads the byte at `addr`.
pub open spec fn read_at(m: Machine, addr: u16) -> Step<u8> {
    Step { machine: m, result: m.mem.read(addr) }
}

/// Writes `val` to `addr`.
pub open spec fn write_at(m: Machine, addr: u16, val: u8) -> Step<()> {
    Step {
        machine: Machine { mem: m.mem.after_write(addr, val), ..m },
        result: m.mem.write_result(addr, val),
    }
}

/// Reads the byte at the program counter and moves the counter past it.
#[verifier::opaque]
pub open spec fn fetch8(m: Machine) -> Step<u8> {
    match m.mem.read(m.regs.pc) {
        Ok(byte) => done(m.with_pc(wrap16(m.regs.pc + 1)), byte),
        Err(e) => failed(m, e),
    }
}

/// Reads the little-endian word at the program counter and moves the
/// counter past it.
#[verifier::opaque]
pub open spec fn fetch16(m: Machine) -> Step<u16> {
    let low = fetch8(m);
    match low.result {
        Err(e) => failed(low.machine, e),
        Ok(lo) => {
            let high = fetch8(low.machine);
            match high.result {
                Err(e) => failed(high.machine, e),
                Ok(hi) => done(high.machine, (hi * 256 + lo) as u16),
            }
        },
    }
}

/// Finds the place of an 8-bit operand.  An immediate operand, and the
/// address or offset of a memory operand, are fetched from the program.
#[verifier::opaque]
pub open spec fn locate(m: Machine, operand: OperandU8, opcode: u8) -> Step<Place> {
    match operand {
        OperandU8::Register(r) => done(m, Place::Register(r)),
        OperandU8::Immediate => {
            let byte = fetch8(m);
            match byte.result {
                Err(e) => failed(byte.machine, e),
                Ok(b) => done(byte.machine, Place::Value(b)),
            }
        },
        OperandU8::Memory(OperandU16::RegisterPair(rr)) => done(m, Place::Memory(m.regs.pair(rr))),
        OperandU8::Memory(OperandU16::Immediate) => {
            let word = fetch16(m);
            match word.result {
                Err(e) => failed(word.machine, e),
                Ok(addr) => done(word.machine, Place::Memory(addr)),
            }
        },
        OperandU8::MemoryU8(inner) => match *inner {
            OperandU8::Register(r) => done(m, Place::Memory((0xFF00 + m.regs.reg8(r)) as u16)),
            OperandU8::Immediate => {
                let byte = fetch8(m);
                match byte.result {
                    Err(e) => failed(byte.machine, e),
                    Ok(b) => done(byte.machine, Place::Memory((0xFF00 + b) as u16)),
                }
            },
            _ => failed(m, CoreError::UnimplementedOpcode(opcode)),
        },
    }
}

/// Reads the byte at a place.
#[verifier::opaque]
pub open spec fn load(m: Machine, place: Place) -> Step<u8> {
    match place {
        Place::Register(r) => done(m, m.regs.reg8(r)),
        Place::Memory(addr) => read_at(m, addr),
        Place::Value(v) => done(m, v),
    }
}

/// Stores `val` at a place.  An immediate byte is no place to store to.
#[verifier::opaque]
pub open spec fn store(m: Machine, place: Place, val: u8, opcode: u8) -> Step<()> {
    match place {
        Place::Register(r) => done(m.with_regs(m.regs.with_reg8(r, val)), ()),
        Place::Memory(addr) => write_at(m, addr, val),
        Place::Value(_) => failed(m, CoreError::UnimplementedOpcode(opcode)),
    }
}

/// Reads an 8-bit operand.
#[verifier::opaque]
pub open spec fn read8(m: Machine, operand: OperandU8, opcode: u8) -> Step<u8> {
    let place = locate(m, operand, opcode);
    match place.result {
        Err(e) => failed(place.machine, e),
        Ok(p) => load(place.machine, p),
    }
}

/// Reads a 16-bit operand.
#[verifier::opaque]
pub open spec fn read16(m: Machine, operand: OperandU16) -> Step<u16> {
    match operand {
        OperandU16::RegisterPair(rr) => done(m, m.regs.pair(rr)),
        OperandU16::Immediate => fetch16(m),
    }
}

/// Pushes a word: the high byte goes to SP-1, the low byte to SP-2, and
/// the stack pointer moves down by two once both are stored.
#[verifier::opaque]
pub open spec fn push16(m: Machine, val: u16) -> Step<()> {
    let high = write_at(m, wrap16(m.regs.sp - 1), (val / 256) as u8);
    match high.result {
        Err(e) => failed(high.machine, e),
        Ok(_) => {
            let low = write_at(high.machine, wrap16(m.regs.sp - 2), (val % 256) as u8);
            match low.result {
                Err(e) => failed(low.machine, e),
                Ok(_) => done(low.machine.with_sp(wrap16(m.regs.sp - 2)), ()),
            }
        },
    }
}

/// Pops a word: the low byte comes from SP, the high byte from SP+1, and
/// the stack pointer moves up by two once both are read.
#[verifier::opaque]
pub open spec fn pop16(m: Machine) -> Step<u16> {
    match m.mem.read(m.regs.sp) {
        Err(e) => failed(m, e),
        Ok(lo) => match m.mem.read(wrap16(m.regs.sp + 1)) {
            Err(e) => failed(m, e),
            Ok(hi) => done(m.with_sp(wrap16(m.regs.sp + 2)), (hi * 256 + lo) as u16),
        },
    }
}

/// Whether a branch with the condition `condition` is taken: one without
/// condition always is.
pub open spec fn taken(regs: Registers, condition: Option<FlagCondition>) -> bool {
    match condition {
        None => true,
        Some(c) => regs.condition(c),
    }
}

/// The register file after an operation on the accumulator with the operand
/// value `b`.  A comparison changes the flags alone.
#[verifier::opaque]
pub open spec fn accumulate(regs: Registers, op: AccumulatorOp, b: u8) -> Registers {
    let a = regs.a;
    let cy = regs.flag(Flags::CY);
    match op {
        AccumulatorOp::Add => regs.with_flags(Alu::add8_flags(a, b, false), FLAGS_ALL).with_reg8(
            RegisterU8::A,
            Alu::add8_result(a, b, false),
        ),
        AccumulatorOp::Adc => regs.with_flags(Alu::add8_flags(a, b, cy), FLAGS_ALL).with_reg8(
            RegisterU8::A,
            Alu::add8_result(a, b, cy),
        ),
        AccumulatorOp::Sub => regs.with_flags(Alu::sub8_flags(a, b, false), FLAGS_ALL).with_reg8(
            RegisterU8::A,
            Alu::sub8_result(a, b, false),
        ),
        AccumulatorOp::Sbc => regs.with_flags(Alu::sub8_flags(a, b, cy), FLAGS_ALL).with_reg8(
            RegisterU8::A,
            Alu::sub8_result(a, b, cy),
        ),
        AccumulatorOp::And => regs.with_flags(Alu::logic_flags(a & b, true), FLAGS_ALL).with_reg8(
            RegisterU8::A,
            a & b,
        ),
        AccumulatorOp::Xor => regs.with_flags(Alu::logic_flags(a ^ b, false), FLAGS_ALL).with_reg8(
            RegisterU8::A,
            a ^ b,
        ),
        AccumulatorOp::Or => regs.with_flags(Alu::logic_flags(a | b, false), FLAGS_ALL).with_reg8(
            RegisterU8::A,
            a | b,
        ),
        AccumulatorOp::Cp => regs.with_flags(Alu::sub8_flags(a, b, false), FLAGS_ALL),
    }
}

/// Whether a byte operation is one that the processor has: a bit number is
/// below 8.
pub open spec fn byte_op_valid(op: ByteOp) -> bool {
    match op {
        ByteOp::ResetBit(n) => n < 8,
        ByteOp::SetBit(n) => n < 8,
        _ => true,
    }
}

/// The byte that a byte operation makes of `v`.
#[verifier::opaque]
pub open spec fn byte_op_result(regs: Registers, op: ByteOp, v: u8) -> u8 {
    match op {
        ByteOp::Rlc => Alu::rotate_result(Direction::Left, v, false, regs.flag(Flags::CY)),
        ByteOp::Rrc => Alu::rotate_result(Direction::Right, v, false, regs.flag(Flags::CY)),
        ByteOp::Rl => Alu::rotate_result(Direction::Left, v, true, regs.flag(Flags::CY)),
        ByteOp::Rr => Alu::rotate_result(Direction::Right, v, true, regs.flag(Flags::CY)),
        ByteOp::Sla => Alu::shift_result(Direction::Left, v, false),
        ByteOp::Sra => Alu::shift_result(Direction::Right, v, true),
        ByteOp::Swap => Alu::swap_result(v),
        ByteOp::Srl => Alu::shift_result(Direction::Right, v, false),
        ByteOp::ResetBit(n) => v & !(1u8 << n),
        ByteOp::SetBit(n) => v | (1u8 << n),
    }
}

/// The register file after a byte operation on `v`: rotations, shifts and
/// the swap set the flags, RES and SET leave them.
#[verifier::opaque]
pub open spec fn byte_op_regs(regs: Registers, op: ByteOp, v: u8) -> Registers {
    let res = byte_op_result(regs, op, v);
    match op {
        ByteOp::Rlc | ByteOp::Rl | ByteOp::Sla => regs.with_flags(
            Alu::shift_flags(Direction::Left, v, res),
            FLAGS_ALL,
        ),
        ByteOp::Rrc | ByteOp::Rr | ByteOp::Sra | ByteOp::Srl => regs.with_flags(
            Alu::shift_flags(Direction::Right, v, res),
            FLAGS_ALL,
        ),
        ByteOp::Swap => regs.with_flags(Alu::logic_flags(res, false), FLAGS_ALL),
        ByteOp::ResetBit(_) => regs,
        ByteOp::SetBit(_) => regs,
    }
}

/// The register file after a rotation of the accumulator, which clears
/// Zero whatever the result.
#[verifier::opaque]
pub open spec fn rotate_accumulator(regs: Registers, dir: Direction, through_carry: bool) -> Registers {
    let res = Alu::rotate_result(dir, regs.a, through_carry, regs.flag(Flags::CY));
    regs.with_flags(Alu::shift_flags(dir, regs.a, res), FLAGS_ALL).with_reg8(
        RegisterU8::A,
        res,
    ).with_flag(Flags::Z, false, FLAGS_ALL)
}

/// 8-bit load: the value of `src` goes to the place of `dst`.
#[verifier::opaque]
pub open spec fn load8(m: Machine, dst: OperandU8, src: OperandU8, opcode: u8) -> Step<()> {
    let value = read8(m, src, opcode);
    match value.result {
        Err(e) => failed(value.machine, e),
        Ok(v) => {
            let place = locate(value.machine, dst, opcode);
            match place.result {
                Err(e) => failed(place.machine, e),
                Ok(p) => store(place.machine, p, v, opcode),
            }
        },
    }
}

/// 16-bit load into a register pair.
#[verifier::opaque]
pub open spec fn load16(m: Machine, dst: OperandU16, src: OperandU16, opcode: u8) -> Step<()> {
    match dst {
        OperandU16::Immediate => failed(m, CoreError::UnimplementedOpcode(opcode)),
        OperandU16::RegisterPair(rr) => {
            let value = read16(m, src);
            match value.result {
                Err(e) => failed(value.machine, e),
                Ok(v) => done(value.machine.with_regs(value.machine.regs.with_pair(rr, v)), ()),
            }
        },
    }
}

/// Stores a 16-bit value in memory, low byte first.
#[verifier::opaque]
pub open spec fn store16(m: Machine, dst: OperandU8, src: OperandU16, opcode: u8) -> Step<()> {
    let value = read16(m, src);
    match value.result {
        Err(e) => failed(value.machine, e),
        Ok(v) => {
            let place = locate(value.machine, dst, opcode);
            match place.result {
                Err(e) => failed(place.machine, e),
                Ok(Place::Memory(addr)) => {
                    let low = write_at(place.machine, addr, (v % 256) as u8);
                    match low.result {
                        Err(e) => failed(low.machine, e),
                        Ok(_) => write_at(low.machine, wrap16(addr + 1), (v / 256) as u8),
                    }
                },
                Ok(_) => failed(place.machine, CoreError::UnimplementedOpcode(opcode)),
            }
        },
    }
}

/// The loads through HL that move HL by `delta` afterwards: a store of the
/// accumulator if `to_memory`, else a load into it.
#[verifier::opaque]
pub open spec fn load_hl_step(m: Machine, to_memory: bool, delta: int) -> Step<()> {
    let hl = m.regs.pair(RegisterU16::HL);
    let access = if to_memory {
        write_at(m, hl, m.regs.a)
    } else {
        let byte = read_at(m, hl);
        match byte.result {
            Err(e) => failed(byte.machine, e),
            Ok(b) => done(m.with_regs(m.regs.with_reg8(RegisterU8::A, b)), ()),
        }
    };
    match access.result {
        Err(e) => failed(access.machine, e),
        Ok(_) => done(
            access.machine.with_regs(
                access.machine.regs.with_pair(RegisterU16::HL, wrap16(hl + delta)),
            ),
            (),
        ),
    }
}

/// Adds the signed value of `src` to the stack pointer and puts the sum
/// into `dst`.
#[verifier::opaque]
pub open spec fn add_offset(m: Machine, dst: RegisterU16, src: OperandU8, opcode: u8) -> Step<()> {
    let value = read8(m, src, opcode);
    match value.result {
        Err(e) => failed(value.machine, e),
        Ok(e8) => {
            let regs = value.machine.regs;
            done(
                value.machine.with_regs(
                    regs.with_flags(Alu::offset_flags(regs.sp, e8), FLAGS_ALL).with_pair(
                        dst,
                        Alu::offset_result(regs.sp, e8),
                    ),
                ),
                (),
            )
        },
    }
}

/// 16-bit addition into a register pair: Zero is kept.
#[verifier::opaque]
pub open spec fn add16(m: Machine, dst: OperandU16, src: OperandU16, opcode: u8) -> Step<()> {
    match dst {
        OperandU16::Immediate => failed(m, CoreError::UnimplementedOpcode(opcode)),
        OperandU16::RegisterPair(rr) => {
            let value = read16(m, src);
            match value.result {
                Err(e) => failed(value.machine, e),
                Ok(v) => {
                    let regs = value.machine.regs;
                    done(
                        value.machine.with_regs(
                            regs.with_flags(
                                Alu::add16_flags(regs.pair(rr), v, false),
                                FLAGS_NHC,
                            ).with_pair(rr, Alu::add16_result(regs.pair(rr), v, false)),
                        ),
                        (),
                    )
                },
            }
        },
    }
}

/// An operation on the accumulator, which must be the destination.
#[verifier::opaque]
pub open spec fn arithmetic8(
    m: Machine,
    op: AccumulatorOp,
    dst: OperandU8,
    src: OperandU8,
    opcode: u8,
) -> Step<()> {
    if dst != OperandU8::Register(RegisterU8::A) {
        failed(m, CoreError::UnimplementedOpcode(opcode))
    } else {
        let value = read8(m, src, opcode);
        match value.result {
            Err(e) => failed(value.machine, e),
            Ok(b) => done(
                value.machine.with_regs(accumulate(value.machine.regs, op, b)),
                (),
            ),
        }
    }
}

/// 8-bit increment or decrement in place: Carry is kept.
#[verifier::opaque]
pub open spec fn step8(m: Machine, operand: OperandU8, up: bool, opcode: u8) -> Step<()> {
    let place = locate(m, operand, opcode);
    match place.result {
        Err(e) => failed(place.machine, e),
        Ok(p) => {
            let value = load(place.machine, p);
            match value.result {
                Err(e) => failed(value.machine, e),
                Ok(v) => {
                    let regs = value.machine.regs;
                    if up {
                        store(
                            value.machine.with_regs(
                                regs.with_flags(Alu::add8_flags(v, 1, false), FLAGS_ZNH),
                            ),
                            p,
                            Alu::add8_result(v, 1, false),
                            opcode,
                        )
                    } else {
                        store(
                            value.machine.with_regs(
                                regs.with_flags(Alu::sub8_flags(v, 1, false), FLAGS_ZNH),
                            ),
                            p,
                            Alu::sub8_result(v, 1, false),
                            opcode,
                        )
                    }
                },
            }
        },
    }
}

/// 16-bit increment or decrement of a register pair: no flag changes.
#[verifier::opaque]
pub open spec fn step16(m: Machine, operand: OperandU16, up: bool, opcode: u8) -> Step<()> {
    match operand {
        OperandU16::Immediate => failed(m, CoreError::UnimplementedOpcode(opcode)),
        OperandU16::RegisterPair(rr) => done(
            m.with_regs(
                m.regs.with_pair(
                    rr,
                    wrap16(
                        m.regs.pair(rr) + (if up {
                            1int
                        } else {
                            -1int
                        }),
                    ),
                ),
            ),
            (),
        ),
    }
}

/// A byte operation in place.
#[verifier::opaque]
pub open spec fn modify8(m: Machine, op: ByteOp, operand: OperandU8, opcode: u8) -> Step<()> {
    if !byte_op_valid(op) {
        failed(m, CoreError::UnimplementedOpcode(opcode))
    } else {
        let place = locate(m, operand, opcode);
        match place.result {
            Err(e) => failed(place.machine, e),
            Ok(p) => {
                let value = load(place.machine, p);
                match value.result {
                    Err(e) => failed(value.machine, e),
                    Ok(v) => store(
                        value.machine.with_regs(byte_op_regs(value.machine.regs, op, v)),
                        p,
                        byte_op_result(value.machine.regs, op, v),
                        opcode,
                    ),
                }
            },
        }
    }
}

/// The test of bit `n` of an operand: Zero is set iff the bit is clear, and
/// Carry is kept.
#[verifier::opaque]
pub open spec fn test_bit(m: Machine, n: u8, operand: OperandU8, opcode: u8) -> Step<()> {
    if n >= 8 {
        failed(m, CoreError::UnimplementedOpcode(opcode))
    } else {
        let value = read8(m, operand, opcode);
        match value.result {
            Err(e) => failed(value.machine, e),
            Ok(v) => done(
                value.machine.with_regs(
                    value.machine.regs.with_flags(
                        (FlagSet { z: !Alu::bit_is_set(n, v), n: false, h: true, cy: false }),
                        FLAGS_ZNH,
                    ),
                ),
                (),
            ),
        }
    }
}

/// A jump relative to the instruction that follows.  The offset is read
/// whether the jump is taken or not.
#[verifier::opaque]
pub open spec fn jump_relative(
    m: Machine,
    condition: Option<FlagCondition>,
    operand: OperandU8,
    opcode: u8,
) -> Step<()> {
    let value = read8(m, operand, opcode);
    match value.result {
        Err(e) => failed(value.machine, e),
        Ok(e8) => if taken(m.regs, condition) {
            done(value.machine.with_pc(Alu::offset_result(value.machine.regs.pc, e8)), ())
        } else {
            done(value.machine, ())
        },
    }
}

/// A jump to an address.  The address is read whether the jump is taken or
/// not.
#[verifier::opaque]
pub open spec fn jump(m: Machine, condition: Option<FlagCondition>, operand: OperandU16) -> Step<()> {
    let target = read16(m, operand);
    match target.result {
        Err(e) => failed(target.machine, e),
        Ok(addr) => if taken(m.regs, condition) {
            done(target.machine.with_pc(addr), ())
        } else {
            done(target.machine, ())
        },
    }
}

/// Pushes the program counter and continues at `addr`.
#[verifier::opaque]
pub open spec fn enter(m: Machine, addr: u16) -> Step<()> {
    let pushed = push16(m, m.regs.pc);
    match pushed.result {
        Err(e) => failed(pushed.machine, e),
        Ok(_) => done(pushed.machine.with_pc(addr), ()),
    }
}

/// A call: where it is taken, the address of the next instruction is pushed.
#[verifier::opaque]
pub open spec fn call(m: Machine, condition: Option<FlagCondition>, operand: OperandU16) -> Step<()> {
    let target = read16(m, operand);
    match target.result {
        Err(e) => failed(target.machine, e),
        Ok(addr) => if taken(m.regs, condition) {
            enter(target.machine, addr)
        } else {
            done(target.machine, ())
        },
    }
}

/// A return: where it is taken, the program counter is popped.
#[verifier::opaque]
pub open spec fn ret(m: Machine, condition: Option<FlagCondition>) -> Step<()> {
    if taken(m.regs, condition) {
        let popped = pop16(m);
        match popped.result {
            Err(e) => failed(popped.machine, e),
            Ok(addr) => done(popped.machine.with_pc(addr), ()),
        }
    } else {
        done(m, ())
    }
}

/// A call of the fixed address `8 * n`.
#[verifier::opaque]
pub open spec fn restart(m: Machine, n: u8, opcode: u8) -> Step<()> {
    if n >= 8 {
        failed(m, CoreError::UnimplementedOpcode(opcode))
    } else {
        enter(m, (8 * n) as u16)
    }
}

/// Pops a word into a register pair.
#[verifier::opaque]
pub open spec fn pop_pair(m: Machine, rr: RegisterU16) -> Step<()> {
    let popped = pop16(m);
    match popped.result {
        Err(e) => failed(popped.machine, e),
        Ok(v) => done(popped.machine.with_regs(popped.machine.regs.with_pair(rr, v)), ()),
    }
}

/// Reads and drops the operand of STOP.
#[verifier::opaque]
pub open spec fn skip_operand(m: Machine, operand: OperandU8, opcode: u8) -> Step<()> {
    let value = read8(m, operand, opcode);
    match value.result {
        Err(e) => failed(value.machine, e),
        Ok(_) => done(value.machine, ()),
    }
}

/// What a load does, by the widths of its operands.
pub open spec fn load_any(m: Machine, dst: Operand, src: Operand, opcode: u8) -> Step<()> {
    match (dst, src) {
        (Operand::U8(d), Operand::U8(s)) => load8(m, d, s, opcode),
        (Operand::U16(d), Operand::U16(s)) => load16(m, d, s, opcode),
        (Operand::U8(d), Operand::U16(s)) => store16(m, d, s, opcode),
        (Operand::U16(_), Operand::U8(_)) => failed(m, CoreError::UnimplementedOpcode(opcode)),
    }
}

/// What an addition does, by the widths of its operands.
pub open spec fn add_any(m: Machine, dst: Operand, src: Operand, opcode: u8) -> Step<()> {
    match (dst, src) {
        (Operand::U8(d), Operand::U8(s)) => arithmetic8(m, AccumulatorOp::Add, d, s, opcode),
        (Operand::U16(d), Operand::U16(s)) => add16(m, d, s, opcode),
        (Operand::U16(OperandU16::RegisterPair(RegisterU16::SP)), Operand::U8(s)) => add_offset(
            m,
            RegisterU16::SP,
            s,
            opcode,
        ),
        _ => failed(m, CoreError::UnimplementedOpcode(opcode)),
    }
}

/// Whether an instruction is a load or STOP.
pub open spec fn is_load(instruction: Instruction) -> bool {
    instruction is LD || instruction is LDH || instruction is LD22 || instruction is LD2A
        || instruction is LD32 || instruction is LD3A || instruction is LDF8 || instruction is STOP
}

/// Whether an instruction is an increment, a decrement or arithmetic.
pub open spec fn is_arithmetic(instruction: Instruction) -> bool {
    instruction is INC || instruction is DEC || instruction is ADD || instruction is ADC
        || instruction is SUB || instruction is SBC || instruction is AND || instruction is XOR
        || instruction is OR || instruction is CP
}

/// Whether an instruction is a jump, a call, a return or a stack operation.
pub open spec fn is_control_flow(instruction: Instruction) -> bool {
    instruction is JR || instruction is JP || instruction is CALL || instruction is RET
        || instruction is RETI || instruction is RST || instruction is PUSH || instruction is POP
}

/// Whether an instruction is one of the operations after the prefix.
pub open spec fn is_bit_operation(instruction: Instruction) -> bool {
    instruction is RLC || instruction is RRC || instruction is RL || instruction is RR
        || instruction is SLA || instruction is SRA || instruction is SWAP || instruction is SRL
        || instruction is BIT || instruction is RES || instruction is SET
}

/// What a load or STOP does.
pub open spec fn effect_load(m: Machine, instruction: Instruction, opcode: u8) -> Step<()> {
    match instruction {
        Instruction::STOP(op) => skip_operand(m, op, opcode),
        Instruction::LD(dst, src) => load_any(m, dst, src, opcode),
        Instruction::LDH(dst, src) => load8(m, dst, src, opcode),
        Instruction::LD22 => load_hl_step(m, true, 1),
        Instruction::LD2A => load_hl_step(m, false, 1),
        Instruction::LD32 => load_hl_step(m, true, -1),
        Instruction::LD3A => load_hl_step(m, false, -1),
        _ => add_offset(m, RegisterU16::HL, OperandU8::Immediate, opcode),
    }
}

/// What an increment, a decrement or arithmetic does.
pub open spec fn effect_arithmetic(m: Machine, instruction: Instruction, opcode: u8) -> Step<()> {
    match instruction {
        Instruction::INC(Operand::U8(op)) => step8(m, op, true, opcode),
        Instruction::INC(Operand::U16(op)) => step16(m, op, true, opcode),
        Instruction::DEC(Operand::U8(op)) => step8(m, op, false, opcode),
        Instruction::DEC(Operand::U16(op)) => step16(m, op, false, opcode),
        Instruction::ADD(dst, src) => add_any(m, dst, src, opcode),
        Instruction::ADC(dst, src) => arithmetic8(m, AccumulatorOp::Adc, dst, src, opcode),
        Instruction::SUB(dst, src) => arithmetic8(m, AccumulatorOp::Sub, dst, src, opcode),
        Instruction::SBC(dst, src) => arithmetic8(m, AccumulatorOp::Sbc, dst, src, opcode),
        Instruction::AND(dst, src) => arithmetic8(m, AccumulatorOp::And, dst, src, opcode),
        Instruction::XOR(dst, src) => arithmetic8(m, AccumulatorOp::Xor, dst, src, opcode),
        Instruction::OR(dst, src) => arithmetic8(m, AccumulatorOp::Or, dst, src, opcode),
        Instruction::CP(dst, src) => arithmetic8(m, AccumulatorOp::Cp, dst, src, opcode),
        _ => done(m, ()),
    }
}

/// What a jump, a call, a return or a stack operation does.
pub open spec fn effect_control_flow(m: Machine, instruction: Instruction, opcode: u8) -> Step<()> {
    match instruction {
        Instruction::JR(condition, op) => jump_relative(m, condition, op, opcode),
        Instruction::JP(condition, op) => jump(m, condition, op),
        Instruction::CALL(condition, op) => call(m, condition, op),
        Instruction::RET(condition) => ret(m, condition),
        Instruction::RETI => ret(m, None),
        Instruction::RST(n) => restart(m, n, opcode),
        Instruction::PUSH(rr) => push16(m, m.regs.pair(rr)),
        Instruction::POP(rr) => pop_pair(m, rr),
        _ => done(m, ()),
    }
}

/// What an operation after the prefix does.
pub open spec fn effect_bit_operation(m: Machine, instruction: Instruction, opcode: u8) -> Step<()> {
    match instruction {
        Instruction::RLC(op) => modify8(m, ByteOp::Rlc, op, opcode),
        Instruction::RRC(op) => modify8(m, ByteOp::Rrc, op, opcode),
        Instruction::RL(op) => modify8(m, ByteOp::Rl, op, opcode),
        Instruction::RR(op) => modify8(m, ByteOp::Rr, op, opcode),
        Instruction::SLA(op) => modify8(m, ByteOp::Sla, op, opcode),
        Instruction::SRA(op) => modify8(m, ByteOp::Sra, op, opcode),
        Instruction::SWAP(op) => modify8(m, ByteOp::Swap, op, opcode),
        Instruction::SRL(op) => modify8(m, ByteOp::Srl, op, opcode),
        Instruction::BIT(n, op) => test_bit(m, n, op, opcode),
        Instruction::RES(n, op) => modify8(m, ByteOp::ResetBit(n), op, opcode),
        Instruction::SET(n, op) => modify8(m, ByteOp::SetBit(n), op, opcode),
        _ => done(m, ()),
    }
}

/// What an instruction without operand does.  NOP and HALT do nothing, and
/// neither do DI and EI to the machine itself; `ILLEGAL` fails.
pub open spec fn effect_plain(m: Machine, instruction: Instruction) -> Step<()> {
    let r = m.regs;
    match instruction {
        Instruction::DAA => done(m.with_regs(Alu::daa_spec(r)), ()),
        Instruction::CPL => done(m.with_regs(Alu::cpl_spec(r)), ()),
        Instruction::SCF => done(m.with_regs(Alu::carry_spec(r, true)), ()),
        Instruction::CCF => done(m.with_regs(Alu::carry_spec(r, !r.flag(Flags::CY))), ()),
        Instruction::RLCA => done(m.with_regs(rotate_accumulator(r, Direction::Left, false)), ()),
        Instruction::RRCA => done(m.with_regs(rotate_accumulator(r, Direction::Right, false)), ()),
        Instruction::RLA => done(m.with_regs(rotate_accumulator(r, Direction::Left, true)), ()),
        Instruction::RRA => done(m.with_regs(rotate_accumulator(r, Direction::Right, true)), ()),
        Instruction::ILLEGAL(byte) => failed(m, CoreError::IllegalOpcode(byte)),
        _ => done(m, ()),
    }
}

/// What an instruction does to the machine.  `opcode` is the byte that it
/// was decoded from, which an error names.
pub open spec fn effect(m: Machine, instruction: Instruction, opcode: u8) -> Step<()> {
    if is_load(instruction) {
        effect_load(m, instruction, opcode)
    } else if is_arithmetic(instruction) {
        effect_arithmetic(m, instruction, opcode)
    } else if is_control_flow(instruction) {
        effect_control_flow(m, instruction, opcode)
    } else if is_bit_operation(instruction) {
        effect_bit_operation(m, instruction, opcode)
    } else {
        effect_plain(m, instruction)
    }
}

/// Whether the place of an operand can be found: the offset into the high
/// page is a register or an immediate byte.
pub open spec fn locatable(operand: OperandU8) -> bool {
    match operand {
        OperandU8::MemoryU8(inner) => *inner is Register || *inner is Immediate,
        _ => true,
    }
}

/// Whether an operand can be stored to: its place can be found and it is no
/// immediate byte.
pub open spec fn storable(operand: OperandU8) -> bool {
    locatable(operand) && !(operand is Immediate)
}

/// Whether an operand is the accumulator.
pub open spec fn is_accumulator(operand: OperandU8) -> bool {
    operand == OperandU8::Register(RegisterU8::A)
}

/// Whether the dispatcher executes an instruction of this form.  The forms
/// that it does not execute are those that no opcode stands for and that
/// have no meaning: a store to an immediate byte, arithmetic into another
/// register than the accumulator, a bit number above 7.
pub open spec fn executable(instruction: Instruction) -> bool {
    match instruction {
        Instruction::LD(Operand::U8(d), Operand::U8(s)) => locatable(s) && storable(d),
        Instruction::LD(Operand::U16(d), Operand::U16(_)) => d is RegisterPair,
        Instruction::LD(Operand::U8(d), Operand::U16(_)) => locatable(d) && (d is Memory
            || d is MemoryU8),
        Instruction::LD(Operand::U16(_), Operand::U8(_)) => false,
        Instruction::LDH(d, s) => locatable(s) && storable(d),
        Instruction::STOP(op) => locatable(op),
        Instruction::INC(Operand::U8(op)) | Instruction::DEC(Operand::U8(op)) => storable(op),
        Instruction::INC(Operand::U16(op)) | Instruction::DEC(Operand::U16(op)) => op
            is RegisterPair,
        Instruction::ADD(Operand::U8(d), Operand::U8(s)) => is_accumulator(d) && locatable(s),
        Instruction::ADD(Operand::U16(d), Operand::U16(_)) => d is RegisterPair,
        Instruction::ADD(Operand::U16(d), Operand::U8(s)) => d == OperandU16::RegisterPair(
            RegisterU16::SP,
        ) && locatable(s),
        Instruction::ADD(Operand::U8(_), Operand::U16(_)) => false,
        Instruction::ADC(d, s) | Instruction::SUB(d, s) | Instruction::SBC(d, s) | Instruction::AND(
            d,
            s,
        ) | Instruction::XOR(d, s) | Instruction::OR(d, s) | Instruction::CP(d, s) => is_accumulator(
            d,
        ) && locatable(s),
        Instruction::JR(_, op) => locatable(op),
        Instruction::RST(n) => n < 8,
        Instruction::RLC(op) | Instruction::RRC(op) | Instruction::RL(op) | Instruction::RR(op)
        | Instruction::SLA(op) | Instruction::SRA(op) | Instruction::SWAP(op) | Instruction::SRL(
            op,
        ) => storable(op),
        Instruction::BIT(n, op) => n < 8 && locatable(op),
        Instruction::RES(n, op) | Instruction::SET(n, op) => n < 8 && storable(op),
        Instruction::ILLEGAL(_) => false,
        _ => true,
    }
}

/// Whether an error is one of the memory map.
pub open spec fn is_memory_error(error: CoreError) -> bool {
    error is UnmappedAddress || error is ReadOnlyViolation
}

/// The machine cycles that the access to an 8-bit operand takes.
pub open spec fn operand_cycles(operand: OperandU8) -> int {
    match operand {
        OperandU8::Register(_) => 0,
        OperandU8::Immediate => 1,
        OperandU8::Memory(OperandU16::RegisterPair(_)) => 1,
        OperandU8::Memory(OperandU16::Immediate) => 3,
        OperandU8::MemoryU8(inner) => match *inner {
            OperandU8::Immediate => 2,
            _ => 1,
        },
    }
}

/// The machine cycles that the read of a 16-bit operand takes.
pub open spec fn operand16_cycles(operand: OperandU16) -> int {
    match operand {
        OperandU16::RegisterPair(_) => 0,
        OperandU16::Immediate => 2,
    }
}

/// The machine cycles that an instruction takes: one for the opcode, two
/// after the prefix, one for each byte read or written, and what the
/// processor needs for itself.  A branch takes longer where it is taken.
pub open spec fn timing(instruction: Instruction, branch: bool) -> int {
    match instruction {
        Instruction::LD(Operand::U8(d), Operand::U8(s)) => 1 + operand_cycles(d) + operand_cycles(
            s,
        ),
        Instruction::LD(Operand::U16(_), Operand::U16(s)) => if operand16_cycles(s) == 0 {
            2
        } else {
            3
        },
        Instruction::LD(Operand::U8(d), Operand::U16(s)) => 2 + operand_cycles(d)
            + operand16_cycles(s),
        Instruction::LDH(d, s) => 1 + operand_cycles(d) + operand_cycles(s),
        Instruction::LD22 | Instruction::LD2A | Instruction::LD32 | Instruction::LD3A => 2,
        Instruction::LDF8 => 3,
        Instruction::INC(Operand::U8(op)) | Instruction::DEC(Operand::U8(op)) => 1 + 2
            * operand_cycles(op),
        Instruction::INC(Operand::U16(_)) | Instruction::DEC(Operand::U16(_)) => 2,
        Instruction::ADD(Operand::U8(_), Operand::U8(s)) => 1 + operand_cycles(s),
        Instruction::ADD(Operand::U16(_), Operand::U16(s)) => 2 + operand16_cycles(s),
        Instruction::ADD(Operand::U16(_), Operand::U8(_)) => 4,
        Instruction::ADC(_, s) | Instruction::SUB(_, s) | Instruction::SBC(_, s) | Instruction::AND(
            _,
            s,
        ) | Instruction::XOR(_, s) | Instruction::OR(_, s) | Instruction::CP(_, s) => 1
            + operand_cycles(s),
        Instruction::JR(_, _) => if branch {
            3
        } else {
            2
        },
        Instruction::JP(_, op) => 1 + operand16_cycles(op) + (if branch && operand16_cycles(op)
            != 0 {
            1int
        } else {
            0int
        }),
        Instruction::CALL(_, op) => 1 + operand16_cycles(op) + (if branch {
            3int
        } else {
            0int
        }),
        Instruction::RET(None) | Instruction::RETI => 4,
        Instruction::RET(Some(_)) => if branch {
            5
        } else {
            2
        },
        Instruction::RST(_) | Instruction::PUSH(_) => 4,
        Instruction::POP(_) => 3,
        Instruction::RLC(op) | Instruction::RRC(op) | Instruction::RL(op) | Instruction::RR(op)
        | Instruction::SLA(op) | Instruction::SRA(op) | Instruction::SWAP(op) | Instruction::SRL(
            op,
        ) | Instruction::RES(_, op) | Instruction::SET(_, op) => 2 + 2 * operand_cycles(op),
        Instruction::BIT(_, op) => 2 + operand_cycles(op),
        _ => 1,
    }
}

/// The condition of an instruction that branches.
pub open spec fn condition_of(instruction: Instruction) -> Option<FlagCondition> {
    match instruction {
        Instruction::JR(c, _) => c,
        Instruction::JP(c, _) => c,
        Instruction::CALL(c, _) => c,
        Instruction::RET(c) => c,
        _ => None,
    }
}

/// The execution of one instruction: the state after it, and the machine
/// cycles it took or the error that ended it.
pub open spec fn execute(m: Machine, instruction: Instruction, opcode: u8) -> Step<u8> {
    let after = effect(m, instruction, opcode);
    match after.result {
        Err(e) => failed(after.machine, e),
        Ok(_) => done(
            after.machine,
            timing(instruction, taken(m.regs, condition_of(instruction))) as u8,
        ),
    }
}

/// The interrupt controller after an instruction: DI disables interrupts,
/// EI enables them after the next instruction, RETI at once.  An instruction
/// that fails leaves the controller as it was.
pub open spec fn interrupts_after(
    interrupt: InterruptState,
    instruction: Instruction,
    succeeded: bool,
) -> InterruptState {
    if !succeeded {
        interrupt
    } else {
        match instruction {
            Instruction::DI => InterruptState { ime: false, ime_pending: false, ..interrupt },
            Instruction::EI => InterruptState { ime_pending: true, ..interrupt },
            Instruction::RETI => InterruptState { ime: true, ime_pending: false, ..interrupt },
            _ => interrupt,
        }
    }
}

/// One step of the processor: fetch, decode, execute.  After the prefix
/// byte the next byte is fetched and decoded in the second table.
pub open spec fn step(m: Machine) -> Step<(Instruction, u8)> {
    let first = fetch8(m);
    match first.result {
        Err(e) => failed(first.machine, e),
        Ok(byte) => if byte == 0xCB {
            let second = fetch8(first.machine);
            match second.result {
                Err(e) => failed(second.machine, e),
                Ok(op) => run(second.machine, crate::instructions::decode_prefixed(op), op),
            }
        } else {
            run(first.machine, crate::instructions::decode_unprefixed(byte), byte)
        },
    }
}

/// The servicing of an interrupt with the handler at `vector`: the program
/// counter is pushed and execution continues at the handler.
pub open spec fn service(m: Machine, vector: Option<u16>) -> Step<Option<u16>> {
    match vector {
        None => done(m, None),
        Some(addr) => {
            let entered = enter(m, addr);
            match entered.result {
                Err(e) => failed(entered.machine, e),
                Ok(_) => done(entered.machine, Some(addr)),
            }
        },
    }
}

/// Executes a decoded instruction and hands it back with its cycles.
pub open spec fn run(m: Machine, instruction: Instruction, opcode: u8) -> Step<(Instruction, u8)> {
    let executed = execute(m, instruction, opcode);
    match executed.result {
        Err(e) => failed(executed.machine, e),
        Ok(cycles) => done(executed.machine, (instruction, cycles)),
    }
}

} // verus!
