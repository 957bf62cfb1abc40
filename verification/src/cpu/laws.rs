//! What holds of the decoder and of the execution of every instruction.

use vstd::prelude::*;

use crate::cpu::semantics::{
    effect_arithmetic, effect_bit_operation, effect_control_flow, effect_load, effect_plain,
    is_arithmetic, is_bit_operation, is_control_flow, is_load,
};
use crate::cpu::semantics::{
    accumulate, add16, add_any, add_offset, arithmetic8, byte_op_regs, byte_op_result,
    byte_op_valid, call, done, effect, enter, executable, execute, failed, fetch16, fetch8,
    is_accumulator, is_memory_error, jump, jump_relative, load, load16, load8, load_any,
    load_hl_step,
    locatable, locate, modify8, pop16, pop_pair, push16, read16, read8, read_at, restart, ret,
    rotate_accumulator, skip_operand, step, step16, step8, storable, store, store16, test_bit,
    timing,
    wrap16, write_at, AccumulatorOp, ByteOp, Machine, Place, Step,
};
use crate::error::CoreError;
use crate::instructions::{
    decode_prefixed, decode_spec, decode_unprefixed, is_illegal_opcode, FlagCondition,
    Instruction, Operand, OperandU16, OperandU8,
};
use crate::memory_mapping::{
    lemma_read_after_write, lemma_write_fails, lemma_write_keeps_others, lemma_write_keeps_wf,
    WRAM_BANK_SELECT,
};
use crate::registers::alu::{
    lemma_commit_all, lemma_daa, Alu, Direction, FLAGS_NH, FLAGS_NHC, FLAGS_ZNH,
};
use crate::registers::{FlagSet, Flags, RegisterU16, RegisterU8, Registers, FLAGS_ALL};

verus! {

/// After the prefix every byte is an instruction that the dispatcher
/// executes: a rotation, shift or swap, or BIT, RES or SET with a bit number
/// from 0 to 7.
pub proof fn lemma_prefixed_is_executable(byte: u8)
    ensures
        !(decode_prefixed(byte) is ILLEGAL),
        executable(decode_prefixed(byte)),
{
}

/// Without prefix every byte but the prefix itself decodes: the eleven
/// bytes that are no opcode to `ILLEGAL` with the byte, every other byte to
/// an instruction that the dispatcher executes.
pub proof fn lemma_unprefixed_is_executable(byte: u8)
    requires
        byte != 0xCB,
    ensures
        is_illegal_opcode(byte) ==> decode_unprefixed(byte) == Instruction::ILLEGAL(byte),
        !is_illegal_opcode(byte) ==> executable(decode_unprefixed(byte)),
{
}

/// What the decoder returns is `ILLEGAL` or an instruction that the
/// dispatcher executes.
pub proof fn lemma_decoded_is_executable(opcode: u8, cb_prefixed: bool)
    requires
        cb_prefixed || opcode != 0xCB,
    ensures
        decode_spec(opcode, cb_prefixed) is ILLEGAL <==> !cb_prefixed && is_illegal_opcode(opcode),
        decode_spec(opcode, cb_prefixed) is ILLEGAL || executable(
            decode_spec(opcode, cb_prefixed),
        ),
{
    lemma_prefixed_is_executable(opcode);
    if !cb_prefixed {
        lemma_unprefixed_is_executable(opcode);
    }
}

/// Every operation of the arithmetic/logic unit that the dispatcher uses
/// keeps the low nibble of F as it was.
pub proof fn lemma_alu_keeps_wf(regs: Registers, b: u8)
    ensures
        forall|op: AccumulatorOp| (#[trigger] accumulate(regs, op, b)).wf() == regs.wf(),
        forall|op: ByteOp| (#[trigger] byte_op_regs(regs, op, b)).wf() == regs.wf(),
        forall|dir: Direction, carry: bool|
            (#[trigger] rotate_accumulator(regs, dir, carry)).wf() == regs.wf(),
        forall|flags: FlagSet, mask: u8| (#[trigger] regs.with_flags(flags, mask)).wf() == regs.wf(),
        forall|carry: bool| (#[trigger] Alu::carry_spec(regs, carry)).wf() == regs.wf(),
        Alu::daa_spec(regs).wf() == regs.wf(),
        Alu::cpl_spec(regs).wf() == regs.wf(),
{
    reveal(accumulate);
    reveal(byte_op_regs);
    reveal(rotate_accumulator);
    assert forall|flags: FlagSet, mask: u8|
        (#[trigger] regs.with_flags(flags, mask)).wf() == regs.wf() by {
        regs.lemma_with_flags(flags, mask, Flags::Z);
    }
    assert forall|op: AccumulatorOp| (#[trigger] accumulate(regs, op, b)).wf() == regs.wf() by {
        let a = regs.a;
        let cy = regs.flag(Flags::CY);
        regs.lemma_with_flags(Alu::add8_flags(a, b, false), FLAGS_ALL, Flags::Z);
        regs.lemma_with_flags(Alu::add8_flags(a, b, cy), FLAGS_ALL, Flags::Z);
        regs.lemma_with_flags(Alu::sub8_flags(a, b, false), FLAGS_ALL, Flags::Z);
        regs.lemma_with_flags(Alu::sub8_flags(a, b, cy), FLAGS_ALL, Flags::Z);
        regs.lemma_with_flags(Alu::logic_flags(a & b, true), FLAGS_ALL, Flags::Z);
        regs.lemma_with_flags(Alu::logic_flags(a ^ b, false), FLAGS_ALL, Flags::Z);
        regs.lemma_with_flags(Alu::logic_flags(a | b, false), FLAGS_ALL, Flags::Z);
    }
    assert forall|op: ByteOp| (#[trigger] byte_op_regs(regs, op, b)).wf() == regs.wf() by {
        let res = byte_op_result(regs, op, b);
        regs.lemma_with_flags(Alu::shift_flags(Direction::Left, b, res), FLAGS_ALL, Flags::Z);
        regs.lemma_with_flags(Alu::shift_flags(Direction::Right, b, res), FLAGS_ALL, Flags::Z);
        regs.lemma_with_flags(Alu::logic_flags(res, false), FLAGS_ALL, Flags::Z);
    }
    assert forall|dir: Direction, carry: bool|
        (#[trigger] rotate_accumulator(regs, dir, carry)).wf() == regs.wf() by {
        let res = Alu::rotate_result(dir, regs.a, carry, regs.flag(Flags::CY));
        let flagged = regs.with_flags(Alu::shift_flags(dir, regs.a, res), FLAGS_ALL);
        regs.lemma_with_flags(Alu::shift_flags(dir, regs.a, res), FLAGS_ALL, Flags::Z);
        flagged.with_reg8(RegisterU8::A, res).lemma_with_flag(Flags::Z, false, FLAGS_ALL, Flags::N);
    }
    lemma_daa(regs);
    (Registers { a: (255 - regs.a) as u8, ..regs }).lemma_with_flags(
        (FlagSet { z: false, n: true, h: true, cy: false }),
        FLAGS_NH,
        Flags::Z,
    );
}

/// The properties that the laws below follow through every piece of work:
/// the machine stays well formed, and an error is one of the memory map.
pub open spec fn sound<T>(before: Machine, after: Step<T>) -> bool {
    &&& before.wf() ==> after.machine.wf()
    &&& after.result is Err ==> is_memory_error(after.result->Err_0)
}

/// Reading and writing memory, fetching from the program, and the stack
/// keep the machine well formed and fail with an error of the memory map
/// only.
pub proof fn lemma_memory_access(m: Machine, addr: u16, val: u8, word: u16)
    ensures
        sound(m, read_at(m, addr)),
        sound(m, write_at(m, addr, val)),
        sound(m, fetch8(m)),
        sound(m, fetch16(m)),
        sound(m, push16(m, word)),
        sound(m, pop16(m)),
        sound(m, enter(m, addr)),
{
    reveal(fetch8);
    reveal(fetch16);
    reveal(pop16);
    reveal(enter);
    lemma_write_fails(m.mem, addr, val);
    if m.wf() {
        lemma_write_keeps_wf(m.mem, addr, val);
    }
    lemma_push(m, word);
    lemma_push(m, m.regs.pc);
}

/// A push keeps the machine well formed and fails with an error of the
/// memory map only.
proof fn lemma_push(m: Machine, word: u16)
    ensures
        sound(m, push16(m, word)),
{
    reveal(push16);
    let hi = (word / 256) as u8;
    let lo = (word % 256) as u8;
    let a1 = wrap16(m.regs.sp - 1);
    let a2 = wrap16(m.regs.sp - 2);
    lemma_write_fails(m.mem, a1, hi);
    let m1 = write_at(m, a1, hi).machine;
    lemma_write_fails(m1.mem, a2, lo);
    if m.wf() {
        lemma_write_keeps_wf(m.mem, a1, hi);
        lemma_write_keeps_wf(m1.mem, a2, lo);
    }
}

/// Finding, loading and storing an operand keep the machine well formed.
/// They fail with an error of the memory map, or with
/// `UnimplementedOpcode` for the opcode exactly where the operand has no
/// place or the place is an immediate byte that is stored to.
pub proof fn lemma_operand_access(m: Machine, operand: OperandU8, place: Place, val: u8, opcode: u8)
    ensures
        m.wf() ==> locate(m, operand, opcode).machine.wf(),
        m.wf() ==> load(m, place).machine.wf(),
        m.wf() ==> store(m, place, val, opcode).machine.wf(),
        m.wf() ==> read8(m, operand, opcode).machine.wf(),
        locatable(operand) ==> sound(m, locate(m, operand, opcode)),
        locatable(operand) ==> sound(m, read8(m, operand, opcode)),
        !locatable(operand) ==> locate(m, operand, opcode) == failed::<Place>(
            m,
            CoreError::UnimplementedOpcode(opcode),
        ),
        !locatable(operand) ==> read8(m, operand, opcode) == failed::<u8>(
            m,
            CoreError::UnimplementedOpcode(opcode),
        ),
        locate(m, operand, opcode).result is Ok ==> (locate(m, operand, opcode).result->Ok_0
            is Value <==> operand is Immediate),
        sound(m, load(m, place)),
        !(place is Value) ==> sound(m, store(m, place, val, opcode)),
        place is Value ==> store(m, place, val, opcode) == failed::<()>(
            m,
            CoreError::UnimplementedOpcode(opcode),
        ),
{
    reveal(locate);
    reveal(load);
    reveal(store);
    reveal(read8);
    lemma_memory_access(m, 0, 0, 0);
    let located = locate(m, operand, opcode);
    match located.result {
        Ok(Place::Memory(addr)) => {
            lemma_memory_access(located.machine, addr, 0, 0);
        },
        _ => {},
    }
    match place {
        Place::Memory(addr) => {
            lemma_memory_access(m, addr, val, 0);
        },
        _ => {},
    }
}

/// What holds of work on an instruction in a form that the dispatcher
/// executes or not: the machine stays well formed; work on an executable
/// form fails with an error of the memory map only; work on another form
/// fails, with `UnimplementedOpcode` for the opcode unless a memory access
/// failed before the form was found out.
pub open spec fn lawful<T>(before: Machine, after: Step<T>, executable: bool, opcode: u8) -> bool {
    &&& before.wf() ==> after.machine.wf()
    &&& after.result is Err ==> is_memory_error(after.result->Err_0) || (!executable
        && after.result->Err_0 == CoreError::UnimplementedOpcode(opcode))
    &&& !executable ==> after.result is Err
}

/// The loads.
pub proof fn lemma_loads(m: Machine, dst: Operand, src: Operand, opcode: u8)
    ensures
        lawful(
            m,
            load_any(m, dst, src, opcode),
            executable(Instruction::LD(dst, src)),
            opcode,
        ),
        dst is U8 && src is U8 ==> lawful(
            m,
            load8(m, dst->U8_0, src->U8_0, opcode),
            executable(Instruction::LDH(dst->U8_0, src->U8_0)),
            opcode,
        ),
{
    reveal(locate);
    reveal(load8);
    reveal(load16);
    reveal(store16);
    reveal(read16);
    match (dst, src) {
        (Operand::U8(d), Operand::U8(s)) => {
            let value = read8(m, s, opcode);
            lemma_operand_access(m, s, Place::Value(0), 0, opcode);
            if value.result is Ok {
                let place = locate(value.machine, d, opcode);
                lemma_operand_access(value.machine, d, Place::Value(0), 0, opcode);
                if place.result is Ok {
                    lemma_operand_access(
                        place.machine,
                        d,
                        place.result->Ok_0,
                        value.result->Ok_0,
                        opcode,
                    );
                }
            }
        },
        (Operand::U16(d), Operand::U16(s)) => {
            lemma_memory_access(m, 0, 0, 0);
            let value = read16(m, s);
            if value.result is Ok && d is RegisterPair {
                let v = value.result->Ok_0;
                if value.machine.wf() {
                    value.machine.regs.lemma_with_pair_wf(
                        d->RegisterPair_0,
                        (v / 256) as u8,
                        (v % 256) as u8,
                    );
                }
            }
        },
        (Operand::U8(d), Operand::U16(s)) => {
            lemma_memory_access(m, 0, 0, 0);
            let value = read16(m, s);
            if value.result is Ok {
                let v = value.result->Ok_0;
                let place = locate(value.machine, d, opcode);
                lemma_operand_access(value.machine, d, Place::Value(0), 0, opcode);
                match place.result {
                    Ok(Place::Memory(addr)) => {
                        lemma_memory_access(place.machine, addr, (v % 256) as u8, 0);
                        let low = write_at(place.machine, addr, (v % 256) as u8);
                        lemma_memory_access(low.machine, wrap16(addr + 1), (v / 256) as u8, 0);
                    },
                    _ => {},
                }
            }
        },
        _ => {},
    }
}

/// The loads through HL that move HL.
pub proof fn lemma_load_hl_step(m: Machine, to_memory: bool, delta: int)
    ensures
        sound(m, load_hl_step(m, to_memory, delta)),
{
    reveal(load_hl_step);
    let hl = m.regs.pair(RegisterU16::HL);
    lemma_memory_access(m, hl, m.regs.a, 0);
    let next = wrap16(hl + delta);
    let access = if to_memory {
        write_at(m, hl, m.regs.a)
    } else {
        done(m.with_regs(m.regs.with_reg8(RegisterU8::A, 0)), ())
    };
    if m.wf() {
        access.machine.regs.lemma_with_pair_wf(
            RegisterU16::HL,
            (next / 256) as u8,
            (next % 256) as u8,
        );
        let loaded = load_hl_step(m, to_memory, delta);
        if loaded.result is Ok {
            loaded.machine.regs.lemma_with_pair_wf(RegisterU16::HL, 0, 0);
            assert(loaded.machine.regs.f == m.regs.f);
        }
    }
}

/// The arithmetic.
pub proof fn lemma_arithmetic(
    m: Machine,
    op: AccumulatorOp,
    dst: Operand,
    src: Operand,
    rr: RegisterU16,
    opcode: u8,
)
    ensures
        dst is U8 && src is U8 ==> lawful(
            m,
            arithmetic8(m, op, dst->U8_0, src->U8_0, opcode),
            is_accumulator(dst->U8_0) && locatable(src->U8_0),
            opcode,
        ),
        dst is U16 && src is U16 ==> lawful(
            m,
            add16(m, dst->U16_0, src->U16_0, opcode),
            dst->U16_0 is RegisterPair,
            opcode,
        ),
        src is U8 ==> lawful(
            m,
            add_offset(m, rr, src->U8_0, opcode),
            locatable(src->U8_0),
            opcode,
        ),
        lawful(m, add_any(m, dst, src, opcode), executable(Instruction::ADD(dst, src)), opcode),
{
    reveal(arithmetic8);
    reveal(add16);
    reveal(add_offset);
    reveal(read16);
    match src {
        Operand::U8(s) => {
            let value = read8(m, s, opcode);
            lemma_operand_access(m, s, Place::Value(0), 0, opcode);
            if value.result is Ok {
                let b = value.result->Ok_0;
                let regs = value.machine.regs;
                lemma_alu_keeps_wf(regs, b);
                let flagged = regs.with_flags(Alu::offset_flags(regs.sp, b), FLAGS_ALL);
                let sum = Alu::offset_result(regs.sp, b);
                if flagged.wf() {
                    flagged.lemma_with_pair_wf(rr, (sum / 256) as u8, (sum % 256) as u8);
                    flagged.lemma_with_pair_wf(
                        RegisterU16::SP,
                        (sum / 256) as u8,
                        (sum % 256) as u8,
                    );
                }
            }
        },
        Operand::U16(s) => {
            lemma_memory_access(m, 0, 0, 0);
            let value = read16(m, s);
            match dst {
                Operand::U16(OperandU16::RegisterPair(d)) => {
                    if value.result is Ok {
                        let v = value.result->Ok_0;
                        let regs = value.machine.regs;
                        lemma_alu_keeps_wf(regs, 0);
                        let flagged = regs.with_flags(
                            Alu::add16_flags(regs.pair(d), v, false),
                            FLAGS_NHC,
                        );
                        let sum = Alu::add16_result(regs.pair(d), v, false);
                        if flagged.wf() {
                            flagged.lemma_with_pair_wf(d, (sum / 256) as u8, (sum % 256) as u8);
                        }
                    }
                },
                _ => {},
            }
        },
    }
}

/// What changes an operand in place: increment, decrement and the byte
/// operations; and the test of a bit.
pub proof fn lemma_in_place(m: Machine, operand: OperandU8, up: bool, op: ByteOp, n: u8, opcode: u8)
    ensures
        lawful(m, step8(m, operand, up, opcode), storable(operand), opcode),
        lawful(
            m,
            modify8(m, op, operand, opcode),
            byte_op_valid(op) && storable(operand),
            opcode,
        ),
        lawful(m, test_bit(m, n, operand, opcode), n < 8 && locatable(operand), opcode),
{
    reveal(step8);
    reveal(modify8);
    reveal(test_bit);
    reveal(read8);
    lemma_operand_access(m, operand, Place::Value(0), 0, opcode);
    let place = locate(m, operand, opcode);
    if place.result is Ok {
        let p = place.result->Ok_0;
        let value = load(place.machine, p);
        lemma_operand_access(place.machine, operand, p, 0, opcode);
        if value.result is Ok {
            let v = value.result->Ok_0;
            let regs = value.machine.regs;
            lemma_alu_keeps_wf(regs, v);
            lemma_operand_access(
                value.machine.with_regs(regs.with_flags(Alu::add8_flags(v, 1, false), FLAGS_ZNH)),
                operand,
                p,
                Alu::add8_result(v, 1, false),
                opcode,
            );
            lemma_operand_access(
                value.machine.with_regs(regs.with_flags(Alu::sub8_flags(v, 1, false), FLAGS_ZNH)),
                operand,
                p,
                Alu::sub8_result(v, 1, false),
                opcode,
            );
            lemma_operand_access(
                value.machine.with_regs(byte_op_regs(regs, op, v)),
                operand,
                p,
                byte_op_result(regs, op, v),
                opcode,
            );
        }
    }
}

/// The 16-bit increment and decrement.
pub proof fn lemma_step16(m: Machine, operand: OperandU16, up: bool, opcode: u8)
    ensures
        lawful(m, step16(m, operand, up, opcode), operand is RegisterPair, opcode),
{
    reveal(step16);
    match operand {
        OperandU16::RegisterPair(rr) => {
            let next = wrap16(
                m.regs.pair(rr) + (if up {
                    1int
                } else {
                    -1int
                }),
            );
            if m.wf() {
                m.regs.lemma_with_pair_wf(rr, (next / 256) as u8, (next % 256) as u8);
            }
        },
        _ => {},
    }
}

/// Jumps, calls, returns and the stack.
pub proof fn lemma_control_flow(
    m: Machine,
    condition: Option<FlagCondition>,
    operand: OperandU8,
    target: OperandU16,
    rr: RegisterU16,
    n: u8,
    opcode: u8,
)
    ensures
        lawful(m, jump_relative(m, condition, operand, opcode), locatable(operand), opcode),
        lawful(m, skip_operand(m, operand, opcode), locatable(operand), opcode),
        sound(m, jump(m, condition, target)),
        sound(m, call(m, condition, target)),
        sound(m, ret(m, condition)),
        lawful(m, restart(m, n, opcode), n < 8, opcode),
        sound(m, push16(m, m.regs.pair(rr))),
        sound(m, pop_pair(m, rr)),
{
    reveal(jump_relative);
    reveal(skip_operand);
    reveal(jump);
    reveal(call);
    reveal(ret);
    reveal(restart);
    reveal(pop_pair);
    reveal(read16);
    lemma_operand_access(m, operand, Place::Value(0), 0, opcode);
    lemma_memory_access(m, (8 * n) as u16, 0, m.regs.pair(rr));
    let read = read16(m, target);
    if read.result is Ok {
        lemma_memory_access(read.machine, read.result->Ok_0, 0, 0);
    }
    let popped = pop16(m);
    if popped.result is Ok && m.wf() {
        let v = popped.result->Ok_0;
        popped.machine.regs.lemma_with_pair_wf(rr, (v / 256) as u8, (v % 256) as u8);
    }
}

/// The execution of one instruction keeps the machine well formed.  An
/// instruction in a form that the dispatcher executes takes from 1 to 8
/// machine cycles, or fails with an error of the memory map.  `ILLEGAL`
/// fails with `IllegalOpcode` and changes nothing.  Any other form fails:
/// with `UnimplementedOpcode` for the opcode, unless a memory access failed
/// before.
pub proof fn lemma_execute(m: Machine, instruction: Instruction, opcode: u8)
    ensures
        m.wf() ==> execute(m, instruction, opcode).machine.wf(),
        executable(instruction) ==> match execute(m, instruction, opcode).result {
            Ok(cycles) => 1 <= cycles <= 8,
            Err(e) => is_memory_error(e),
        },
        instruction is ILLEGAL ==> execute(m, instruction, opcode) == failed::<u8>(
            m,
            CoreError::IllegalOpcode(instruction->ILLEGAL_0),
        ),
        !executable(instruction) && !(instruction is ILLEGAL) ==> match execute(
            m,
            instruction,
            opcode,
        ).result {
            Ok(_) => false,
            Err(e) => e == CoreError::UnimplementedOpcode(opcode) || is_memory_error(e),
        },
{
    lemma_effect(m, instruction, opcode);
    lemma_timing(instruction, true);
    lemma_timing(instruction, false);
}

/// An instruction in a form that the dispatcher executes takes from 1 to 8
/// machine cycles.
pub proof fn lemma_timing(instruction: Instruction, branch: bool)
    ensures
        1 <= timing(instruction, branch) <= 8,
{
}

/// The byte operation that an operation after the prefix applies.
pub open spec fn byte_op_of(instruction: Instruction) -> ByteOp {
    match instruction {
        Instruction::RLC(_) => ByteOp::Rlc,
        Instruction::RRC(_) => ByteOp::Rrc,
        Instruction::RL(_) => ByteOp::Rl,
        Instruction::RR(_) => ByteOp::Rr,
        Instruction::SLA(_) => ByteOp::Sla,
        Instruction::SRA(_) => ByteOp::Sra,
        Instruction::SRL(_) => ByteOp::Srl,
        Instruction::RES(n, _) => ByteOp::ResetBit(n),
        Instruction::SET(n, _) => ByteOp::SetBit(n),
        _ => ByteOp::Swap,
    }
}

/// The operation on the accumulator that an arithmetic instruction applies.
pub open spec fn accumulator_op_of(instruction: Instruction) -> AccumulatorOp {
    match instruction {
        Instruction::ADC(_, _) => AccumulatorOp::Adc,
        Instruction::SUB(_, _) => AccumulatorOp::Sub,
        Instruction::SBC(_, _) => AccumulatorOp::Sbc,
        Instruction::AND(_, _) => AccumulatorOp::And,
        Instruction::XOR(_, _) => AccumulatorOp::Xor,
        Instruction::OR(_, _) => AccumulatorOp::Or,
        Instruction::CP(_, _) => AccumulatorOp::Cp,
        _ => AccumulatorOp::Add,
    }
}

/// The operand that an instruction reads, or changes in place.
pub open spec fn source_of(instruction: Instruction) -> Operand {
    match instruction {
        Instruction::INC(op) | Instruction::DEC(op) => op,
        Instruction::ADD(_, s) => s,
        Instruction::ADC(_, s) | Instruction::SUB(_, s) | Instruction::SBC(_, s) | Instruction::AND(
            _,
            s,
        ) | Instruction::XOR(_, s) | Instruction::OR(_, s) | Instruction::CP(_, s) => Operand::U8(
            s,
        ),
        Instruction::RLC(op) | Instruction::RRC(op) | Instruction::RL(op) | Instruction::RR(op)
        | Instruction::SLA(op) | Instruction::SRA(op) | Instruction::SWAP(op) | Instruction::SRL(
            op,
        ) | Instruction::BIT(_, op) | Instruction::RES(_, op) | Instruction::SET(_, op) => Operand::U8(
            op,
        ),
        _ => Operand::U8(OperandU8::Immediate),
    }
}

/// The operand that an arithmetic instruction stores to.
pub open spec fn destination_of(instruction: Instruction) -> Operand {
    match instruction {
        Instruction::ADD(d, _) => d,
        Instruction::ADC(d, _) | Instruction::SUB(d, _) | Instruction::SBC(d, _) | Instruction::AND(
            d,
            _,
        ) | Instruction::XOR(d, _) | Instruction::OR(d, _) | Instruction::CP(d, _) => Operand::U8(
            d,
        ),
        _ => Operand::U8(OperandU8::Immediate),
    }
}

/// The number of the bit that BIT tests.
pub open spec fn tested_bit_of(instruction: Instruction) -> u8 {
    match instruction {
        Instruction::BIT(n, _) => n,
        _ => 0,
    }
}

/// What `lemma_execute` says, of the effect of a load or STOP.
proof fn lemma_effect_loads(m: Machine, instruction: Instruction, opcode: u8)
    requires
        is_load(instruction),
    ensures
        lawful(m, effect_load(m, instruction, opcode), executable(instruction), opcode),
{
    match instruction {
        Instruction::LD(dst, src) => {
            lemma_loads(m, dst, src, opcode);
        },
        Instruction::LDH(dst, src) => {
            lemma_loads(m, Operand::U8(dst), Operand::U8(src), opcode);
        },
        Instruction::LD22 | Instruction::LD2A => {
            lemma_load_hl_step(m, true, 1);
            lemma_load_hl_step(m, false, 1);
        },
        Instruction::LD32 | Instruction::LD3A => {
            lemma_load_hl_step(m, true, -1);
            lemma_load_hl_step(m, false, -1);
        },
        Instruction::LDF8 => {
            lemma_arithmetic(
                m,
                AccumulatorOp::Add,
                Operand::U8(OperandU8::Immediate),
                Operand::U8(OperandU8::Immediate),
                RegisterU16::HL,
                opcode,
            );
        },
        Instruction::STOP(op) => {
            lemma_control_flow(m, None, op, OperandU16::Immediate, RegisterU16::SP, 0, opcode);
        },
        _ => {},
    }
}

/// What `lemma_execute` says, of the effect of an increment, a decrement or arithmetic.
proof fn lemma_effect_arithmetic(m: Machine, instruction: Instruction, opcode: u8)
    requires
        is_arithmetic(instruction),
    ensures
        lawful(m, effect_arithmetic(m, instruction, opcode), executable(instruction), opcode),
{
    let src = source_of(instruction);
    let dst = destination_of(instruction);
    if instruction is INC || instruction is DEC {
        match src {
            Operand::U8(op) => {
                lemma_in_place(m, op, instruction is INC, ByteOp::Swap, 0, opcode);
            },
            Operand::U16(op) => {
                lemma_step16(m, op, instruction is INC, opcode);
            },
        }
    } else {
        lemma_arithmetic(m, accumulator_op_of(instruction), dst, src, RegisterU16::SP, opcode);
    }
}

/// What `lemma_execute` says, of the effect of a jump, a call, a return or a stack operation.
proof fn lemma_effect_flow(m: Machine, instruction: Instruction, opcode: u8)
    requires
        is_control_flow(instruction),
    ensures
        lawful(m, effect_control_flow(m, instruction, opcode), executable(instruction), opcode),
{
    match instruction {
        Instruction::JR(condition, op) => {
            lemma_control_flow(m, condition, op, OperandU16::Immediate, RegisterU16::SP, 0, opcode);
        },
        Instruction::JP(condition, target) => {
            lemma_control_flow(
                m,
                condition,
                OperandU8::Immediate,
                target,
                RegisterU16::SP,
                0,
                opcode,
            );
        },
        Instruction::CALL(condition, target) => {
            lemma_control_flow(
                m,
                condition,
                OperandU8::Immediate,
                target,
                RegisterU16::SP,
                0,
                opcode,
            );
        },
        Instruction::RET(condition) => {
            lemma_control_flow(
                m,
                condition,
                OperandU8::Immediate,
                OperandU16::Immediate,
                RegisterU16::SP,
                0,
                opcode,
            );
        },
        Instruction::RETI => {
            lemma_control_flow(
                m,
                None,
                OperandU8::Immediate,
                OperandU16::Immediate,
                RegisterU16::SP,
                0,
                opcode,
            );
        },
        Instruction::RST(n) => {
            lemma_control_flow(
                m,
                None,
                OperandU8::Immediate,
                OperandU16::Immediate,
                RegisterU16::SP,
                n,
                opcode,
            );
        },
        Instruction::PUSH(rr) | Instruction::POP(rr) => {
            lemma_control_flow(
                m,
                None,
                OperandU8::Immediate,
                OperandU16::Immediate,
                rr,
                0,
                opcode,
            );
        },
        _ => {},
    }
}

/// What `lemma_execute` says, of the effect of one of the operations after the prefix.
proof fn lemma_effect_bits(m: Machine, instruction: Instruction, opcode: u8)
    requires
        is_bit_operation(instruction),
    ensures
        lawful(m, effect_bit_operation(m, instruction, opcode), executable(instruction), opcode),
{
    lemma_in_place(
        m,
        source_of(instruction)->U8_0,
        true,
        byte_op_of(instruction),
        tested_bit_of(instruction),
        opcode,
    );
}

/// What `lemma_execute` says, of the effect of the instruction alone.
proof fn lemma_effect(m: Machine, instruction: Instruction, opcode: u8)
    ensures
        instruction is ILLEGAL ==> effect(m, instruction, opcode) == failed::<()>(
            m,
            CoreError::IllegalOpcode(instruction->ILLEGAL_0),
        ),
        !(instruction is ILLEGAL) ==> lawful(
            m,
            effect(m, instruction, opcode),
            executable(instruction),
            opcode,
        ),
{
    if is_load(instruction) {
        lemma_effect_loads(m, instruction, opcode);
    } else if is_arithmetic(instruction) {
        lemma_effect_arithmetic(m, instruction, opcode);
    } else if is_control_flow(instruction) {
        lemma_effect_flow(m, instruction, opcode);
    } else if is_bit_operation(instruction) {
        lemma_effect_bits(m, instruction, opcode);
    } else {
        lemma_alu_keeps_wf(m.regs, 0);
    }
}

/// An instruction that the decoder returns takes from 1 to 6 machine
/// cycles.
pub proof fn lemma_decoded_timing(opcode: u8, cb_prefixed: bool, branch: bool)
    ensures
        1 <= timing(decode_spec(opcode, cb_prefixed), branch) <= 6,
{
}

/// One step of the processor keeps the machine well formed.  It never
/// fails with `UnimplementedOpcode`; it fails with `IllegalOpcode` exactly
/// where the byte at the program counter is one of the eleven that are no
/// opcode, and then only the program counter has moved.
pub proof fn lemma_step(m: Machine)
    ensures
        m.wf() ==> step(m).machine.wf(),
        match step(m).result {
            Ok(pair) => executable(pair.0) && 1 <= pair.1 <= 6,
            Err(CoreError::UnimplementedOpcode(_)) => false,
            Err(CoreError::IllegalOpcode(byte)) => m.mem.read(m.regs.pc) == Ok::<u8, CoreError>(
                byte,
            ) && is_illegal_opcode(byte) && step(m).machine == m.with_pc(wrap16(m.regs.pc + 1)),
            Err(_) => true,
        },
        m.mem.read(m.regs.pc) is Ok && is_illegal_opcode(m.mem.read(m.regs.pc)->Ok_0) ==> step(
            m,
        ).result == Err::<(Instruction, u8), CoreError>(
            CoreError::IllegalOpcode(m.mem.read(m.regs.pc)->Ok_0),
        ),
{
    reveal(fetch8);
    lemma_memory_access(m, 0, 0, 0);
    let first = fetch8(m);
    match first.result {
        Ok(byte) => {
            if byte == 0xCB {
                lemma_memory_access(first.machine, 0, 0, 0);
                let second = fetch8(first.machine);
                match second.result {
                    Ok(op) => {
                        lemma_prefixed_is_executable(op);
                        lemma_execute(second.machine, decode_prefixed(op), op);
                        lemma_decoded_timing(op, true, true);
                        lemma_decoded_timing(op, true, false);
                    },
                    Err(_) => {},
                }
            } else {
                lemma_unprefixed_is_executable(byte);
                lemma_execute(first.machine, decode_unprefixed(byte), byte);
                lemma_decoded_timing(byte, false, true);
                lemma_decoded_timing(byte, false, false);
            }
        },
        Err(_) => {},
    }
}

/// A word that was pushed lies on the stack with its low byte at the new
/// stack pointer and its high byte above, and is the word that a pop
/// returns, which puts the stack pointer back where it was.
pub proof fn lemma_push_then_pop(m: Machine, val: u16)
    requires
        m.mem.wf(),
        push16(m, val).result is Ok,
    ensures
        ({
            let pushed = push16(m, val).machine;
            &&& pushed.regs == (Registers { sp: wrap16(m.regs.sp - 2), ..m.regs })
            &&& pushed.mem.read(pushed.regs.sp) == Ok::<u8, CoreError>((val % 256) as u8)
            &&& pushed.mem.read(wrap16(pushed.regs.sp + 1)) == Ok::<u8, CoreError>(
                (val / 256) as u8,
            )
            &&& pop16(pushed) == done(Machine { regs: m.regs, mem: pushed.mem }, val)
        }),
{
    reveal(push16);
    reveal(pop16);
    let hi = (val / 256) as u8;
    let lo = (val % 256) as u8;
    let a1 = wrap16(m.regs.sp - 1);
    let a2 = wrap16(m.regs.sp - 2);
    let m1 = write_at(m, a1, hi).machine;
    lemma_write_fails(m.mem, a1, hi);
    lemma_write_fails(m1.mem, a2, lo);
    lemma_write_keeps_wf(m.mem, a1, hi);
    lemma_read_after_write(m.mem, a1, hi);
    lemma_read_after_write(m1.mem, a2, lo);
    // Both writes succeeded, so neither went to the bank-select register:
    // the address beside it is not mapped.
    assert(a2 != WRAM_BANK_SELECT && a1 != WRAM_BANK_SELECT);
    lemma_write_keeps_others(m1.mem, a2, lo, a1);
    let pushed = push16(m, val).machine;
    assert(wrap16(pushed.regs.sp + 1) == a1);
    assert(wrap16(pushed.regs.sp + 2) == m.regs.sp);
    assert(pushed.with_sp(m.regs.sp).regs == m.regs);
}

/// A call that succeeded continues at its target, and the return from there
/// continues after the call with the stack pointer where it was.
pub proof fn lemma_call_then_return(m: Machine, addr: u16)
    requires
        m.mem.wf(),
        enter(m, addr).result is Ok,
    ensures
        ({
            let entered = enter(m, addr).machine;
            &&& entered.regs == (Registers { pc: addr, sp: wrap16(m.regs.sp - 2), ..m.regs })
            &&& ret(entered, None) == done(Machine { regs: m.regs, mem: entered.mem }, ())
        }),
{
    reveal(pop16);
    reveal(enter);
    reveal(ret);
    lemma_push_then_pop(m, m.regs.pc);
    let pushed = push16(m, m.regs.pc).machine;
    let entered = enter(m, addr).machine;
    assert(entered.mem == pushed.mem);
    assert(entered.with_sp(m.regs.sp).with_pc(m.regs.pc).regs == m.regs);
}

/// The bytes that the resolution of an 8-bit operand takes from the
/// program: one for an immediate byte or an immediate offset into the high
/// page, two for an immediate address.
pub open spec fn immediate_bytes8(operand: OperandU8) -> int {
    match operand {
        OperandU8::Immediate => 1,
        OperandU8::Memory(OperandU16::Immediate) => 2,
        OperandU8::MemoryU8(inner) => if *inner is Immediate {
            1
        } else {
            0
        },
        _ => 0,
    }
}

/// The bytes that the resolution of a 16-bit operand takes from the
/// program: two for an immediate word.
pub open spec fn immediate_bytes16(operand: OperandU16) -> int {
    match operand {
        OperandU16::Immediate => 2,
        OperandU16::RegisterPair(_) => 0,
    }
}

/// The bytes that follow the opcode of an instruction.
pub open spec fn immediate_bytes(instruction: Instruction) -> int {
    match instruction {
        Instruction::LD(Operand::U8(d), Operand::U8(s)) => immediate_bytes8(d) + immediate_bytes8(
            s,
        ),
        Instruction::LD(Operand::U16(_), Operand::U16(s)) => immediate_bytes16(s),
        Instruction::LD(Operand::U8(d), Operand::U16(s)) => immediate_bytes8(d)
            + immediate_bytes16(s),
        Instruction::LDH(d, s) => immediate_bytes8(d) + immediate_bytes8(s),
        Instruction::LDF8 => 1,
        Instruction::STOP(op) => immediate_bytes8(op),
        Instruction::INC(Operand::U8(op)) | Instruction::DEC(Operand::U8(op)) => immediate_bytes8(
            op,
        ),
        Instruction::ADD(Operand::U8(_), Operand::U8(s)) => immediate_bytes8(s),
        Instruction::ADD(Operand::U16(_), Operand::U16(s)) => immediate_bytes16(s),
        Instruction::ADD(Operand::U16(_), Operand::U8(s)) => immediate_bytes8(s),
        Instruction::ADC(_, s) | Instruction::SUB(_, s) | Instruction::SBC(_, s) | Instruction::AND(
            _,
            s,
        ) | Instruction::XOR(_, s) | Instruction::OR(_, s) | Instruction::CP(_, s) => immediate_bytes8(
            s,
        ),
        Instruction::JR(_, op) => immediate_bytes8(op),
        Instruction::JP(_, op) | Instruction::CALL(_, op) => immediate_bytes16(op),
        Instruction::RLC(op) | Instruction::RRC(op) | Instruction::RL(op) | Instruction::RR(op)
        | Instruction::SLA(op) | Instruction::SRA(op) | Instruction::SWAP(op) | Instruction::SRL(
            op,
        ) | Instruction::BIT(_, op) | Instruction::RES(_, op) | Instruction::SET(_, op) => immediate_bytes8(op),
        _ => 0,
    }
}

/// The resolution of an operand changes nothing but the program counter,
/// which it moves past the bytes that it takes from the program.
pub proof fn lemma_operand_fetch(m: Machine, operand: OperandU8, wide: OperandU16, opcode: u8)
    ensures
        locate(m, operand, opcode).result is Ok ==> locate(m, operand, opcode).machine == m.with_pc(
            wrap16(m.regs.pc + immediate_bytes8(operand)),
        ),
        read8(m, operand, opcode).result is Ok ==> read8(m, operand, opcode).machine == m.with_pc(
            wrap16(m.regs.pc + immediate_bytes8(operand)),
        ),
        read16(m, wide).result is Ok ==> read16(m, wide).machine == m.with_pc(
            wrap16(m.regs.pc + immediate_bytes16(wide)),
        ),
{
    reveal(locate);
    reveal(read8);
    reveal(read16);
    reveal(load);
    reveal(fetch8);
    reveal(fetch16);
    let first = fetch8(m);
    if first.result is Ok {
        assert(wrap16(first.machine.regs.pc + 1) == wrap16(m.regs.pc + 2));
        assert(first.machine.with_pc(wrap16(m.regs.pc + 2)) == m.with_pc(wrap16(m.regs.pc + 2)));
    }
    assert(m.with_pc(wrap16(m.regs.pc + 0)) == m);
}

/// The arithmetic/logic unit never changes the program counter or the
/// stack pointer.
pub proof fn lemma_alu_keeps_counters(regs: Registers, b: u8)
    ensures
        forall|op: AccumulatorOp|
            (#[trigger] accumulate(regs, op, b)).pc == regs.pc && accumulate(regs, op, b).sp
                == regs.sp,
        forall|op: ByteOp|
            (#[trigger] byte_op_regs(regs, op, b)).pc == regs.pc && byte_op_regs(regs, op, b).sp
                == regs.sp,
        forall|dir: Direction, carry: bool|
            (#[trigger] rotate_accumulator(regs, dir, carry)).pc == regs.pc && rotate_accumulator(
                regs,
                dir,
                carry,
            ).sp == regs.sp,
        forall|flags: FlagSet, mask: u8|
            (#[trigger] regs.with_flags(flags, mask)).pc == regs.pc && regs.with_flags(
                flags,
                mask,
            ).sp == regs.sp,
        forall|carry: bool|
            (#[trigger] Alu::carry_spec(regs, carry)).pc == regs.pc && Alu::carry_spec(
                regs,
                carry,
            ).sp == regs.sp,
        Alu::daa_spec(regs).pc == regs.pc && Alu::daa_spec(regs).sp == regs.sp,
        Alu::cpl_spec(regs).pc == regs.pc && Alu::cpl_spec(regs).sp == regs.sp,
{
    reveal(accumulate);
    reveal(byte_op_regs);
    reveal(rotate_accumulator);
    assert forall|flags: FlagSet, mask: u8|
        (#[trigger] regs.with_flags(flags, mask)).pc == regs.pc && regs.with_flags(
            flags,
            mask,
        ).sp == regs.sp by {
        regs.lemma_with_flags(flags, mask, Flags::Z);
    }
    assert forall|dir: Direction, carry: bool|
        (#[trigger] rotate_accumulator(regs, dir, carry)).pc == regs.pc && rotate_accumulator(
            regs,
            dir,
            carry,
        ).sp == regs.sp by {
        let res = Alu::rotate_result(dir, regs.a, carry, regs.flag(Flags::CY));
        let flagged = regs.with_flags(Alu::shift_flags(dir, regs.a, res), FLAGS_ALL);
        flagged.with_reg8(RegisterU8::A, res).lemma_with_flag(Flags::Z, false, FLAGS_ALL, Flags::N);
    }
    lemma_daa(regs);
    (Registers { a: (255 - regs.a) as u8, ..regs }).lemma_with_flags(
        (FlagSet { z: false, n: true, h: true, cy: false }),
        FLAGS_NH,
        Flags::Z,
    );
}

/// Whether an instruction can change the program counter in another way
/// than by being fetched.
pub open spec fn is_branch(instruction: Instruction) -> bool {
    instruction is JR || instruction is JP || instruction is CALL || instruction is RET
        || instruction is RETI || instruction is RST
}

/// An instruction that is no branch and succeeds moves the program counter
/// past its immediate bytes: one for an 8-bit immediate, two for a 16-bit
/// one.
pub proof fn lemma_pc_advance(m: Machine, instruction: Instruction, opcode: u8)
    requires
        !is_branch(instruction),
        effect(m, instruction, opcode).result is Ok,
    ensures
        effect(m, instruction, opcode).machine.regs.pc == wrap16(
            m.regs.pc + immediate_bytes(instruction),
        ),
{
    if is_load(instruction) {
        lemma_pc_advance_loads(m, instruction, opcode);
    } else if is_arithmetic(instruction) {
        lemma_pc_advance_arithmetic(m, instruction, opcode);
    } else if is_bit_operation(instruction) {
        lemma_pc_advance_bits(m, instruction, opcode);
    } else {
        lemma_pc_advance_plain(m, instruction, opcode);
    }
}

/// No 8-bit store changes the program counter, and a load changes
/// nothing.
proof fn lemma_store_keeps_pc(m: Machine, place: Place, val: u8, opcode: u8)
    ensures
        store(m, place, val, opcode).machine.regs.pc == m.regs.pc,
        load(m, place).machine == m,
{
    reveal(store);
    reveal(load);
}

/// An 8-bit load moves the program counter past the immediate bytes of
/// both operands.
proof fn lemma_pc_load8(m: Machine, d: OperandU8, s: OperandU8, opcode: u8)
    requires
        load8(m, d, s, opcode).result is Ok,
    ensures
        load8(m, d, s, opcode).machine.regs.pc == wrap16(
            m.regs.pc + immediate_bytes8(d) + immediate_bytes8(s),
        ),
{
    reveal(load8);
    lemma_operand_fetch(m, s, OperandU16::Immediate, opcode);
    let value = read8(m, s, opcode);
    lemma_operand_fetch(value.machine, d, OperandU16::Immediate, opcode);
    let place = locate(value.machine, d, opcode);
    lemma_store_keeps_pc(place.machine, place.result->Ok_0, value.result->Ok_0, opcode);
    assert(place.machine.regs.pc == wrap16(value.machine.regs.pc + immediate_bytes8(d)));
    assert(value.machine.regs.pc == wrap16(m.regs.pc + immediate_bytes8(s)));
}

/// A 16-bit load or store moves the program counter past the immediate
/// bytes of its operands.
proof fn lemma_pc_load16(m: Machine, d: OperandU16, d8: OperandU8, s: OperandU16, opcode: u8)
    ensures
        load16(m, d, s, opcode).result is Ok ==> load16(m, d, s, opcode).machine.regs.pc == wrap16(
            m.regs.pc + immediate_bytes16(s),
        ),
        store16(m, d8, s, opcode).result is Ok ==> store16(m, d8, s, opcode).machine.regs.pc
            == wrap16(m.regs.pc + immediate_bytes8(d8) + immediate_bytes16(s)),
{
    reveal(load16);
    reveal(store16);
    lemma_operand_fetch(m, OperandU8::Immediate, s, opcode);
    let value = read16(m, s);
    if value.result is Ok {
        lemma_operand_fetch(value.machine, d8, OperandU16::Immediate, opcode);
        let place = locate(value.machine, d8, opcode);
        if place.result is Ok {
            assert(place.machine.regs.pc == wrap16(
                value.machine.regs.pc + immediate_bytes8(d8),
            ));
            assert(value.machine.regs.pc == wrap16(m.regs.pc + immediate_bytes16(s)));
        }
    }
}

/// The loads through HL and the additions of an offset to the stack
/// pointer move the program counter past their immediate bytes.
proof fn lemma_pc_load_special(
    m: Machine,
    to_memory: bool,
    delta: int,
    rr: RegisterU16,
    s: OperandU8,
    opcode: u8,
)
    ensures
        load_hl_step(m, to_memory, delta).result is Ok ==> load_hl_step(
            m,
            to_memory,
            delta,
        ).machine.regs.pc == m.regs.pc,
        add_offset(m, rr, s, opcode).result is Ok ==> add_offset(m, rr, s, opcode).machine.regs.pc
            == wrap16(m.regs.pc + immediate_bytes8(s)),
        skip_operand(m, s, opcode).result is Ok ==> skip_operand(m, s, opcode).machine.regs.pc
            == wrap16(m.regs.pc + immediate_bytes8(s)),
{
    reveal(load_hl_step);
    reveal(add_offset);
    reveal(skip_operand);
    lemma_operand_fetch(m, s, OperandU16::Immediate, opcode);
    let value = read8(m, s, opcode);
    lemma_alu_keeps_counters(value.machine.regs, 0);
}

proof fn lemma_pc_advance_loads(m: Machine, instruction: Instruction, opcode: u8)
    requires
        is_load(instruction),
        effect_load(m, instruction, opcode).result is Ok,
    ensures
        effect_load(m, instruction, opcode).machine.regs.pc == wrap16(
            m.regs.pc + immediate_bytes(instruction),
        ),
{
    assert(wrap16(m.regs.pc + 0) == m.regs.pc);
    match instruction {
        Instruction::LD(Operand::U8(d), Operand::U8(s)) => {
            lemma_pc_load8(m, d, s, opcode);
        },
        Instruction::LDH(d, s) => {
            lemma_pc_load8(m, d, s, opcode);
        },
        Instruction::LD(Operand::U16(d), Operand::U16(s)) => {
            lemma_pc_load16(m, d, OperandU8::Immediate, s, opcode);
        },
        Instruction::LD(Operand::U8(d), Operand::U16(s)) => {
            lemma_pc_load16(m, OperandU16::Immediate, d, s, opcode);
        },
        Instruction::LD22 | Instruction::LD2A => {
            lemma_pc_load_special(m, true, 1, RegisterU16::HL, OperandU8::Immediate, opcode);
            lemma_pc_load_special(m, false, 1, RegisterU16::HL, OperandU8::Immediate, opcode);
        },
        Instruction::LD32 | Instruction::LD3A => {
            lemma_pc_load_special(m, true, -1, RegisterU16::HL, OperandU8::Immediate, opcode);
            lemma_pc_load_special(m, false, -1, RegisterU16::HL, OperandU8::Immediate, opcode);
        },
        Instruction::LDF8 => {
            lemma_pc_load_special(m, true, 1, RegisterU16::HL, OperandU8::Immediate, opcode);
        },
        Instruction::STOP(op) => {
            lemma_pc_load_special(m, true, 1, RegisterU16::HL, op, opcode);
        },
        _ => {},
    }
}

/// The instructions without operand, PUSH and POP leave the program
/// counter where the fetch put it.
proof fn lemma_pc_advance_plain(m: Machine, instruction: Instruction, opcode: u8)
    requires
        !is_load(instruction),
        !is_arithmetic(instruction),
        !is_bit_operation(instruction),
    ensures
        is_control_flow(instruction) && !is_branch(instruction) && effect_control_flow(
            m,
            instruction,
            opcode,
        ).result is Ok ==> effect_control_flow(m, instruction, opcode).machine.regs.pc
            == m.regs.pc,
        !is_control_flow(instruction) ==> effect_plain(m, instruction).machine.regs.pc
            == m.regs.pc,
        !is_branch(instruction) ==> immediate_bytes(instruction) == 0,
{
    reveal(push16);
    reveal(pop_pair);
    reveal(pop16);
    lemma_alu_keeps_counters(m.regs, 0);
}

/// What changes an operand in place moves the program counter past the
/// immediate bytes of the operand.
proof fn lemma_pc_in_place(m: Machine, operand: OperandU8, up: bool, op: ByteOp, n: u8, opcode: u8)
    ensures
        step8(m, operand, up, opcode).result is Ok ==> step8(m, operand, up, opcode).machine.regs.pc
            == wrap16(m.regs.pc + immediate_bytes8(operand)),
        modify8(m, op, operand, opcode).result is Ok ==> modify8(
            m,
            op,
            operand,
            opcode,
        ).machine.regs.pc == wrap16(m.regs.pc + immediate_bytes8(operand)),
        test_bit(m, n, operand, opcode).result is Ok ==> test_bit(
            m,
            n,
            operand,
            opcode,
        ).machine.regs.pc == wrap16(m.regs.pc + immediate_bytes8(operand)),
{
    reveal(step8);
    reveal(modify8);
    reveal(test_bit);
    reveal(read8);
    lemma_operand_fetch(m, operand, OperandU16::Immediate, opcode);
    let place = locate(m, operand, opcode);
    if place.result is Ok {
        let p = place.result->Ok_0;
        let value = load(place.machine, p);
        if value.result is Ok {
            let v = value.result->Ok_0;
            let regs = value.machine.regs;
            lemma_alu_keeps_counters(regs, v);
            lemma_store_keeps_pc(
                value.machine.with_regs(regs.with_flags(Alu::add8_flags(v, 1, false), FLAGS_ZNH)),
                p,
                Alu::add8_result(v, 1, false),
                opcode,
            );
            lemma_store_keeps_pc(
                value.machine.with_regs(regs.with_flags(Alu::sub8_flags(v, 1, false), FLAGS_ZNH)),
                p,
                Alu::sub8_result(v, 1, false),
                opcode,
            );
            lemma_store_keeps_pc(
                value.machine.with_regs(byte_op_regs(regs, op, v)),
                p,
                byte_op_result(regs, op, v),
                opcode,
            );
        }
    }
}

/// Arithmetic moves the program counter past the immediate bytes of its
/// source.
proof fn lemma_pc_arithmetic(
    m: Machine,
    op: AccumulatorOp,
    d: OperandU8,
    s: OperandU8,
    d16: OperandU16,
    s16: OperandU16,
    up: bool,
    opcode: u8,
)
    ensures
        arithmetic8(m, op, d, s, opcode).result is Ok ==> arithmetic8(
            m,
            op,
            d,
            s,
            opcode,
        ).machine.regs.pc == wrap16(m.regs.pc + immediate_bytes8(s)),
        add16(m, d16, s16, opcode).result is Ok ==> add16(m, d16, s16, opcode).machine.regs.pc
            == wrap16(m.regs.pc + immediate_bytes16(s16)),
        step16(m, d16, up, opcode).result is Ok ==> step16(m, d16, up, opcode).machine.regs.pc
            == m.regs.pc,
{
    reveal(arithmetic8);
    reveal(add16);
    reveal(step16);
    lemma_operand_fetch(m, s, s16, opcode);
    let value = read8(m, s, opcode);
    if value.result is Ok {
        lemma_alu_keeps_counters(value.machine.regs, value.result->Ok_0);
    }
    let wide = read16(m, s16);
    if wide.result is Ok {
        lemma_alu_keeps_counters(wide.machine.regs, 0);
    }
}

proof fn lemma_pc_advance_arithmetic(m: Machine, instruction: Instruction, opcode: u8)
    requires
        is_arithmetic(instruction),
        effect_arithmetic(m, instruction, opcode).result is Ok,
    ensures
        effect_arithmetic(m, instruction, opcode).machine.regs.pc == wrap16(
            m.regs.pc + immediate_bytes(instruction),
        ),
{
    let a = OperandU8::Immediate;
    let w = OperandU16::Immediate;
    let up = instruction is INC;
    let op = accumulator_op_of(instruction);
    assert(wrap16(m.regs.pc + 0) == m.regs.pc);
    match (destination_of(instruction), source_of(instruction)) {
        (Operand::U8(d), Operand::U8(s)) => {
            if instruction is INC || instruction is DEC {
                lemma_pc_in_place(m, s, up, ByteOp::Swap, 0, opcode);
            } else {
                lemma_pc_arithmetic(m, op, d, s, w, w, up, opcode);
            }
        },
        (Operand::U8(_), Operand::U16(s)) => {
            lemma_pc_arithmetic(m, op, a, a, s, w, up, opcode);
        },
        (Operand::U16(d), Operand::U16(s)) => {
            lemma_pc_arithmetic(m, op, a, a, d, s, up, opcode);
        },
        (Operand::U16(_), Operand::U8(s)) => {
            lemma_pc_load_special(m, true, 1, RegisterU16::SP, s, opcode);
        },
    }
}

proof fn lemma_pc_advance_bits(m: Machine, instruction: Instruction, opcode: u8)
    requires
        is_bit_operation(instruction),
        effect_bit_operation(m, instruction, opcode).result is Ok,
    ensures
        effect_bit_operation(m, instruction, opcode).machine.regs.pc == wrap16(
            m.regs.pc + immediate_bytes(instruction),
        ),
{
    lemma_pc_in_place(
        m,
        source_of(instruction)->U8_0,
        true,
        byte_op_of(instruction),
        tested_bit_of(instruction),
        opcode,
    );
}

/// A branch never takes fewer machine cycles where it is taken, and a jump
/// to an immediate address, a call, a relative jump and a conditional
/// return take more.
pub proof fn lemma_taken_costs_more(instruction: Instruction)
    ensures
        timing(instruction, true) >= timing(instruction, false),
        instruction is JR || instruction is CALL || (instruction is RET
            && instruction->RET_0 is Some) || (instruction is JP && instruction->JP_1
            is Immediate) ==> timing(instruction, true) > timing(instruction, false),
{
}

/// NOP and HALT change nothing and take one machine cycle.
pub proof fn lemma_nop_and_halt(m: Machine, opcode: u8)
    ensures
        execute(m, Instruction::NOP, opcode) == done(m, 1u8),
        execute(m, Instruction::HALT, opcode) == done(m, 1u8),
{
}

/// A load between two registers copies the source into the destination,
/// changes nothing else and takes one machine cycle.
pub proof fn lemma_load_between_registers(m: Machine, d: RegisterU8, s: RegisterU8, opcode: u8)
    ensures
        execute(
            m,
            Instruction::LD(
                Operand::U8(OperandU8::Register(d)),
                Operand::U8(OperandU8::Register(s)),
            ),
            opcode,
        ) == done(m.with_regs(m.regs.with_reg8(d, m.regs.reg8(s))), 1u8),
{
    reveal(load8);
    reveal(read8);
    reveal(locate);
    reveal(load);
    reveal(store);
}

/// A load of an immediate byte puts the byte at the program counter into
/// the register, moves the program counter past it and takes two machine
/// cycles; it fails where the byte cannot be read.
pub proof fn lemma_load_immediate(m: Machine, d: RegisterU8, opcode: u8)
    ensures
        execute(
            m,
            Instruction::LD(Operand::U8(OperandU8::Register(d)), Operand::U8(OperandU8::Immediate)),
            opcode,
        ) == (match m.mem.read(m.regs.pc) {
            Ok(byte) => done(
                m.with_regs(
                    (Registers { pc: wrap16(m.regs.pc + 1), ..m.regs }).with_reg8(d, byte),
                ),
                2u8,
            ),
            Err(e) => failed::<u8>(m, e),
        }),
{
    reveal(load8);
    reveal(read8);
    reveal(locate);
    reveal(load);
    reveal(store);
    reveal(fetch8);
}

/// A store of a register through HL into ROM fails with
/// `ReadOnlyViolation` for the address in HL and changes nothing.
pub proof fn lemma_store_to_rom_fails(m: Machine, s: RegisterU8, opcode: u8)
    requires
        m.regs.pair(RegisterU16::HL) <= 0x7FFF,
    ensures
        execute(
            m,
            Instruction::LD(
                Operand::U8(OperandU8::Memory(OperandU16::RegisterPair(RegisterU16::HL))),
                Operand::U8(OperandU8::Register(s)),
            ),
            opcode,
        ) == failed::<u8>(m, CoreError::ReadOnlyViolation(m.regs.pair(RegisterU16::HL))),
{
    reveal(load8);
    reveal(read8);
    reveal(locate);
    reveal(load);
    reveal(store);
}

/// An addition of a register to the accumulator puts the sum modulo 256
/// into the accumulator, commits all four flags, changes no other register
/// and no memory, and takes one machine cycle.
pub proof fn lemma_add_register(m: Machine, s: RegisterU8, opcode: u8)
    ensures
        ({
            let after = execute(
                m,
                Instruction::ADD(
                    Operand::U8(OperandU8::Register(RegisterU8::A)),
                    Operand::U8(OperandU8::Register(s)),
                ),
                opcode,
            );
            let b = m.regs.reg8(s);
            &&& after.result == Ok::<u8, CoreError>(1u8)
            &&& after.machine.mem == m.mem
            &&& after.machine.regs == (Registers {
                a: ((m.regs.a + b) % 256) as u8,
                f: after.machine.regs.f,
                ..m.regs
            })
            &&& after.machine.regs.flag(Flags::Z) <==> (m.regs.a + b) % 256 == 0
            &&& after.machine.regs.flag(Flags::CY) <==> m.regs.a + b >= 256
            &&& after.machine.regs.flag(Flags::H) <==> m.regs.a % 16 + b % 16 >= 16
            &&& !after.machine.regs.flag(Flags::N)
        }),
{
    reveal(arithmetic8);
    reveal(read8);
    reveal(locate);
    reveal(load);
    reveal(accumulate);
    let b = m.regs.reg8(s);
    lemma_commit_all(m.regs, Alu::add8_flags(m.regs.a, b, false));
}

/// A jump to an immediate address that is taken continues at the word that
/// follows the opcode, low byte first, and takes four machine cycles.
pub proof fn lemma_jump_immediate(m: Machine, opcode: u8)
    requires
        m.mem.read(m.regs.pc) is Ok,
        m.mem.read(wrap16(m.regs.pc + 1)) is Ok,
    ensures
        execute(m, Instruction::JP(None, OperandU16::Immediate), opcode) == done(
            m.with_pc(
                (m.mem.read(wrap16(m.regs.pc + 1))->Ok_0 * 256 + m.mem.read(m.regs.pc)->Ok_0) as u16,
            ),
            4u8,
        ),
{
    reveal(jump);
    reveal(read16);
    reveal(fetch16);
    reveal(fetch8);
}

} // verus!
