use gb_core::cpu::{timing, Cpu};
use gb_core::error::CoreError;
use gb_core::instructions::{FlagCondition, Instruction, Operand, OperandU16, OperandU8};
use gb_core::interrupt::{Interrupt, InterruptPosition};
use gb_core::memory_mapping::MemoryMapping;
use gb_core::registers::{Flags, RegisterU16, RegisterU8};

/// A processor whose ROM holds `program` at 0x0100, where execution starts.
fn cpu_with(program: &[u8]) -> Cpu {
    cpu_with_parts(&[(0x0100, program)])
}

/// A processor whose ROM holds each of the `parts` at its address.
fn cpu_with_parts(parts: &[(usize, &[u8])]) -> Cpu {
    let mut rom = vec![0u8; 0x8000];
    for (at, bytes) in parts {
        rom[*at..*at + bytes.len()].copy_from_slice(bytes);
    }
    let mut memory = MemoryMapping::new();
    memory.load_rom(&rom);
    Cpu::new(memory)
}

fn run(cpu: &mut Cpu, steps: usize) -> Vec<(Instruction, u8)> {
    let mut interrupt = Interrupt::new();
    let mut done = Vec::new();
    for _ in 0..steps {
        done.push(cpu.step(&mut interrupt).unwrap());
    }
    done
}

#[test]
fn load_add_halt() {
    let mut cpu = cpu_with(&[0x3E, 0x05, 0x06, 0x03, 0x80, 0x76]);
    let done = run(&mut cpu, 4);

    assert_eq!(cpu.registers().a, 8);
    assert_eq!(cpu.registers().b, 3);
    assert!(!cpu.registers().get_flag(Flags::Z));
    assert!(!cpu.registers().get_flag(Flags::CY));
    assert!(!cpu.registers().get_flag(Flags::H));
    assert!(!cpu.registers().get_flag(Flags::N));
    assert_eq!(cpu.registers().pc, 0x0106);

    assert_eq!(done[3].0, Instruction::HALT);
    let cycles: Vec<u8> = done.iter().map(|d| d.1).collect();
    assert_eq!(cycles, vec![2, 2, 1, 1]);
}

#[test]
fn call_and_return() {
    // NOP; CALL 0x1000 with the next instruction at 0x0104; RET at 0x1000.
    let mut cpu = cpu_with_parts(&[(0x0100, &[0x00, 0xCD, 0x00, 0x10]), (0x1000, &[0xC9])]);
    let done = run(&mut cpu, 2);
    assert_eq!(done[1].1, 6);
    assert_eq!(cpu.registers().pc, 0x1000);
    assert_eq!(cpu.registers().sp, 0xFFFC);
    assert_eq!(cpu.memory().get(0xFFFD), Ok(0x01));
    assert_eq!(cpu.memory().get(0xFFFC), Ok(0x04));

    let done = run(&mut cpu, 1);
    assert_eq!(done[0], (Instruction::RET(None), 4));
    assert_eq!(cpu.registers().pc, 0x0104);
    assert_eq!(cpu.registers().sp, 0xFFFE);
}

#[test]
fn conditional_branches_cost_more_when_taken() {
    // XOR A sets Zero.  JR NZ is not taken, JR Z is.
    let mut cpu = cpu_with(&[0xAF, 0x20, 0x10, 0x28, 0x02, 0x00, 0x00, 0xC8, 0xC0]);
    let done = run(&mut cpu, 3);
    assert_eq!(done[1].1, 2);
    assert_eq!(done[2].1, 3);
    assert_eq!(cpu.registers().pc, 0x0107);

    // JP NZ not taken, JP Z taken; CALL NZ not taken.
    let mut cpu = cpu_with_parts(&[
        (0x0100, &[0xAF, 0xC2, 0x00, 0x20, 0xCA, 0x00, 0x02]),
        (0x0200, &[0xC4, 0x00, 0x30, 0xCC, 0x00, 0x03]),
        (0x0300, &[0xC0, 0xC8]),
    ]);
    let done = run(&mut cpu, 7);
    let cycles: Vec<u8> = done.iter().map(|d| d.1).collect();
    assert_eq!(cycles, vec![1, 3, 4, 3, 6, 2, 5]);
    assert_eq!(cpu.registers().pc, 0x0206);
    assert_eq!(cpu.registers().sp, 0xFFFE);
}

#[test]
fn relative_jump_backwards() {
    // 0x0100: NOP; 0x0101: JR -3 goes to 0x0100.
    let mut cpu = cpu_with(&[0x00, 0x18, 0xFD]);
    run(&mut cpu, 2);
    assert_eq!(cpu.registers().pc, 0x0100);
}

#[test]
fn sixteen_bit_loads_and_stack() {
    // LD BC,0x1234; PUSH BC; POP AF; LD SP,0xD000; LD (0xC000),SP
    let mut cpu = cpu_with(&[
        0x01, 0x34, 0x12, 0xC5, 0xF1, 0x31, 0x00, 0xD0, 0x08, 0x00, 0xC0,
    ]);
    let done = run(&mut cpu, 5);
    let cycles: Vec<u8> = done.iter().map(|d| d.1).collect();
    assert_eq!(cycles, vec![3, 4, 3, 3, 5]);
    assert_eq!(cpu.registers().get_u16(&RegisterU16::BC), 0x1234);
    assert_eq!(cpu.registers().a, 0x12);
    assert_eq!(cpu.registers().f, 0x30);
    assert_eq!(cpu.registers().sp, 0xD000);
    assert_eq!(cpu.memory().get(0xC000), Ok(0x00));
    assert_eq!(cpu.memory().get(0xC001), Ok(0xD0));
}

#[test]
fn memory_operands() {
    // LD HL,0xC000; LD (HL),0x7F; INC (HL); LD A,(HL+); LD (HL-),A; LD B,(HL)
    // LDH (0x80),A; LD C,0x80; LDH A,(C); LD A,(0xC000); LD (0xC002),A
    let mut cpu = cpu_with(&[
        0x21, 0x00, 0xC0, 0x36, 0x7F, 0x34, 0x2A, 0x32, 0x46, 0xE0, 0x80, 0x0E, 0x80, 0xF2, 0xFA,
        0x00, 0xC0, 0xEA, 0x02, 0xC0,
    ]);
    let done = run(&mut cpu, 11);
    let cycles: Vec<u8> = done.iter().map(|d| d.1).collect();
    assert_eq!(cycles, vec![3, 3, 3, 2, 2, 2, 3, 2, 2, 4, 4]);
    assert_eq!(cpu.memory().get(0xC000), Ok(0x80));
    assert_eq!(cpu.memory().get(0xC001), Ok(0x80));
    assert_eq!(cpu.memory().get(0xC002), Ok(0x80));
    assert_eq!(cpu.memory().get(0xFF80), Ok(0x80));
    assert_eq!(cpu.registers().b, 0x80);
    assert_eq!(cpu.registers().a, 0x80);
    assert_eq!(cpu.registers().get_u16(&RegisterU16::HL), 0xC000);
    // INC (HL) from 0x7F: Half-Carry, and Carry untouched.
    assert_eq!(cpu.registers().f, Flags::H.bit());
}

#[test]
fn arithmetic_on_the_accumulator() {
    // LD A,0x3C; ADD A,0xC4 -> 0x00 Z H C; ADC A,0x01 -> 0x02;
    // SUB 0x03 -> 0xFF N H C; SBC A,0x0F -> 0xEF N H; AND 0x0F; OR 0xF0; XOR 0xFF;
    // CP 0x00
    let mut cpu = cpu_with(&[
        0x3E, 0x3C, 0xC6, 0xC4, 0xCE, 0x01, 0xD6, 0x03, 0xDE, 0x0F, 0xE6, 0x0F, 0xF6, 0xF0, 0xEE,
        0xFF, 0xFE, 0x00,
    ]);
    run(&mut cpu, 2);
    assert_eq!(cpu.registers().a, 0x00);
    assert_eq!(
        cpu.registers().f,
        Flags::Z.bit() | Flags::H.bit() | Flags::CY.bit()
    );
    run(&mut cpu, 1);
    assert_eq!(cpu.registers().a, 0x02);
    assert_eq!(cpu.registers().f, 0);
    run(&mut cpu, 1);
    assert_eq!(cpu.registers().a, 0xFF);
    assert_eq!(
        cpu.registers().f,
        Flags::N.bit() | Flags::H.bit() | Flags::CY.bit()
    );
    run(&mut cpu, 1);
    assert_eq!(cpu.registers().a, 0xEF);
    assert_eq!(cpu.registers().f, Flags::N.bit() | Flags::H.bit());
    run(&mut cpu, 1);
    assert_eq!(cpu.registers().a, 0x0F);
    assert_eq!(cpu.registers().f, Flags::H.bit());
    run(&mut cpu, 1);
    assert_eq!(cpu.registers().a, 0xFF);
    assert_eq!(cpu.registers().f, 0);
    run(&mut cpu, 1);
    assert_eq!(cpu.registers().a, 0x00);
    assert_eq!(cpu.registers().f, Flags::Z.bit());
    let done = run(&mut cpu, 1);
    assert_eq!(done[0].1, 2);
    assert_eq!(cpu.registers().a, 0x00);
    assert_eq!(cpu.registers().f, Flags::Z.bit() | Flags::N.bit());
}

#[test]
fn increments_and_sixteen_bit_arithmetic() {
    // LD B,0xFF; INC B -> 0 Z H; DEC B -> 0xFF N H; LD HL,0x0FFF; LD BC,0x0001
    // ADD HL,BC -> 0x1000 H, Z kept; INC BC; DEC HL; LD SP,0xFFF8; ADD SP,8
    // LD HL,SP-1
    let mut cpu = cpu_with(&[
        0x06, 0xFF, 0x04, 0x05, 0x21, 0xFF, 0x0F, 0x01, 0x01, 0x00, 0x09, 0x03, 0x2B, 0x31, 0xF8,
        0xFF, 0xE8, 0x08, 0xF8, 0xFF,
    ]);
    run(&mut cpu, 2);
    assert_eq!(cpu.registers().b, 0);
    assert_eq!(cpu.registers().f, Flags::Z.bit() | Flags::H.bit());
    run(&mut cpu, 1);
    assert_eq!(cpu.registers().b, 0xFF);
    assert_eq!(cpu.registers().f, Flags::N.bit() | Flags::H.bit());
    let done = run(&mut cpu, 3);
    assert_eq!(done[2].1, 2);
    assert_eq!(cpu.registers().get_u16(&RegisterU16::HL), 0x1000);
    assert_eq!(cpu.registers().f, Flags::H.bit());
    let done = run(&mut cpu, 2);
    assert_eq!((done[0].1, done[1].1), (2, 2));
    assert_eq!(cpu.registers().get_u16(&RegisterU16::BC), 0x0002);
    assert_eq!(cpu.registers().get_u16(&RegisterU16::HL), 0x0FFF);
    assert_eq!(cpu.registers().f, Flags::H.bit());
    let done = run(&mut cpu, 2);
    assert_eq!(done[1].1, 4);
    assert_eq!(cpu.registers().sp, 0x0000);
    assert_eq!(cpu.registers().f, Flags::H.bit() | Flags::CY.bit());
    let done = run(&mut cpu, 1);
    assert_eq!(done[0], (Instruction::LDF8, 3));
    assert_eq!(cpu.registers().get_u16(&RegisterU16::HL), 0xFFFF);
    assert_eq!(cpu.registers().sp, 0x0000);
    assert_eq!(cpu.registers().f, 0);
}

#[test]
fn accumulator_rotations_clear_zero() {
    // LD A,0x80; RLCA -> 0x01 C; RLA -> 0x03; RRCA -> 0x81 C; RRA -> 0xC0 C
    // LD A,0x00; RLCA leaves Zero clear.
    let mut cpu = cpu_with(&[0x3E, 0x80, 0x07, 0x17, 0x0F, 0x1F, 0x3E, 0x00, 0x07]);
    run(&mut cpu, 2);
    assert_eq!(cpu.registers().a, 0x01);
    assert_eq!(cpu.registers().f, Flags::CY.bit());
    run(&mut cpu, 1);
    assert_eq!(cpu.registers().a, 0x03);
    assert_eq!(cpu.registers().f, 0);
    run(&mut cpu, 1);
    assert_eq!(cpu.registers().a, 0x81);
    assert_eq!(cpu.registers().f, Flags::CY.bit());
    run(&mut cpu, 1);
    assert_eq!(cpu.registers().a, 0xC0);
    assert_eq!(cpu.registers().f, Flags::CY.bit());
    let done = run(&mut cpu, 2);
    assert_eq!(done[1], (Instruction::RLCA, 1));
    assert_eq!(cpu.registers().a, 0x00);
    assert_eq!(cpu.registers().f, 0);
}

#[test]
fn prefixed_instructions() {
    // LD B,0x80; RLC B -> 0x01 C; LD B,0x00; RLC B sets Zero; LD HL,0xC000;
    // SET 3,(HL); BIT 3,(HL); RES 3,(HL); BIT 3,(HL); LD A,0xF1; SWAP A;
    // SRA A; SRL A; SLA A
    let mut cpu = cpu_with(&[
        0x06, 0x80, 0xCB, 0x00, 0x06, 0x00, 0xCB, 0x00, 0x21, 0x00, 0xC0, 0xCB, 0xDE, 0xCB, 0x5E,
        0xCB, 0x9E, 0xCB, 0x5E, 0x3E, 0xF1, 0xCB, 0x37, 0xCB, 0x2F, 0xCB, 0x3F, 0xCB, 0x27,
    ]);
    let done = run(&mut cpu, 2);
    assert_eq!(
        done[1],
        (Instruction::RLC(OperandU8::Register(RegisterU8::B)), 2)
    );
    assert_eq!(cpu.registers().b, 0x01);
    assert_eq!(cpu.registers().f, Flags::CY.bit());
    run(&mut cpu, 2);
    assert_eq!(cpu.registers().f, Flags::Z.bit());

    let done = run(&mut cpu, 2);
    assert_eq!(done[1].1, 4);
    assert_eq!(cpu.memory().get(0xC000), Ok(0x08));
    let done = run(&mut cpu, 1);
    assert_eq!(done[0].1, 3);
    assert_eq!(cpu.registers().f, Flags::H.bit());
    run(&mut cpu, 2);
    assert_eq!(cpu.memory().get(0xC000), Ok(0x00));
    assert_eq!(cpu.registers().f, Flags::Z.bit() | Flags::H.bit());

    run(&mut cpu, 2);
    assert_eq!(cpu.registers().a, 0x1F);
    assert_eq!(cpu.registers().f, 0);
    run(&mut cpu, 1);
    assert_eq!(cpu.registers().a, 0x0F);
    assert_eq!(cpu.registers().f, Flags::CY.bit());
    run(&mut cpu, 1);
    assert_eq!(cpu.registers().a, 0x07);
    assert_eq!(cpu.registers().f, Flags::CY.bit());
    run(&mut cpu, 1);
    assert_eq!(cpu.registers().a, 0x0E);
    assert_eq!(cpu.registers().f, 0);
}

#[test]
fn decimal_adjust_complement_and_carry() {
    // LD A,0x15; ADD A,0x27; DAA -> 0x42; CPL; SCF; CCF
    let mut cpu = cpu_with(&[0x3E, 0x15, 0xC6, 0x27, 0x27, 0x2F, 0x37, 0x3F]);
    run(&mut cpu, 3);
    assert_eq!(cpu.registers().a, 0x42);
    assert_eq!(cpu.registers().f, 0);
    run(&mut cpu, 1);
    assert_eq!(cpu.registers().a, 0xBD);
    assert_eq!(cpu.registers().f, Flags::N.bit() | Flags::H.bit());
    run(&mut cpu, 1);
    assert_eq!(cpu.registers().f, Flags::CY.bit());
    run(&mut cpu, 1);
    assert_eq!(cpu.registers().f, 0);
}

#[test]
fn restart_and_stop() {
    // STOP skips its operand; RST 0x28 pushes 0x0103.
    let mut cpu = cpu_with(&[0x10, 0x00, 0xEF]);
    let done = run(&mut cpu, 2);
    assert_eq!(done[0], (Instruction::STOP(OperandU8::Immediate), 1));
    assert_eq!(done[1], (Instruction::RST(5), 4));
    assert_eq!(cpu.registers().pc, 0x0028);
    assert_eq!(cpu.registers().sp, 0xFFFC);
    assert_eq!(cpu.memory().get(0xFFFD), Ok(0x01));
    assert_eq!(cpu.memory().get(0xFFFC), Ok(0x03));
}

#[test]
fn illegal_opcode() {
    for byte in [
        0xD3u8, 0xDB, 0xDD, 0xE3, 0xE4, 0xEB, 0xEC, 0xED, 0xF4, 0xFC, 0xFD,
    ] {
        let mut cpu = cpu_with(&[byte]);
        let mut interrupt = Interrupt::new();
        assert_eq!(
            cpu.step(&mut interrupt),
            Err(CoreError::IllegalOpcode(byte))
        );
        assert_eq!(cpu.registers().pc, 0x0101);
    }
}

#[test]
fn store_to_rom_fails_and_changes_no_memory() {
    // LD HL,0x0150; LD (HL),0x01
    let mut cpu = cpu_with(&[0x21, 0x50, 0x01, 0x36, 0x01]);
    let mut interrupt = Interrupt::new();
    assert!(cpu.step(&mut interrupt).is_ok());
    assert_eq!(
        cpu.step(&mut interrupt),
        Err(CoreError::ReadOnlyViolation(0x0150))
    );
    assert_eq!(cpu.memory().get(0x0150), Ok(0));
    assert_eq!(cpu.registers().pc, 0x0105);
}

#[test]
fn unmapped_access_fails() {
    // LD A,(0xE000)
    let mut cpu = cpu_with(&[0xFA, 0x00, 0xE0]);
    let mut interrupt = Interrupt::new();
    assert_eq!(
        cpu.step(&mut interrupt),
        Err(CoreError::UnmappedAddress(0xE000))
    );

    // JP 0xFF00, then the fetch there fails and the counter stays.
    let mut cpu = cpu_with(&[0xC3, 0x00, 0xFF]);
    assert!(cpu.step(&mut interrupt).is_ok());
    assert_eq!(
        cpu.step(&mut interrupt),
        Err(CoreError::UnmappedAddress(0xFF00))
    );
    assert_eq!(cpu.registers().pc, 0xFF00);
}

#[test]
fn forms_without_meaning_are_unimplemented() {
    let mut interrupt = Interrupt::new();
    let a = OperandU8::Register(RegisterU8::A);
    let b = OperandU8::Register(RegisterU8::B);
    let forms = [
        Instruction::LD(Operand::U8(OperandU8::Immediate), Operand::U8(a.clone())),
        Instruction::LD(
            Operand::U16(OperandU16::RegisterPair(RegisterU16::HL)),
            Operand::U8(a.clone()),
        ),
        Instruction::LD(
            Operand::U16(OperandU16::Immediate),
            Operand::U16(OperandU16::RegisterPair(RegisterU16::HL)),
        ),
        Instruction::LD(
            Operand::U8(a.clone()),
            Operand::U16(OperandU16::RegisterPair(RegisterU16::HL)),
        ),
        Instruction::ADD(Operand::U8(b.clone()), Operand::U8(a.clone())),
        Instruction::ADD(
            Operand::U16(OperandU16::RegisterPair(RegisterU16::HL)),
            Operand::U8(a.clone()),
        ),
        Instruction::SUB(b.clone(), a.clone()),
        Instruction::INC(Operand::U16(OperandU16::Immediate)),
        Instruction::RST(8),
        Instruction::BIT(8, a.clone()),
        Instruction::SET(9, a.clone()),
        Instruction::LDH(
            a.clone(),
            OperandU8::MemoryU8(Box::new(OperandU8::Memory(OperandU16::Immediate))),
        ),
    ];
    for form in forms {
        let mut cpu = cpu_with(&[0x00]);
        assert_eq!(
            cpu.execute(&form, 0x42, &mut interrupt),
            Err(CoreError::UnimplementedOpcode(0x42))
        );
    }
    let mut cpu = cpu_with(&[0x00]);
    assert_eq!(
        cpu.execute(&Instruction::ILLEGAL(0xD3), 0x42, &mut interrupt),
        Err(CoreError::IllegalOpcode(0xD3))
    );
}

#[test]
fn execute_takes_a_decoded_instruction() {
    let mut interrupt = Interrupt::new();
    let mut cpu = cpu_with(&[0x2A]);
    let load = Instruction::LD(
        Operand::U8(OperandU8::Register(RegisterU8::D)),
        Operand::U8(OperandU8::Immediate),
    );
    assert_eq!(cpu.execute(&load, 0x16, &mut interrupt), Ok(2));
    assert_eq!(cpu.registers().d, 0x2A);
    assert_eq!(cpu.registers().pc, 0x0101);
}

#[test]
fn interrupt_enable_instructions() {
    // EI; NOP; DI; RETI at 0x0103 returns to what was pushed.
    let mut cpu = cpu_with(&[0xFB, 0x00, 0xF3]);
    let mut interrupt = Interrupt::new();
    interrupt.enable_int(InterruptPosition::VBlank, true);
    interrupt.request_int(InterruptPosition::VBlank);

    assert_eq!(cpu.step(&mut interrupt).unwrap().0, Instruction::EI);
    assert_eq!(cpu.service_interrupt(&mut interrupt), Ok(None));
    assert!(interrupt.ime);

    assert_eq!(cpu.step(&mut interrupt).unwrap().0, Instruction::NOP);
    assert_eq!(cpu.service_interrupt(&mut interrupt), Ok(Some(0x0040)));
    assert_eq!(cpu.registers().pc, 0x0040);
    assert_eq!(cpu.registers().sp, 0xFFFC);
    assert_eq!(cpu.memory().get(0xFFFD), Ok(0x01));
    assert_eq!(cpu.memory().get(0xFFFC), Ok(0x02));
    assert_eq!(interrupt.interrupt_flag, 0);

    interrupt.reset_ime();
    assert_eq!(
        cpu.execute(&Instruction::RETI, 0xD9, &mut interrupt),
        Ok(4)
    );
    assert!(interrupt.ime);
    assert_eq!(cpu.registers().pc, 0x0102);
    assert_eq!(cpu.registers().sp, 0xFFFE);

    assert_eq!(cpu.step(&mut interrupt).unwrap().0, Instruction::DI);
    assert!(!interrupt.ime);
    interrupt.request_int(InterruptPosition::VBlank);
    assert_eq!(cpu.service_interrupt(&mut interrupt), Ok(None));
    assert_eq!(cpu.registers().pc, 0x0103);
}

#[test]
fn timing_table() {
    let a = OperandU8::Register(RegisterU8::A);
    let hl = OperandU8::Memory(OperandU16::RegisterPair(RegisterU16::HL));
    assert_eq!(timing(&Instruction::NOP, true), 1);
    assert_eq!(timing(&Instruction::HALT, true), 1);
    assert_eq!(timing(&Instruction::PUSH(RegisterU16::BC), true), 4);
    assert_eq!(timing(&Instruction::POP(RegisterU16::BC), true), 3);
    assert_eq!(timing(&Instruction::RST(1), true), 4);
    assert_eq!(timing(&Instruction::RETI, true), 4);
    assert_eq!(timing(&Instruction::RET(None), true), 4);
    assert_eq!(timing(&Instruction::RET(Some(FlagCondition::Z)), true), 5);
    assert_eq!(timing(&Instruction::RET(Some(FlagCondition::Z)), false), 2);
    assert_eq!(
        timing(&Instruction::JP(None, OperandU16::RegisterPair(RegisterU16::HL)), true),
        1
    );
    assert_eq!(timing(&Instruction::JP(None, OperandU16::Immediate), true), 4);
    assert_eq!(
        timing(&Instruction::CALL(Some(FlagCondition::C), OperandU16::Immediate), false),
        3
    );
    assert_eq!(timing(&Instruction::CALL(None, OperandU16::Immediate), true), 6);
    assert_eq!(timing(&Instruction::ADD(Operand::U8(a.clone()), Operand::U8(hl.clone())), true), 2);
    assert_eq!(timing(&Instruction::INC(Operand::U8(hl.clone())), true), 3);
    assert_eq!(timing(&Instruction::RLC(hl.clone()), true), 4);
    assert_eq!(timing(&Instruction::BIT(0, hl.clone()), true), 3);
    assert_eq!(timing(&Instruction::BIT(0, a.clone()), true), 2);
    assert_eq!(timing(&Instruction::SET(0, hl), true), 4);
    assert_eq!(
        timing(
            &Instruction::LD(
                Operand::U16(OperandU16::RegisterPair(RegisterU16::SP)),
                Operand::U16(OperandU16::RegisterPair(RegisterU16::HL))
            ),
            true
        ),
        2
    );
}

#[test]
fn fetch_wraps_within_the_first_1024_steps_of_an_empty_rom() {
    // An empty ROM is all NOP: the counter walks through it.
    let mut cpu = cpu_with(&[]);
    let done = run(&mut cpu, 1024);
    assert!(done.iter().all(|d| *d == (Instruction::NOP, 1)));
    assert_eq!(cpu.registers().pc, 0x0500);
}
