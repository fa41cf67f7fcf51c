use emiu::flash::CHIP_CAPACITY;
use emiu::handheld::Handheld;
use emiu::handheld::OTP_SIZE;
use emiu::st2205u::wdc_65c02::addr_mode::AddressingMode;
use emiu::st2205u::wdc_65c02::cpu::Core;
use emiu::st2205u::wdc_65c02::cpu::Flags;
use emiu::st2205u::wdc_65c02::decoder::DecodedInstruction;
use emiu::st2205u::wdc_65c02::instr;
use emiu::st2205u::wdc_65c02::instr::Instruction;
use emiu::st2205u::wdc_65c02::opcode::Opcode;

const ORIGIN: u16 = 0x0200;

/// A processor with `program` in RAM at `ORIGIN` and the program counter there.
fn core_with(program: &[u8]) -> Core {
    let handheld = Handheld::new(&vec![0u8; OTP_SIZE], &vec![0u8; CHIP_CAPACITY]).unwrap();
    let mut core = handheld.mcu.core;
    for (i, byte) in program.iter().enumerate() {
        core.address_space.write_u8(ORIGIN as u32 + i as u32, *byte);
    }
    core.registers.pc = ORIGIN;
    core
}

fn no_flags() -> Flags {
    Flags {
        carry: false,
        zero: false,
        interrupt_disable: false,
        decimal: false,
        overflow: false,
        negative: false,
    }
}

fn implied(opcode: Opcode) -> Instruction {
    Instruction { opcode, addressing_mode: AddressingMode::Implied }
}

#[test]
fn flags_pack_as_nv_dizc() {
    let mut flags = no_flags();
    assert_eq!(flags.to_u8(), 0x00);
    flags.carry = true;
    assert_eq!(flags.to_u8(), 0x01);
    flags.zero = true;
    assert_eq!(flags.to_u8(), 0x03);
    flags.interrupt_disable = true;
    assert_eq!(flags.to_u8(), 0x07);
    flags.decimal = true;
    assert_eq!(flags.to_u8(), 0x0F);
    flags.overflow = true;
    assert_eq!(flags.to_u8(), 0x4F);
    flags.negative = true;
    assert_eq!(flags.to_u8(), 0xCF);
}

#[test]
fn flags_unpack_ignores_bits_4_and_5() {
    let flags = Flags::from_u8(0xFF);
    assert_eq!(flags.to_u8(), 0xCF);
    assert_eq!(Flags::from_u8(0x30), no_flags());
    for byte in 0..=255u8 {
        assert_eq!(Flags::from_u8(byte).to_u8(), byte & 0xCF);
    }
}

#[test]
fn stack_pointer_lies_in_page_one() {
    let mut core = core_with(&[]);
    assert_eq!(core.registers.full_sp(), 0x100);
    core.registers.sp = 0xFF;
    assert_eq!(core.registers.full_sp(), 0x1FF);
}

#[test]
fn stack_round_trip() {
    let mut core = core_with(&[]);
    core.registers.a = 0x11;
    core.registers.x = 0x22;
    core.registers.y = 0x33;
    core.address_space.write_u8(0x00FF, 0x5A);
    core.address_space.write_u8(0x0200, 0xA5);
    assert_eq!(core.registers.sp, 0);
    core.push_u8(0x12);
    assert_eq!(core.registers.sp, 0xFF);
    core.push_u16(0xBEEF);
    assert_eq!(core.registers.sp, 0xFD);
    core.push_u8(0x34);
    assert_eq!(core.pop_u8(), 0x34);
    assert_eq!(core.pop_u16(), 0xBEEF);
    core.push_u16(0x0102);
    assert_eq!(core.pop_u8(), 0x02);
    assert_eq!(core.pop_u8(), 0x01);
    assert_eq!(core.pop_u8(), 0x12);
    assert_eq!(core.registers.sp, 0);
    assert_eq!((core.registers.a, core.registers.x, core.registers.y), (0x11, 0x22, 0x33));
    assert_eq!(core.registers.pc, ORIGIN);
    assert_eq!(core.address_space.read_u8(0x00FF), 0x5A);
    assert_eq!(core.address_space.read_u8(0x0200), 0xA5);
    // The first byte went to the bottom of the stack page, the word below its top.
    assert_eq!(core.address_space.read_u8(0x0100), 0x12);
    assert_eq!(core.address_space.read_u8(0x01FF), 0x01);
    assert_eq!(core.address_space.read_u8(0x01FE), 0x02);
}

#[test]
fn decoder_reads_operation_operand_and_cost() {
    let mut core = core_with(&[0xA9, 0x42, 0xBD, 0x34, 0x12, 0xD0, 0xFE, 0x0F, 0x10, 0x7F, 0x03]);
    let space = &mut core.address_space;
    assert_eq!(
        DecodedInstruction::decode(space, 0x0200),
        DecodedInstruction {
            instruction: Instruction {
                opcode: Opcode::Lda,
                addressing_mode: AddressingMode::Immediate(0x42),
            },
            cycles: 2,
            extra_page_boundary_cycle: false,
        }
    );
    assert_eq!(
        DecodedInstruction::decode(space, 0x0202),
        DecodedInstruction {
            instruction: Instruction {
                opcode: Opcode::Lda,
                addressing_mode: AddressingMode::AbsoluteXIndexed(0x1234),
            },
            cycles: 4,
            extra_page_boundary_cycle: true,
        }
    );
    assert_eq!(
        DecodedInstruction::decode(space, 0x0205).instruction,
        Instruction { opcode: Opcode::Bne, addressing_mode: AddressingMode::Relative(-2) }
    );
    assert_eq!(
        DecodedInstruction::decode(space, 0x0207).instruction,
        Instruction {
            opcode: Opcode::Bbr0,
            addressing_mode: AddressingMode::ZeroPageRelative(0x10, 0x7F),
        }
    );
    // A byte that encodes no operation is a no-operation of one cycle.
    assert_eq!(
        DecodedInstruction::decode(space, 0x020A),
        DecodedInstruction {
            instruction: Instruction { opcode: Opcode::Nop, addressing_mode: AddressingMode::Implied },
            cycles: 1,
            extra_page_boundary_cycle: false,
        }
    );
}

#[test]
fn decoder_gives_jumps_their_targets() {
    let mut core = core_with(&[0x4C, 0x00, 0x03, 0x6C, 0x00, 0x03, 0x7C, 0x00, 0x03, 0x20, 0x00, 0x03]);
    let space = &mut core.address_space;
    assert_eq!(
        DecodedInstruction::decode(space, 0x0200).instruction.addressing_mode,
        AddressingMode::AbsoluteAddress(0x0300)
    );
    assert_eq!(
        DecodedInstruction::decode(space, 0x0203).instruction.addressing_mode,
        AddressingMode::IndirectAddress(0x0300)
    );
    assert_eq!(
        DecodedInstruction::decode(space, 0x0206).instruction.addressing_mode,
        AddressingMode::AbsoluteXIndexedIndirectAddress(0x0300)
    );
    assert_eq!(
        DecodedInstruction::decode(space, 0x0209).instruction,
        Instruction { opcode: Opcode::Jsr, addressing_mode: AddressingMode::AbsoluteAddress(0x0300) }
    );
}

#[test]
fn encoded_lengths() {
    assert_eq!(Opcode::Lda.encoded_length(), 1);
    assert_eq!(AddressingMode::Implied.encoded_length(), 0);
    assert_eq!(AddressingMode::Immediate(1).encoded_length(), 1);
    assert_eq!(AddressingMode::Relative(-1).encoded_length(), 1);
    assert_eq!(AddressingMode::ZeroPageYIndexed(1).encoded_length(), 1);
    assert_eq!(AddressingMode::Absolute(1).encoded_length(), 2);
    assert_eq!(AddressingMode::ZeroPageRelative(1, 2).encoded_length(), 2);
    assert_eq!(AddressingMode::AbsoluteXIndexedIndirectAddress(1).encoded_length(), 2);
    assert_eq!(implied(Opcode::Nop).encoded_length(), 1);
    assert_eq!(
        Instruction { opcode: Opcode::Jmp, addressing_mode: AddressingMode::AbsoluteAddress(0) }
            .encoded_length(),
        3
    );
}

#[test]
fn step_loads_and_counts_cycles() {
    // LDA #$00; LDA #$80; LDX #$01; LDA $12FF,X
    let mut core = core_with(&[0xA9, 0x00, 0xA9, 0x80, 0xA2, 0x01, 0xBD, 0xFF, 0x12]);
    core.address_space.write_u8(0x1300, 0x55);
    core.step();
    assert_eq!(core.registers.a, 0);
    assert!(core.flags.zero && !core.flags.negative);
    assert_eq!(core.registers.pc, 0x0202);
    assert_eq!(core.cycles, 2);
    assert_eq!(core.instruction_cycles(), 2);
    assert_eq!(core.oscillator_cycles(), 4);
    core.step();
    assert_eq!(core.registers.a, 0x80);
    assert!(!core.flags.zero && core.flags.negative);
    core.step();
    assert_eq!(core.registers.x, 1);
    assert_eq!(core.cycles, 6);
    // The index leaves the page: one more cycle.
    core.step();
    assert_eq!(core.registers.a, 0x55);
    assert_eq!(core.cycles, 11);
    assert_eq!(core.registers.pc, 0x0209);
}

#[test]
fn step_branches_relative_to_the_next_instruction() {
    // LDX #$02; DEX; BNE -3; NOP
    let mut core = core_with(&[0xA2, 0x02, 0xCA, 0xD0, 0xFD, 0xEA]);
    core.step();
    core.step();
    assert_eq!(core.registers.x, 1);
    assert_eq!(core.cycles, 4);
    core.step();
    // Taken: one more cycle.
    assert_eq!(core.registers.pc, 0x0202);
    assert_eq!(core.cycles, 7);
    core.step();
    assert_eq!(core.registers.x, 0);
    core.step();
    // Not taken.
    assert_eq!(core.registers.pc, 0x0205);
    assert_eq!(core.cycles, 11);
}

#[test]
fn step_calls_and_returns() {
    // JSR $0210; LDA #$01 ... at $0210: RTS
    let mut program = vec![0x20, 0x10, 0x02, 0xA9, 0x01];
    program.resize(0x10, 0xEA);
    program.push(0x60);
    let mut core = core_with(&program);
    core.step();
    assert_eq!(core.registers.pc, 0x0210);
    assert_eq!(core.registers.sp, 0xFE);
    // The address pushed is that of the last byte of the call.
    assert_eq!(core.address_space.read_u8(0x0100), 0x02);
    assert_eq!(core.address_space.read_u8(0x01FF), 0x02);
    assert_eq!(core.cycles, 6);
    core.step();
    assert_eq!(core.registers.pc, 0x0203);
    assert_eq!(core.registers.sp, 0x00);
    assert_eq!(core.cycles, 12);
    core.step();
    assert_eq!(core.registers.a, 1);
}

#[test]
fn step_stores_through_pointers() {
    // LDA #$77; LDX #$04; STA ($8C,X); LDY #$01; STA ($A0),Y; LDX $A0,Y; STX $B0,Y
    let mut core = core_with(&[
        0xA9, 0x77, 0xA2, 0x04, 0x81, 0x8C, 0xA0, 0x01, 0x91, 0xA0, 0xB6, 0xA0, 0x96, 0xB0,
    ]);
    core.address_space.write_u8(0x0090, 0x00);
    core.address_space.write_u8(0x0091, 0x03);
    core.address_space.write_u8(0x00A0, 0xFF);
    core.address_space.write_u8(0x00A1, 0x03);
    for _ in 0..3 {
        core.step();
    }
    assert_eq!(core.address_space.read_u8(0x0300), 0x77);
    core.step();
    core.step();
    assert_eq!(core.address_space.read_u8(0x0400), 0x77);
    core.step();
    assert_eq!(core.registers.x, 0x03);
    core.step();
    assert_eq!(core.address_space.read_u8(0x00B1), 0x03);
    assert_eq!(core.cycles, 2 + 2 + 6 + 2 + 6 + 4 + 4);
    assert_eq!(core.registers.pc, 0x020E);
}

#[test]
fn adc_adds_in_binary() {
    let mut core = core_with(&[]);
    core.registers.a = 0x50;
    let crossed = instr::adc(
        &mut core,
        &Instruction { opcode: Opcode::Adc, addressing_mode: AddressingMode::Immediate(0x50) },
    );
    assert!(!crossed);
    assert_eq!(core.registers.a, 0xA0);
    assert!(core.flags.overflow && core.flags.negative && !core.flags.carry && !core.flags.zero);
    assert_eq!(core.cycles, 0);
    core.registers.a = 0xFF;
    core.flags.carry = true;
    instr::adc(
        &mut core,
        &Instruction { opcode: Opcode::Adc, addressing_mode: AddressingMode::Immediate(0x00) },
    );
    assert_eq!(core.registers.a, 0x00);
    assert!(core.flags.carry && core.flags.zero && !core.flags.overflow && !core.flags.negative);
}

#[test]
fn adc_adds_in_decimal() {
    let mut core = core_with(&[]);
    core.flags.decimal = true;
    core.registers.a = 0x15;
    instr::adc(
        &mut core,
        &Instruction { opcode: Opcode::Adc, addressing_mode: AddressingMode::Immediate(0x27) },
    );
    assert_eq!(core.registers.a, 0x42);
    assert!(!core.flags.carry);
    // Decimal mode costs a cycle.
    assert_eq!(core.cycles, 1);
    core.registers.a = 0x58;
    core.flags.carry = true;
    instr::adc(
        &mut core,
        &Instruction { opcode: Opcode::Adc, addressing_mode: AddressingMode::Immediate(0x46) },
    );
    assert_eq!(core.registers.a, 0x05);
    assert!(core.flags.carry);
    assert_eq!(core.cycles, 2);
}

#[test]
fn sbc_subtracts_in_binary_and_decimal() {
    let mut core = core_with(&[]);
    core.registers.a = 0x42;
    core.flags.carry = true;
    let sbc = |core: &mut Core, operand: u8| {
        instr::sbc(
            core,
            &Instruction { opcode: Opcode::Sbc, addressing_mode: AddressingMode::Immediate(operand) },
        )
    };
    sbc(&mut core, 0x15);
    assert_eq!(core.registers.a, 0x2D);
    assert!(core.flags.carry && !core.flags.zero && !core.flags.negative && !core.flags.overflow);
    // A borrow clears carry.
    sbc(&mut core, 0x2E);
    assert_eq!(core.registers.a, 0xFF);
    assert!(!core.flags.carry && core.flags.negative);
    // 0x80 - 1 overflows as signed bytes.
    core.registers.a = 0x80;
    core.flags.carry = true;
    sbc(&mut core, 0x01);
    assert_eq!(core.registers.a, 0x7F);
    assert!(core.flags.overflow && core.flags.carry);
    assert_eq!(core.cycles, 0);
    core.flags.decimal = true;
    core.registers.a = 0x42;
    core.flags.carry = true;
    sbc(&mut core, 0x15);
    assert_eq!(core.registers.a, 0x27);
    assert!(core.flags.carry);
    // The flags tell of the binary difference 0x2D.
    assert!(!core.flags.zero && !core.flags.negative);
    assert_eq!(core.cycles, 1);
    core.registers.a = 0x10;
    core.flags.carry = true;
    sbc(&mut core, 0x01);
    assert_eq!(core.registers.a, 0x09);
}

#[test]
fn compare_sets_carry_zero_and_negative() {
    let mut core = core_with(&[]);
    core.registers.a = 0x40;
    let cmp = Instruction { opcode: Opcode::Cmp, addressing_mode: AddressingMode::Immediate(0x40) };
    instr::cmp(&mut core, &cmp);
    assert!(core.flags.carry && core.flags.zero && !core.flags.negative);
    core.registers.x = 0x10;
    instr::cpx(
        &mut core,
        &Instruction { opcode: Opcode::Cpx, addressing_mode: AddressingMode::Immediate(0x20) },
    );
    assert!(!core.flags.carry && !core.flags.zero && core.flags.negative);
    core.registers.y = 0x90;
    instr::cpy(
        &mut core,
        &Instruction { opcode: Opcode::Cpy, addressing_mode: AddressingMode::Immediate(0x01) },
    );
    assert!(core.flags.carry && !core.flags.zero && core.flags.negative);
    instr::cmpx(
        &mut core,
        &Instruction { opcode: Opcode::Cmp, addressing_mode: AddressingMode::Immediate(0x01) },
        0x02,
    );
    assert!(core.flags.carry && !core.flags.zero && !core.flags.negative);
}

#[test]
fn shifts_and_rotates_move_through_carry() {
    let mut core = core_with(&[]);
    core.registers.a = 0x81;
    instr::asl(&mut core, &implied(Opcode::Asl));
    assert_eq!(core.registers.a, 0x02);
    assert!(core.flags.carry);
    instr::rol(&mut core, &implied(Opcode::Rol));
    assert_eq!(core.registers.a, 0x05);
    assert!(!core.flags.carry);
    instr::lsr(&mut core, &implied(Opcode::Lsr));
    assert_eq!(core.registers.a, 0x02);
    assert!(core.flags.carry);
    instr::ror(&mut core, &implied(Opcode::Ror));
    assert_eq!(core.registers.a, 0x81);
    assert!(!core.flags.carry && core.flags.negative);
    instr::lsr(&mut core, &implied(Opcode::Lsr));
    instr::lsr(&mut core, &implied(Opcode::Lsr));
    assert_eq!(core.registers.a, 0x20);
    core.registers.a = 0x01;
    instr::lsr(&mut core, &implied(Opcode::Lsr));
    assert_eq!(core.registers.a, 0x00);
    assert!(core.flags.zero && core.flags.carry);
}

#[test]
fn logic_operations_work_on_a() {
    let mut core = core_with(&[]);
    core.registers.a = 0b1100_1010;
    let imm = |opcode, value| Instruction { opcode, addressing_mode: AddressingMode::Immediate(value) };
    instr::and(&mut core, &imm(Opcode::And, 0b1010_1010));
    assert_eq!(core.registers.a, 0b1000_1010);
    instr::ora(&mut core, &imm(Opcode::Ora, 0b0000_0101));
    assert_eq!(core.registers.a, 0b1000_1111);
    instr::eor(&mut core, &imm(Opcode::Eor, 0b1000_1111));
    assert_eq!(core.registers.a, 0);
    assert!(core.flags.zero);
}

#[test]
fn bit_operations_on_memory() {
    let mut core = core_with(&[]);
    let zp = |opcode, address| Instruction { opcode, addressing_mode: AddressingMode::ZeroPage(address) };
    core.address_space.write_u8(0x90, 0b0000_0001);
    instr::smb7(&mut core, &zp(Opcode::Smb7, 0x90));
    assert_eq!(core.address_space.read_u8(0x90), 0b1000_0001);
    instr::rmb0(&mut core, &zp(Opcode::Rmb0, 0x90));
    assert_eq!(core.address_space.read_u8(0x90), 0b1000_0000);
    instr::smbx(&mut core, &zp(Opcode::Smb3, 0x90), 3);
    instr::rmbx(&mut core, &zp(Opcode::Rmb7, 0x90), 7);
    assert_eq!(core.address_space.read_u8(0x90), 0b0000_1000);
    instr::rmb3(&mut core, &zp(Opcode::Rmb3, 0x90));
    assert!(core.flags.zero);
    // BIT takes negative and overflow from memory, zero from the AND.
    core.address_space.write_u8(0x91, 0b1100_0000);
    core.registers.a = 0b0011_1111;
    instr::bit(&mut core, &zp(Opcode::Bit, 0x91));
    assert!(core.flags.zero && core.flags.negative && core.flags.overflow);
    // With an immediate operand only zero changes.
    instr::bit(
        &mut core,
        &Instruction { opcode: Opcode::Bit, addressing_mode: AddressingMode::Immediate(0x01) },
    );
    assert!(!core.flags.zero && core.flags.negative && core.flags.overflow);
    core.address_space.write_u8(0x92, 0b1111_0000);
    core.registers.a = 0b0011_1100;
    instr::trb(&mut core, &zp(Opcode::Trb, 0x92));
    assert_eq!(core.address_space.read_u8(0x92), 0b1100_0000);
    assert!(!core.flags.zero);
    instr::tsb(&mut core, &zp(Opcode::Tsb, 0x92));
    assert_eq!(core.address_space.read_u8(0x92), 0b1111_1100);
    assert!(core.flags.zero);
}

#[test]
fn bit_branches_test_memory() {
    let mut core = core_with(&[]);
    core.address_space.write_u8(0x90, 0b0000_0100);
    core.registers.pc = 0x1000;
    let mode = AddressingMode::ZeroPageRelative(0x90, 0x10);
    instr::bbr2(&mut core, &Instruction { opcode: Opcode::Bbr2, addressing_mode: mode });
    assert_eq!(core.registers.pc, 0x1000);
    assert_eq!(core.cycles, 0);
    instr::bbs2(&mut core, &Instruction { opcode: Opcode::Bbs2, addressing_mode: mode });
    assert_eq!(core.registers.pc, 0x1010);
    assert_eq!(core.cycles, 1);
    instr::bbr(
        &mut core,
        &Instruction {
            opcode: Opcode::Bbr7,
            addressing_mode: AddressingMode::ZeroPageRelative(0x90, -0x20),
        },
        7,
    );
    assert_eq!(core.registers.pc, 0x0FF0);
    instr::bbs(&mut core, &Instruction { opcode: Opcode::Bbs0, addressing_mode: mode }, 0);
    assert_eq!(core.registers.pc, 0x0FF0);
}

#[test]
fn branches_follow_their_flags() {
    let mut core = core_with(&[]);
    let rel = |opcode, offset| Instruction { opcode, addressing_mode: AddressingMode::Relative(offset) };
    core.registers.pc = 0x0010;
    instr::bra(&mut core, &rel(Opcode::Bra, -0x20));
    assert_eq!(core.registers.pc, 0xFFF0);
    assert_eq!(core.cycles, 0);
    instr::beq(&mut core, &rel(Opcode::Beq, 4));
    assert_eq!(core.registers.pc, 0xFFF0);
    instr::bne(&mut core, &rel(Opcode::Bne, 0x20));
    assert_eq!(core.registers.pc, 0x0010);
    assert_eq!(core.cycles, 1);
    instr::bcc(&mut core, &rel(Opcode::Bcc, 1));
    instr::bpl(&mut core, &rel(Opcode::Bpl, 1));
    instr::bvc(&mut core, &rel(Opcode::Bvc, 1));
    assert_eq!(core.registers.pc, 0x0013);
    instr::bcs(&mut core, &rel(Opcode::Bcs, 1));
    instr::bmi(&mut core, &rel(Opcode::Bmi, 1));
    instr::bvs(&mut core, &rel(Opcode::Bvs, 1));
    assert_eq!(core.registers.pc, 0x0013);
    assert_eq!(core.cycles, 4);
    core.flags = Flags { carry: true, negative: true, overflow: true, zero: true, ..no_flags() };
    instr::bcs(&mut core, &rel(Opcode::Bcs, 1));
    instr::bmi(&mut core, &rel(Opcode::Bmi, 1));
    instr::bvs(&mut core, &rel(Opcode::Bvs, 1));
    instr::beq(&mut core, &rel(Opcode::Beq, 1));
    assert_eq!(core.registers.pc, 0x0017);
}

#[test]
fn transfers_and_counters() {
    let mut core = core_with(&[]);
    core.registers.a = 0x80;
    instr::tax(&mut core, &implied(Opcode::Tax));
    instr::tay(&mut core, &implied(Opcode::Tay));
    assert_eq!((core.registers.x, core.registers.y), (0x80, 0x80));
    assert!(core.flags.negative);
    instr::inx(&mut core, &implied(Opcode::Inx));
    instr::dey(&mut core, &implied(Opcode::Dey));
    assert_eq!((core.registers.x, core.registers.y), (0x81, 0x7F));
    instr::txs(&mut core, &implied(Opcode::Txs));
    assert_eq!(core.registers.sp, 0x81);
    core.registers.x = 0xFF;
    instr::inx(&mut core, &implied(Opcode::Inx));
    assert_eq!(core.registers.x, 0);
    assert!(core.flags.zero);
    instr::dex(&mut core, &implied(Opcode::Dex));
    assert_eq!(core.registers.x, 0xFF);
    instr::tsx(&mut core, &implied(Opcode::Tsx));
    assert_eq!(core.registers.x, 0x81);
    instr::txa(&mut core, &implied(Opcode::Txa));
    assert_eq!(core.registers.a, 0x81);
    instr::iny(&mut core, &implied(Opcode::Iny));
    instr::tya(&mut core, &implied(Opcode::Tya));
    assert_eq!(core.registers.a, 0x80);
    instr::inc(&mut core, &implied(Opcode::Inc));
    assert_eq!(core.registers.a, 0x81);
    instr::dec(&mut core, &implied(Opcode::Dec));
    instr::dec(&mut core, &implied(Opcode::Dec));
    assert_eq!(core.registers.a, 0x7F);
    assert!(!core.flags.negative);
}

#[test]
fn flag_instructions_and_stack_instructions() {
    let mut core = core_with(&[]);
    instr::sec(&mut core, &implied(Opcode::Sec));
    instr::sed(&mut core, &implied(Opcode::Sed));
    instr::sei(&mut core, &implied(Opcode::Sei));
    assert_eq!(core.flags.to_u8(), 0x0D);
    instr::php(&mut core, &implied(Opcode::Php));
    instr::clc(&mut core, &implied(Opcode::Clc));
    instr::cld(&mut core, &implied(Opcode::Cld));
    instr::cli(&mut core, &implied(Opcode::Cli));
    assert_eq!(core.flags.to_u8(), 0x00);
    core.flags.overflow = true;
    instr::clv(&mut core, &implied(Opcode::Clv));
    assert!(!core.flags.overflow);
    instr::plp(&mut core, &implied(Opcode::Plp));
    assert_eq!(core.flags.to_u8(), 0x0D);
    core.registers.a = 1;
    core.registers.x = 2;
    core.registers.y = 3;
    instr::pha(&mut core, &implied(Opcode::Pha));
    instr::phx(&mut core, &implied(Opcode::Phx));
    instr::phy(&mut core, &implied(Opcode::Phy));
    instr::pla(&mut core, &implied(Opcode::Pla));
    instr::plx(&mut core, &implied(Opcode::Plx));
    instr::ply(&mut core, &implied(Opcode::Ply));
    assert_eq!((core.registers.a, core.registers.x, core.registers.y), (3, 2, 1));
    instr::nop(&mut core, &implied(Opcode::Nop));
    instr::wai(&mut core, &implied(Opcode::Wai));
    assert_eq!(core.cycles, 0);
}

#[test]
fn jumps_load_the_program_counter() {
    let mut core = core_with(&[]);
    core.address_space.write_u8(0x0300, 0x78);
    core.address_space.write_u8(0x0301, 0x56);
    core.address_space.write_u8(0x0304, 0xBC);
    core.address_space.write_u8(0x0305, 0x9A);
    let jmp = |mode| Instruction { opcode: Opcode::Jmp, addressing_mode: mode };
    instr::jmp(&mut core, &jmp(AddressingMode::AbsoluteAddress(0x1234)));
    assert_eq!(core.registers.pc, 0x1234);
    instr::jmp(&mut core, &jmp(AddressingMode::IndirectAddress(0x0300)));
    assert_eq!(core.registers.pc, 0x5678);
    core.registers.x = 4;
    instr::jmp(&mut core, &jmp(AddressingMode::AbsoluteXIndexedIndirectAddress(0x0300)));
    assert_eq!(core.registers.pc, 0x9ABC);
}

#[test]
fn rti_restores_flags_and_leaves_the_interrupt() {
    let mut core = core_with(&[]);
    core.set_interrupted(true);
    core.push_u16(0x4321);
    core.push_u8(0xC3);
    instr::rti(&mut core, &implied(Opcode::Rti));
    assert_eq!(core.registers.pc, 0x4321);
    assert_eq!(core.flags.to_u8(), 0xC3);
    assert!(!core.interrupted());
    assert_eq!(core.registers.sp, 0);
}

#[test]
fn operands_are_read_and_written_by_mode() {
    let mut core = core_with(&[]);
    core.registers.x = 2;
    core.registers.y = 3;
    core.address_space.write_u8(0x0500, 0x11);
    core.address_space.write_u8(0x0502, 0x22);
    core.address_space.write_u8(0x0503, 0x33);
    core.address_space.write_u8(0x0092, 0x44);
    core.address_space.write_u8(0x00A0, 0x00);
    core.address_space.write_u8(0x00A1, 0x05);
    assert_eq!(AddressingMode::Absolute(0x0500).read_operand_u8(&mut core), (0x11, false));
    assert_eq!(AddressingMode::AbsoluteXIndexed(0x0500).read_operand_u8(&mut core), (0x22, false));
    assert_eq!(AddressingMode::AbsoluteYIndexed(0x0500).read_operand_u8(&mut core), (0x33, false));
    assert_eq!(AddressingMode::AbsoluteXIndexed(0x04FE).read_operand_u8(&mut core), (0x11, true));
    assert_eq!(AddressingMode::Immediate(0x99).read_operand_u8(&mut core), (0x99, false));
    assert_eq!(AddressingMode::ZeroPageXIndexed(0x90).read_operand_u8(&mut core), (0x44, false));
    assert_eq!(AddressingMode::ZeroPageYIndexed(0x8F).read_operand_u8(&mut core), (0x44, false));
    assert_eq!(AddressingMode::IndirectZeroPage(0xA0).read_operand_u8(&mut core), (0x11, false));
    assert_eq!(AddressingMode::XIndexedIndirect(0x9E).read_operand_u8(&mut core), (0x11, false));
    assert_eq!(AddressingMode::IndirectYIndexed(0xA0).read_operand_u8(&mut core), (0x33, false));
    core.registers.a = 0x66;
    assert_eq!(AddressingMode::Implied.read_operand_u8(&mut core), (0x66, false));
    assert_eq!(AddressingMode::Relative(-5).read_operand_i8(&mut core), (-5, false));
    assert_eq!(
        AddressingMode::ZeroPageRelative(0x92, 7).read_operand_u8_i8(&mut core),
        ((0x44, 7), false)
    );
    assert_eq!(AddressingMode::AbsoluteAddress(0x1234).read_operand_u16(&mut core), (0x1234, false));
    assert!(!AddressingMode::ZeroPage(0x93).write_operand_u8(&mut core, 0x55));
    assert_eq!(core.address_space.read_u8(0x0093), 0x55);
    assert!(AddressingMode::AbsoluteYIndexed(0x05FF).write_operand_u8(&mut core, 0x56));
    assert_eq!(core.address_space.read_u8(0x0602), 0x56);
    assert!(!AddressingMode::Implied.write_operand_u8(&mut core, 0x57));
    assert_eq!(core.registers.a, 0x57);
    // The zero page wraps around for indexed zero-page modes.
    core.registers.x = 0x10;
    assert!(!AddressingMode::ZeroPageXIndexed(0xF3).write_operand_u8(&mut core, 0x59));
    assert_eq!(core.address_space.read_u8(0x0003), 0x59);
    assert_eq!(core.address_space.read_u8(0x0103), 0x00);
}

#[test]
fn instructions_are_written_as_an_assembler_writes_them() {
    assert_eq!(Opcode::Adc.to_string(), "ADC");
    assert_eq!(Opcode::Bbr7.to_string(), "BBR7");
    assert_eq!(Opcode::Wai.to_string(), "WAI");
    assert_eq!(AddressingMode::Absolute(0x12AB).to_string(), "$12AB");
    assert_eq!(AddressingMode::AbsoluteXIndexed(0x00AB).to_string(), "$00AB,X");
    assert_eq!(AddressingMode::AbsoluteYIndexed(0xFFFF).to_string(), "$FFFF,Y");
    assert_eq!(AddressingMode::AbsoluteXIndexedIndirect(0x1000).to_string(), "($1000,X)");
    assert_eq!(AddressingMode::Immediate(0x0F).to_string(), "#$0F");
    assert_eq!(AddressingMode::Indirect(0x1234).to_string(), "($1234)");
    assert_eq!(AddressingMode::XIndexedIndirect(0x10).to_string(), "($10,X)");
    assert_eq!(AddressingMode::IndirectYIndexed(0x10).to_string(), "($10),Y");
    assert_eq!(AddressingMode::Relative(-2).to_string(), "$FE");
    assert_eq!(AddressingMode::Relative(-128).to_string(), "$80");
    assert_eq!(AddressingMode::Relative(5).to_string(), "+$05");
    assert_eq!(AddressingMode::Relative(0).to_string(), "+$00");
    assert_eq!(AddressingMode::ZeroPage(0x9C).to_string(), "$9C");
    assert_eq!(AddressingMode::IndirectZeroPage(0x9C).to_string(), "($9C)");
    assert_eq!(AddressingMode::ZeroPageXIndexed(0x9C).to_string(), "$9C,X");
    assert_eq!(AddressingMode::ZeroPageYIndexed(0x9C).to_string(), "$9C,Y");
    assert_eq!(AddressingMode::ZeroPageRelative(0x12, -1).to_string(), "$12,$FF");
    assert_eq!(AddressingMode::ZeroPageRelative(0x12, 3).to_string(), "$12,+$03");
    assert_eq!(AddressingMode::Implied.to_string(), "");
    assert_eq!(AddressingMode::AbsoluteAddress(0x4000).to_string(), "$4000");
    assert_eq!(AddressingMode::IndirectAddress(0x4000).to_string(), "($4000)");
    assert_eq!(AddressingMode::AbsoluteXIndexedIndirectAddress(0x4000).to_string(), "($4000,X)");
    assert_eq!(
        Instruction { opcode: Opcode::Lda, addressing_mode: AddressingMode::Immediate(0x42) }
            .to_string(),
        "LDA #$42"
    );
    assert_eq!(implied(Opcode::Nop).to_string(), "NOP");
}

#[test]
fn registers_are_written_in_hexadecimal() {
    let mut core = core_with(&[]);
    core.registers.sp = 0xFD;
    core.registers.pc = 0x1234;
    core.registers.a = 0x0A;
    core.registers.x = 0x0B;
    core.registers.y = 0xC0;
    assert_eq!(core.registers.to_string(), "SP: 0x(1)FD; PC: 1234; A: 0A, X: 0B; Y: C0");
}
