//! The decoder of the 65C02: from the bytes of an instruction to its
//! operation, its operand and its cost in cycles.

use vstd::prelude::*;
use crate::reg::word;
use crate::st2205u::addr_space::SpaceView;
use crate::st2205u::addr_space::St2205uAddressSpace;
use crate::st2205u::wdc_65c02::addr_mode::AddressingMode;
use crate::st2205u::wdc_65c02::instr::Instruction;
use crate::st2205u::wdc_65c02::opcode::Opcode;

verus! {

/// The most cycles that the table gives an instruction.
pub const CYCLES_PER_INSTRUCTION_MAX: u64 = 8;

/// An instruction as the decoder found it.
#[derive(Clone, Copy, Debug, PartialEq, Eq, Structural)]
pub struct DecodedInstruction {
    pub instruction: Instruction,
    /// The number of cycles that the instruction takes at least.
    pub cycles: u64,
    /// Whether the instruction takes one more cycle if indexing its
    /// operand leaves the page.
    pub extra_page_boundary_cycle: bool,
}

/// The byte `byte` as a signed distance.
pub open spec fn signed(byte: u8) -> i8 {
    if byte >= 0x80 {
        (byte - 0x100) as i8
    } else {
        byte as i8
    }
}

fn to_signed(byte: u8) -> (distance: i8)
    ensures
        distance == signed(byte),
{
    if byte >= 0x80 {
        (byte as i16 - 0x100) as i8
    } else {
        byte as i8
    }
}

fn to_word(low: u8, high: u8) -> (value: u16)
    ensures
        value == word(low, high),
{
    (low as u16) | ((high as u16) << 8)
}

impl DecodedInstruction {
    /// An entry of the table of instructions.
    pub open spec fn of(
        opcode: Opcode,
        addressing_mode: AddressingMode,
        cycles: u64,
        extra_page_boundary_cycle: bool,
    ) -> DecodedInstruction {
        DecodedInstruction {
            instruction: Instruction { opcode, addressing_mode },
            cycles,
            extra_page_boundary_cycle,
        }
    }

    /// The instruction that the byte `opcode` encodes, with operand bytes
    /// `low` and `high`. A byte that encodes no operation of the 65C02
    /// is a `NOP` of some length.
    #[verifier::opaque]
    pub open spec fn assembled(opcode: u8, low: u8, high: u8) -> DecodedInstruction {
        match opcode {
            0x00 => Self::of(Opcode::Brk, AddressingMode::Implied, 7, false),
            0x01 => Self::of(Opcode::Ora, AddressingMode::XIndexedIndirect(low), 6, false),
            0x02 => Self::of(Opcode::Nop, AddressingMode::Immediate(low), 2, false),
            0x03 => Self::of(Opcode::Nop, AddressingMode::Implied, 1, false),
            0x04 => Self::of(Opcode::Tsb, AddressingMode::ZeroPage(low), 5, false),
            0x05 => Self::of(Opcode::Ora, AddressingMode::ZeroPage(low), 3, false),
            0x06 => Self::of(Opcode::Asl, AddressingMode::ZeroPage(low), 5, false),
            0x07 => Self::of(Opcode::Rmb0, AddressingMode::ZeroPage(low), 5, false),
            0x08 => Self::of(Opcode::Php, AddressingMode::Implied, 3, false),
            0x09 => Self::of(Opcode::Ora, AddressingMode::Immediate(low), 2, false),
            0x0A => Self::of(Opcode::Asl, AddressingMode::Implied, 2, false),
            0x0B => Self::of(Opcode::Nop, AddressingMode::Implied, 1, false),
            0x0C => Self::of(Opcode::Tsb, AddressingMode::Absolute(word(low, high)), 6, false),
            0x0D => Self::of(Opcode::Ora, AddressingMode::Absolute(word(low, high)), 4, false),
            0x0E => Self::of(Opcode::Asl, AddressingMode::Absolute(word(low, high)), 6, false),
            0x0F => Self::of(Opcode::Bbr0, AddressingMode::ZeroPageRelative(low, signed(high)), 5, false),
            0x10 => Self::of(Opcode::Bpl, AddressingMode::Relative(signed(low)), 2, true),
            0x11 => Self::of(Opcode::Ora, AddressingMode::IndirectYIndexed(low), 5, true),
            0x12 => Self::of(Opcode::Ora, AddressingMode::IndirectZeroPage(low), 5, false),
            0x13 => Self::of(Opcode::Nop, AddressingMode::Implied, 1, false),
            0x14 => Self::of(Opcode::Trb, AddressingMode::ZeroPage(low), 5, false),
            0x15 => Self::of(Opcode::Ora, AddressingMode::ZeroPageXIndexed(low), 4, false),
            0x16 => Self::of(Opcode::Asl, AddressingMode::ZeroPageXIndexed(low), 6, false),
            0x17 => Self::of(Opcode::Rmb1, AddressingMode::ZeroPage(low), 5, false),
            0x18 => Self::of(Opcode::Clc, AddressingMode::Implied, 2, false),
            0x19 => Self::of(Opcode::Ora, AddressingMode::AbsoluteYIndexed(word(low, high)), 4, true),
            0x1A => Self::of(Opcode::Inc, AddressingMode::Implied, 2, false),
            0x1B => Self::of(Opcode::Nop, AddressingMode::Implied, 1, false),
            0x1C => Self::of(Opcode::Trb, AddressingMode::Absolute(word(low, high)), 6, false),
            0x1D => Self::of(Opcode::Ora, AddressingMode::AbsoluteXIndexed(word(low, high)), 4, true),
            0x1E => Self::of(Opcode::Asl, AddressingMode::AbsoluteXIndexed(word(low, high)), 6, true),
            0x1F => Self::of(Opcode::Bbr1, AddressingMode::ZeroPageRelative(low, signed(high)), 5, false),
            0x20 => Self::of(Opcode::Jsr, AddressingMode::AbsoluteAddress(word(low, high)), 6, false),
            0x21 => Self::of(Opcode::And, AddressingMode::XIndexedIndirect(low), 6, false),
            0x22 => Self::of(Opcode::Nop, AddressingMode::Immediate(low), 2, false),
            0x23 => Self::of(Opcode::Nop, AddressingMode::Implied, 1, false),
            0x24 => Self::of(Opcode::Bit, AddressingMode::ZeroPage(low), 3, false),
            0x25 => Self::of(Opcode::And, AddressingMode::ZeroPage(low), 3, false),
            0x26 => Self::of(Opcode::Rol, AddressingMode::ZeroPage(low), 5, false),
            0x27 => Self::of(Opcode::Rmb2, AddressingMode::ZeroPage(low), 5, false),
            0x28 => Self::of(Opcode::Plp, AddressingMode::Implied, 4, false),
            0x29 => Self::of(Opcode::And, AddressingMode::Immediate(low), 2, false),
            0x2A => Self::of(Opcode::Rol, AddressingMode::Implied, 2, false),
            0x2B => Self::of(Opcode::Nop, AddressingMode::Implied, 1, false),
            0x2C => Self::of(Opcode::Bit, AddressingMode::Absolute(word(low, high)), 4, false),
            0x2D => Self::of(Opcode::And, AddressingMode::Absolute(word(low, high)), 4, false),
            0x2E => Self::of(Opcode::Rol, AddressingMode::Absolute(word(low, high)), 6, false),
            0x2F => Self::of(Opcode::Bbr2, AddressingMode::ZeroPageRelative(low, signed(high)), 5, false),
            0x30 => Self::of(Opcode::Bmi, AddressingMode::Relative(signed(low)), 2, true),
            0x31 => Self::of(Opcode::And, AddressingMode::IndirectYIndexed(low), 5, true),
            0x32 => Self::of(Opcode::And, AddressingMode::IndirectZeroPage(low), 5, false),
            0x33 => Self::of(Opcode::Nop, AddressingMode::Implied, 1, false),
            0x34 => Self::of(Opcode::Bit, AddressingMode::ZeroPageXIndexed(low), 4, false),
            0x35 => Self::of(Opcode::And, AddressingMode::ZeroPageXIndexed(low), 4, false),
            0x36 => Self::of(Opcode::Rol, AddressingMode::ZeroPageXIndexed(low), 6, false),
            0x37 => Self::of(Opcode::Rmb3, AddressingMode::ZeroPage(low), 5, false),
            0x38 => Self::of(Opcode::Sec, AddressingMode::Implied, 2, false),
            0x39 => Self::of(Opcode::And, AddressingMode::AbsoluteYIndexed(word(low, high)), 4, true),
            0x3A => Self::of(Opcode::Dec, AddressingMode::Implied, 2, false),
            0x3B => Self::of(Opcode::Nop, AddressingMode::Implied, 1, false),
            0x3C => Self::of(Opcode::Bit, AddressingMode::AbsoluteXIndexed(word(low, high)), 4, true),
            0x3D => Self::of(Opcode::And, AddressingMode::AbsoluteXIndexed(word(low, high)), 4, true),
            0x3E => Self::of(Opcode::Rol, AddressingMode::AbsoluteXIndexed(word(low, high)), 6, true),
            0x3F => Self::of(Opcode::Bbr3, AddressingMode::ZeroPageRelative(low, signed(high)), 5, false),
            0x40 => Self::of(Opcode::Rti, AddressingMode::Implied, 6, false),
            0x41 => Self::of(Opcode::Eor, AddressingMode::XIndexedIndirect(low), 6, false),
            0x42 => Self::of(Opcode::Nop, AddressingMode::Immediate(low), 2, false),
            0x43 => Self::of(Opcode::Nop, AddressingMode::Implied, 1, false),
            0x44 => Self::of(Opcode::Nop, AddressingMode::ZeroPage(low), 3, false),
            0x45 => Self::of(Opcode::Eor, AddressingMode::ZeroPage(low), 3, false),
            0x46 => Self::of(Opcode::Lsr, AddressingMode::ZeroPage(low), 5, false),
            0x47 => Self::of(Opcode::Rmb4, AddressingMode::ZeroPage(low), 5, false),
            0x48 => Self::of(Opcode::Pha, AddressingMode::Implied, 3, false),
            0x49 => Self::of(Opcode::Eor, AddressingMode::Immediate(low), 2, false),
            0x4A => Self::of(Opcode::Lsr, AddressingMode::Implied, 2, false),
            0x4B => Self::of(Opcode::Nop, AddressingMode::Implied, 1, false),
            0x4C => Self::of(Opcode::Jmp, AddressingMode::AbsoluteAddress(word(low, high)), 3, false),
            0x4D => Self::of(Opcode::Eor, AddressingMode::Absolute(word(low, high)), 4, false),
            0x4E => Self::of(Opcode::Lsr, AddressingMode::Absolute(word(low, high)), 6, false),
            0x4F => Self::of(Opcode::Bbr4, AddressingMode::ZeroPageRelative(low, signed(high)), 5, false),
            0x50 => Self::of(Opcode::Bvc, AddressingMode::Relative(signed(low)), 2, true),
            0x51 => Self::of(Opcode::Eor, AddressingMode::IndirectYIndexed(low), 5, true),
            0x52 => Self::of(Opcode::Eor, AddressingMode::IndirectZeroPage(low), 5, false),
            0x53 => Self::of(Opcode::Nop, AddressingMode::Implied, 1, false),
            0x54 => Self::of(Opcode::Nop, AddressingMode::ZeroPageXIndexed(low), 4, false),
            0x55 => Self::of(Opcode::Eor, AddressingMode::ZeroPageXIndexed(low), 4, false),
            0x56 => Self::of(Opcode::Lsr, AddressingMode::ZeroPageXIndexed(low), 6, false),
            0x57 => Self::of(Opcode::Rmb5, AddressingMode::ZeroPage(low), 5, false),
            0x58 => Self::of(Opcode::Cli, AddressingMode::Implied, 2, false),
            0x59 => Self::of(Opcode::Eor, AddressingMode::AbsoluteYIndexed(word(low, high)), 4, true),
            0x5A => Self::of(Opcode::Phy, AddressingMode::Implied, 3, false),
            0x5B => Self::of(Opcode::Nop, AddressingMode::Implied, 1, false),
            0x5C => Self::of(Opcode::Nop, AddressingMode::Absolute(word(low, high)), 8, false),
            0x5D => Self::of(Opcode::Eor, AddressingMode::AbsoluteXIndexed(word(low, high)), 4, true),
            0x5E => Self::of(Opcode::Lsr, AddressingMode::AbsoluteXIndexed(word(low, high)), 6, true),
            0x5F => Self::of(Opcode::Bbr5, AddressingMode::ZeroPageRelative(low, signed(high)), 5, false),
            0x60 => Self::of(Opcode::Rts, AddressingMode::Implied, 6, false),
            0x61 => Self::of(Opcode::Adc, AddressingMode::XIndexedIndirect(low), 6, false),
            0x62 => Self::of(Opcode::Nop, AddressingMode::Immediate(low), 2, false),
            0x63 => Self::of(Opcode::Nop, AddressingMode::Implied, 1, false),
            0x64 => Self::of(Opcode::Stz, AddressingMode::ZeroPage(low), 3, false),
            0x65 => Self::of(Opcode::Adc, AddressingMode::ZeroPage(low), 3, false),
            0x66 => Self::of(Opcode::Ror, AddressingMode::ZeroPage(low), 5, false),
            0x67 => Self::of(Opcode::Rmb6, AddressingMode::ZeroPage(low), 5, false),
            0x68 => Self::of(Opcode::Pla, AddressingMode::Implied, 4, false),
            0x69 => Self::of(Opcode::Adc, AddressingMode::Immediate(low), 2, false),
            0x6A => Self::of(Opcode::Ror, AddressingMode::Implied, 2, false),
            0x6B => Self::of(Opcode::Nop, AddressingMode::Implied, 1, false),
            0x6C => Self::of(Opcode::Jmp, AddressingMode::IndirectAddress(word(low, high)), 6, false),
            0x6D => Self::of(Opcode::Adc, AddressingMode::Absolute(word(low, high)), 4, false),
            0x6E => Self::of(Opcode::Ror, AddressingMode::Absolute(word(low, high)), 6, false),
            0x6F => Self::of(Opcode::Bbr6, AddressingMode::ZeroPageRelative(low, signed(high)), 5, false),
            0x70 => Self::of(Opcode::Bvs, AddressingMode::Relative(signed(low)), 2, true),
            0x71 => Self::of(Opcode::Adc, AddressingMode::IndirectYIndexed(low), 5, true),
            0x72 => Self::of(Opcode::Adc, AddressingMode::IndirectZeroPage(low), 5, false),
            0x73 => Self::of(Opcode::Nop, AddressingMode::Implied, 1, false),
            0x74 => Self::of(Opcode::Stz, AddressingMode::ZeroPageXIndexed(low), 4, false),
            0x75 => Self::of(Opcode::Adc, AddressingMode::ZeroPageXIndexed(low), 4, false),
            0x76 => Self::of(Opcode::Ror, AddressingMode::ZeroPageXIndexed(low), 6, false),
            0x77 => Self::of(Opcode::Rmb7, AddressingMode::ZeroPage(low), 5, false),
            0x78 => Self::of(Opcode::Sei, AddressingMode::Implied, 2, false),
            0x79 => Self::of(Opcode::Adc, AddressingMode::AbsoluteYIndexed(word(low, high)), 4, true),
            0x7A => Self::of(Opcode::Ply, AddressingMode::Implied, 4, false),
            0x7B => Self::of(Opcode::Nop, AddressingMode::Implied, 1, false),
            0x7C => Self::of(Opcode::Jmp, AddressingMode::AbsoluteXIndexedIndirectAddress(word(low, high)), 6, false),
            0x7D => Self::of(Opcode::Adc, AddressingMode::AbsoluteXIndexed(word(low, high)), 4, true),
            0x7E => Self::of(Opcode::Ror, AddressingMode::AbsoluteXIndexed(word(low, high)), 6, true),
            0x7F => Self::of(Opcode::Bbr7, AddressingMode::ZeroPageRelative(low, signed(high)), 5, false),
            0x80 => Self::of(Opcode::Bra, AddressingMode::Relative(signed(low)), 3, true),
            0x81 => Self::of(Opcode::Sta, AddressingMode::XIndexedIndirect(low), 6, false),
            0x82 => Self::of(Opcode::Nop, AddressingMode::Immediate(low), 2, false),
            0x83 => Self::of(Opcode::Nop, AddressingMode::Implied, 1, false),
            0x84 => Self::of(Opcode::Sty, AddressingMode::ZeroPage(low), 3, false),
            0x85 => Self::of(Opcode::Sta, AddressingMode::ZeroPage(low), 3, false),
            0x86 => Self::of(Opcode::Stx, AddressingMode::ZeroPage(low), 3, false),
            0x87 => Self::of(Opcode::Smb0, AddressingMode::ZeroPage(low), 5, false),
            0x88 => Self::of(Opcode::Dey, AddressingMode::Implied, 2, false),
            0x89 => Self::of(Opcode::Bit, AddressingMode::Immediate(low), 2, false),
            0x8A => Self::of(Opcode::Txa, AddressingMode::Implied, 2, false),
            0x8B => Self::of(Opcode::Nop, AddressingMode::Implied, 1, false),
            0x8C => Self::of(Opcode::Sty, AddressingMode::Absolute(word(low, high)), 4, false),
            0x8D => Self::of(Opcode::Sta, AddressingMode::Absolute(word(low, high)), 4, false),
            0x8E => Self::of(Opcode::Stx, AddressingMode::Absolute(word(low, high)), 4, false),
            0x8F => Self::of(Opcode::Bbs0, AddressingMode::ZeroPageRelative(low, signed(high)), 5, false),
            0x90 => Self::of(Opcode::Bcc, AddressingMode::Relative(signed(low)), 2, true),
            0x91 => Self::of(Opcode::Sta, AddressingMode::IndirectYIndexed(low), 6, false),
            0x92 => Self::of(Opcode::Sta, AddressingMode::IndirectZeroPage(low), 5, false),
            0x93 => Self::of(Opcode::Nop, AddressingMode::Implied, 1, false),
            0x94 => Self::of(Opcode::Sty, AddressingMode::ZeroPageXIndexed(low), 4, false),
            0x95 => Self::of(Opcode::Sta, AddressingMode::ZeroPageXIndexed(low), 4, false),
            0x96 => Self::of(Opcode::Stx, AddressingMode::ZeroPageYIndexed(low), 4, false),
            0x97 => Self::of(Opcode::Smb1, AddressingMode::ZeroPage(low), 5, false),
            0x98 => Self::of(Opcode::Tya, AddressingMode::Implied, 2, false),
            0x99 => Self::of(Opcode::Sta, AddressingMode::AbsoluteYIndexed(word(low, high)), 5, false),
            0x9A => Self::of(Opcode::Txs, AddressingMode::Implied, 2, false),
            0x9B => Self::of(Opcode::Nop, AddressingMode::Implied, 1, false),
            0x9C => Self::of(Opcode::Stz, AddressingMode::Absolute(word(low, high)), 4, false),
            0x9D => Self::of(Opcode::Sta, AddressingMode::AbsoluteXIndexed(word(low, high)), 5, false),
            0x9E => Self::of(Opcode::Stz, AddressingMode::AbsoluteXIndexed(word(low, high)), 5, false),
            0x9F => Self::of(Opcode::Bbs1, AddressingMode::ZeroPageRelative(low, signed(high)), 5, false),
            0xA0 => Self::of(Opcode::Ldy, AddressingMode::Immediate(low), 2, false),
            0xA1 => Self::of(Opcode::Lda, AddressingMode::XIndexedIndirect(low), 6, false),
            0xA2 => Self::of(Opcode::Ldx, AddressingMode::Immediate(low), 2, false),
            0xA3 => Self::of(Opcode::Nop, AddressingMode::Implied, 1, false),
            0xA4 => Self::of(Opcode::Ldy, AddressingMode::ZeroPage(low), 3, false),
            0xA5 => Self::of(Opcode::Lda, AddressingMode::ZeroPage(low), 3, false),
            0xA6 => Self::of(Opcode::Ldx, AddressingMode::ZeroPage(low), 3, false),
            0xA7 => Self::of(Opcode::Smb2, AddressingMode::ZeroPage(low), 5, false),
            0xA8 => Self::of(Opcode::Tay, AddressingMode::Implied, 2, false),
            0xA9 => Self::of(Opcode::Lda, AddressingMode::Immediate(low), 2, false),
            0xAA => Self::of(Opcode::Tax, AddressingMode::Implied, 2, false),
            0xAB => Self::of(Opcode::Nop, AddressingMode::Implied, 1, false),
            0xAC => Self::of(Opcode::Ldy, AddressingMode::Absolute(word(low, high)), 4, false),
            0xAD => Self::of(Opcode::Lda, AddressingMode::Absolute(word(low, high)), 4, false),
            0xAE => Self::of(Opcode::Ldx, AddressingMode::Absolute(word(low, high)), 4, false),
            0xAF => Self::of(Opcode::Bbs2, AddressingMode::ZeroPageRelative(low, signed(high)), 5, false),
            0xB0 => Self::of(Opcode::Bcs, AddressingMode::Relative(signed(low)), 2, true),
            0xB1 => Self::of(Opcode::Lda, AddressingMode::IndirectYIndexed(low), 5, true),
            0xB2 => Self::of(Opcode::Lda, AddressingMode::IndirectZeroPage(low), 5, false),
            0xB3 => Self::of(Opcode::Nop, AddressingMode::Implied, 1, false),
            0xB4 => Self::of(Opcode::Ldy, AddressingMode::ZeroPageXIndexed(low), 4, false),
            0xB5 => Self::of(Opcode::Lda, AddressingMode::ZeroPageXIndexed(low), 4, false),
            0xB6 => Self::of(Opcode::Ldx, AddressingMode::ZeroPageYIndexed(low), 4, false),
            0xB7 => Self::of(Opcode::Smb3, AddressingMode::ZeroPage(low), 5, false),
            0xB8 => Self::of(Opcode::Clv, AddressingMode::Implied, 2, false),
            0xB9 => Self::of(Opcode::Lda, AddressingMode::AbsoluteYIndexed(word(low, high)), 4, true),
            0xBA => Self::of(Opcode::Tsx, AddressingMode::Implied, 2, false),
            0xBB => Self::of(Opcode::Nop, AddressingMode::Implied, 1, false),
            0xBC => Self::of(Opcode::Ldy, AddressingMode::AbsoluteXIndexed(word(low, high)), 4, true),
            0xBD => Self::of(Opcode::Lda, AddressingMode::AbsoluteXIndexed(word(low, high)), 4, true),
            0xBE => Self::of(Opcode::Ldx, AddressingMode::AbsoluteYIndexed(word(low, high)), 4, true),
            0xBF => Self::of(Opcode::Bbs3, AddressingMode::ZeroPageRelative(low, signed(high)), 5, false),
            0xC0 => Self::of(Opcode::Cpy, AddressingMode::Immediate(low), 2, false),
            0xC1 => Self::of(Opcode::Cmp, AddressingMode::XIndexedIndirect(low), 6, false),
            0xC2 => Self::of(Opcode::Nop, AddressingMode::Immediate(low), 2, false),
            0xC3 => Self::of(Opcode::Nop, AddressingMode::Implied, 1, false),
            0xC4 => Self::of(Opcode::Cpy, AddressingMode::ZeroPage(low), 3, false),
            0xC5 => Self::of(Opcode::Cmp, AddressingMode::ZeroPage(low), 3, false),
            0xC6 => Self::of(Opcode::Dec, AddressingMode::ZeroPage(low), 5, false),
            0xC7 => Self::of(Opcode::Smb4, AddressingMode::ZeroPage(low), 5, false),
            0xC8 => Self::of(Opcode::Iny, AddressingMode::Implied, 2, false),
            0xC9 => Self::of(Opcode::Cmp, AddressingMode::Immediate(low), 2, false),
            0xCA => Self::of(Opcode::Dex, AddressingMode::Implied, 2, false),
            0xCB => Self::of(Opcode::Wai, AddressingMode::Implied, 3, false),
            0xCC => Self::of(Opcode::Cpy, AddressingMode::Absolute(word(low, high)), 4, false),
            0xCD => Self::of(Opcode::Cmp, AddressingMode::Absolute(word(low, high)), 4, false),
            0xCE => Self::of(Opcode::Dec, AddressingMode::Absolute(word(low, high)), 6, false),
            0xCF => Self::of(Opcode::Bbs4, AddressingMode::ZeroPageRelative(low, signed(high)), 5, false),
            0xD0 => Self::of(Opcode::Bne, AddressingMode::Relative(signed(low)), 2, true),
            0xD1 => Self::of(Opcode::Cmp, AddressingMode::IndirectYIndexed(low), 5, true),
            0xD2 => Self::of(Opcode::Cmp, AddressingMode::IndirectZeroPage(low), 5, false),
            0xD3 => Self::of(Opcode::Nop, AddressingMode::Implied, 1, false),
            0xD4 => Self::of(Opcode::Nop, AddressingMode::ZeroPageXIndexed(low), 4, false),
            0xD5 => Self::of(Opcode::Cmp, AddressingMode::ZeroPageXIndexed(low), 4, false),
            0xD6 => Self::of(Opcode::Dec, AddressingMode::ZeroPageXIndexed(low), 6, false),
            0xD7 => Self::of(Opcode::Smb5, AddressingMode::ZeroPage(low), 5, false),
            0xD8 => Self::of(Opcode::Cld, AddressingMode::Implied, 2, false),
            0xD9 => Self::of(Opcode::Cmp, AddressingMode::AbsoluteYIndexed(word(low, high)), 4, true),
            0xDA => Self::of(Opcode::Phx, AddressingMode::Implied, 3, false),
            0xDB => Self::of(Opcode::Stp, AddressingMode::Implied, 3, false),
            0xDC => Self::of(Opcode::Nop, AddressingMode::Absolute(word(low, high)), 4, false),
            0xDD => Self::of(Opcode::Cmp, AddressingMode::AbsoluteXIndexed(word(low, high)), 4, true),
            0xDE => Self::of(Opcode::Dec, AddressingMode::AbsoluteXIndexed(word(low, high)), 7, false),
            0xDF => Self::of(Opcode::Bbs5, AddressingMode::ZeroPageRelative(low, signed(high)), 5, false),
            0xE0 => Self::of(Opcode::Cpx, AddressingMode::Immediate(low), 2, false),
            0xE1 => Self::of(Opcode::Sbc, AddressingMode::XIndexedIndirect(low), 6, false),
            0xE2 => Self::of(Opcode::Nop, AddressingMode::Immediate(low), 2, false),
            0xE3 => Self::of(Opcode::Nop, AddressingMode::Implied, 1, false),
            0xE4 => Self::of(Opcode::Cpx, AddressingMode::ZeroPage(low), 3, false),
            0xE5 => Self::of(Opcode::Sbc, AddressingMode::ZeroPage(low), 3, false),
            0xE6 => Self::of(Opcode::Inc, AddressingMode::ZeroPage(low), 5, false),
            0xE7 => Self::of(Opcode::Smb6, AddressingMode::ZeroPage(low), 5, false),
            0xE8 => Self::of(Opcode::Inx, AddressingMode::Implied, 2, false),
            0xE9 => Self::of(Opcode::Sbc, AddressingMode::Immediate(low), 2, false),
            0xEA => Self::of(Opcode::Nop, AddressingMode::Implied, 2, false),
            0xEB => Self::of(Opcode::Nop, AddressingMode::Implied, 1, false),
            0xEC => Self::of(Opcode::Cpx, AddressingMode::Absolute(word(low, high)), 4, false),
            0xED => Self::of(Opcode::Sbc, AddressingMode::Absolute(word(low, high)), 4, false),
            0xEE => Self::of(Opcode::Inc, AddressingMode::Absolute(word(low, high)), 6, false),
            0xEF => Self::of(Opcode::Bbs6, AddressingMode::ZeroPageRelative(low, signed(high)), 5, false),
            0xF0 => Self::of(Opcode::Beq, AddressingMode::Relative(signed(low)), 2, true),
            0xF1 => Self::of(Opcode::Sbc, AddressingMode::IndirectYIndexed(low), 5, true),
            0xF2 => Self::of(Opcode::Sbc, AddressingMode::IndirectZeroPage(low), 5, false),
            0xF3 => Self::of(Opcode::Nop, AddressingMode::Implied, 1, false),
            0xF4 => Self::of(Opcode::Nop, AddressingMode::ZeroPageXIndexed(low), 4, false),
            0xF5 => Self::of(Opcode::Sbc, AddressingMode::ZeroPageXIndexed(low), 4, false),
            0xF6 => Self::of(Opcode::Inc, AddressingMode::ZeroPageXIndexed(low), 6, false),
            0xF7 => Self::of(Opcode::Smb7, AddressingMode::ZeroPage(low), 5, false),
            0xF8 => Self::of(Opcode::Sed, AddressingMode::Implied, 2, false),
            0xF9 => Self::of(Opcode::Sbc, AddressingMode::AbsoluteYIndexed(word(low, high)), 4, true),
            0xFA => Self::of(Opcode::Plx, AddressingMode::Implied, 4, false),
            0xFB => Self::of(Opcode::Nop, AddressingMode::Implied, 1, false),
            0xFC => Self::of(Opcode::Nop, AddressingMode::Absolute(word(low, high)), 4, false),
            0xFD => Self::of(Opcode::Sbc, AddressingMode::AbsoluteXIndexed(word(low, high)), 4, true),
            0xFE => Self::of(Opcode::Inc, AddressingMode::AbsoluteXIndexed(word(low, high)), 7, false),
            0xFF => Self::of(Opcode::Bbs7, AddressingMode::ZeroPageRelative(low, signed(high)), 5, false),
        }
    }

    /// The number of operand bytes that follow the byte `opcode`.
    pub open spec fn operand_len(opcode: u8) -> int {
        Self::assembled(opcode, 0, 0).instruction.addressing_mode.operand_len()
    }

    /// The instruction found at `offset`, and the address space after the
    /// reads of its bytes: the opcode, then as many operand bytes as it has.
    pub open spec fn decoded(mem: SpaceView, offset: u32) -> (SpaceView, DecodedInstruction) {
        let opcode = mem.read_value(offset);
        let len = Self::operand_len(opcode);
        let first = mem.after_read(offset);
        let low = if len >= 1 {
            first.read_value((offset + 1) as u32)
        } else {
            0
        };
        let second = if len >= 1 {
            first.after_read((offset + 1) as u32)
        } else {
            first
        };
        let high = if len >= 2 {
            second.read_value((offset + 2) as u32)
        } else {
            0
        };
        let third = if len >= 2 {
            second.after_read((offset + 2) as u32)
        } else {
            second
        };
        (third, Self::assembled(opcode, low, high))
    }

    fn entry(
        opcode: Opcode,
        addressing_mode: AddressingMode,
        cycles: u64,
        extra_page_boundary_cycle: bool,
    ) -> (entry: DecodedInstruction)
        ensures
            entry == Self::of(opcode, addressing_mode, cycles, extra_page_boundary_cycle),
    {
        DecodedInstruction {
            instruction: Instruction { opcode, addressing_mode },
            cycles,
            extra_page_boundary_cycle,
        }
    }

    /// The entries of the table for the opcodes `0x00` to `0x0F`.
    fn assemble_0(opcode: u8, low: u8, high: u8) -> (found: DecodedInstruction)
        requires
            opcode / 16 == 0,
        ensures
            found == Self::assembled(opcode, low, high),
            found.instruction.well_formed(),
            1 <= found.cycles <= CYCLES_PER_INSTRUCTION_MAX,
    {
        reveal(DecodedInstruction::assembled);
        match opcode {
            0x00 => Self::entry(Opcode::Brk, AddressingMode::Implied, 7, false),
            0x01 => Self::entry(Opcode::Ora, AddressingMode::XIndexedIndirect(low), 6, false),
            0x02 => Self::entry(Opcode::Nop, AddressingMode::Immediate(low), 2, false),
            0x03 => Self::entry(Opcode::Nop, AddressingMode::Implied, 1, false),
            0x04 => Self::entry(Opcode::Tsb, AddressingMode::ZeroPage(low), 5, false),
            0x05 => Self::entry(Opcode::Ora, AddressingMode::ZeroPage(low), 3, false),
            0x06 => Self::entry(Opcode::Asl, AddressingMode::ZeroPage(low), 5, false),
            0x07 => Self::entry(Opcode::Rmb0, AddressingMode::ZeroPage(low), 5, false),
            0x08 => Self::entry(Opcode::Php, AddressingMode::Implied, 3, false),
            0x09 => Self::entry(Opcode::Ora, AddressingMode::Immediate(low), 2, false),
            0x0A => Self::entry(Opcode::Asl, AddressingMode::Implied, 2, false),
            0x0B => Self::entry(Opcode::Nop, AddressingMode::Implied, 1, false),
            0x0C => Self::entry(Opcode::Tsb, AddressingMode::Absolute(to_word(low, high)), 6, false),
            0x0D => Self::entry(Opcode::Ora, AddressingMode::Absolute(to_word(low, high)), 4, false),
            0x0E => Self::entry(Opcode::Asl, AddressingMode::Absolute(to_word(low, high)), 6, false),
            0x0F => Self::entry(Opcode::Bbr0, AddressingMode::ZeroPageRelative(low, to_signed(high)), 5, false),
            _ => vstd::pervasive::unreached(),
        }
    }

    /// The entries of the table for the opcodes `0x10` to `0x1F`.
    fn assemble_1(opcode: u8, low: u8, high: u8) -> (found: DecodedInstruction)
        requires
            opcode / 16 == 1,
        ensures
            found == Self::assembled(opcode, low, high),
            found.instruction.well_formed(),
            1 <= found.cycles <= CYCLES_PER_INSTRUCTION_MAX,
    {
        reveal(DecodedInstruction::assembled);
        match opcode {
            0x10 => Self::entry(Opcode::Bpl, AddressingMode::Relative(to_signed(low)), 2, true),
            0x11 => Self::entry(Opcode::Ora, AddressingMode::IndirectYIndexed(low), 5, true),
            0x12 => Self::entry(Opcode::Ora, AddressingMode::IndirectZeroPage(low), 5, false),
            0x13 => Self::entry(Opcode::Nop, AddressingMode::Implied, 1, false),
            0x14 => Self::entry(Opcode::Trb, AddressingMode::ZeroPage(low), 5, false),
            0x15 => Self::entry(Opcode::Ora, AddressingMode::ZeroPageXIndexed(low), 4, false),
            0x16 => Self::entry(Opcode::Asl, AddressingMode::ZeroPageXIndexed(low), 6, false),
            0x17 => Self::entry(Opcode::Rmb1, AddressingMode::ZeroPage(low), 5, false),
            0x18 => Self::entry(Opcode::Clc, AddressingMode::Implied, 2, false),
            0x19 => Self::entry(Opcode::Ora, AddressingMode::AbsoluteYIndexed(to_word(low, high)), 4, true),
            0x1A => Self::entry(Opcode::Inc, AddressingMode::Implied, 2, false),
            0x1B => Self::entry(Opcode::Nop, AddressingMode::Implied, 1, false),
            0x1C => Self::entry(Opcode::Trb, AddressingMode::Absolute(to_word(low, high)), 6, false),
            0x1D => Self::entry(Opcode::Ora, AddressingMode::AbsoluteXIndexed(to_word(low, high)), 4, true),
            0x1E => Self::entry(Opcode::Asl, AddressingMode::AbsoluteXIndexed(to_word(low, high)), 6, true),
            0x1F => Self::entry(Opcode::Bbr1, AddressingMode::ZeroPageRelative(low, to_signed(high)), 5, false),
            _ => vstd::pervasive::unreached(),
        }
    }

    /// The entries of the table for the opcodes `0x20` to `0x2F`.
    fn assemble_2(opcode: u8, low: u8, high: u8) -> (found: DecodedInstruction)
        requires
            opcode / 16 == 2,
        ensures
            found == Self::assembled(opcode, low, high),
            found.instruction.well_formed(),
            1 <= found.cycles <= CYCLES_PER_INSTRUCTION_MAX,
    {
        reveal(DecodedInstruction::assembled);
        match opcode {
            0x20 => Self::entry(Opcode::Jsr, AddressingMode::AbsoluteAddress(to_word(low, high)), 6, false),
            0x21 => Self::entry(Opcode::And, AddressingMode::XIndexedIndirect(low), 6, false),
            0x22 => Self::entry(Opcode::Nop, AddressingMode::Immediate(low), 2, false),
            0x23 => Self::entry(Opcode::Nop, AddressingMode::Implied, 1, false),
            0x24 => Self::entry(Opcode::Bit, AddressingMode::ZeroPage(low), 3, false),
            0x25 => Self::entry(Opcode::And, AddressingMode::ZeroPage(low), 3, false),
            0x26 => Self::entry(Opcode::Rol, AddressingMode::ZeroPage(low), 5, false),
            0x27 => Self::entry(Opcode::Rmb2, AddressingMode::ZeroPage(low), 5, false),
            0x28 => Self::entry(Opcode::Plp, AddressingMode::Implied, 4, false),
            0x29 => Self::entry(Opcode::And, AddressingMode::Immediate(low), 2, false),
            0x2A => Self::entry(Opcode::Rol, AddressingMode::Implied, 2, false),
            0x2B => Self::entry(Opcode::Nop, AddressingMode::Implied, 1, false),
            0x2C => Self::entry(Opcode::Bit, AddressingMode::Absolute(to_word(low, high)), 4, false),
            0x2D => Self::entry(Opcode::And, AddressingMode::Absolute(to_word(low, high)), 4, false),
            0x2E => Self::entry(Opcode::Rol, AddressingMode::Absolute(to_word(low, high)), 6, false),
            0x2F => Self::entry(Opcode::Bbr2, AddressingMode::ZeroPageRelative(low, to_signed(high)), 5, false),
            _ => vstd::pervasive::unreached(),
        }
    }

    /// The entries of the table for the opcodes `0x30` to `0x3F`.
    fn assemble_3(opcode: u8, low: u8, high: u8) -> (found: DecodedInstruction)
        requires
            opcode / 16 == 3,
        ensures
            found == Self::assembled(opcode, low, high),
            found.instruction.well_formed(),
            1 <= found.cycles <= CYCLES_PER_INSTRUCTION_MAX,
    {
        reveal(DecodedInstruction::assembled);
        match opcode {
            0x30 => Self::entry(Opcode::Bmi, AddressingMode::Relative(to_signed(low)), 2, true),
            0x31 => Self::entry(Opcode::And, AddressingMode::IndirectYIndexed(low), 5, true),
            0x32 => Self::entry(Opcode::And, AddressingMode::IndirectZeroPage(low), 5, false),
            0x33 => Self::entry(Opcode::Nop, AddressingMode::Implied, 1, false),
            0x34 => Self::entry(Opcode::Bit, AddressingMode::ZeroPageXIndexed(low), 4, false),
            0x35 => Self::entry(Opcode::And, AddressingMode::ZeroPageXIndexed(low), 4, false),
            0x36 => Self::entry(Opcode::Rol, AddressingMode::ZeroPageXIndexed(low), 6, false),
            0x37 => Self::entry(Opcode::Rmb3, AddressingMode::ZeroPage(low), 5, false),
            0x38 => Self::entry(Opcode::Sec, AddressingMode::Implied, 2, false),
            0x39 => Self::entry(Opcode::And, AddressingMode::AbsoluteYIndexed(to_word(low, high)), 4, true),
            0x3A => Self::entry(Opcode::Dec, AddressingMode::Implied, 2, false),
            0x3B => Self::entry(Opcode::Nop, AddressingMode::Implied, 1, false),
            0x3C => Self::entry(Opcode::Bit, AddressingMode::AbsoluteXIndexed(to_word(low, high)), 4, true),
            0x3D => Self::entry(Opcode::And, AddressingMode::AbsoluteXIndexed(to_word(low, high)), 4, true),
            0x3E => Self::entry(Opcode::Rol, AddressingMode::AbsoluteXIndexed(to_word(low, high)), 6, true),
            0x3F => Self::entry(Opcode::Bbr3, AddressingMode::ZeroPageRelative(low, to_signed(high)), 5, false),
            _ => vstd::pervasive::unreached(),
        }
    }

    /// The entries of the table for the opcodes `0x40` to `0x4F`.
    fn assemble_4(opcode: u8, low: u8, high: u8) -> (found: DecodedInstruction)
        requires
            opcode / 16 == 4,
        ensures
            found == Self::assembled(opcode, low, high),
            found.instruction.well_formed(),
            1 <= found.cycles <= CYCLES_PER_INSTRUCTION_MAX,
    {
        reveal(DecodedInstruction::assembled);
        match opcode {
            0x40 => Self::entry(Opcode::Rti, AddressingMode::Implied, 6, false),
            0x41 => Self::entry(Opcode::Eor, AddressingMode::XIndexedIndirect(low), 6, false),
            0x42 => Self::entry(Opcode::Nop, AddressingMode::Immediate(low), 2, false),
            0x43 => Self::entry(Opcode::Nop, AddressingMode::Implied, 1, false),
            0x44 => Self::entry(Opcode::Nop, AddressingMode::ZeroPage(low), 3, false),
            0x45 => Self::entry(Opcode::Eor, AddressingMode::ZeroPage(low), 3, false),
            0x46 => Self::entry(Opcode::Lsr, AddressingMode::ZeroPage(low), 5, false),
            0x47 => Self::entry(Opcode::Rmb4, AddressingMode::ZeroPage(low), 5, false),
            0x48 => Self::entry(Opcode::Pha, AddressingMode::Implied, 3, false),
            0x49 => Self::entry(Opcode::Eor, AddressingMode::Immediate(low), 2, false),
            0x4A => Self::entry(Opcode::Lsr, AddressingMode::Implied, 2, false),
            0x4B => Self::entry(Opcode::Nop, AddressingMode::Implied, 1, false),
            0x4C => Self::entry(Opcode::Jmp, AddressingMode::AbsoluteAddress(to_word(low, high)), 3, false),
            0x4D => Self::entry(Opcode::Eor, AddressingMode::Absolute(to_word(low, high)), 4, false),
            0x4E => Self::entry(Opcode::Lsr, AddressingMode::Absolute(to_word(low, high)), 6, false),
            0x4F => Self::entry(Opcode::Bbr4, AddressingMode::ZeroPageRelative(low, to_signed(high)), 5, false),
            _ => vstd::pervasive::unreached(),
        }
    }

    /// The entries of the table for the opcodes `0x50` to `0x5F`.
    fn assemble_5(opcode: u8, low: u8, high: u8) -> (found: DecodedInstruction)
        requires
            opcode / 16 == 5,
        ensures
            found == Self::assembled(opcode, low, high),
            found.instruction.well_formed(),
            1 <= found.cycles <= CYCLES_PER_INSTRUCTION_MAX,
    {
        reveal(DecodedInstruction::assembled);
        match opcode {
            0x50 => Self::entry(Opcode::Bvc, AddressingMode::Relative(to_signed(low)), 2, true),
            0x51 => Self::entry(Opcode::Eor, AddressingMode::IndirectYIndexed(low), 5, true),
            0x52 => Self::entry(Opcode::Eor, AddressingMode::IndirectZeroPage(low), 5, false),
            0x53 => Self::entry(Opcode::Nop, AddressingMode::Implied, 1, false),
            0x54 => Self::entry(Opcode::Nop, AddressingMode::ZeroPageXIndexed(low), 4, false),
            0x55 => Self::entry(Opcode::Eor, AddressingMode::ZeroPageXIndexed(low), 4, false),
            0x56 => Self::entry(Opcode::Lsr, AddressingMode::ZeroPageXIndexed(low), 6, false),
            0x57 => Self::entry(Opcode::Rmb5, AddressingMode::ZeroPage(low), 5, false),
            0x58 => Self::entry(Opcode::Cli, AddressingMode::Implied, 2, false),
            0x59 => Self::entry(Opcode::Eor, AddressingMode::AbsoluteYIndexed(to_word(low, high)), 4, true),
            0x5A => Self::entry(Opcode::Phy, AddressingMode::Implied, 3, false),
            0x5B => Self::entry(Opcode::Nop, AddressingMode::Implied, 1, false),
            0x5C => Self::entry(Opcode::Nop, AddressingMode::Absolute(to_word(low, high)), 8, false),
            0x5D => Self::entry(Opcode::Eor, AddressingMode::AbsoluteXIndexed(to_word(low, high)), 4, true),
            0x5E => Self::entry(Opcode::Lsr, AddressingMode::AbsoluteXIndexed(to_word(low, high)), 6, true),
            0x5F => Self::entry(Opcode::Bbr5, AddressingMode::ZeroPageRelative(low, to_signed(high)), 5, false),
            _ => vstd::pervasive::unreached(),
        }
    }

    /// The entries of the table for the opcodes `0x60` to `0x6F`.
    fn assemble_6(opcode: u8, low: u8, high: u8) -> (found: DecodedInstruction)
        requires
            opcode / 16 == 6,
        ensures
            found == Self::assembled(opcode, low, high),
            found.instruction.well_formed(),
            1 <= found.cycles <= CYCLES_PER_INSTRUCTION_MAX,
    {
        reveal(DecodedInstruction::assembled);
        match opcode {
            0x60 => Self::entry(Opcode::Rts, AddressingMode::Implied, 6, false),
            0x61 => Self::entry(Opcode::Adc, AddressingMode::XIndexedIndirect(low), 6, false),
            0x62 => Self::entry(Opcode::Nop, AddressingMode::Immediate(low), 2, false),
            0x63 => Self::entry(Opcode::Nop, AddressingMode::Implied, 1, false),
            0x64 => Self::entry(Opcode::Stz, AddressingMode::ZeroPage(low), 3, false),
            0x65 => Self::entry(Opcode::Adc, AddressingMode::ZeroPage(low), 3, false),
            0x66 => Self::entry(Opcode::Ror, AddressingMode::ZeroPage(low), 5, false),
            0x67 => Self::entry(Opcode::Rmb6, AddressingMode::ZeroPage(low), 5, false),
            0x68 => Self::entry(Opcode::Pla, AddressingMode::Implied, 4, false),
            0x69 => Self::entry(Opcode::Adc, AddressingMode::Immediate(low), 2, false),
            0x6A => Self::entry(Opcode::Ror, AddressingMode::Implied, 2, false),
            0x6B => Self::entry(Opcode::Nop, AddressingMode::Implied, 1, false),
            0x6C => Self::entry(Opcode::Jmp, AddressingMode::IndirectAddress(to_word(low, high)), 6, false),
            0x6D => Self::entry(Opcode::Adc, AddressingMode::Absolute(to_word(low, high)), 4, false),
            0x6E => Self::entry(Opcode::Ror, AddressingMode::Absolute(to_word(low, high)), 6, false),
            0x6F => Self::entry(Opcode::Bbr6, AddressingMode::ZeroPageRelative(low, to_signed(high)), 5, false),
            _ => vstd::pervasive::unreached(),
        }
    }

    /// The entries of the table for the opcodes `0x70` to `0x7F`.
    fn assemble_7(opcode: u8, low: u8, high: u8) -> (found: DecodedInstruction)
        requires
            opcode / 16 == 7,
        ensures
            found == Self::assembled(opcode, low, high),
            found.instruction.well_formed(),
            1 <= found.cycles <= CYCLES_PER_INSTRUCTION_MAX,
    {
        reveal(DecodedInstruction::assembled);
        match opcode {
            0x70 => Self::entry(Opcode::Bvs, AddressingMode::Relative(to_signed(low)), 2, true),
            0x71 => Self::entry(Opcode::Adc, AddressingMode::IndirectYIndexed(low), 5, true),
            0x72 => Self::entry(Opcode::Adc, AddressingMode::IndirectZeroPage(low), 5, false),
            0x73 => Self::entry(Opcode::Nop, AddressingMode::Implied, 1, false),
            0x74 => Self::entry(Opcode::Stz, AddressingMode::ZeroPageXIndexed(low), 4, false),
            0x75 => Self::entry(Opcode::Adc, AddressingMode::ZeroPageXIndexed(low), 4, false),
            0x76 => Self::entry(Opcode::Ror, AddressingMode::ZeroPageXIndexed(low), 6, false),
            0x77 => Self::entry(Opcode::Rmb7, AddressingMode::ZeroPage(low), 5, false),
            0x78 => Self::entry(Opcode::Sei, AddressingMode::Implied, 2, false),
            0x79 => Self::entry(Opcode::Adc, AddressingMode::AbsoluteYIndexed(to_word(low, high)), 4, true),
            0x7A => Self::entry(Opcode::Ply, AddressingMode::Implied, 4, false),
            0x7B => Self::entry(Opcode::Nop, AddressingMode::Implied, 1, false),
            0x7C => Self::entry(Opcode::Jmp, AddressingMode::AbsoluteXIndexedIndirectAddress(to_word(low, high)), 6, false),
            0x7D => Self::entry(Opcode::Adc, AddressingMode::AbsoluteXIndexed(to_word(low, high)), 4, true),
            0x7E => Self::entry(Opcode::Ror, AddressingMode::AbsoluteXIndexed(to_word(low, high)), 6, true),
            0x7F => Self::entry(Opcode::Bbr7, AddressingMode::ZeroPageRelative(low, to_signed(high)), 5, false),
            _ => vstd::pervasive::unreached(),
        }
    }

    /// The entries of the table for the opcodes `0x80` to `0x8F`.
    fn assemble_8(opcode: u8, low: u8, high: u8) -> (found: DecodedInstruction)
        requires
            opcode / 16 == 8,
        ensures
            found == Self::assembled(opcode, low, high),
            found.instruction.well_formed(),
            1 <= found.cycles <= CYCLES_PER_INSTRUCTION_MAX,
    {
        reveal(DecodedInstruction::assembled);
        match opcode {
            0x80 => Self::entry(Opcode::Bra, AddressingMode::Relative(to_signed(low)), 3, true),
            0x81 => Self::entry(Opcode::Sta, AddressingMode::XIndexedIndirect(low), 6, false),
            0x82 => Self::entry(Opcode::Nop, AddressingMode::Immediate(low), 2, false),
            0x83 => Self::entry(Opcode::Nop, AddressingMode::Implied, 1, false),
            0x84 => Self::entry(Opcode::Sty, AddressingMode::ZeroPage(low), 3, false),
            0x85 => Self::entry(Opcode::Sta, AddressingMode::ZeroPage(low), 3, false),
            0x86 => Self::entry(Opcode::Stx, AddressingMode::ZeroPage(low), 3, false),
            0x87 => Self::entry(Opcode::Smb0, AddressingMode::ZeroPage(low), 5, false),
            0x88 => Self::entry(Opcode::Dey, AddressingMode::Implied, 2, false),
            0x89 => Self::entry(Opcode::Bit, AddressingMode::Immediate(low), 2, false),
            0x8A => Self::entry(Opcode::Txa, AddressingMode::Implied, 2, false),
            0x8B => Self::entry(Opcode::Nop, AddressingMode::Implied, 1, false),
            0x8C => Self::entry(Opcode::Sty, AddressingMode::Absolute(to_word(low, high)), 4, false),
            0x8D => Self::entry(Opcode::Sta, AddressingMode::Absolute(to_word(low, high)), 4, false),
            0x8E => Self::entry(Opcode::Stx, AddressingMode::Absolute(to_word(low, high)), 4, false),
            0x8F => Self::entry(Opcode::Bbs0, AddressingMode::ZeroPageRelative(low, to_signed(high)), 5, false),
            _ => vstd::pervasive::unreached(),
        }
    }

    /// The entries of the table for the opcodes `0x90` to `0x9F`.
    fn assemble_9(opcode: u8, low: u8, high: u8) -> (found: DecodedInstruction)
        requires
            opcode / 16 == 9,
        ensures
            found == Self::assembled(opcode, low, high),
            found.instruction.well_formed(),
            1 <= found.cycles <= CYCLES_PER_INSTRUCTION_MAX,
    {
        reveal(DecodedInstruction::assembled);
        match opcode {
            0x90 => Self::entry(Opcode::Bcc, AddressingMode::Relative(to_signed(low)), 2, true),
            0x91 => Self::entry(Opcode::Sta, AddressingMode::IndirectYIndexed(low), 6, false),
            0x92 => Self::entry(Opcode::Sta, AddressingMode::IndirectZeroPage(low), 5, false),
            0x93 => Self::entry(Opcode::Nop, AddressingMode::Implied, 1, false),
            0x94 => Self::entry(Opcode::Sty, AddressingMode::ZeroPageXIndexed(low), 4, false),
            0x95 => Self::entry(Opcode::Sta, AddressingMode::ZeroPageXIndexed(low), 4, false),
            0x96 => Self::entry(Opcode::Stx, AddressingMode::ZeroPageYIndexed(low), 4, false),
            0x97 => Self::entry(Opcode::Smb1, AddressingMode::ZeroPage(low), 5, false),
            0x98 => Self::entry(Opcode::Tya, AddressingMode::Implied, 2, false),
            0x99 => Self::entry(Opcode::Sta, AddressingMode::AbsoluteYIndexed(to_word(low, high)), 5, false),
            0x9A => Self::entry(Opcode::Txs, AddressingMode::Implied, 2, false),
            0x9B => Self::entry(Opcode::Nop, AddressingMode::Implied, 1, false),
            0x9C => Self::entry(Opcode::Stz, AddressingMode::Absolute(to_word(low, high)), 4, false),
            0x9D => Self::entry(Opcode::Sta, AddressingMode::AbsoluteXIndexed(to_word(low, high)), 5, false),
            0x9E => Self::entry(Opcode::Stz, AddressingMode::AbsoluteXIndexed(to_word(low, high)), 5, false),
            0x9F => Self::entry(Opcode::Bbs1, AddressingMode::ZeroPageRelative(low, to_signed(high)), 5, false),
            _ => vstd::pervasive::unreached(),
        }
    }

    /// The entries of the table for the opcodes `0xA0` to `0xAF`.
    fn assemble_a(opcode: u8, low: u8, high: u8) -> (found: DecodedInstruction)
        requires
            opcode / 16 == 10,
        ensures
            found == Self::assembled(opcode, low, high),
            found.instruction.well_formed(),
            1 <= found.cycles <= CYCLES_PER_INSTRUCTION_MAX,
    {
        reveal(DecodedInstruction::assembled);
        match opcode {
            0xA0 => Self::entry(Opcode::Ldy, AddressingMode::Immediate(low), 2, false),
            0xA1 => Self::entry(Opcode::Lda, AddressingMode::XIndexedIndirect(low), 6, false),
            0xA2 => Self::entry(Opcode::Ldx, AddressingMode::Immediate(low), 2, false),
            0xA3 => Self::entry(Opcode::Nop, AddressingMode::Implied, 1, false),
            0xA4 => Self::entry(Opcode::Ldy, AddressingMode::ZeroPage(low), 3, false),
            0xA5 => Self::entry(Opcode::Lda, AddressingMode::ZeroPage(low), 3, false),
            0xA6 => Self::entry(Opcode::Ldx, AddressingMode::ZeroPage(low), 3, false),
            0xA7 => Self::entry(Opcode::Smb2, AddressingMode::ZeroPage(low), 5, false),
            0xA8 => Self::entry(Opcode::Tay, AddressingMode::Implied, 2, false),
            0xA9 => Self::entry(Opcode::Lda, AddressingMode::Immediate(low), 2, false),
            0xAA => Self::entry(Opcode::Tax, AddressingMode::Implied, 2, false),
            0xAB => Self::entry(Opcode::Nop, AddressingMode::Implied, 1, false),
            0xAC => Self::entry(Opcode::Ldy, AddressingMode::Absolute(to_word(low, high)), 4, false),
            0xAD => Self::entry(Opcode::Lda, AddressingMode::Absolute(to_word(low, high)), 4, false),
            0xAE => Self::entry(Opcode::Ldx, AddressingMode::Absolute(to_word(low, high)), 4, false),
            0xAF => Self::entry(Opcode::Bbs2, AddressingMode::ZeroPageRelative(low, to_signed(high)), 5, false),
            _ => vstd::pervasive::unreached(),
        }
    }

    /// The entries of the table for the opcodes `0xB0` to `0xBF`.
    fn assemble_b(opcode: u8, low: u8, high: u8) -> (found: DecodedInstruction)
        requires
            opcode / 16 == 11,
        ensures
            found == Self::assembled(opcode, low, high),
            found.instruction.well_formed(),
            1 <= found.cycles <= CYCLES_PER_INSTRUCTION_MAX,
    {
        reveal(DecodedInstruction::assembled);
        match opcode {
            0xB0 => Self::entry(Opcode::Bcs, AddressingMode::Relative(to_signed(low)), 2, true),
            0xB1 => Self::entry(Opcode::Lda, AddressingMode::IndirectYIndexed(low), 5, true),
            0xB2 => Self::entry(Opcode::Lda, AddressingMode::IndirectZeroPage(low), 5, false),
            0xB3 => Self::entry(Opcode::Nop, AddressingMode::Implied, 1, false),
            0xB4 => Self::entry(Opcode::Ldy, AddressingMode::ZeroPageXIndexed(low), 4, false),
            0xB5 => Self::entry(Opcode::Lda, AddressingMode::ZeroPageXIndexed(low), 4, false),
            0xB6 => Self::entry(Opcode::Ldx, AddressingMode::ZeroPageYIndexed(low), 4, false),
            0xB7 => Self::entry(Opcode::Smb3, AddressingMode::ZeroPage(low), 5, false),
            0xB8 => Self::entry(Opcode::Clv, AddressingMode::Implied, 2, false),
            0xB9 => Self::entry(Opcode::Lda, AddressingMode::AbsoluteYIndexed(to_word(low, high)), 4, true),
            0xBA => Self::entry(Opcode::Tsx, AddressingMode::Implied, 2, false),
            0xBB => Self::entry(Opcode::Nop, AddressingMode::Implied, 1, false),
            0xBC => Self::entry(Opcode::Ldy, AddressingMode::AbsoluteXIndexed(to_word(low, high)), 4, true),
            0xBD => Self::entry(Opcode::Lda, AddressingMode::AbsoluteXIndexed(to_word(low, high)), 4, true),
            0xBE => Self::entry(Opcode::Ldx, AddressingMode::AbsoluteYIndexed(to_word(low, high)), 4, true),
            0xBF => Self::entry(Opcode::Bbs3, AddressingMode::ZeroPageRelative(low, to_signed(high)), 5, false),
            _ => vstd::pervasive::unreached(),
        }
    }

    /// The entries of the table for the opcodes `0xC0` to `0xCF`.
    fn assemble_c(opcode: u8, low: u8, high: u8) -> (found: DecodedInstruction)
        requires
            opcode / 16 == 12,
        ensures
            found == Self::assembled(opcode, low, high),
            found.instruction.well_formed(),
            1 <= found.cycles <= CYCLES_PER_INSTRUCTION_MAX,
    {
        reveal(DecodedInstruction::assembled);
        match opcode {
            0xC0 => Self::entry(Opcode::Cpy, AddressingMode::Immediate(low), 2, false),
            0xC1 => Self::entry(Opcode::Cmp, AddressingMode::XIndexedIndirect(low), 6, false),
            0xC2 => Self::entry(Opcode::Nop, AddressingMode::Immediate(low), 2, false),
            0xC3 => Self::entry(Opcode::Nop, AddressingMode::Implied, 1, false),
            0xC4 => Self::entry(Opcode::Cpy, AddressingMode::ZeroPage(low), 3, false),
            0xC5 => Self::entry(Opcode::Cmp, AddressingMode::ZeroPage(low), 3, false),
            0xC6 => Self::entry(Opcode::Dec, AddressingMode::ZeroPage(low), 5, false),
            0xC7 => Self::entry(Opcode::Smb4, AddressingMode::ZeroPage(low), 5, false),
            0xC8 => Self::entry(Opcode::Iny, AddressingMode::Implied, 2, false),
            0xC9 => Self::entry(Opcode::Cmp, AddressingMode::Immediate(low), 2, false),
            0xCA => Self::entry(Opcode::Dex, AddressingMode::Implied, 2, false),
            0xCB => Self::entry(Opcode::Wai, AddressingMode::Implied, 3, false),
            0xCC => Self::entry(Opcode::Cpy, AddressingMode::Absolute(to_word(low, high)), 4, false),
            0xCD => Self::entry(Opcode::Cmp, AddressingMode::Absolute(to_word(low, high)), 4, false),
            0xCE => Self::entry(Opcode::Dec, AddressingMode::Absolute(to_word(low, high)), 6, false),
            0xCF => Self::entry(Opcode::Bbs4, AddressingMode::ZeroPageRelative(low, to_signed(high)), 5, false),
            _ => vstd::pervasive::unreached(),
        }
    }

    /// The entries of the table for the opcodes `0xD0` to `0xDF`.
    fn assemble_d(opcode: u8, low: u8, high: u8) -> (found: DecodedInstruction)
        requires
            opcode / 16 == 13,
        ensures
            found == Self::assembled(opcode, low, high),
            found.instruction.well_formed(),
            1 <= found.cycles <= CYCLES_PER_INSTRUCTION_MAX,
    {
        reveal(DecodedInstruction::assembled);
        match opcode {
            0xD0 => Self::entry(Opcode::Bne, AddressingMode::Relative(to_signed(low)), 2, true),
            0xD1 => Self::entry(Opcode::Cmp, AddressingMode::IndirectYIndexed(low), 5, true),
            0xD2 => Self::entry(Opcode::Cmp, AddressingMode::IndirectZeroPage(low), 5, false),
            0xD3 => Self::entry(Opcode::Nop, AddressingMode::Implied, 1, false),
            0xD4 => Self::entry(Opcode::Nop, AddressingMode::ZeroPageXIndexed(low), 4, false),
            0xD5 => Self::entry(Opcode::Cmp, AddressingMode::ZeroPageXIndexed(low), 4, false),
            0xD6 => Self::entry(Opcode::Dec, AddressingMode::ZeroPageXIndexed(low), 6, false),
            0xD7 => Self::entry(Opcode::Smb5, AddressingMode::ZeroPage(low), 5, false),
            0xD8 => Self::entry(Opcode::Cld, AddressingMode::Implied, 2, false),
            0xD9 => Self::entry(Opcode::Cmp, AddressingMode::AbsoluteYIndexed(to_word(low, high)), 4, true),
            0xDA => Self::entry(Opcode::Phx, AddressingMode::Implied, 3, false),
            0xDB => Self::entry(Opcode::Stp, AddressingMode::Implied, 3, false),
            0xDC => Self::entry(Opcode::Nop, AddressingMode::Absolute(to_word(low, high)), 4, false),
            0xDD => Self::entry(Opcode::Cmp, AddressingMode::AbsoluteXIndexed(to_word(low, high)), 4, true),
            0xDE => Self::entry(Opcode::Dec, AddressingMode::AbsoluteXIndexed(to_word(low, high)), 7, false),
            0xDF => Self::entry(Opcode::Bbs5, AddressingMode::ZeroPageRelative(low, to_signed(high)), 5, false),
            _ => vstd::pervasive::unreached(),
        }
    }

    /// The entries of the table for the opcodes `0xE0` to `0xEF`.
    fn assemble_e(opcode: u8, low: u8, high: u8) -> (found: DecodedInstruction)
        requires
            opcode / 16 == 14,
        ensures
            found == Self::assembled(opcode, low, high),
            found.instruction.well_formed(),
            1 <= found.cycles <= CYCLES_PER_INSTRUCTION_MAX,
    {
        reveal(DecodedInstruction::assembled);
        match opcode {
            0xE0 => Self::entry(Opcode::Cpx, AddressingMode::Immediate(low), 2, false),
            0xE1 => Self::entry(Opcode::Sbc, AddressingMode::XIndexedIndirect(low), 6, false),
            0xE2 => Self::entry(Opcode::Nop, AddressingMode::Immediate(low), 2, false),
            0xE3 => Self::entry(Opcode::Nop, AddressingMode::Implied, 1, false),
            0xE4 => Self::entry(Opcode::Cpx, AddressingMode::ZeroPage(low), 3, false),
            0xE5 => Self::entry(Opcode::Sbc, AddressingMode::ZeroPage(low), 3, false),
            0xE6 => Self::entry(Opcode::Inc, AddressingMode::ZeroPage(low), 5, false),
            0xE7 => Self::entry(Opcode::Smb6, AddressingMode::ZeroPage(low), 5, false),
            0xE8 => Self::entry(Opcode::Inx, AddressingMode::Implied, 2, false),
            0xE9 => Self::entry(Opcode::Sbc, AddressingMode::Immediate(low), 2, false),
            0xEA => Self::entry(Opcode::Nop, AddressingMode::Implied, 2, false),
            0xEB => Self::entry(Opcode::Nop, AddressingMode::Implied, 1, false),
            0xEC => Self::entry(Opcode::Cpx, AddressingMode::Absolute(to_word(low, high)), 4, false),
            0xED => Self::entry(Opcode::Sbc, AddressingMode::Absolute(to_word(low, high)), 4, false),
            0xEE => Self::entry(Opcode::Inc, AddressingMode::Absolute(to_word(low, high)), 6, false),
            0xEF => Self::entry(Opcode::Bbs6, AddressingMode::ZeroPageRelative(low, to_signed(high)), 5, false),
            _ => vstd::pervasive::unreached(),
        }
    }

    /// The entries of the table for the opcodes `0xF0` to `0xFF`.
    fn assemble_f(opcode: u8, low: u8, high: u8) -> (found: DecodedInstruction)
        requires
            opcode / 16 == 15,
        ensures
            found == Self::assembled(opcode, low, high),
            found.instruction.well_formed(),
            1 <= found.cycles <= CYCLES_PER_INSTRUCTION_MAX,
    {
        reveal(DecodedInstruction::assembled);
        match opcode {
            0xF0 => Self::entry(Opcode::Beq, AddressingMode::Relative(to_signed(low)), 2, true),
            0xF1 => Self::entry(Opcode::Sbc, AddressingMode::IndirectYIndexed(low), 5, true),
            0xF2 => Self::entry(Opcode::Sbc, AddressingMode::IndirectZeroPage(low), 5, false),
            0xF3 => Self::entry(Opcode::Nop, AddressingMode::Implied, 1, false),
            0xF4 => Self::entry(Opcode::Nop, AddressingMode::ZeroPageXIndexed(low), 4, false),
            0xF5 => Self::entry(Opcode::Sbc, AddressingMode::ZeroPageXIndexed(low), 4, false),
            0xF6 => Self::entry(Opcode::Inc, AddressingMode::ZeroPageXIndexed(low), 6, false),
            0xF7 => Self::entry(Opcode::Smb7, AddressingMode::ZeroPage(low), 5, false),
            0xF8 => Self::entry(Opcode::Sed, AddressingMode::Implied, 2, false),
            0xF9 => Self::entry(Opcode::Sbc, AddressingMode::AbsoluteYIndexed(to_word(low, high)), 4, true),
            0xFA => Self::entry(Opcode::Plx, AddressingMode::Implied, 4, false),
            0xFB => Self::entry(Opcode::Nop, AddressingMode::Implied, 1, false),
            0xFC => Self::entry(Opcode::Nop, AddressingMode::Absolute(to_word(low, high)), 4, false),
            0xFD => Self::entry(Opcode::Sbc, AddressingMode::AbsoluteXIndexed(to_word(low, high)), 4, true),
            0xFE => Self::entry(Opcode::Inc, AddressingMode::AbsoluteXIndexed(to_word(low, high)), 7, false),
            0xFF => Self::entry(Opcode::Bbs7, AddressingMode::ZeroPageRelative(low, to_signed(high)), 5, false),
            _ => vstd::pervasive::unreached(),
        }
    }

    /// Looks the byte `opcode` up in the table of instructions.
    fn assemble(opcode: u8, low: u8, high: u8) -> (found: DecodedInstruction)
        ensures
            found == Self::assembled(opcode, low, high),
            found.instruction.well_formed(),
            1 <= found.cycles <= CYCLES_PER_INSTRUCTION_MAX,
    {
        match opcode / 16 {
            0 => Self::assemble_0(opcode, low, high),
            1 => Self::assemble_1(opcode, low, high),
            2 => Self::assemble_2(opcode, low, high),
            3 => Self::assemble_3(opcode, low, high),
            4 => Self::assemble_4(opcode, low, high),
            5 => Self::assemble_5(opcode, low, high),
            6 => Self::assemble_6(opcode, low, high),
            7 => Self::assemble_7(opcode, low, high),
            8 => Self::assemble_8(opcode, low, high),
            9 => Self::assemble_9(opcode, low, high),
            10 => Self::assemble_a(opcode, low, high),
            11 => Self::assemble_b(opcode, low, high),
            12 => Self::assemble_c(opcode, low, high),
            13 => Self::assemble_d(opcode, low, high),
            14 => Self::assemble_e(opcode, low, high),
            _ => Self::assemble_f(opcode, low, high),
        }
    }

    /// Finds operation, operand and cost of the instruction at `offset`.
    pub fn decode(memory: &mut St2205uAddressSpace, offset: u32) -> (found: DecodedInstruction)
        requires
            old(memory).inv(),
            offset <= u32::MAX - 2,
        ensures
            final(memory).inv(),
            (final(memory)@, found) == Self::decoded(old(memory)@, offset),
            found.instruction.well_formed(),
            1 <= found.cycles <= CYCLES_PER_INSTRUCTION_MAX,
            final(memory).interrupt == old(memory).interrupt,
    {
        let opcode = memory.read_u8(offset);
        let length = Self::assemble(opcode, 0, 0).instruction.addressing_mode.encoded_length();
        let low = if length >= 1 {
            memory.read_u8(offset + 1)
        } else {
            0
        };
        let high = if length >= 2 {
            memory.read_u8(offset + 2)
        } else {
            0
        };
        Self::assemble(opcode, low, high)
    }
}

} // verus!
