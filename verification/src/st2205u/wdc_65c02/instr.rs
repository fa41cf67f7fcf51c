//! What each instruction of the 65C02 does.
//!
//! Every function takes the processor with its program counter already
//! past the instruction, and returns whether the instruction wants the
//! extra cycle of an index that leaves its page.

use vstd::prelude::*;
use vstd::string::*;
use crate::st2205u::wdc_65c02::addr_mode::AddressingMode;
use crate::st2205u::wdc_65c02::cpu::add16;
use crate::st2205u::wdc_65c02::cpu::add8;
use crate::st2205u::wdc_65c02::cpu::flag_bit;
use crate::st2205u::wdc_65c02::cpu::Core;
use crate::st2205u::wdc_65c02::cpu::CoreView;
use crate::st2205u::wdc_65c02::cpu::Flags;
use crate::st2205u::wdc_65c02::cpu::Registers;
use crate::st2205u::wdc_65c02::opcode::Opcode;

verus! {

/// An operation with its operand.
#[derive(Clone, Copy, Debug, PartialEq, Eq, Structural)]
pub struct Instruction {
    pub opcode: Opcode,
    pub addressing_mode: AddressingMode,
}

impl Instruction {
    /// Whether the addressing mode gives the operation the operand it
    /// works on. Every instruction that the decoder makes does.
    pub open spec fn well_formed(self) -> bool {
        match self.opcode {
            Opcode::Adc
            | Opcode::And
            | Opcode::Bit
            | Opcode::Cmp
            | Opcode::Cpx
            | Opcode::Cpy
            | Opcode::Eor
            | Opcode::Lda
            | Opcode::Ldx
            | Opcode::Ldy
            | Opcode::Ora
            | Opcode::Sbc => self.addressing_mode.reads_u8(),
            Opcode::Sta
            | Opcode::Stx
            | Opcode::Sty
            | Opcode::Stz
            | Opcode::Asl
            | Opcode::Dec
            | Opcode::Inc
            | Opcode::Lsr
            | Opcode::Rol
            | Opcode::Ror
            | Opcode::Trb
            | Opcode::Tsb
            | Opcode::Rmb0
            | Opcode::Rmb1
            | Opcode::Rmb2
            | Opcode::Rmb3
            | Opcode::Rmb4
            | Opcode::Rmb5
            | Opcode::Rmb6
            | Opcode::Rmb7
            | Opcode::Smb0
            | Opcode::Smb1
            | Opcode::Smb2
            | Opcode::Smb3
            | Opcode::Smb4
            | Opcode::Smb5
            | Opcode::Smb6
            | Opcode::Smb7 => self.addressing_mode.writes_u8(),
            Opcode::Bcc
            | Opcode::Bcs
            | Opcode::Beq
            | Opcode::Bmi
            | Opcode::Bne
            | Opcode::Bpl
            | Opcode::Bra
            | Opcode::Bvc
            | Opcode::Bvs => self.addressing_mode is Relative,
            Opcode::Bbr0
            | Opcode::Bbr1
            | Opcode::Bbr2
            | Opcode::Bbr3
            | Opcode::Bbr4
            | Opcode::Bbr5
            | Opcode::Bbr6
            | Opcode::Bbr7
            | Opcode::Bbs0
            | Opcode::Bbs1
            | Opcode::Bbs2
            | Opcode::Bbs3
            | Opcode::Bbs4
            | Opcode::Bbs5
            | Opcode::Bbs6
            | Opcode::Bbs7 => self.addressing_mode is ZeroPageRelative,
            Opcode::Jmp
            | Opcode::Jsr => self.addressing_mode.jumps(),
            _ => true,
        }
    }

    /// The instruction as an assembler writes it: the mnemonic, and behind
    /// a blank the operand if there is one.
    pub open spec fn text(self) -> Seq<char> {
        if self.addressing_mode is Implied {
            self.opcode.mnemonic()
        } else {
            self.opcode.mnemonic() + " "@ + self.addressing_mode.text()
        }
    }

    /// The instruction as an assembler writes it.
    pub fn to_string(&self) -> (text: String)
        ensures
            text@ == self.text(),
    {
        let opcode_str = self.opcode.to_string();
        match self.addressing_mode {
            AddressingMode::Implied => opcode_str,
            _ => {
                let operand_str = self.addressing_mode.to_string();
                opcode_str.concat(" ").concat(operand_str.as_str())
            },
        }
    }

    /// The number of bytes that encode the instruction.
    pub fn encoded_length(&self) -> (length: usize)
        ensures
            length == 1 + self.addressing_mode.operand_len(),
            1 <= length <= 3,
    {
        self.opcode.encoded_length() + self.addressing_mode.encoded_length()
    }
}

/// The sum that `ADC` forms in binary mode.
pub open spec fn binary_sum(a: u8, operand: u8, carry: bool) -> int {
    a + operand + flag_bit(carry, 1)
}

/// The sum that `ADC` forms in decimal mode: the low digit is corrected
/// first, then the high digit.
pub open spec fn decimal_sum(a: u8, operand: u8, carry: bool) -> int {
    let low = a % 16 + operand % 16 + flag_bit(carry, 1);
    let low_result = if low > 9 {
        (low + 6) % 16 + 16
    } else {
        low
    };
    let sum = (a / 16) * 16 + (operand / 16) * 16 + low_result;
    if sum > 0x90 {
        sum + 0x60
    } else {
        sum
    }
}

/// The difference that `SBC` forms in binary mode, as the sum of A, the
/// complement of the operand and the carry.
pub open spec fn binary_difference(a: u8, operand: u8, carry: bool) -> int {
    a + (255 - operand) + flag_bit(carry, 1)
}

/// The value that `SBC` leaves in A in decimal mode: a borrow of the low
/// digit is corrected first, then one of the high digit.
pub open spec fn decimal_difference(a: u8, operand: u8, carry: bool) -> u8 {
    let low = a % 16 - operand % 16 + flag_bit(carry, 1) - 1;
    let low_result = if low < 0 {
        (low - 6) % 16 - 16
    } else {
        low
    };
    let sum = (a / 16) * 16 - (operand / 16) * 16 + low_result;
    let corrected = if sum < 0 {
        sum - 0x60
    } else {
        sum
    };
    (corrected % 256) as u8
}

/// A byte shifted left by one bit, with `carry` as its new bit 0.
pub open spec fn shifted_left(operand: u8, carry: bool) -> u8 {
    ((operand * 2) % 256 + flag_bit(carry, 1)) as u8
}

/// A byte shifted right by one bit, with `carry` as its new bit 7.
pub open spec fn shifted_right(operand: u8, carry: bool) -> u8 {
    (operand / 2 + flag_bit(carry, 0x80)) as u8
}

/// Whether an addition overflows as one of signed bytes: both operands
/// have the sign that the result lacks.
pub open spec fn add_overflows(a: u8, operand: u8, result: u8) -> bool {
    (a >= 0x80) == (operand >= 0x80) && (result >= 0x80) != (a >= 0x80)
}

/// Whether a subtraction overflows as one of signed bytes: the operands
/// differ in sign, and the result has not the sign of the first.
pub open spec fn sub_overflows(a: u8, operand: u8, result: u8) -> bool {
    (a >= 0x80) != (operand >= 0x80) && (result >= 0x80) != (a >= 0x80)
}

/// What `ADC` leaves in A and in the flags. In decimal mode the sum is
/// corrected digit by digit. Carry tells that the sum left 8 bits,
/// overflow that the binary sum overflowed as one of signed bytes, zero
/// and negative tell of what is left in A.
pub open spec fn adc_outcome(flags: Flags, a: u8, operand: u8) -> (u8, Flags) {
    let sum = if flags.decimal {
        decimal_sum(a, operand, flags.carry)
    } else {
        binary_sum(a, operand, flags.carry)
    };
    let result = (sum % 256) as u8;
    (
        result,
        Flags {
            carry: sum >= 0x100,
            overflow: add_overflows(a, operand, (binary_sum(a, operand, flags.carry) % 256) as u8),
            ..flags.with_nz(result)
        },
    )
}

/// What `SBC` leaves in A and in the flags. The flags tell of the binary
/// difference: carry that no borrow was needed, overflow that it
/// overflowed as one of signed bytes, zero and negative of its low 8
/// bits. In decimal mode A takes the difference corrected digit by digit.
pub open spec fn sbc_outcome(flags: Flags, a: u8, operand: u8) -> (u8, Flags) {
    let difference = binary_difference(a, operand, flags.carry);
    let result = (difference % 256) as u8;
    (
        if flags.decimal {
            decimal_difference(a, operand, flags.carry)
        } else {
            result
        },
        Flags {
            carry: difference > 0xFF,
            overflow: sub_overflows(a, operand, result),
            ..flags.with_nz(result)
        },
    )
}

/// The flags after `BIT`: zero tells whether A and the operand share no
/// bit; for an operand in memory negative and overflow take its bits 7
/// and 6.
pub open spec fn bit_flags(flags: Flags, a: u8, operand: u8, in_memory: bool) -> Flags {
    if in_memory {
        Flags {
            zero: a & operand == 0,
            negative: operand >= 0x80,
            overflow: (operand / 0x40) % 2 == 1,
            ..flags
        }
    } else {
        Flags { zero: a & operand == 0, ..flags }
    }
}

impl CoreView {
    /// The processor with `value` in A and the flags zero and negative set from it.
    pub open spec fn set_a(self, value: u8) -> CoreView {
        CoreView {
            registers: Registers { a: value, ..self.registers },
            flags: self.flags.with_nz(value),
            ..self
        }
    }

    /// The processor with `value` in X and the flags zero and negative set from it.
    pub open spec fn set_x(self, value: u8) -> CoreView {
        CoreView {
            registers: Registers { x: value, ..self.registers },
            flags: self.flags.with_nz(value),
            ..self
        }
    }

    /// The processor with `value` in Y and the flags zero and negative set from it.
    pub open spec fn set_y(self, value: u8) -> CoreView {
        CoreView {
            registers: Registers { y: value, ..self.registers },
            flags: self.flags.with_nz(value),
            ..self
        }
    }

    /// The processor with the flags `flags`.
    pub open spec fn with_flags(self, flags: Flags) -> CoreView {
        CoreView { flags, ..self }
    }

    /// The processor after a branch over the signed distance `offset`.
    pub open spec fn branched(self, offset: i8) -> CoreView {
        self.with_pc(add16(self.registers.pc, offset as int))
    }

    /// The processor after a conditional branch: taken, it costs one more cycle.
    pub open spec fn branch_if(self, taken: bool, offset: i8) -> CoreView {
        if taken {
            self.branched(offset).after_cycles(1)
        } else {
            self
        }
    }

    /// The signed distance that a relative mode holds.
    pub open spec fn distance(mode: AddressingMode) -> i8 {
        match mode {
            AddressingMode::Relative(offset) => offset,
            _ => 0,
        }
    }

    /// `LDA`: loads A with the operand.
    pub open spec fn lda(self, mode: AddressingMode) -> (CoreView, bool) {
        let (core, value, crossed) = self.operand_u8(mode);
        (core.set_a(value), crossed)
    }

    /// `LDX`: loads X with the operand.
    pub open spec fn ldx(self, mode: AddressingMode) -> (CoreView, bool) {
        let (core, value, crossed) = self.operand_u8(mode);
        (core.set_x(value), crossed)
    }

    /// `LDY`: loads Y with the operand.
    pub open spec fn ldy(self, mode: AddressingMode) -> (CoreView, bool) {
        let (core, value, crossed) = self.operand_u8(mode);
        (core.set_y(value), crossed)
    }

    /// `TAX`: transfers A to X.
    pub open spec fn tax(self) -> (CoreView, bool) {
        (self.set_x(self.registers.a), false)
    }

    /// `TAY`: transfers A to Y.
    pub open spec fn tay(self) -> (CoreView, bool) {
        (self.set_y(self.registers.a), false)
    }

    /// `TXA`: transfers X to A.
    pub open spec fn txa(self) -> (CoreView, bool) {
        (self.set_a(self.registers.x), false)
    }

    /// `TYA`: transfers Y to A.
    pub open spec fn tya(self) -> (CoreView, bool) {
        (self.set_a(self.registers.y), false)
    }

    /// `TSX`: transfers the stack pointer to X.
    pub open spec fn tsx(self) -> (CoreView, bool) {
        (self.set_x(self.registers.sp), false)
    }

    /// `TXS`: transfers X to the stack pointer; no flag changes.
    pub open spec fn txs(self) -> (CoreView, bool) {
        (self.with_sp(self.registers.x), false)
    }

    /// What a store instruction does: `value` is written where the mode names.
    pub open spec fn store(self, mode: AddressingMode, value: u8) -> (CoreView, bool) {
        self.store_u8(mode, value)
    }

    /// `STA`: stores A.
    pub open spec fn sta(self, mode: AddressingMode) -> (CoreView, bool) {
        self.store(mode, self.registers.a)
    }

    /// `STX`: stores X.
    pub open spec fn stx(self, mode: AddressingMode) -> (CoreView, bool) {
        self.store(mode, self.registers.x)
    }

    /// `STY`: stores Y.
    pub open spec fn sty(self, mode: AddressingMode) -> (CoreView, bool) {
        self.store(mode, self.registers.y)
    }

    /// `STZ`: stores zero.
    pub open spec fn stz(self, mode: AddressingMode) -> (CoreView, bool) {
        self.store(mode, 0)
    }

    /// `SMBn`: sets bit `n` of the operand in memory; zero is set from the result.
    pub open spec fn smbx(self, mode: AddressingMode, n: u8) -> (CoreView, bool) {
        let (core, operand, _) = self.operand_u8(mode);
        let result = operand | (1u8 << n);
        let flagged = core.with_flags(Flags { zero: result == 0, ..core.flags });
        (flagged.store_u8(mode, result).0, false)
    }

    /// `RMBn`: clears bit `n` of the operand in memory; zero is set from the result.
    pub open spec fn rmbx(self, mode: AddressingMode, n: u8) -> (CoreView, bool) {
        let (core, operand, _) = self.operand_u8(mode);
        let result = operand & !(1u8 << n);
        let flagged = core.with_flags(Flags { zero: result == 0, ..core.flags });
        (flagged.store_u8(mode, result).0, false)
    }

    /// `WAI`: waits for an interrupt. It is modelled as doing nothing.
    pub open spec fn wai(self) -> (CoreView, bool) {
        (self, false)
    }

    /// `NOP`: does nothing, whatever operand it has.
    pub open spec fn nop(self) -> (CoreView, bool) {
        (self, false)
    }

    /// `BRK`: a software interrupt. It is modelled as doing nothing.
    pub open spec fn brk(self) -> (CoreView, bool) {
        (self, false)
    }

    /// `STP`: stops the processor. It is modelled as doing nothing.
    pub open spec fn stp(self) -> (CoreView, bool) {
        (self, false)
    }

    /// `INX`: increments X within 8 bits.
    pub open spec fn inx(self) -> (CoreView, bool) {
        (self.set_x(add8(self.registers.x, 1)), false)
    }

    /// `INY`: increments Y within 8 bits.
    pub open spec fn iny(self) -> (CoreView, bool) {
        (self.set_y(add8(self.registers.y, 1)), false)
    }

    /// `DEX`: decrements X within 8 bits.
    pub open spec fn dex(self) -> (CoreView, bool) {
        (self.set_x(add8(self.registers.x, -1)), false)
    }

    /// `DEY`: decrements Y within 8 bits.
    pub open spec fn dey(self) -> (CoreView, bool) {
        (self.set_y(add8(self.registers.y, -1)), false)
    }

    /// `BNE`: branches if zero is clear.
    pub open spec fn bne(self, mode: AddressingMode) -> (CoreView, bool) {
        (self.branch_if(!self.flags.zero, Self::distance(mode)), false)
    }

    /// `BEQ`: branches if zero is set.
    pub open spec fn beq(self, mode: AddressingMode) -> (CoreView, bool) {
        (self.branch_if(self.flags.zero, Self::distance(mode)), false)
    }

    /// `BMI`: branches if negative is set.
    pub open spec fn bmi(self, mode: AddressingMode) -> (CoreView, bool) {
        (self.branch_if(self.flags.negative, Self::distance(mode)), false)
    }

    /// `BPL`: branches if negative is clear.
    pub open spec fn bpl(self, mode: AddressingMode) -> (CoreView, bool) {
        (self.branch_if(!self.flags.negative, Self::distance(mode)), false)
    }

    /// `BCC`: branches if carry is clear.
    pub open spec fn bcc(self, mode: AddressingMode) -> (CoreView, bool) {
        (self.branch_if(!self.flags.carry, Self::distance(mode)), false)
    }

    /// `BCS`: branches if carry is set.
    pub open spec fn bcs(self, mode: AddressingMode) -> (CoreView, bool) {
        (self.branch_if(self.flags.carry, Self::distance(mode)), false)
    }

    /// `BVC`: branches if overflow is clear.
    pub open spec fn bvc(self, mode: AddressingMode) -> (CoreView, bool) {
        (self.branch_if(!self.flags.overflow, Self::distance(mode)), false)
    }

    /// `BVS`: branches if overflow is set.
    pub open spec fn bvs(self, mode: AddressingMode) -> (CoreView, bool) {
        (self.branch_if(self.flags.overflow, Self::distance(mode)), false)
    }

    /// `BRA`: branches always.
    pub open spec fn bra(self, mode: AddressingMode) -> (CoreView, bool) {
        (self.branched(Self::distance(mode)), false)
    }

    /// `BBRn`: branches if bit `bit` of the byte at the zero-page address is clear.
    pub open spec fn bbr(self, mode: AddressingMode, bit: u8) -> (CoreView, bool) {
        match mode {
            AddressingMode::ZeroPageRelative(zp_addr, offset) => {
                let (core, operand) = self.read(zp_addr as u16);
                (core.branch_if(operand & (1u8 << bit) == 0, offset), false)
            },
            _ => (self, false),
        }
    }

    /// `BBSn`: branches if bit `bit` of the byte at the zero-page address is set.
    pub open spec fn bbs(self, mode: AddressingMode, bit: u8) -> (CoreView, bool) {
        match mode {
            AddressingMode::ZeroPageRelative(zp_addr, offset) => {
                let (core, operand) = self.read(zp_addr as u16);
                (core.branch_if(operand & (1u8 << bit) != 0, offset), false)
            },
            _ => (self, false),
        }
    }

    /// `SEI`: sets interrupt disable.
    pub open spec fn sei(self) -> (CoreView, bool) {
        (self.with_flags(Flags { interrupt_disable: true, ..self.flags }), false)
    }

    /// `CLI`: clears interrupt disable.
    pub open spec fn cli(self) -> (CoreView, bool) {
        (self.with_flags(Flags { interrupt_disable: false, ..self.flags }), false)
    }

    /// `CLV`: clears overflow.
    pub open spec fn clv(self) -> (CoreView, bool) {
        (self.with_flags(Flags { overflow: false, ..self.flags }), false)
    }

    /// `CLD`: clears decimal.
    pub open spec fn cld(self) -> (CoreView, bool) {
        (self.with_flags(Flags { decimal: false, ..self.flags }), false)
    }

    /// `CLC`: clears carry.
    pub open spec fn clc(self) -> (CoreView, bool) {
        (self.with_flags(Flags { carry: false, ..self.flags }), false)
    }

    /// `SED`: sets decimal.
    pub open spec fn sed(self) -> (CoreView, bool) {
        (self.with_flags(Flags { decimal: true, ..self.flags }), false)
    }

    /// `SEC`: sets carry.
    pub open spec fn sec(self) -> (CoreView, bool) {
        (self.with_flags(Flags { carry: true, ..self.flags }), false)
    }

    /// `PHA`: pushes A.
    pub open spec fn pha(self) -> (CoreView, bool) {
        (self.push_u8(self.registers.a), false)
    }

    /// `PHX`: pushes X.
    pub open spec fn phx(self) -> (CoreView, bool) {
        (self.push_u8(self.registers.x), false)
    }

    /// `PHY`: pushes Y.
    pub open spec fn phy(self) -> (CoreView, bool) {
        (self.push_u8(self.registers.y), false)
    }

    /// `PHP`: pushes the status byte.
    pub open spec fn php(self) -> (CoreView, bool) {
        (self.push_u8(self.flags.packed() as u8), false)
    }

    /// `PLA`: pulls A.
    pub open spec fn pla(self) -> (CoreView, bool) {
        let (core, value) = self.pop_u8();
        (core.set_a(value), false)
    }

    /// `PLX`: pulls X.
    pub open spec fn plx(self) -> (CoreView, bool) {
        let (core, value) = self.pop_u8();
        (core.set_x(value), false)
    }

    /// `PLY`: pulls Y.
    pub open spec fn ply(self) -> (CoreView, bool) {
        let (core, value) = self.pop_u8();
        (core.set_y(value), false)
    }

    /// `PLP`: pulls the status byte.
    pub open spec fn plp(self) -> (CoreView, bool) {
        let (core, value) = self.pop_u8();
        (core.with_flags(Flags::unpacked(value)), false)
    }

    /// `INC`: increments the operand within 8 bits, in memory or in A.
    pub open spec fn inc(self, mode: AddressingMode) -> (CoreView, bool) {
        let (core, operand, _) = self.operand_u8(mode);
        let result = add8(operand, 1);
        (core.with_flags(core.flags.with_nz(result)).store_u8(mode, result).0, false)
    }

    /// `DEC`: decrements the operand within 8 bits, in memory or in A.
    pub open spec fn dec(self, mode: AddressingMode) -> (CoreView, bool) {
        let (core, operand, _) = self.operand_u8(mode);
        let result = add8(operand, -1);
        (core.with_flags(core.flags.with_nz(result)).store_u8(mode, result).0, false)
    }

    /// What a compare does: carry tells that `compare_val` is not below the operand, zero that they are equal, negative is the sign of their difference within 8 bits.
    pub open spec fn cmpx(self, mode: AddressingMode, compare_val: u8) -> (CoreView, bool) {
        let (core, operand, crossed) = self.operand_u8(mode);
        (
            core.with_flags(
                Flags {
                    carry: compare_val >= operand,
                    zero: compare_val == operand,
                    negative: add8(compare_val, 0 - operand) >= 0x80,
                    ..core.flags
                },
            ),
            crossed,
        )
    }

    /// `CMP`: compares A with the operand.
    pub open spec fn cmp(self, mode: AddressingMode) -> (CoreView, bool) {
        self.cmpx(mode, self.registers.a)
    }

    /// `CPX`: compares X with the operand.
    pub open spec fn cpx(self, mode: AddressingMode) -> (CoreView, bool) {
        self.cmpx(mode, self.registers.x)
    }

    /// `CPY`: compares Y with the operand.
    pub open spec fn cpy(self, mode: AddressingMode) -> (CoreView, bool) {
        self.cmpx(mode, self.registers.y)
    }

    /// `AND`: the bitwise AND of A and the operand, in A.
    pub open spec fn and(self, mode: AddressingMode) -> (CoreView, bool) {
        let (core, operand, crossed) = self.operand_u8(mode);
        (core.set_a(core.registers.a & operand), crossed)
    }

    /// `ORA`: the bitwise OR of A and the operand, in A.
    pub open spec fn ora(self, mode: AddressingMode) -> (CoreView, bool) {
        let (core, operand, crossed) = self.operand_u8(mode);
        (core.set_a(core.registers.a | operand), crossed)
    }

    /// `EOR`: the bitwise exclusive OR of A and the operand, in A.
    pub open spec fn eor(self, mode: AddressingMode) -> (CoreView, bool) {
        let (core, operand, crossed) = self.operand_u8(mode);
        (core.set_a(core.registers.a ^ operand), crossed)
    }

    /// `ASL`: shifts the operand left by one bit; carry takes bit 7.
    pub open spec fn asl(self, mode: AddressingMode) -> (CoreView, bool) {
        let (core, operand, crossed) = self.operand_u8(mode);
        let result: u8 = shifted_left(operand, false);
        let flagged = core.with_flags(
            Flags { carry: operand >= 0x80, zero: result == 0, negative: result >= 0x80, ..core.flags },
        );
        (flagged.store_u8(mode, result).0, crossed)
    }

    /// `LSR`: shifts the operand right by one bit; carry takes bit 0.
    pub open spec fn lsr(self, mode: AddressingMode) -> (CoreView, bool) {
        let (core, operand, crossed) = self.operand_u8(mode);
        let result: u8 = shifted_right(operand, false);
        let flagged = core.with_flags(
            Flags { carry: operand % 2 == 1, zero: result == 0, negative: result >= 0x80, ..core.flags },
        );
        (flagged.store_u8(mode, result).0, crossed)
    }

    /// `ROL`: rotates the operand left through carry.
    pub open spec fn rol(self, mode: AddressingMode) -> (CoreView, bool) {
        let (core, operand, crossed) = self.operand_u8(mode);
        let result: u8 = shifted_left(operand, core.flags.carry);
        let flagged = core.with_flags(
            Flags { carry: operand >= 0x80, zero: result == 0, negative: result >= 0x80, ..core.flags },
        );
        (flagged.store_u8(mode, result).0, crossed)
    }

    /// `ROR`: rotates the operand right through carry.
    pub open spec fn ror(self, mode: AddressingMode) -> (CoreView, bool) {
        let (core, operand, crossed) = self.operand_u8(mode);
        let result: u8 = shifted_right(operand, core.flags.carry);
        let flagged = core.with_flags(
            Flags { carry: operand % 2 == 1, zero: result == 0, negative: result >= 0x80, ..core.flags },
        );
        (flagged.store_u8(mode, result).0, crossed)
    }

    /// `BIT`: zero tells whether A and the operand share no bit. With an operand in memory, negative and overflow take its bits 7 and 6.
    pub open spec fn bit(self, mode: AddressingMode) -> (CoreView, bool) {
        let (core, operand, crossed) = self.operand_u8(mode);
        (core.with_flags(bit_flags(core.flags, core.registers.a, operand, !(mode is Immediate))), crossed)
    }

    /// `TRB`: clears in the operand the bits that are set in A; zero tells whether A and the operand shared no bit.
    pub open spec fn trb(self, mode: AddressingMode) -> (CoreView, bool) {
        let (core, operand, crossed) = self.operand_u8(mode);
        let flagged = core.with_flags(Flags { zero: core.registers.a & operand == 0, ..core.flags });
        (flagged.store_u8(mode, operand & !core.registers.a).0, crossed)
    }

    /// `TSB`: sets in the operand the bits that are set in A; zero tells whether A and the operand shared no bit.
    pub open spec fn tsb(self, mode: AddressingMode) -> (CoreView, bool) {
        let (core, operand, crossed) = self.operand_u8(mode);
        let flagged = core.with_flags(Flags { zero: core.registers.a & operand == 0, ..core.flags });
        (flagged.store_u8(mode, operand | core.registers.a).0, crossed)
    }

    /// `JMP`: continues at the target.
    pub open spec fn jmp(self, mode: AddressingMode) -> (CoreView, bool) {
        let (core, target, crossed) = self.operand_u16(mode);
        (core.with_pc(target), crossed)
    }

    /// `JSR`: pushes the address of its own last byte and continues at the target.
    pub open spec fn jsr(self, mode: AddressingMode) -> (CoreView, bool) {
        let (core, target, crossed) = self.operand_u16(mode);
        (core.push_u16(add16(core.registers.pc, -1)).with_pc(target), crossed)
    }

    /// `RTS`: pulls an address and continues one byte after it.
    pub open spec fn rts(self) -> (CoreView, bool) {
        let (core, address) = self.pop_u16();
        (core.with_pc(add16(address, 1)), false)
    }

    /// `RTI`: pulls the status byte, then the address to continue at, and leaves the interrupt.
    pub open spec fn rti(self) -> (CoreView, bool) {
        let (first, status) = self.pop_u8();
        let (second, address) = first.with_flags(Flags::unpacked(status)).pop_u16();
        (
            CoreView { mem: second.mem.with_interrupted(false), ..second.with_pc(address) },
            false,
        )
    }

    /// `ADC`: adds the operand and the carry to A; in decimal mode it
    /// costs one more cycle.
    pub open spec fn adc(self, mode: AddressingMode) -> (CoreView, bool) {
        let (core, operand, crossed) = self.operand_u8(mode);
        let (result, flags) = adc_outcome(core.flags, core.registers.a, operand);
        (
            CoreView {
                registers: Registers { a: result, ..core.registers },
                flags,
                ..core.after_cycles(flag_bit(core.flags.decimal, 1))
            },
            crossed,
        )
    }

    /// `SBC`: subtracts the operand and the borrow, which is the carry
    /// inverted, from A; in decimal mode it costs one more cycle.
    pub open spec fn sbc(self, mode: AddressingMode) -> (CoreView, bool) {
        let (core, operand, crossed) = self.operand_u8(mode);
        let (result, flags) = sbc_outcome(core.flags, core.registers.a, operand);
        (
            CoreView {
                registers: Registers { a: result, ..core.registers },
                flags,
                ..core.after_cycles(flag_bit(core.flags.decimal, 1))
            },
            crossed,
        )
    }

    /// The processor after the instruction `inst`, whose bytes the
    /// program counter is already past, and whether the instruction
    /// wants the extra cycle of an index that leaves its page.
    #[verifier::opaque]
    pub open spec fn execute(self, inst: Instruction) -> (CoreView, bool) {
        let mode = inst.addressing_mode;
        match inst.opcode {
            Opcode::Adc => self.adc(mode),
            Opcode::And => self.and(mode),
            Opcode::Asl => self.asl(mode),
            Opcode::Bbr0 => self.bbr(mode, 0),
            Opcode::Bbr1 => self.bbr(mode, 1),
            Opcode::Bbr2 => self.bbr(mode, 2),
            Opcode::Bbr3 => self.bbr(mode, 3),
            Opcode::Bbr4 => self.bbr(mode, 4),
            Opcode::Bbr5 => self.bbr(mode, 5),
            Opcode::Bbr6 => self.bbr(mode, 6),
            Opcode::Bbr7 => self.bbr(mode, 7),
            Opcode::Bbs0 => self.bbs(mode, 0),
            Opcode::Bbs1 => self.bbs(mode, 1),
            Opcode::Bbs2 => self.bbs(mode, 2),
            Opcode::Bbs3 => self.bbs(mode, 3),
            Opcode::Bbs4 => self.bbs(mode, 4),
            Opcode::Bbs5 => self.bbs(mode, 5),
            Opcode::Bbs6 => self.bbs(mode, 6),
            Opcode::Bbs7 => self.bbs(mode, 7),
            Opcode::Bcc => self.bcc(mode),
            Opcode::Bcs => self.bcs(mode),
            Opcode::Beq => self.beq(mode),
            Opcode::Bit => self.bit(mode),
            Opcode::Bmi => self.bmi(mode),
            Opcode::Bne => self.bne(mode),
            Opcode::Bpl => self.bpl(mode),
            Opcode::Bra => self.bra(mode),
            Opcode::Brk => self.brk(),
            Opcode::Bvc => self.bvc(mode),
            Opcode::Bvs => self.bvs(mode),
            Opcode::Clc => self.clc(),
            Opcode::Cld => self.cld(),
            Opcode::Cli => self.cli(),
            Opcode::Clv => self.clv(),
            Opcode::Cmp => self.cmp(mode),
            Opcode::Cpx => self.cpx(mode),
            Opcode::Cpy => self.cpy(mode),
            Opcode::Dec => self.dec(mode),
            Opcode::Dex => self.dex(),
            Opcode::Dey => self.dey(),
            Opcode::Eor => self.eor(mode),
            Opcode::Inc => self.inc(mode),
            Opcode::Inx => self.inx(),
            Opcode::Iny => self.iny(),
            Opcode::Jmp => self.jmp(mode),
            Opcode::Jsr => self.jsr(mode),
            Opcode::Lda => self.lda(mode),
            Opcode::Ldx => self.ldx(mode),
            Opcode::Ldy => self.ldy(mode),
            Opcode::Lsr => self.lsr(mode),
            Opcode::Nop => self.nop(),
            Opcode::Ora => self.ora(mode),
            Opcode::Pha => self.pha(),
            Opcode::Php => self.php(),
            Opcode::Phx => self.phx(),
            Opcode::Phy => self.phy(),
            Opcode::Pla => self.pla(),
            Opcode::Plp => self.plp(),
            Opcode::Plx => self.plx(),
            Opcode::Ply => self.ply(),
            Opcode::Rmb0 => self.rmbx(mode, 0),
            Opcode::Rmb1 => self.rmbx(mode, 1),
            Opcode::Rmb2 => self.rmbx(mode, 2),
            Opcode::Rmb3 => self.rmbx(mode, 3),
            Opcode::Rmb4 => self.rmbx(mode, 4),
            Opcode::Rmb5 => self.rmbx(mode, 5),
            Opcode::Rmb6 => self.rmbx(mode, 6),
            Opcode::Rmb7 => self.rmbx(mode, 7),
            Opcode::Rol => self.rol(mode),
            Opcode::Ror => self.ror(mode),
            Opcode::Rti => self.rti(),
            Opcode::Rts => self.rts(),
            Opcode::Sbc => self.sbc(mode),
            Opcode::Sec => self.sec(),
            Opcode::Sed => self.sed(),
            Opcode::Sei => self.sei(),
            Opcode::Smb0 => self.smbx(mode, 0),
            Opcode::Smb1 => self.smbx(mode, 1),
            Opcode::Smb2 => self.smbx(mode, 2),
            Opcode::Smb3 => self.smbx(mode, 3),
            Opcode::Smb4 => self.smbx(mode, 4),
            Opcode::Smb5 => self.smbx(mode, 5),
            Opcode::Smb6 => self.smbx(mode, 6),
            Opcode::Smb7 => self.smbx(mode, 7),
            Opcode::Sta => self.sta(mode),
            Opcode::Stp => self.stp(),
            Opcode::Stx => self.stx(mode),
            Opcode::Sty => self.sty(mode),
            Opcode::Stz => self.stz(mode),
            Opcode::Tax => self.tax(),
            Opcode::Tay => self.tay(),
            Opcode::Trb => self.trb(mode),
            Opcode::Tsb => self.tsb(mode),
            Opcode::Tsx => self.tsx(),
            Opcode::Txa => self.txa(),
            Opcode::Txs => self.txs(),
            Opcode::Tya => self.tya(),
            Opcode::Wai => self.wai(),
        }
    }
}

fn is_negative(val: u8) -> (negative: bool)
    ensures
        negative == (val >= 0x80),
{
    val >= 0x80
}

fn inc8(value: u8) -> (result: u8)
    ensures
        result == add8(value, 1),
{
    value.wrapping_add(1)
}

fn dec8(value: u8) -> (result: u8)
    ensures
        result == add8(value, -1),
{
    value.wrapping_sub(1)
}

/// `value + delta` within 16 bits.
fn offset16(value: u16, delta: i8) -> (result: u16)
    ensures
        result == add16(value, delta as int),
{
    if delta >= 0 {
        value.wrapping_add(delta as u16)
    } else {
        value.wrapping_sub((-(delta as i16)) as u16)
    }
}

/// `value - operand` within 8 bits.
fn difference(value: u8, operand: u8) -> (result: u8)
    ensures
        result == add8(value, 0 - operand),
{
    value.wrapping_sub(operand)
}

fn shift_left(operand: u8, carry: bool) -> (result: u8)
    ensures
        result == shifted_left(operand, carry),
{
    let low: u8 = if carry { 1 } else { 0 };
    (((operand as u16) * 2) % 256) as u8 + low
}

fn shift_right(operand: u8, carry: bool) -> (result: u8)
    ensures
        result == shifted_right(operand, carry),
{
    let high: u8 = if carry { 0x80 } else { 0 };
    operand / 2 + high
}

fn add_binary(a: u8, operand: u8, carry: bool) -> (sum: u16)
    ensures
        sum == binary_sum(a, operand, carry),
{
    let carry_in: u16 = if carry { 1 } else { 0 };
    operand as u16 + a as u16 + carry_in
}

fn add_decimal(a: u8, operand: u8, carry: bool) -> (sum: u16)
    ensures
        sum == decimal_sum(a, operand, carry),
{
    let carry_in: u16 = if carry { 1 } else { 0 };
    let mut low_result: u16 = (a % 16) as u16 + (operand % 16) as u16 + carry_in;
    if low_result > 9 {
        low_result = ((low_result + 6) % 16) + 16;
    }
    let sum: u16 = ((a / 16) as u16) * 16 + ((operand / 16) as u16) * 16 + low_result;
    if sum > 0x90 {
        sum + 0x60
    } else {
        sum
    }
}

fn subtract_binary(a: u8, operand: u8, carry: bool) -> (difference: u16)
    ensures
        difference == binary_difference(a, operand, carry),
{
    let carry_in: u16 = if carry { 1 } else { 0 };
    a as u16 + (255 - operand) as u16 + carry_in
}

fn subtract_decimal(a: u8, operand: u8, carry: bool) -> (result: u8)
    ensures
        result == decimal_difference(a, operand, carry),
{
    let carry_in: i32 = if carry { 1 } else { 0 };
    let low: i32 = (a % 16) as i32 - (operand % 16) as i32 + carry_in - 1;
    let low_result: i32 = if low < 0 {
        proof {
            vstd::arithmetic::div_mod::lemma_mod_multiples_vanish(2, low - 6, 16);
        }
        (((low + 26) as u32) % 16) as i32 - 16
    } else {
        low
    };
    let sum: i32 = ((a / 16) as i32) * 16 - ((operand / 16) as i32) * 16 + low_result;
    let corrected: i32 = if sum < 0 {
        sum - 0x60
    } else {
        sum
    };
    proof {
        vstd::arithmetic::div_mod::lemma_mod_multiples_vanish(2, corrected as int, 256);
    }
    (((corrected + 512) as u32) % 256) as u8
}

fn add_with_carry(flags: Flags, a: u8, operand: u8) -> (outcome: (u8, Flags))
    ensures
        outcome == adc_outcome(flags, a, operand),
{
    let sum = if flags.decimal {
        add_decimal(a, operand, flags.carry)
    } else {
        add_binary(a, operand, flags.carry)
    };
    let binary_result = (add_binary(a, operand, flags.carry) % 256) as u8;
    let result = (sum % 256) as u8;
    (
        result,
        Flags {
            carry: sum >= 0x100,
            zero: result == 0,
            negative: is_negative(result),
            overflow: (is_negative(a) == is_negative(operand)) && (is_negative(binary_result)
                != is_negative(a)),
            interrupt_disable: flags.interrupt_disable,
            decimal: flags.decimal,
        },
    )
}

fn subtract_with_borrow(flags: Flags, a: u8, operand: u8) -> (outcome: (u8, Flags))
    ensures
        outcome == sbc_outcome(flags, a, operand),
{
    let binary = subtract_binary(a, operand, flags.carry);
    let result = (binary % 256) as u8;
    let left = if flags.decimal {
        subtract_decimal(a, operand, flags.carry)
    } else {
        result
    };
    (
        left,
        Flags {
            carry: binary > 0xFF,
            zero: result == 0,
            negative: is_negative(result),
            overflow: (is_negative(a) != is_negative(operand)) && (is_negative(result)
                != is_negative(a)),
            interrupt_disable: flags.interrupt_disable,
            decimal: flags.decimal,
        },
    )
}

fn test_bits(flags: Flags, a: u8, operand: u8, in_memory: bool) -> (out: Flags)
    ensures
        out == bit_flags(flags, a, operand, in_memory),
{
    if in_memory {
        Flags {
            zero: a & operand == 0,
            negative: is_negative(operand),
            overflow: (operand / 0x40) % 2 == 1,
            carry: flags.carry,
            interrupt_disable: flags.interrupt_disable,
            decimal: flags.decimal,
        }
    } else {
        Flags {
            zero: a & operand == 0,
            negative: flags.negative,
            overflow: flags.overflow,
            carry: flags.carry,
            interrupt_disable: flags.interrupt_disable,
            decimal: flags.decimal,
        }
    }
}

fn branch(core: &mut Core, relative_offset: i8)
    ensures
        *final(core) == (Core {
            registers: Registers {
                pc: add16(old(core).registers.pc, relative_offset as int),
                ..old(core).registers
            },
            ..*old(core)
        }),
{
    core.registers.pc = offset16(core.registers.pc, relative_offset);
}

/// `LDA`: loads A with the operand and sets zero and negative from it.
pub fn lda(core: &mut Core, inst: &Instruction) -> (crossed: bool)
    requires
        old(core).ready(),
        inst.addressing_mode.reads_u8(),
    ensures
        final(core).inv(),
        (final(core)@, crossed) == old(core)@.lda(inst.addressing_mode),
        old(core).cycles <= final(core).cycles <= old(core).cycles + 1,
{
    let (operand, bound_crossed) = inst.addressing_mode.read_operand_u8(core);
    core.registers.a = operand;
    core.flags = Flags {
        zero: core.registers.a == 0,
        negative: is_negative(core.registers.a),
        ..core.flags
    };
    bound_crossed
}

/// `LDX`: loads X with the operand and sets zero and negative from it.
pub fn ldx(core: &mut Core, inst: &Instruction) -> (crossed: bool)
    requires
        old(core).ready(),
        inst.addressing_mode.reads_u8(),
    ensures
        final(core).inv(),
        (final(core)@, crossed) == old(core)@.ldx(inst.addressing_mode),
        old(core).cycles <= final(core).cycles <= old(core).cycles + 1,
{
    let (operand, bound_crossed) = inst.addressing_mode.read_operand_u8(core);
    core.registers.x = operand;
    core.flags = Flags {
        zero: core.registers.x == 0,
        negative: is_negative(core.registers.x),
        ..core.flags
    };
    bound_crossed
}

/// `LDY`: loads Y with the operand and sets zero and negative from it.
pub fn ldy(core: &mut Core, inst: &Instruction) -> (crossed: bool)
    requires
        old(core).ready(),
        inst.addressing_mode.reads_u8(),
    ensures
        final(core).inv(),
        (final(core)@, crossed) == old(core)@.ldy(inst.addressing_mode),
        old(core).cycles <= final(core).cycles <= old(core).cycles + 1,
{
    let (operand, bound_crossed) = inst.addressing_mode.read_operand_u8(core);
    core.registers.y = operand;
    core.flags = Flags {
        zero: core.registers.y == 0,
        negative: is_negative(core.registers.y),
        ..core.flags
    };
    bound_crossed
}

/// `TAX`: transfers A to X and sets zero and negative from it.
pub fn tax(core: &mut Core, _inst: &Instruction) -> (crossed: bool)
    requires
        old(core).ready(),
    ensures
        final(core).inv(),
        (final(core)@, crossed) == old(core)@.tax(),
        old(core).cycles <= final(core).cycles <= old(core).cycles + 1,
{
    core.registers.x = core.registers.a;
    core.flags = Flags {
        zero: core.registers.x == 0,
        negative: is_negative(core.registers.x),
        ..core.flags
    };
    false
}

/// `TAY`: transfers A to Y and sets zero and negative from it.
pub fn tay(core: &mut Core, _inst: &Instruction) -> (crossed: bool)
    requires
        old(core).ready(),
    ensures
        final(core).inv(),
        (final(core)@, crossed) == old(core)@.tay(),
        old(core).cycles <= final(core).cycles <= old(core).cycles + 1,
{
    core.registers.y = core.registers.a;
    core.flags = Flags {
        zero: core.registers.y == 0,
        negative: is_negative(core.registers.y),
        ..core.flags
    };
    false
}

/// `TXA`: transfers X to A and sets zero and negative from it.
pub fn txa(core: &mut Core, _inst: &Instruction) -> (crossed: bool)
    requires
        old(core).ready(),
    ensures
        final(core).inv(),
        (final(core)@, crossed) == old(core)@.txa(),
        old(core).cycles <= final(core).cycles <= old(core).cycles + 1,
{
    core.registers.a = core.registers.x;
    core.flags = Flags {
        zero: core.registers.a == 0,
        negative: is_negative(core.registers.a),
        ..core.flags
    };
    false
}

/// `TYA`: transfers Y to A and sets zero and negative from it.
pub fn tya(core: &mut Core, _inst: &Instruction) -> (crossed: bool)
    requires
        old(core).ready(),
    ensures
        final(core).inv(),
        (final(core)@, crossed) == old(core)@.tya(),
        old(core).cycles <= final(core).cycles <= old(core).cycles + 1,
{
    core.registers.a = core.registers.y;
    core.flags = Flags {
        zero: core.registers.a == 0,
        negative: is_negative(core.registers.a),
        ..core.flags
    };
    false
}

/// `TSX`: transfers the stack pointer to X and sets zero and negative from it.
pub fn tsx(core: &mut Core, _inst: &Instruction) -> (crossed: bool)
    requires
        old(core).ready(),
    ensures
        final(core).inv(),
        (final(core)@, crossed) == old(core)@.tsx(),
        old(core).cycles <= final(core).cycles <= old(core).cycles + 1,
{
    core.registers.x = core.registers.sp;
    core.flags = Flags {
        zero: core.registers.x == 0,
        negative: is_negative(core.registers.x),
        ..core.flags
    };
    false
}

/// `TXS`: transfers X to the stack pointer; no flag changes.
pub fn txs(core: &mut Core, _inst: &Instruction) -> (crossed: bool)
    requires
        old(core).ready(),
    ensures
        final(core).inv(),
        (final(core)@, crossed) == old(core)@.txs(),
        old(core).cycles <= final(core).cycles <= old(core).cycles + 1,
{
    core.registers.sp = core.registers.x;
    false
}

fn store(core: &mut Core, inst: &Instruction, value: u8) -> (crossed: bool)
    requires
        old(core).ready(),
        inst.addressing_mode.writes_u8(),
    ensures
        final(core).inv(),
        (final(core)@, crossed) == old(core)@.store(inst.addressing_mode, value),
        old(core).cycles <= final(core).cycles <= old(core).cycles + 1,
{
    inst.addressing_mode.write_operand_u8(core, value)
}

/// `STA`: stores A where the mode names.
pub fn sta(core: &mut Core, inst: &Instruction) -> (crossed: bool)
    requires
        old(core).ready(),
        inst.addressing_mode.writes_u8(),
    ensures
        final(core).inv(),
        (final(core)@, crossed) == old(core)@.sta(inst.addressing_mode),
        old(core).cycles <= final(core).cycles <= old(core).cycles + 1,
{
    let value: u8 = core.registers.a;
    store(core, inst, value)
}

/// `STX`: stores X where the mode names.
pub fn stx(core: &mut Core, inst: &Instruction) -> (crossed: bool)
    requires
        old(core).ready(),
        inst.addressing_mode.writes_u8(),
    ensures
        final(core).inv(),
        (final(core)@, crossed) == old(core)@.stx(inst.addressing_mode),
        old(core).cycles <= final(core).cycles <= old(core).cycles + 1,
{
    let value: u8 = core.registers.x;
    store(core, inst, value)
}

/// `STY`: stores Y where the mode names.
pub fn sty(core: &mut Core, inst: &Instruction) -> (crossed: bool)
    requires
        old(core).ready(),
        inst.addressing_mode.writes_u8(),
    ensures
        final(core).inv(),
        (final(core)@, crossed) == old(core)@.sty(inst.addressing_mode),
        old(core).cycles <= final(core).cycles <= old(core).cycles + 1,
{
    let value: u8 = core.registers.y;
    store(core, inst, value)
}

/// `STZ`: stores zero where the mode names.
pub fn stz(core: &mut Core, inst: &Instruction) -> (crossed: bool)
    requires
        old(core).ready(),
        inst.addressing_mode.writes_u8(),
    ensures
        final(core).inv(),
        (final(core)@, crossed) == old(core)@.stz(inst.addressing_mode),
        old(core).cycles <= final(core).cycles <= old(core).cycles + 1,
{
    let value: u8 = 0;
    store(core, inst, value)
}

/// `SMBn`: sets bit `n` of the operand in memory; zero is set from the result.
pub fn smbx(core: &mut Core, inst: &Instruction, n: u8) -> (crossed: bool)
    requires
        old(core).ready(),
        inst.addressing_mode.writes_u8(),
        n < 8,
    ensures
        final(core).inv(),
        (final(core)@, crossed) == old(core)@.smbx(inst.addressing_mode, n),
        old(core).cycles <= final(core).cycles <= old(core).cycles + 1,
{
    let (operand, _) = inst.addressing_mode.read_operand_u8(core);
    let operand = operand | (1u8 << n);
    core.flags = Flags { zero: operand == 0, ..core.flags };
    let _ = inst.addressing_mode.write_operand_u8(core, operand);
    false
}

/// `RMBn`: clears bit `n` of the operand in memory; zero is set from the result.
pub fn rmbx(core: &mut Core, inst: &Instruction, n: u8) -> (crossed: bool)
    requires
        old(core).ready(),
        inst.addressing_mode.writes_u8(),
        n < 8,
    ensures
        final(core).inv(),
        (final(core)@, crossed) == old(core)@.rmbx(inst.addressing_mode, n),
        old(core).cycles <= final(core).cycles <= old(core).cycles + 1,
{
    let (operand, _) = inst.addressing_mode.read_operand_u8(core);
    let operand = operand & !(1u8 << n);
    core.flags = Flags { zero: operand == 0, ..core.flags };
    let _ = inst.addressing_mode.write_operand_u8(core, operand);
    false
}

/// `SMB0`.
pub fn smb0(core: &mut Core, inst: &Instruction) -> (crossed: bool)
    requires
        old(core).ready(),
        inst.addressing_mode.writes_u8(),
    ensures
        final(core).inv(),
        (final(core)@, crossed) == old(core)@.smbx(inst.addressing_mode, 0),
        old(core).cycles <= final(core).cycles <= old(core).cycles + 1,
{
    smbx(core, inst, 0)
}

/// `SMB1`.
pub fn smb1(core: &mut Core, inst: &Instruction) -> (crossed: bool)
    requires
        old(core).ready(),
        inst.addressing_mode.writes_u8(),
    ensures
        final(core).inv(),
        (final(core)@, crossed) == old(core)@.smbx(inst.addressing_mode, 1),
        old(core).cycles <= final(core).cycles <= old(core).cycles + 1,
{
    smbx(core, inst, 1)
}

/// `SMB2`.
pub fn smb2(core: &mut Core, inst: &Instruction) -> (crossed: bool)
    requires
        old(core).ready(),
        inst.addressing_mode.writes_u8(),
    ensures
        final(core).inv(),
        (final(core)@, crossed) == old(core)@.smbx(inst.addressing_mode, 2),
        old(core).cycles <= final(core).cycles <= old(core).cycles + 1,
{
    smbx(core, inst, 2)
}

/// `SMB3`.
pub fn smb3(core: &mut Core, inst: &Instruction) -> (crossed: bool)
    requires
        old(core).ready(),
        inst.addressing_mode.writes_u8(),
    ensures
        final(core).inv(),
        (final(core)@, crossed) == old(core)@.smbx(inst.addressing_mode, 3),
        old(core).cycles <= final(core).cycles <= old(core).cycles + 1,
{
    smbx(core, inst, 3)
}

/// `SMB4`.
pub fn smb4(core: &mut Core, inst: &Instruction) -> (crossed: bool)
    requires
        old(core).ready(),
        inst.addressing_mode.writes_u8(),
    ensures
        final(core).inv(),
        (final(core)@, crossed) == old(core)@.smbx(inst.addressing_mode, 4),
        old(core).cycles <= final(core).cycles <= old(core).cycles + 1,
{
    smbx(core, inst, 4)
}

/// `SMB5`.
pub fn smb5(core: &mut Core, inst: &Instruction) -> (crossed: bool)
    requires
        old(core).ready(),
        inst.addressing_mode.writes_u8(),
    ensures
        final(core).inv(),
        (final(core)@, crossed) == old(core)@.smbx(inst.addressing_mode, 5),
        old(core).cycles <= final(core).cycles <= old(core).cycles + 1,
{
    smbx(core, inst, 5)
}

/// `SMB6`.
pub fn smb6(core: &mut Core, inst: &Instruction) -> (crossed: bool)
    requires
        old(core).ready(),
        inst.addressing_mode.writes_u8(),
    ensures
        final(core).inv(),
        (final(core)@, crossed) == old(core)@.smbx(inst.addressing_mode, 6),
        old(core).cycles <= final(core).cycles <= old(core).cycles + 1,
{
    smbx(core, inst, 6)
}

/// `SMB7`.
pub fn smb7(core: &mut Core, inst: &Instruction) -> (crossed: bool)
    requires
        old(core).ready(),
        inst.addressing_mode.writes_u8(),
    ensures
        final(core).inv(),
        (final(core)@, crossed) == old(core)@.smbx(inst.addressing_mode, 7),
        old(core).cycles <= final(core).cycles <= old(core).cycles + 1,
{
    smbx(core, inst, 7)
}

/// `RMB0`.
pub fn rmb0(core: &mut Core, inst: &Instruction) -> (crossed: bool)
    requires
        old(core).ready(),
        inst.addressing_mode.writes_u8(),
    ensures
        final(core).inv(),
        (final(core)@, crossed) == old(core)@.rmbx(inst.addressing_mode, 0),
        old(core).cycles <= final(core).cycles <= old(core).cycles + 1,
{
    rmbx(core, inst, 0)
}

/// `RMB1`.
pub fn rmb1(core: &mut Core, inst: &Instruction) -> (crossed: bool)
    requires
        old(core).ready(),
        inst.addressing_mode.writes_u8(),
    ensures
        final(core).inv(),
        (final(core)@, crossed) == old(core)@.rmbx(inst.addressing_mode, 1),
        old(core).cycles <= final(core).cycles <= old(core).cycles + 1,
{
    rmbx(core, inst, 1)
}

/// `RMB2`.
pub fn rmb2(core: &mut Core, inst: &Instruction) -> (crossed: bool)
    requires
        old(core).ready(),
        inst.addressing_mode.writes_u8(),
    ensures
        final(core).inv(),
        (final(core)@, crossed) == old(core)@.rmbx(inst.addressing_mode, 2),
        old(core).cycles <= final(core).cycles <= old(core).cycles + 1,
{
    rmbx(core, inst, 2)
}

/// `RMB3`.
pub fn rmb3(core: &mut Core, inst: &Instruction) -> (crossed: bool)
    requires
        old(core).ready(),
        inst.addressing_mode.writes_u8(),
    ensures
        final(core).inv(),
        (final(core)@, crossed) == old(core)@.rmbx(inst.addressing_mode, 3),
        old(core).cycles <= final(core).cycles <= old(core).cycles + 1,
{
    rmbx(core, inst, 3)
}

/// `RMB4`.
pub fn rmb4(core: &mut Core, inst: &Instruction) -> (crossed: bool)
    requires
        old(core).ready(),
        inst.addressing_mode.writes_u8(),
    ensures
        final(core).inv(),
        (final(core)@, crossed) == old(core)@.rmbx(inst.addressing_mode, 4),
        old(core).cycles <= final(core).cycles <= old(core).cycles + 1,
{
    rmbx(core, inst, 4)
}

/// `RMB5`.
pub fn rmb5(core: &mut Core, inst: &Instruction) -> (crossed: bool)
    requires
        old(core).ready(),
        inst.addressing_mode.writes_u8(),
    ensures
        final(core).inv(),
        (final(core)@, crossed) == old(core)@.rmbx(inst.addressing_mode, 5),
        old(core).cycles <= final(core).cycles <= old(core).cycles + 1,
{
    rmbx(core, inst, 5)
}

/// `RMB6`.
pub fn rmb6(core: &mut Core, inst: &Instruction) -> (crossed: bool)
    requires
        old(core).ready(),
        inst.addressing_mode.writes_u8(),
    ensures
        final(core).inv(),
        (final(core)@, crossed) == old(core)@.rmbx(inst.addressing_mode, 6),
        old(core).cycles <= final(core).cycles <= old(core).cycles + 1,
{
    rmbx(core, inst, 6)
}

/// `RMB7`.
pub fn rmb7(core: &mut Core, inst: &Instruction) -> (crossed: bool)
    requires
        old(core).ready(),
        inst.addressing_mode.writes_u8(),
    ensures
        final(core).inv(),
        (final(core)@, crossed) == old(core)@.rmbx(inst.addressing_mode, 7),
        old(core).cycles <= final(core).cycles <= old(core).cycles + 1,
{
    rmbx(core, inst, 7)
}

/// `WAI`: waits for an interrupt. It is modelled as doing nothing.
pub fn wai(_core: &mut Core, _inst: &Instruction) -> (crossed: bool)
    requires
        old(_core).ready(),
    ensures
        final(_core).inv(),
        (final(_core)@, crossed) == old(_core)@.wai(),
        old(_core).cycles <= final(_core).cycles <= old(_core).cycles + 1,
{
    false
}

/// `NOP`: does nothing, whatever operand it has.
pub fn nop(_core: &mut Core, _inst: &Instruction) -> (crossed: bool)
    requires
        old(_core).ready(),
    ensures
        final(_core).inv(),
        (final(_core)@, crossed) == old(_core)@.nop(),
        old(_core).cycles <= final(_core).cycles <= old(_core).cycles + 1,
{
    false
}

/// `BRK`: a software interrupt. It is modelled as doing nothing.
pub fn brk(_core: &mut Core, _inst: &Instruction) -> (crossed: bool)
    requires
        old(_core).ready(),
    ensures
        final(_core).inv(),
        (final(_core)@, crossed) == old(_core)@.brk(),
        old(_core).cycles <= final(_core).cycles <= old(_core).cycles + 1,
{
    false
}

/// `STP`: stops the processor. It is modelled as doing nothing.
pub fn stp(_core: &mut Core, _inst: &Instruction) -> (crossed: bool)
    requires
        old(_core).ready(),
    ensures
        final(_core).inv(),
        (final(_core)@, crossed) == old(_core)@.stp(),
        old(_core).cycles <= final(_core).cycles <= old(_core).cycles + 1,
{
    false
}

/// `INX`: increments X within 8 bits and sets zero and negative from it.
pub fn inx(core: &mut Core, _inst: &Instruction) -> (crossed: bool)
    requires
        old(core).ready(),
    ensures
        final(core).inv(),
        (final(core)@, crossed) == old(core)@.inx(),
        old(core).cycles <= final(core).cycles <= old(core).cycles + 1,
{
    core.registers.x = inc8(core.registers.x);
    core.flags = Flags {
        zero: core.registers.x == 0,
        negative: is_negative(core.registers.x),
        ..core.flags
    };
    false
}

/// `INY`: increments Y within 8 bits and sets zero and negative from it.
pub fn iny(core: &mut Core, _inst: &Instruction) -> (crossed: bool)
    requires
        old(core).ready(),
    ensures
        final(core).inv(),
        (final(core)@, crossed) == old(core)@.iny(),
        old(core).cycles <= final(core).cycles <= old(core).cycles + 1,
{
    core.registers.y = inc8(core.registers.y);
    core.flags = Flags {
        zero: core.registers.y == 0,
        negative: is_negative(core.registers.y),
        ..core.flags
    };
    false
}

/// `DEX`: decrements X within 8 bits and sets zero and negative from it.
pub fn dex(core: &mut Core, _inst: &Instruction) -> (crossed: bool)
    requires
        old(core).ready(),
    ensures
        final(core).inv(),
        (final(core)@, crossed) == old(core)@.dex(),
        old(core).cycles <= final(core).cycles <= old(core).cycles + 1,
{
    core.registers.x = dec8(core.registers.x);
    core.flags = Flags {
        zero: core.registers.x == 0,
        negative: is_negative(core.registers.x),
        ..core.flags
    };
    false
}

/// `DEY`: decrements Y within 8 bits and sets zero and negative from it.
pub fn dey(core: &mut Core, _inst: &Instruction) -> (crossed: bool)
    requires
        old(core).ready(),
    ensures
        final(core).inv(),
        (final(core)@, crossed) == old(core)@.dey(),
        old(core).cycles <= final(core).cycles <= old(core).cycles + 1,
{
    core.registers.y = dec8(core.registers.y);
    core.flags = Flags {
        zero: core.registers.y == 0,
        negative: is_negative(core.registers.y),
        ..core.flags
    };
    false
}

/// `BNE`: branches if zero is clear. A branch taken costs one more cycle.
pub fn bne(core: &mut Core, inst: &Instruction) -> (crossed: bool)
    requires
        old(core).ready(),
        inst.addressing_mode is Relative,
    ensures
        final(core).inv(),
        (final(core)@, crossed) == old(core)@.bne(inst.addressing_mode),
        old(core).cycles <= final(core).cycles <= old(core).cycles + 1,
{
    let (operand, bound_crossed) = inst.addressing_mode.read_operand_i8(core);
    if !core.flags.zero {
        branch(core, operand);
        // One more cycle is taken if the branch succeeds.
        core.cycles = core.cycles + 1;
    }
    bound_crossed
}

/// `BEQ`: branches if zero is set. A branch taken costs one more cycle.
pub fn beq(core: &mut Core, inst: &Instruction) -> (crossed: bool)
    requires
        old(core).ready(),
        inst.addressing_mode is Relative,
    ensures
        final(core).inv(),
        (final(core)@, crossed) == old(core)@.beq(inst.addressing_mode),
        old(core).cycles <= final(core).cycles <= old(core).cycles + 1,
{
    let (operand, bound_crossed) = inst.addressing_mode.read_operand_i8(core);
    if core.flags.zero {
        branch(core, operand);
        // One more cycle is taken if the branch succeeds.
        core.cycles = core.cycles + 1;
    }
    bound_crossed
}

/// `BMI`: branches if negative is set. A branch taken costs one more cycle.
pub fn bmi(core: &mut Core, inst: &Instruction) -> (crossed: bool)
    requires
        old(core).ready(),
        inst.addressing_mode is Relative,
    ensures
        final(core).inv(),
        (final(core)@, crossed) == old(core)@.bmi(inst.addressing_mode),
        old(core).cycles <= final(core).cycles <= old(core).cycles + 1,
{
    let (operand, bound_crossed) = inst.addressing_mode.read_operand_i8(core);
    if core.flags.negative {
        branch(core, operand);
        // One more cycle is taken if the branch succeeds.
        core.cycles = core.cycles + 1;
    }
    bound_crossed
}

/// `BPL`: branches if negative is clear. A branch taken costs one more cycle.
pub fn bpl(core: &mut Core, inst: &Instruction) -> (crossed: bool)
    requires
        old(core).ready(),
        inst.addressing_mode is Relative,
    ensures
        final(core).inv(),
        (final(core)@, crossed) == old(core)@.bpl(inst.addressing_mode),
        old(core).cycles <= final(core).cycles <= old(core).cycles + 1,
{
    let (operand, bound_crossed) = inst.addressing_mode.read_operand_i8(core);
    if !core.flags.negative {
        branch(core, operand);
        // One more cycle is taken if the branch succeeds.
        core.cycles = core.cycles + 1;
    }
    bound_crossed
}

/// `BCC`: branches if carry is clear. A branch taken costs one more cycle.
pub fn bcc(core: &mut Core, inst: &Instruction) -> (crossed: bool)
    requires
        old(core).ready(),
        inst.addressing_mode is Relative,
    ensures
        final(core).inv(),
        (final(core)@, crossed) == old(core)@.bcc(inst.addressing_mode),
        old(core).cycles <= final(core).cycles <= old(core).cycles + 1,
{
    let (operand, bound_crossed) = inst.addressing_mode.read_operand_i8(core);
    if !core.flags.carry {
        branch(core, operand);
        // One more cycle is taken if the branch succeeds.
        core.cycles = core.cycles + 1;
    }
    bound_crossed
}

/// `BCS`: branches if carry is set. A branch taken costs one more cycle.
pub fn bcs(core: &mut Core, inst: &Instruction) -> (crossed: bool)
    requires
        old(core).ready(),
        inst.addressing_mode is Relative,
    ensures
        final(core).inv(),
        (final(core)@, crossed) == old(core)@.bcs(inst.addressing_mode),
        old(core).cycles <= final(core).cycles <= old(core).cycles + 1,
{
    let (operand, bound_crossed) = inst.addressing_mode.read_operand_i8(core);
    if core.flags.carry {
        branch(core, operand);
        // One more cycle is taken if the branch succeeds.
        core.cycles = core.cycles + 1;
    }
    bound_crossed
}

/// `BVC`: branches if overflow is clear. A branch taken costs one more cycle.
pub fn bvc(core: &mut Core, inst: &Instruction) -> (crossed: bool)
    requires
        old(core).ready(),
        inst.addressing_mode is Relative,
    ensures
        final(core).inv(),
        (final(core)@, crossed) == old(core)@.bvc(inst.addressing_mode),
        old(core).cycles <= final(core).cycles <= old(core).cycles + 1,
{
    let (operand, bound_crossed) = inst.addressing_mode.read_operand_i8(core);
    if !core.flags.overflow {
        branch(core, operand);
        // One more cycle is taken if the branch succeeds.
        core.cycles = core.cycles + 1;
    }
    bound_crossed
}

/// `BVS`: branches if overflow is set. A branch taken costs one more cycle.
pub fn bvs(core: &mut Core, inst: &Instruction) -> (crossed: bool)
    requires
        old(core).ready(),
        inst.addressing_mode is Relative,
    ensures
        final(core).inv(),
        (final(core)@, crossed) == old(core)@.bvs(inst.addressing_mode),
        old(core).cycles <= final(core).cycles <= old(core).cycles + 1,
{
    let (operand, bound_crossed) = inst.addressing_mode.read_operand_i8(core);
    if core.flags.overflow {
        branch(core, operand);
        // One more cycle is taken if the branch succeeds.
        core.cycles = core.cycles + 1;
    }
    bound_crossed
}

/// `BRA`: branches always.
pub fn bra(core: &mut Core, inst: &Instruction) -> (crossed: bool)
    requires
        old(core).ready(),
        inst.addressing_mode is Relative,
    ensures
        final(core).inv(),
        (final(core)@, crossed) == old(core)@.bra(inst.addressing_mode),
        old(core).cycles <= final(core).cycles <= old(core).cycles + 1,
{
    let (operand, bound_crossed) = inst.addressing_mode.read_operand_i8(core);
    branch(core, operand);
    bound_crossed
}

/// `BBRn`: branches if bit `bit` of the byte at the zero-page address is clear. A branch taken costs one more cycle.
pub fn bbr(core: &mut Core, inst: &Instruction, bit: u8) -> (crossed: bool)
    requires
        old(core).ready(),
        inst.addressing_mode is ZeroPageRelative,
        bit < 8,
    ensures
        final(core).inv(),
        (final(core)@, crossed) == old(core)@.bbr(inst.addressing_mode, bit),
        old(core).cycles <= final(core).cycles <= old(core).cycles + 1,
{
    let ((operand, offset), bound_crossed) = inst.addressing_mode.read_operand_u8_i8(core);
    if operand & (1u8 << bit) == 0 {
        branch(core, offset);
        // One more cycle is taken if the branch succeeds.
        core.cycles = core.cycles + 1;
    }
    bound_crossed
}

/// `BBR0`.
pub fn bbr0(core: &mut Core, inst: &Instruction) -> (crossed: bool)
    requires
        old(core).ready(),
        inst.addressing_mode is ZeroPageRelative,
    ensures
        final(core).inv(),
        (final(core)@, crossed) == old(core)@.bbr(inst.addressing_mode, 0),
        old(core).cycles <= final(core).cycles <= old(core).cycles + 1,
{
    bbr(core, inst, 0)
}

/// `BBR1`.
pub fn bbr1(core: &mut Core, inst: &Instruction) -> (crossed: bool)
    requires
        old(core).ready(),
        inst.addressing_mode is ZeroPageRelative,
    ensures
        final(core).inv(),
        (final(core)@, crossed) == old(core)@.bbr(inst.addressing_mode, 1),
        old(core).cycles <= final(core).cycles <= old(core).cycles + 1,
{
    bbr(core, inst, 1)
}

/// `BBR2`.
pub fn bbr2(core: &mut Core, inst: &Instruction) -> (crossed: bool)
    requires
        old(core).ready(),
        inst.addressing_mode is ZeroPageRelative,
    ensures
        final(core).inv(),
        (final(core)@, crossed) == old(core)@.bbr(inst.addressing_mode, 2),
        old(core).cycles <= final(core).cycles <= old(core).cycles + 1,
{
    bbr(core, inst, 2)
}

/// `BBR3`.
pub fn bbr3(core: &mut Core, inst: &Instruction) -> (crossed: bool)
    requires
        old(core).ready(),
        inst.addressing_mode is ZeroPageRelative,
    ensures
        final(core).inv(),
        (final(core)@, crossed) == old(core)@.bbr(inst.addressing_mode, 3),
        old(core).cycles <= final(core).cycles <= old(core).cycles + 1,
{
    bbr(core, inst, 3)
}

/// `BBR4`.
pub fn bbr4(core: &mut Core, inst: &Instruction) -> (crossed: bool)
    requires
        old(core).ready(),
        inst.addressing_mode is ZeroPageRelative,
    ensures
        final(core).inv(),
        (final(core)@, crossed) == old(core)@.bbr(inst.addressing_mode, 4),
        old(core).cycles <= final(core).cycles <= old(core).cycles + 1,
{
    bbr(core, inst, 4)
}

/// `BBR5`.
pub fn bbr5(core: &mut Core, inst: &Instruction) -> (crossed: bool)
    requires
        old(core).ready(),
        inst.addressing_mode is ZeroPageRelative,
    ensures
        final(core).inv(),
        (final(core)@, crossed) == old(core)@.bbr(inst.addressing_mode, 5),
        old(core).cycles <= final(core).cycles <= old(core).cycles + 1,
{
    bbr(core, inst, 5)
}

/// `BBR6`.
pub fn bbr6(core: &mut Core, inst: &Instruction) -> (crossed: bool)
    requires
        old(core).ready(),
        inst.addressing_mode is ZeroPageRelative,
    ensures
        final(core).inv(),
        (final(core)@, crossed) == old(core)@.bbr(inst.addressing_mode, 6),
        old(core).cycles <= final(core).cycles <= old(core).cycles + 1,
{
    bbr(core, inst, 6)
}

/// `BBR7`.
pub fn bbr7(core: &mut Core, inst: &Instruction) -> (crossed: bool)
    requires
        old(core).ready(),
        inst.addressing_mode is ZeroPageRelative,
    ensures
        final(core).inv(),
        (final(core)@, crossed) == old(core)@.bbr(inst.addressing_mode, 7),
        old(core).cycles <= final(core).cycles <= old(core).cycles + 1,
{
    bbr(core, inst, 7)
}

/// `BBSn`: branches if bit `bit` of the byte at the zero-page address is set. A branch taken costs one more cycle.
pub fn bbs(core: &mut Core, inst: &Instruction, bit: u8) -> (crossed: bool)
    requires
        old(core).ready(),
        inst.addressing_mode is ZeroPageRelative,
        bit < 8,
    ensures
        final(core).inv(),
        (final(core)@, crossed) == old(core)@.bbs(inst.addressing_mode, bit),
        old(core).cycles <= final(core).cycles <= old(core).cycles + 1,
{
    let ((operand, offset), bound_crossed) = inst.addressing_mode.read_operand_u8_i8(core);
    if operand & (1u8 << bit) != 0 {
        branch(core, offset);
        // One more cycle is taken if the branch succeeds.
        core.cycles = core.cycles + 1;
    }
    bound_crossed
}

/// `BBS0`.
pub fn bbs0(core: &mut Core, inst: &Instruction) -> (crossed: bool)
    requires
        old(core).ready(),
        inst.addressing_mode is ZeroPageRelative,
    ensures
        final(core).inv(),
        (final(core)@, crossed) == old(core)@.bbs(inst.addressing_mode, 0),
        old(core).cycles <= final(core).cycles <= old(core).cycles + 1,
{
    bbs(core, inst, 0)
}

/// `BBS1`.
pub fn bbs1(core: &mut Core, inst: &Instruction) -> (crossed: bool)
    requires
        old(core).ready(),
        inst.addressing_mode is ZeroPageRelative,
    ensures
        final(core).inv(),
        (final(core)@, crossed) == old(core)@.bbs(inst.addressing_mode, 1),
        old(core).cycles <= final(core).cycles <= old(core).cycles + 1,
{
    bbs(core, inst, 1)
}

/// `BBS2`.
pub fn bbs2(core: &mut Core, inst: &Instruction) -> (crossed: bool)
    requires
        old(core).ready(),
        inst.addressing_mode is ZeroPageRelative,
    ensures
        final(core).inv(),
        (final(core)@, crossed) == old(core)@.bbs(inst.addressing_mode, 2),
        old(core).cycles <= final(core).cycles <= old(core).cycles + 1,
{
    bbs(core, inst, 2)
}

/// `BBS3`.
pub fn bbs3(core: &mut Core, inst: &Instruction) -> (crossed: bool)
    requires
        old(core).ready(),
        inst.addressing_mode is ZeroPageRelative,
    ensures
        final(core).inv(),
        (final(core)@, crossed) == old(core)@.bbs(inst.addressing_mode, 3),
        old(core).cycles <= final(core).cycles <= old(core).cycles + 1,
{
    bbs(core, inst, 3)
}

/// `BBS4`.
pub fn bbs4(core: &mut Core, inst: &Instruction) -> (crossed: bool)
    requires
        old(core).ready(),
        inst.addressing_mode is ZeroPageRelative,
    ensures
        final(core).inv(),
        (final(core)@, crossed) == old(core)@.bbs(inst.addressing_mode, 4),
        old(core).cycles <= final(core).cycles <= old(core).cycles + 1,
{
    bbs(core, inst, 4)
}

/// `BBS5`.
pub fn bbs5(core: &mut Core, inst: &Instruction) -> (crossed: bool)
    requires
        old(core).ready(),
        inst.addressing_mode is ZeroPageRelative,
    ensures
        final(core).inv(),
        (final(core)@, crossed) == old(core)@.bbs(inst.addressing_mode, 5),
        old(core).cycles <= final(core).cycles <= old(core).cycles + 1,
{
    bbs(core, inst, 5)
}

/// `BBS6`.
pub fn bbs6(core: &mut Core, inst: &Instruction) -> (crossed: bool)
    requires
        old(core).ready(),
        inst.addressing_mode is ZeroPageRelative,
    ensures
        final(core).inv(),
        (final(core)@, crossed) == old(core)@.bbs(inst.addressing_mode, 6),
        old(core).cycles <= final(core).cycles <= old(core).cycles + 1,
{
    bbs(core, inst, 6)
}

/// `BBS7`.
pub fn bbs7(core: &mut Core, inst: &Instruction) -> (crossed: bool)
    requires
        old(core).ready(),
        inst.addressing_mode is ZeroPageRelative,
    ensures
        final(core).inv(),
        (final(core)@, crossed) == old(core)@.bbs(inst.addressing_mode, 7),
        old(core).cycles <= final(core).cycles <= old(core).cycles + 1,
{
    bbs(core, inst, 7)
}

/// `SEI`: sets interrupt disable.
pub fn sei(core: &mut Core, _inst: &Instruction) -> (crossed: bool)
    requires
        old(core).ready(),
    ensures
        final(core).inv(),
        (final(core)@, crossed) == old(core)@.sei(),
        old(core).cycles <= final(core).cycles <= old(core).cycles + 1,
{
    core.flags = Flags { interrupt_disable: true, ..core.flags };
    false
}

/// `CLI`: clears interrupt disable.
pub fn cli(core: &mut Core, _inst: &Instruction) -> (crossed: bool)
    requires
        old(core).ready(),
    ensures
        final(core).inv(),
        (final(core)@, crossed) == old(core)@.cli(),
        old(core).cycles <= final(core).cycles <= old(core).cycles + 1,
{
    core.flags = Flags { interrupt_disable: false, ..core.flags };
    false
}

/// `CLV`: clears overflow.
pub fn clv(core: &mut Core, _inst: &Instruction) -> (crossed: bool)
    requires
        old(core).ready(),
    ensures
        final(core).inv(),
        (final(core)@, crossed) == old(core)@.clv(),
        old(core).cycles <= final(core).cycles <= old(core).cycles + 1,
{
    core.flags = Flags { overflow: false, ..core.flags };
    false
}

/// `CLD`: clears decimal.
pub fn cld(core: &mut Core, _inst: &Instruction) -> (crossed: bool)
    requires
        old(core).ready(),
    ensures
        final(core).inv(),
        (final(core)@, crossed) == old(core)@.cld(),
        old(core).cycles <= final(core).cycles <= old(core).cycles + 1,
{
    core.flags = Flags { decimal: false, ..core.flags };
    false
}

/// `CLC`: clears carry.
pub fn clc(core: &mut Core, _inst: &Instruction) -> (crossed: bool)
    requires
        old(core).ready(),
    ensures
        final(core).inv(),
        (final(core)@, crossed) == old(core)@.clc(),
        old(core).cycles <= final(core).cycles <= old(core).cycles + 1,
{
    core.flags = Flags { carry: false, ..core.flags };
    false
}

/// `SED`: sets decimal.
pub fn sed(core: &mut Core, _inst: &Instruction) -> (crossed: bool)
    requires
        old(core).ready(),
    ensures
        final(core).inv(),
        (final(core)@, crossed) == old(core)@.sed(),
        old(core).cycles <= final(core).cycles <= old(core).cycles + 1,
{
    core.flags = Flags { decimal: true, ..core.flags };
    false
}

/// `SEC`: sets carry.
pub fn sec(core: &mut Core, _inst: &Instruction) -> (crossed: bool)
    requires
        old(core).ready(),
    ensures
        final(core).inv(),
        (final(core)@, crossed) == old(core)@.sec(),
        old(core).cycles <= final(core).cycles <= old(core).cycles + 1,
{
    core.flags = Flags { carry: true, ..core.flags };
    false
}

/// `PHA`: pushes A.
pub fn pha(core: &mut Core, _inst: &Instruction) -> (crossed: bool)
    requires
        old(core).ready(),
    ensures
        final(core).inv(),
        (final(core)@, crossed) == old(core)@.pha(),
        old(core).cycles <= final(core).cycles <= old(core).cycles + 1,
{
    let value = core.registers.a;
    core.push_u8(value);
    false
}

/// `PHX`: pushes X.
pub fn phx(core: &mut Core, _inst: &Instruction) -> (crossed: bool)
    requires
        old(core).ready(),
    ensures
        final(core).inv(),
        (final(core)@, crossed) == old(core)@.phx(),
        old(core).cycles <= final(core).cycles <= old(core).cycles + 1,
{
    let value = core.registers.x;
    core.push_u8(value);
    false
}

/// `PHY`: pushes Y.
pub fn phy(core: &mut Core, _inst: &Instruction) -> (crossed: bool)
    requires
        old(core).ready(),
    ensures
        final(core).inv(),
        (final(core)@, crossed) == old(core)@.phy(),
        old(core).cycles <= final(core).cycles <= old(core).cycles + 1,
{
    let value = core.registers.y;
    core.push_u8(value);
    false
}

/// `PHP`: pushes the status byte, its bits 4 and 5 as zero.
pub fn php(core: &mut Core, _inst: &Instruction) -> (crossed: bool)
    requires
        old(core).ready(),
    ensures
        final(core).inv(),
        (final(core)@, crossed) == old(core)@.php(),
        old(core).cycles <= final(core).cycles <= old(core).cycles + 1,
{
    let status = core.flags.to_u8();
    core.push_u8(status);
    false
}

/// `PLA`: pulls A and sets zero and negative from it.
pub fn pla(core: &mut Core, _inst: &Instruction) -> (crossed: bool)
    requires
        old(core).ready(),
    ensures
        final(core).inv(),
        (final(core)@, crossed) == old(core)@.pla(),
        old(core).cycles <= final(core).cycles <= old(core).cycles + 1,
{
    core.registers.a = core.pop_u8();
    core.flags = Flags {
        zero: core.registers.a == 0,
        negative: is_negative(core.registers.a),
        ..core.flags
    };
    false
}

/// `PLX`: pulls X and sets zero and negative from it.
pub fn plx(core: &mut Core, _inst: &Instruction) -> (crossed: bool)
    requires
        old(core).ready(),
    ensures
        final(core).inv(),
        (final(core)@, crossed) == old(core)@.plx(),
        old(core).cycles <= final(core).cycles <= old(core).cycles + 1,
{
    core.registers.x = core.pop_u8();
    core.flags = Flags {
        zero: core.registers.x == 0,
        negative: is_negative(core.registers.x),
        ..core.flags
    };
    false
}

/// `PLY`: pulls Y and sets zero and negative from it.
pub fn ply(core: &mut Core, _inst: &Instruction) -> (crossed: bool)
    requires
        old(core).ready(),
    ensures
        final(core).inv(),
        (final(core)@, crossed) == old(core)@.ply(),
        old(core).cycles <= final(core).cycles <= old(core).cycles + 1,
{
    core.registers.y = core.pop_u8();
    core.flags = Flags {
        zero: core.registers.y == 0,
        negative: is_negative(core.registers.y),
        ..core.flags
    };
    false
}

/// `PLP`: pulls the status byte, of which the bits 4 and 5 are ignored.
pub fn plp(core: &mut Core, _inst: &Instruction) -> (crossed: bool)
    requires
        old(core).ready(),
    ensures
        final(core).inv(),
        (final(core)@, crossed) == old(core)@.plp(),
        old(core).cycles <= final(core).cycles <= old(core).cycles + 1,
{
    let status = core.pop_u8();
    core.flags = Flags::from_u8(status);
    false
}

/// `INC`: increments the operand within 8 bits, in memory or in A, and sets zero and negative from it.
pub fn inc(core: &mut Core, inst: &Instruction) -> (crossed: bool)
    requires
        old(core).ready(),
        inst.addressing_mode.writes_u8(),
    ensures
        final(core).inv(),
        (final(core)@, crossed) == old(core)@.inc(inst.addressing_mode),
        old(core).cycles <= final(core).cycles <= old(core).cycles + 1,
{
    let (operand, _) = inst.addressing_mode.read_operand_u8(core);
    let operand = inc8(operand);
    core.flags = Flags {
        zero: operand == 0,
        negative: is_negative(operand),
        ..core.flags
    };
    let _ = inst.addressing_mode.write_operand_u8(core, operand);
    false
}

/// `DEC`: decrements the operand within 8 bits, in memory or in A, and sets zero and negative from it.
pub fn dec(core: &mut Core, inst: &Instruction) -> (crossed: bool)
    requires
        old(core).ready(),
        inst.addressing_mode.writes_u8(),
    ensures
        final(core).inv(),
        (final(core)@, crossed) == old(core)@.dec(inst.addressing_mode),
        old(core).cycles <= final(core).cycles <= old(core).cycles + 1,
{
    let (operand, _) = inst.addressing_mode.read_operand_u8(core);
    let operand = dec8(operand);
    core.flags = Flags {
        zero: operand == 0,
        negative: is_negative(operand),
        ..core.flags
    };
    let _ = inst.addressing_mode.write_operand_u8(core, operand);
    false
}

/// Compares `compare_val` with the operand: carry tells that it is not below the operand, zero that they are equal, negative is the sign of their difference within 8 bits.
pub fn cmpx(core: &mut Core, inst: &Instruction, compare_val: u8) -> (crossed: bool)
    requires
        old(core).ready(),
        inst.addressing_mode.reads_u8(),
    ensures
        final(core).inv(),
        (final(core)@, crossed) == old(core)@.cmpx(inst.addressing_mode, compare_val),
        old(core).cycles <= final(core).cycles <= old(core).cycles + 1,
{
    let (operand, bound_crossed) = inst.addressing_mode.read_operand_u8(core);
    core.flags = Flags {
        carry: compare_val >= operand,
        zero: compare_val == operand,
        negative: is_negative(difference(compare_val, operand)),
        ..core.flags
    };
    bound_crossed
}

/// `CMP`: compares A with the operand.
pub fn cmp(core: &mut Core, inst: &Instruction) -> (crossed: bool)
    requires
        old(core).ready(),
        inst.addressing_mode.reads_u8(),
    ensures
        final(core).inv(),
        (final(core)@, crossed) == old(core)@.cmp(inst.addressing_mode),
        old(core).cycles <= final(core).cycles <= old(core).cycles + 1,
{
    let value = core.registers.a;
    cmpx(core, inst, value)
}

/// `CPX`: compares X with the operand.
pub fn cpx(core: &mut Core, inst: &Instruction) -> (crossed: bool)
    requires
        old(core).ready(),
        inst.addressing_mode.reads_u8(),
    ensures
        final(core).inv(),
        (final(core)@, crossed) == old(core)@.cpx(inst.addressing_mode),
        old(core).cycles <= final(core).cycles <= old(core).cycles + 1,
{
    let value = core.registers.x;
    cmpx(core, inst, value)
}

/// `CPY`: compares Y with the operand.
pub fn cpy(core: &mut Core, inst: &Instruction) -> (crossed: bool)
    requires
        old(core).ready(),
        inst.addressing_mode.reads_u8(),
    ensures
        final(core).inv(),
        (final(core)@, crossed) == old(core)@.cpy(inst.addressing_mode),
        old(core).cycles <= final(core).cycles <= old(core).cycles + 1,
{
    let value = core.registers.y;
    cmpx(core, inst, value)
}

/// `AND`: the bitwise AND of A and the operand, in A; sets zero and negative from it.
pub fn and(core: &mut Core, inst: &Instruction) -> (crossed: bool)
    requires
        old(core).ready(),
        inst.addressing_mode.reads_u8(),
    ensures
        final(core).inv(),
        (final(core)@, crossed) == old(core)@.and(inst.addressing_mode),
        old(core).cycles <= final(core).cycles <= old(core).cycles + 1,
{
    let (operand, bound_crossed) = inst.addressing_mode.read_operand_u8(core);
    core.registers.a = core.registers.a & operand;
    core.flags = Flags {
        zero: core.registers.a == 0,
        negative: is_negative(core.registers.a),
        ..core.flags
    };
    bound_crossed
}

/// `ORA`: the bitwise OR of A and the operand, in A; sets zero and negative from it.
pub fn ora(core: &mut Core, inst: &Instruction) -> (crossed: bool)
    requires
        old(core).ready(),
        inst.addressing_mode.reads_u8(),
    ensures
        final(core).inv(),
        (final(core)@, crossed) == old(core)@.ora(inst.addressing_mode),
        old(core).cycles <= final(core).cycles <= old(core).cycles + 1,
{
    let (operand, bound_crossed) = inst.addressing_mode.read_operand_u8(core);
    core.registers.a = core.registers.a | operand;
    core.flags = Flags {
        zero: core.registers.a == 0,
        negative: is_negative(core.registers.a),
        ..core.flags
    };
    bound_crossed
}

/// `EOR`: the bitwise exclusive OR of A and the operand, in A; sets zero and negative from it.
pub fn eor(core: &mut Core, inst: &Instruction) -> (crossed: bool)
    requires
        old(core).ready(),
        inst.addressing_mode.reads_u8(),
    ensures
        final(core).inv(),
        (final(core)@, crossed) == old(core)@.eor(inst.addressing_mode),
        old(core).cycles <= final(core).cycles <= old(core).cycles + 1,
{
    let (operand, bound_crossed) = inst.addressing_mode.read_operand_u8(core);
    core.registers.a = core.registers.a ^ operand;
    core.flags = Flags {
        zero: core.registers.a == 0,
        negative: is_negative(core.registers.a),
        ..core.flags
    };
    bound_crossed
}

/// `ASL`: shifts the operand left by one bit; carry takes bit 7, and zero and negative are set from the result.
pub fn asl(core: &mut Core, inst: &Instruction) -> (crossed: bool)
    requires
        old(core).ready(),
        inst.addressing_mode.writes_u8(),
    ensures
        final(core).inv(),
        (final(core)@, crossed) == old(core)@.asl(inst.addressing_mode),
        old(core).cycles <= final(core).cycles <= old(core).cycles + 1,
{
    let (operand, bound_crossed) = inst.addressing_mode.read_operand_u8(core);
    let old_carry = core.flags.carry;
    let result: u8 = shift_left(operand, false);
    core.flags = Flags {
        carry: operand >= 0x80,
        zero: result == 0,
        negative: is_negative(result),
        ..core.flags
    };
    let _ = inst.addressing_mode.write_operand_u8(core, result);
    bound_crossed
}

/// `LSR`: shifts the operand right by one bit; carry takes bit 0, and zero and negative are set from the result.
pub fn lsr(core: &mut Core, inst: &Instruction) -> (crossed: bool)
    requires
        old(core).ready(),
        inst.addressing_mode.writes_u8(),
    ensures
        final(core).inv(),
        (final(core)@, crossed) == old(core)@.lsr(inst.addressing_mode),
        old(core).cycles <= final(core).cycles <= old(core).cycles + 1,
{
    let (operand, bound_crossed) = inst.addressing_mode.read_operand_u8(core);
    let old_carry = core.flags.carry;
    let result: u8 = shift_right(operand, false);
    core.flags = Flags {
        carry: operand % 2 == 1,
        zero: result == 0,
        negative: is_negative(result),
        ..core.flags
    };
    let _ = inst.addressing_mode.write_operand_u8(core, result);
    bound_crossed
}

/// `ROL`: rotates the operand left through carry, and zero and negative are set from the result.
pub fn rol(core: &mut Core, inst: &Instruction) -> (crossed: bool)
    requires
        old(core).ready(),
        inst.addressing_mode.writes_u8(),
    ensures
        final(core).inv(),
        (final(core)@, crossed) == old(core)@.rol(inst.addressing_mode),
        old(core).cycles <= final(core).cycles <= old(core).cycles + 1,
{
    let (operand, bound_crossed) = inst.addressing_mode.read_operand_u8(core);
    let old_carry = core.flags.carry;
    let result: u8 = shift_left(operand, old_carry);
    core.flags = Flags {
        carry: operand >= 0x80,
        zero: result == 0,
        negative: is_negative(result),
        ..core.flags
    };
    let _ = inst.addressing_mode.write_operand_u8(core, result);
    bound_crossed
}

/// `ROR`: rotates the operand right through carry, and zero and negative are set from the result.
pub fn ror(core: &mut Core, inst: &Instruction) -> (crossed: bool)
    requires
        old(core).ready(),
        inst.addressing_mode.writes_u8(),
    ensures
        final(core).inv(),
        (final(core)@, crossed) == old(core)@.ror(inst.addressing_mode),
        old(core).cycles <= final(core).cycles <= old(core).cycles + 1,
{
    let (operand, bound_crossed) = inst.addressing_mode.read_operand_u8(core);
    let old_carry = core.flags.carry;
    let result: u8 = shift_right(operand, old_carry);
    core.flags = Flags {
        carry: operand % 2 == 1,
        zero: result == 0,
        negative: is_negative(result),
        ..core.flags
    };
    let _ = inst.addressing_mode.write_operand_u8(core, result);
    bound_crossed
}

/// `BIT`: zero tells whether A and the operand share no bit. With an operand in memory, negative and overflow take its bits 7 and 6.
pub fn bit(core: &mut Core, inst: &Instruction) -> (crossed: bool)
    requires
        old(core).ready(),
        inst.addressing_mode.reads_u8(),
    ensures
        final(core).inv(),
        (final(core)@, crossed) == old(core)@.bit(inst.addressing_mode),
        old(core).cycles <= final(core).cycles <= old(core).cycles + 1,
{
    let (operand, bound_crossed) = inst.addressing_mode.read_operand_u8(core);
    let in_memory = match inst.addressing_mode {
        AddressingMode::Immediate(_) => false,
        _ => true,
    };
    core.flags = test_bits(core.flags, core.registers.a, operand, in_memory);
    bound_crossed
}

/// `TRB`: clears in the operand the bits that are set in A; zero tells whether A and the operand shared no bit.
pub fn trb(core: &mut Core, inst: &Instruction) -> (crossed: bool)
    requires
        old(core).ready(),
        inst.addressing_mode.writes_u8(),
    ensures
        final(core).inv(),
        (final(core)@, crossed) == old(core)@.trb(inst.addressing_mode),
        old(core).cycles <= final(core).cycles <= old(core).cycles + 1,
{
    let (operand, bound_crossed) = inst.addressing_mode.read_operand_u8(core);
    core.flags = Flags { zero: core.registers.a & operand == 0, ..core.flags };
    let result = operand & !core.registers.a;
    let _ = inst.addressing_mode.write_operand_u8(core, result);
    bound_crossed
}

/// `TSB`: sets in the operand the bits that are set in A; zero tells whether A and the operand shared no bit.
pub fn tsb(core: &mut Core, inst: &Instruction) -> (crossed: bool)
    requires
        old(core).ready(),
        inst.addressing_mode.writes_u8(),
    ensures
        final(core).inv(),
        (final(core)@, crossed) == old(core)@.tsb(inst.addressing_mode),
        old(core).cycles <= final(core).cycles <= old(core).cycles + 1,
{
    let (operand, bound_crossed) = inst.addressing_mode.read_operand_u8(core);
    core.flags = Flags { zero: core.registers.a & operand == 0, ..core.flags };
    let result = operand | core.registers.a;
    let _ = inst.addressing_mode.write_operand_u8(core, result);
    bound_crossed
}

/// `JMP`: continues at the target.
pub fn jmp(core: &mut Core, inst: &Instruction) -> (crossed: bool)
    requires
        old(core).ready(),
        inst.addressing_mode.jumps(),
    ensures
        final(core).inv(),
        (final(core)@, crossed) == old(core)@.jmp(inst.addressing_mode),
        old(core).cycles <= final(core).cycles <= old(core).cycles + 1,
{
    let (operand, bound_crossed) = inst.addressing_mode.read_operand_u16(core);
    core.registers.pc = operand;
    bound_crossed
}

/// `JSR`: pushes the address of its own last byte, which is one before the next instruction, and continues at the target.
pub fn jsr(core: &mut Core, inst: &Instruction) -> (crossed: bool)
    requires
        old(core).ready(),
        inst.addressing_mode.jumps(),
    ensures
        final(core).inv(),
        (final(core)@, crossed) == old(core)@.jsr(inst.addressing_mode),
        old(core).cycles <= final(core).cycles <= old(core).cycles + 1,
{
    let (operand, bound_crossed) = inst.addressing_mode.read_operand_u16(core);
    // The program counter is already past the instruction.
    let return_address = offset16(core.registers.pc, -1);
    core.push_u16(return_address);
    core.registers.pc = operand;
    bound_crossed
}

/// `RTS`: pulls an address and continues one byte after it.
pub fn rts(core: &mut Core, _inst: &Instruction) -> (crossed: bool)
    requires
        old(core).ready(),
    ensures
        final(core).inv(),
        (final(core)@, crossed) == old(core)@.rts(),
        old(core).cycles <= final(core).cycles <= old(core).cycles + 1,
{
    let address = core.pop_u16();
    core.registers.pc = offset16(address, 1);
    false
}

/// `RTI`: pulls the status byte, then the address to continue at, and leaves the interrupt.
pub fn rti(core: &mut Core, _inst: &Instruction) -> (crossed: bool)
    requires
        old(core).ready(),
    ensures
        final(core).inv(),
        (final(core)@, crossed) == old(core)@.rti(),
        old(core).cycles <= final(core).cycles <= old(core).cycles + 1,
{
    let status = core.pop_u8();
    core.flags = Flags::from_u8(status);
    core.registers.pc = core.pop_u16();
    core.address_space.set_interrupted(false);
    false
}

/// `ADC`: adds the operand and the carry to A, digit by digit in decimal mode.
pub fn adc(core: &mut Core, inst: &Instruction) -> (crossed: bool)
    requires
        old(core).ready(),
        inst.addressing_mode.reads_u8(),
    ensures
        final(core).inv(),
        (final(core)@, crossed) == old(core)@.adc(inst.addressing_mode),
        old(core).cycles <= final(core).cycles <= old(core).cycles + 1,
{
    let (operand, bound_crossed) = inst.addressing_mode.read_operand_u8(core);
    let decimal = core.flags.decimal;
    let (result, flags) = add_with_carry(core.flags, core.registers.a, operand);
    core.registers.a = result;
    core.flags = flags;
    if decimal {
        core.cycles = core.cycles + 1;
    }
    bound_crossed
}

/// `SBC`: subtracts the operand and the borrow from A, digit by digit in
/// decimal mode.
pub fn sbc(core: &mut Core, inst: &Instruction) -> (crossed: bool)
    requires
        old(core).ready(),
        inst.addressing_mode.reads_u8(),
    ensures
        final(core).inv(),
        (final(core)@, crossed) == old(core)@.sbc(inst.addressing_mode),
        old(core).cycles <= final(core).cycles <= old(core).cycles + 1,
{
    let (operand, bound_crossed) = inst.addressing_mode.read_operand_u8(core);
    let decimal = core.flags.decimal;
    let (result, flags) = subtract_with_borrow(core.flags, core.registers.a, operand);
    core.registers.a = result;
    core.flags = flags;
    if decimal {
        core.cycles = core.cycles + 1;
    }
    bound_crossed
}

} // verus!
