//! The operations of the 65C02, with the Rockwell bit operations.

use vstd::prelude::*;
use vstd::string::*;

verus! {

/// An operation of the processor, apart from how its operand is addressed.
#[derive(Clone, Copy, Debug, PartialEq, Eq, Structural)]
pub enum Opcode {
    /// Add with carry.
    Adc,
    /// Bitwise AND.
    And,
    /// Arithmetic shift left.
    Asl,
    /// Branch if bit 0 reset.
    Bbr0,
    /// Branch if bit 1 reset.
    Bbr1,
    /// Branch if bit 2 reset.
    Bbr2,
    /// Branch if bit 3 reset.
    Bbr3,
    /// Branch if bit 4 reset.
    Bbr4,
    /// Branch if bit 5 reset.
    Bbr5,
    /// Branch if bit 6 reset.
    Bbr6,
    /// Branch if bit 7 reset.
    Bbr7,
    /// Branch if bit 0 set.
    Bbs0,
    /// Branch if bit 1 set.
    Bbs1,
    /// Branch if bit 2 set.
    Bbs2,
    /// Branch if bit 3 set.
    Bbs3,
    /// Branch if bit 4 set.
    Bbs4,
    /// Branch if bit 5 set.
    Bbs5,
    /// Branch if bit 6 set.
    Bbs6,
    /// Branch if bit 7 set.
    Bbs7,
    /// Branch if carry clear.
    Bcc,
    /// Branch if carry set.
    Bcs,
    /// Branch if equal (zero set).
    Beq,
    /// Bit test.
    Bit,
    /// Branch if minus (negative set).
    Bmi,
    /// Branch if not equal (zero clear).
    Bne,
    /// Branch if plus (negative clear).
    Bpl,
    /// Branch always.
    Bra,
    /// Break.
    Brk,
    /// Branch if overflow clear.
    Bvc,
    /// Branch if overflow set.
    Bvs,
    /// Clear carry.
    Clc,
    /// Clear decimal.
    Cld,
    /// Clear interrupt disable.
    Cli,
    /// Clear overflow.
    Clv,
    /// Compare.
    Cmp,
    /// Compare X.
    Cpx,
    /// Compare Y.
    Cpy,
    /// Decrement.
    Dec,
    /// Decrement X.
    Dex,
    /// Decrement Y.
    Dey,
    /// Bitwise exclusive OR.
    Eor,
    /// Increment.
    Inc,
    /// Increment X.
    Inx,
    /// Increment Y.
    Iny,
    /// Jump.
    Jmp,
    /// Jump to subroutine.
    Jsr,
    /// Load A.
    Lda,
    /// Load X.
    Ldx,
    /// Load Y.
    Ldy,
    /// Logical shift right.
    Lsr,
    /// No operation.
    Nop,
    /// Bitwise OR with accumulator.
    Ora,
    /// Push accumulator.
    Pha,
    /// Push processor status.
    Php,
    /// Push X.
    Phx,
    /// Push Y.
    Phy,
    /// Pull A.
    Pla,
    /// Pull processor status.
    Plp,
    /// Pull X.
    Plx,
    /// Pull Y.
    Ply,
    /// Reset memory bit 0.
    Rmb0,
    /// Reset memory bit 1.
    Rmb1,
    /// Reset memory bit 2.
    Rmb2,
    /// Reset memory bit 3.
    Rmb3,
    /// Reset memory bit 4.
    Rmb4,
    /// Reset memory bit 5.
    Rmb5,
    /// Reset memory bit 6.
    Rmb6,
    /// Reset memory bit 7.
    Rmb7,
    /// Rotate left.
    Rol,
    /// Rotate right.
    Ror,
    /// Return from interrupt.
    Rti,
    /// Return from subroutine.
    Rts,
    /// Subtract with carry.
    Sbc,
    /// Set carry.
    Sec,
    /// Set decimal.
    Sed,
    /// Set interrupt disable.
    Sei,
    /// Set memory bit 0.
    Smb0,
    /// Set memory bit 1.
    Smb1,
    /// Set memory bit 2.
    Smb2,
    /// Set memory bit 3.
    Smb3,
    /// Set memory bit 4.
    Smb4,
    /// Set memory bit 5.
    Smb5,
    /// Set memory bit 6.
    Smb6,
    /// Set memory bit 7.
    Smb7,
    /// Store A.
    Sta,
    /// Stop the processor.
    Stp,
    /// Store X.
    Stx,
    /// Store Y.
    Sty,
    /// Store zero.
    Stz,
    /// Transfer A to X.
    Tax,
    /// Transfer A to Y.
    Tay,
    /// Test and reset bits.
    Trb,
    /// Test and set bits.
    Tsb,
    /// Transfer stack pointer to X.
    Tsx,
    /// Transfer X to A.
    Txa,
    /// Transfer X to stack pointer.
    Txs,
    /// Transfer Y to A.
    Tya,
    /// Wait for interrupt.
    Wai,
}

impl Opcode {
    /// The mnemonic of the operation.
    pub open spec fn mnemonic(self) -> Seq<char> {
        match self {
            Opcode::Adc => "ADC"@,
            Opcode::And => "AND"@,
            Opcode::Asl => "ASL"@,
            Opcode::Bbr0 => "BBR0"@,
            Opcode::Bbr1 => "BBR1"@,
            Opcode::Bbr2 => "BBR2"@,
            Opcode::Bbr3 => "BBR3"@,
            Opcode::Bbr4 => "BBR4"@,
            Opcode::Bbr5 => "BBR5"@,
            Opcode::Bbr6 => "BBR6"@,
            Opcode::Bbr7 => "BBR7"@,
            Opcode::Bbs0 => "BBS0"@,
            Opcode::Bbs1 => "BBS1"@,
            Opcode::Bbs2 => "BBS2"@,
            Opcode::Bbs3 => "BBS3"@,
            Opcode::Bbs4 => "BBS4"@,
            Opcode::Bbs5 => "BBS5"@,
            Opcode::Bbs6 => "BBS6"@,
            Opcode::Bbs7 => "BBS7"@,
            Opcode::Bcc => "BCC"@,
            Opcode::Bcs => "BCS"@,
            Opcode::Beq => "BEQ"@,
            Opcode::Bit => "BIT"@,
            Opcode::Bmi => "BMI"@,
            Opcode::Bne => "BNE"@,
            Opcode::Bpl => "BPL"@,
            Opcode::Bra => "BRA"@,
            Opcode::Brk => "BRK"@,
            Opcode::Bvc => "BVC"@,
            Opcode::Bvs => "BVS"@,
            Opcode::Clc => "CLC"@,
            Opcode::Cld => "CLD"@,
            Opcode::Cli => "CLI"@,
            Opcode::Clv => "CLV"@,
            Opcode::Cmp => "CMP"@,
            Opcode::Cpx => "CPX"@,
            Opcode::Cpy => "CPY"@,
            Opcode::Dec => "DEC"@,
            Opcode::Dex => "DEX"@,
            Opcode::Dey => "DEY"@,
            Opcode::Eor => "EOR"@,
            Opcode::Inc => "INC"@,
            Opcode::Inx => "INX"@,
            Opcode::Iny => "INY"@,
            Opcode::Jmp => "JMP"@,
            Opcode::Jsr => "JSR"@,
            Opcode::Lda => "LDA"@,
            Opcode::Ldx => "LDX"@,
            Opcode::Ldy => "LDY"@,
            Opcode::Lsr => "LSR"@,
            Opcode::Nop => "NOP"@,
            Opcode::Ora => "ORA"@,
            Opcode::Pha => "PHA"@,
            Opcode::Php => "PHP"@,
            Opcode::Phx => "PHX"@,
            Opcode::Phy => "PHY"@,
            Opcode::Pla => "PLA"@,
            Opcode::Plp => "PLP"@,
            Opcode::Plx => "PLX"@,
            Opcode::Ply => "PLY"@,
            Opcode::Rmb0 => "RMB0"@,
            Opcode::Rmb1 => "RMB1"@,
            Opcode::Rmb2 => "RMB2"@,
            Opcode::Rmb3 => "RMB3"@,
            Opcode::Rmb4 => "RMB4"@,
            Opcode::Rmb5 => "RMB5"@,
            Opcode::Rmb6 => "RMB6"@,
            Opcode::Rmb7 => "RMB7"@,
            Opcode::Rol => "ROL"@,
            Opcode::Ror => "ROR"@,
            Opcode::Rti => "RTI"@,
            Opcode::Rts => "RTS"@,
            Opcode::Sbc => "SBC"@,
            Opcode::Sec => "SEC"@,
            Opcode::Sed => "SED"@,
            Opcode::Sei => "SEI"@,
            Opcode::Smb0 => "SMB0"@,
            Opcode::Smb1 => "SMB1"@,
            Opcode::Smb2 => "SMB2"@,
            Opcode::Smb3 => "SMB3"@,
            Opcode::Smb4 => "SMB4"@,
            Opcode::Smb5 => "SMB5"@,
            Opcode::Smb6 => "SMB6"@,
            Opcode::Smb7 => "SMB7"@,
            Opcode::Sta => "STA"@,
            Opcode::Stp => "STP"@,
            Opcode::Stx => "STX"@,
            Opcode::Sty => "STY"@,
            Opcode::Stz => "STZ"@,
            Opcode::Tax => "TAX"@,
            Opcode::Tay => "TAY"@,
            Opcode::Trb => "TRB"@,
            Opcode::Tsb => "TSB"@,
            Opcode::Tsx => "TSX"@,
            Opcode::Txa => "TXA"@,
            Opcode::Txs => "TXS"@,
            Opcode::Tya => "TYA"@,
            Opcode::Wai => "WAI"@,
        }
    }

    /// The mnemonic of the operation.
    pub fn to_string(&self) -> (text: String)
        ensures
            text@ == self.mnemonic(),
    {
        match self {
            Opcode::Adc => String::from_str("ADC"),
            Opcode::And => String::from_str("AND"),
            Opcode::Asl => String::from_str("ASL"),
            Opcode::Bbr0 => String::from_str("BBR0"),
            Opcode::Bbr1 => String::from_str("BBR1"),
            Opcode::Bbr2 => String::from_str("BBR2"),
            Opcode::Bbr3 => String::from_str("BBR3"),
            Opcode::Bbr4 => String::from_str("BBR4"),
            Opcode::Bbr5 => String::from_str("BBR5"),
            Opcode::Bbr6 => String::from_str("BBR6"),
            Opcode::Bbr7 => String::from_str("BBR7"),
            Opcode::Bbs0 => String::from_str("BBS0"),
            Opcode::Bbs1 => String::from_str("BBS1"),
            Opcode::Bbs2 => String::from_str("BBS2"),
            Opcode::Bbs3 => String::from_str("BBS3"),
            Opcode::Bbs4 => String::from_str("BBS4"),
            Opcode::Bbs5 => String::from_str("BBS5"),
            Opcode::Bbs6 => String::from_str("BBS6"),
            Opcode::Bbs7 => String::from_str("BBS7"),
            Opcode::Bcc => String::from_str("BCC"),
            Opcode::Bcs => String::from_str("BCS"),
            Opcode::Beq => String::from_str("BEQ"),
            Opcode::Bit => String::from_str("BIT"),
            Opcode::Bmi => String::from_str("BMI"),
            Opcode::Bne => String::from_str("BNE"),
            Opcode::Bpl => String::from_str("BPL"),
            Opcode::Bra => String::from_str("BRA"),
            Opcode::Brk => String::from_str("BRK"),
            Opcode::Bvc => String::from_str("BVC"),
            Opcode::Bvs => String::from_str("BVS"),
            Opcode::Clc => String::from_str("CLC"),
            Opcode::Cld => String::from_str("CLD"),
            Opcode::Cli => String::from_str("CLI"),
            Opcode::Clv => String::from_str("CLV"),
            Opcode::Cmp => String::from_str("CMP"),
            Opcode::Cpx => String::from_str("CPX"),
            Opcode::Cpy => String::from_str("CPY"),
            Opcode::Dec => String::from_str("DEC"),
            Opcode::Dex => String::from_str("DEX"),
            Opcode::Dey => String::from_str("DEY"),
            Opcode::Eor => String::from_str("EOR"),
            Opcode::Inc => String::from_str("INC"),
            Opcode::Inx => String::from_str("INX"),
            Opcode::Iny => String::from_str("INY"),
            Opcode::Jmp => String::from_str("JMP"),
            Opcode::Jsr => String::from_str("JSR"),
            Opcode::Lda => String::from_str("LDA"),
            Opcode::Ldx => String::from_str("LDX"),
            Opcode::Ldy => String::from_str("LDY"),
            Opcode::Lsr => String::from_str("LSR"),
            Opcode::Nop => String::from_str("NOP"),
            Opcode::Ora => String::from_str("ORA"),
            Opcode::Pha => String::from_str("PHA"),
            Opcode::Php => String::from_str("PHP"),
            Opcode::Phx => String::from_str("PHX"),
            Opcode::Phy => String::from_str("PHY"),
            Opcode::Pla => String::from_str("PLA"),
            Opcode::Plp => String::from_str("PLP"),
            Opcode::Plx => String::from_str("PLX"),
            Opcode::Ply => String::from_str("PLY"),
            Opcode::Rmb0 => String::from_str("RMB0"),
            Opcode::Rmb1 => String::from_str("RMB1"),
            Opcode::Rmb2 => String::from_str("RMB2"),
            Opcode::Rmb3 => String::from_str("RMB3"),
            Opcode::Rmb4 => String::from_str("RMB4"),
            Opcode::Rmb5 => String::from_str("RMB5"),
            Opcode::Rmb6 => String::from_str("RMB6"),
            Opcode::Rmb7 => String::from_str("RMB7"),
            Opcode::Rol => String::from_str("ROL"),
            Opcode::Ror => String::from_str("ROR"),
            Opcode::Rti => String::from_str("RTI"),
            Opcode::Rts => String::from_str("RTS"),
            Opcode::Sbc => String::from_str("SBC"),
            Opcode::Sec => String::from_str("SEC"),
            Opcode::Sed => String::from_str("SED"),
            Opcode::Sei => String::from_str("SEI"),
            Opcode::Smb0 => String::from_str("SMB0"),
            Opcode::Smb1 => String::from_str("SMB1"),
            Opcode::Smb2 => String::from_str("SMB2"),
            Opcode::Smb3 => String::from_str("SMB3"),
            Opcode::Smb4 => String::from_str("SMB4"),
            Opcode::Smb5 => String::from_str("SMB5"),
            Opcode::Smb6 => String::from_str("SMB6"),
            Opcode::Smb7 => String::from_str("SMB7"),
            Opcode::Sta => String::from_str("STA"),
            Opcode::Stp => String::from_str("STP"),
            Opcode::Stx => String::from_str("STX"),
            Opcode::Sty => String::from_str("STY"),
            Opcode::Stz => String::from_str("STZ"),
            Opcode::Tax => String::from_str("TAX"),
            Opcode::Tay => String::from_str("TAY"),
            Opcode::Trb => String::from_str("TRB"),
            Opcode::Tsb => String::from_str("TSB"),
            Opcode::Tsx => String::from_str("TSX"),
            Opcode::Txa => String::from_str("TXA"),
            Opcode::Txs => String::from_str("TXS"),
            Opcode::Tya => String::from_str("TYA"),
            Opcode::Wai => String::from_str("WAI"),
        }
    }

    /// The number of bytes that encode the operation itself.
    pub fn encoded_length(&self) -> (length: usize)
        ensures
            length == 1,
    {
        1
    }
}

} // verus!
