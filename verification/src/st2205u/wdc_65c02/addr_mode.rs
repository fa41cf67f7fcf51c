//! The addressing modes of the 65C02: how an instruction finds its operand.

use vstd::prelude::*;
use vstd::pervasive::unreached;
use vstd::string::*;
use crate::hex::byte_between;
use crate::hex::byte_text;
use crate::hex::distance;
use crate::hex::distance_text;
use crate::hex::word_between;
use crate::hex::word_text;
use crate::st2205u::wdc_65c02::cpu::add16;
use crate::st2205u::wdc_65c02::cpu::add8;
use crate::st2205u::wdc_65c02::cpu::Core;
use crate::st2205u::wdc_65c02::cpu::CoreView;
use crate::st2205u::wdc_65c02::cpu::Registers;

verus! {

/// An addressing mode with the operand bytes of the instruction.
#[derive(Clone, Copy, Debug, PartialEq, Eq, Structural)]
pub enum AddressingMode {
    /// `OPCODE $WWWW`: the byte at the address.
    Absolute(u16),
    /// `OPCODE $WWWW,X`: the byte at the address plus X.
    AbsoluteXIndexed(u16),
    /// `OPCODE $WWWW,Y`: the byte at the address plus Y.
    AbsoluteYIndexed(u16),
    /// `OPCODE ($WWWW,X)`: the byte that the pointer at the address plus X names.
    AbsoluteXIndexedIndirect(u16),
    /// `OPCODE #$BB`: the byte itself.
    Immediate(u8),
    /// `OPCODE ($WWWW)`: the byte that the pointer at the address names.
    Indirect(u16),
    /// `OPCODE ($LL,X)`: the byte that the pointer at the zero-page address plus X names.
    XIndexedIndirect(u8),
    /// `OPCODE ($LL),Y`: the byte at Y bytes after what the pointer at the
    /// zero-page address names.
    IndirectYIndexed(u8),
    /// `OPCODE $bb`: a signed distance from the next instruction.
    Relative(i8),
    /// `OPCODE $LL`: the byte at the zero-page address.
    ZeroPage(u8),
    /// `OPCODE ($LL)`: the byte that the pointer at the zero-page address names.
    IndirectZeroPage(u8),
    /// `OPCODE $LL,X`: the byte at the zero-page address plus X, within the zero page.
    ZeroPageXIndexed(u8),
    /// `OPCODE $LL,Y`: the byte at the zero-page address plus Y, within the zero page.
    ZeroPageYIndexed(u8),
    /// `OPCODE $BB,$bb`: the byte at the zero-page address, and a signed
    /// distance from the next instruction.
    ZeroPageRelative(u8, i8),
    /// `OPCODE`: no operand, or the accumulator.
    Implied,
    /// `OPCODE $WWWW`: the address itself, for `JMP` and `JSR`.
    AbsoluteAddress(u16),
    /// `OPCODE ($WWWW)`: the address that the pointer at the address holds, for `JMP`.
    IndirectAddress(u16),
    /// `OPCODE ($WWWW,X)`: the address that the pointer at the address plus
    /// X holds, for `JMP`.
    AbsoluteXIndexedIndirectAddress(u16),
}

/// Whether two addresses lie in different pages of 256 bytes.
pub open spec fn pages_differ(addr1: u16, addr2: u16) -> bool {
    addr1 / 256 != addr2 / 256
}

/// `address + index` within 16 bits.
fn indexed(address: u16, index: u8) -> (target: u16)
    ensures
        target == add16(address, index as int),
{
    address.wrapping_add(index as u16)
}

/// `address + index` within the zero page.
fn indexed_zp(address: u8, index: u8) -> (target: u8)
    ensures
        target == add8(address, index as int),
{
    address.wrapping_add(index)
}

fn crosses_page(addr1: u16, addr2: u16) -> (crossed: bool)
    ensures
        crossed == pages_differ(addr1, addr2),
{
    addr1 / 256 != addr2 / 256
}

impl AddressingMode {
    /// The number of operand bytes that follow the opcode.
    pub open spec fn operand_len(self) -> int {
        match self {
            AddressingMode::Implied => 0,
            AddressingMode::Immediate(_)
            | AddressingMode::XIndexedIndirect(_)
            | AddressingMode::IndirectYIndexed(_)
            | AddressingMode::Relative(_)
            | AddressingMode::ZeroPage(_)
            | AddressingMode::IndirectZeroPage(_)
            | AddressingMode::ZeroPageXIndexed(_)
            | AddressingMode::ZeroPageYIndexed(_) => 1,
            _ => 2,
        }
    }

    /// Whether the mode names a byte that can be read.
    pub open spec fn reads_u8(self) -> bool {
        match self {
            AddressingMode::Absolute(_)
            | AddressingMode::AbsoluteXIndexed(_)
            | AddressingMode::AbsoluteYIndexed(_)
            | AddressingMode::Immediate(_)
            | AddressingMode::XIndexedIndirect(_)
            | AddressingMode::IndirectYIndexed(_)
            | AddressingMode::ZeroPage(_)
            | AddressingMode::IndirectZeroPage(_)
            | AddressingMode::ZeroPageXIndexed(_)
            | AddressingMode::ZeroPageYIndexed(_)
            | AddressingMode::Implied => true,
            _ => false,
        }
    }

    /// Whether the mode names a place that can be written: a byte that
    /// can be read and is no part of the instruction.
    pub open spec fn writes_u8(self) -> bool {
        self.reads_u8() && !(self is Immediate)
    }

    /// Whether the mode gives the target of a jump.
    pub open spec fn jumps(self) -> bool {
        self is AbsoluteAddress || self is IndirectAddress
            || self is AbsoluteXIndexedIndirectAddress
    }

    /// The operand as an assembler writes it: addresses and bytes in
    /// hexadecimal behind `$`, an immediate byte behind `#`, a distance
    /// with a `+` where it is not negative.
    pub open spec fn text(self) -> Seq<char> {
        match self {
            AddressingMode::Absolute(addr) => word_text("$"@, addr, ""@),
            AddressingMode::AbsoluteXIndexed(addr) => word_text("$"@, addr, ",X"@),
            AddressingMode::AbsoluteYIndexed(addr) => word_text("$"@, addr, ",Y"@),
            AddressingMode::AbsoluteXIndexedIndirect(addr) => word_text("($"@, addr, ",X)"@),
            AddressingMode::Indirect(addr) => word_text("($"@, addr, ")"@),
            AddressingMode::AbsoluteAddress(addr) => word_text("$"@, addr, ""@),
            AddressingMode::IndirectAddress(addr) => word_text("($"@, addr, ")"@),
            AddressingMode::AbsoluteXIndexedIndirectAddress(addr) => word_text("($"@, addr, ",X)"@),
            AddressingMode::Immediate(value) => byte_text("#$"@, value, ""@),
            AddressingMode::XIndexedIndirect(value) => byte_text("($"@, value, ",X)"@),
            AddressingMode::IndirectYIndexed(value) => byte_text("($"@, value, "),Y"@),
            AddressingMode::ZeroPage(value) => byte_text("$"@, value, ""@),
            AddressingMode::IndirectZeroPage(value) => byte_text("($"@, value, ")"@),
            AddressingMode::ZeroPageXIndexed(value) => byte_text("$"@, value, ",X"@),
            AddressingMode::ZeroPageYIndexed(value) => byte_text("$"@, value, ",Y"@),
            AddressingMode::Relative(offset) => distance_text(offset),
            AddressingMode::ZeroPageRelative(zp_addr, offset) => byte_text("$"@, zp_addr, ","@)
                + distance_text(offset),
            AddressingMode::Implied => Seq::empty(),
        }
    }

    /// The operand as an assembler writes it.
    pub fn to_string(&self) -> (text: String)
        ensures
            text@ == self.text(),
    {
        proof {
            reveal_strlit("");
        }
        match self {
            AddressingMode::Absolute(addr) => word_between("$", *addr, ""),
            AddressingMode::AbsoluteXIndexed(addr) => word_between("$", *addr, ",X"),
            AddressingMode::AbsoluteYIndexed(addr) => word_between("$", *addr, ",Y"),
            AddressingMode::AbsoluteXIndexedIndirect(addr) => word_between("($", *addr, ",X)"),
            AddressingMode::Indirect(addr) => word_between("($", *addr, ")"),
            AddressingMode::AbsoluteAddress(addr) => word_between("$", *addr, ""),
            AddressingMode::IndirectAddress(addr) => word_between("($", *addr, ")"),
            AddressingMode::AbsoluteXIndexedIndirectAddress(addr) => word_between("($", *addr, ",X)"),
            AddressingMode::Immediate(value) => byte_between("#$", *value, ""),
            AddressingMode::XIndexedIndirect(value) => byte_between("($", *value, ",X)"),
            AddressingMode::IndirectYIndexed(value) => byte_between("($", *value, "),Y"),
            AddressingMode::ZeroPage(value) => byte_between("$", *value, ""),
            AddressingMode::IndirectZeroPage(value) => byte_between("($", *value, ")"),
            AddressingMode::ZeroPageXIndexed(value) => byte_between("$", *value, ",X"),
            AddressingMode::ZeroPageYIndexed(value) => byte_between("$", *value, ",Y"),
            AddressingMode::Relative(offset) => distance(*offset),
            AddressingMode::ZeroPageRelative(zp_addr, offset) => {
                let text = byte_between("$", *zp_addr, ",");
                let tail = distance(*offset);
                text.concat(tail.as_str())
            },
            AddressingMode::Implied => String::from_str(""),
        }
    }

    pub fn encoded_length(&self) -> (length: usize)
        ensures
            length == self.operand_len(),
    {
        match self {
            AddressingMode::Absolute(_) => 2,
            AddressingMode::AbsoluteXIndexed(_) => 2,
            AddressingMode::AbsoluteYIndexed(_) => 2,
            AddressingMode::AbsoluteXIndexedIndirect(_) => 2,
            AddressingMode::Immediate(_) => 1,
            AddressingMode::Indirect(_) => 2,
            AddressingMode::XIndexedIndirect(_) => 1,
            AddressingMode::IndirectYIndexed(_) => 1,
            AddressingMode::Relative(_) => 1,
            AddressingMode::ZeroPage(_) => 1,
            AddressingMode::IndirectZeroPage(_) => 1,
            AddressingMode::ZeroPageXIndexed(_) => 1,
            AddressingMode::ZeroPageYIndexed(_) => 1,
            AddressingMode::ZeroPageRelative(_, _) => 2,
            AddressingMode::Implied => 0,
            AddressingMode::AbsoluteAddress(_) => 2,
            AddressingMode::IndirectAddress(_) => 2,
            AddressingMode::AbsoluteXIndexedIndirectAddress(_) => 2,
        }
    }
}

impl CoreView {
    /// The address of the byte that `mode` names, the processor after the
    /// reads that find it, and whether indexing left the page. `mode`
    /// names a byte in memory.
    #[verifier::opaque]
    pub open spec fn effective_address(self, mode: AddressingMode) -> (CoreView, u16, bool) {
        match mode {
            AddressingMode::Absolute(addr) => (self, addr, false),
            AddressingMode::AbsoluteXIndexed(addr) => {
                let target = add16(addr, self.registers.x as int);
                (self, target, pages_differ(addr, target))
            },
            AddressingMode::AbsoluteYIndexed(addr) => {
                let target = add16(addr, self.registers.y as int);
                (self, target, pages_differ(addr, target))
            },
            AddressingMode::XIndexedIndirect(addr) => {
                let (core, pointer) = self.read_word(add8(addr, self.registers.x as int) as u16);
                (core, pointer, false)
            },
            AddressingMode::IndirectYIndexed(addr) => {
                let (core, pointer) = self.read_word(addr as u16);
                let target = add16(pointer, self.registers.y as int);
                (core, target, pages_differ(pointer, target))
            },
            AddressingMode::ZeroPage(addr) => (self, addr as u16, false),
            AddressingMode::IndirectZeroPage(addr) => {
                let (core, pointer) = self.read_word(addr as u16);
                (core, pointer, false)
            },
            AddressingMode::ZeroPageXIndexed(addr) => (
                self,
                add8(addr, self.registers.x as int) as u16,
                false,
            ),
            AddressingMode::ZeroPageYIndexed(addr) => (
                self,
                add8(addr, self.registers.y as int) as u16,
                false,
            ),
            _ => (self, 0, false),
        }
    }

    /// The operand byte of `mode`, the processor after it was read, and
    /// whether indexing left the page. The operand is the byte in the
    /// instruction, the accumulator, or the byte at the effective address.
    #[verifier::opaque]
    pub open spec fn operand_u8(self, mode: AddressingMode) -> (CoreView, u8, bool) {
        match mode {
            AddressingMode::Immediate(imm) => (self, imm, false),
            AddressingMode::Implied => (self, self.registers.a, false),
            _ => {
                let (core, address, crossed) = self.effective_address(mode);
                let (after, value) = core.read(address);
                (after, value, crossed)
            },
        }
    }

    /// The processor after `value` was stored where `mode` names, and
    /// whether indexing left the page.
    #[verifier::opaque]
    pub open spec fn store_u8(self, mode: AddressingMode, value: u8) -> (CoreView, bool) {
        match mode {
            AddressingMode::Implied => (
                CoreView { registers: Registers { a: value, ..self.registers }, ..self },
                false,
            ),
            _ => {
                let (core, address, crossed) = self.effective_address(mode);
                (core.write(address, value), crossed)
            },
        }
    }

    /// The target of a jump, the processor after the reads that find it,
    /// and whether indexing left the page.
    #[verifier::opaque]
    pub open spec fn operand_u16(self, mode: AddressingMode) -> (CoreView, u16, bool) {
        match mode {
            AddressingMode::AbsoluteAddress(addr) => (self, addr, false),
            AddressingMode::IndirectAddress(addr) => {
                let (core, target) = self.read_word(addr);
                (core, target, false)
            },
            AddressingMode::AbsoluteXIndexedIndirectAddress(addr) => {
                let pointer = add16(addr, self.registers.x as int);
                let (core, target) = self.read_word(pointer);
                (core, target, pages_differ(addr, pointer))
            },
            _ => (self, 0, false),
        }
    }
}

impl AddressingMode {
    /// The address of the byte that the mode names.
    fn resolve(&self, core: &mut Core) -> (found: (u16, bool))
        requires
            old(core).inv(),
            self.reads_u8(),
            !(self is Immediate),
            !(self is Implied),
        ensures
            final(core).inv(),
            (final(core)@, found.0, found.1) == old(core)@.effective_address(*self),
            final(core).cycles == old(core).cycles,
            final(core).registers == old(core).registers,
            final(core).flags == old(core).flags,
    {
        reveal(CoreView::effective_address);
        match self {
            AddressingMode::Absolute(addr) => {
                return (*addr, false);
            },
            AddressingMode::AbsoluteXIndexed(addr) => {
                let target = indexed(*addr, core.registers.x);
                return (target, crosses_page(*addr, target));
            },
            AddressingMode::AbsoluteYIndexed(addr) => {
                let target = indexed(*addr, core.registers.y);
                return (target, crosses_page(*addr, target));
            },
            AddressingMode::XIndexedIndirect(addr) => {
                // The pointer is found in the zero page, so no page is left.
                let offset_addr = indexed_zp(*addr, core.registers.x);
                let pointer = core.address_space.read_u16_le(offset_addr as u32);
                return (pointer, false);
            },
            AddressingMode::IndirectYIndexed(addr) => {
                let pointer = core.address_space.read_u16_le(*addr as u32);
                let target = indexed(pointer, core.registers.y);
                return (target, crosses_page(pointer, target));
            },
            AddressingMode::ZeroPage(zp_addr) => {
                return (*zp_addr as u16, false);
            },
            AddressingMode::IndirectZeroPage(zp_addr) => {
                let pointer = core.address_space.read_u16_le(*zp_addr as u32);
                return (pointer, false);
            },
            AddressingMode::ZeroPageXIndexed(zp_addr) => {
                return (indexed_zp(*zp_addr, core.registers.x) as u16, false);
            },
            AddressingMode::ZeroPageYIndexed(zp_addr) => {
                return (indexed_zp(*zp_addr, core.registers.y) as u16, false);
            },
            _ => unreached(),
        }
    }

    /// Reads the operand byte. Returns it and whether indexing left the page.
    pub fn read_operand_u8(&self, core: &mut Core) -> (read: (u8, bool))
        requires
            old(core).inv(),
            self.reads_u8(),
        ensures
            final(core).inv(),
            (final(core)@, read.0, read.1) == old(core)@.operand_u8(*self),
            final(core).cycles == old(core).cycles,
            final(core).registers == old(core).registers,
            final(core).flags == old(core).flags,
    {
        reveal(CoreView::operand_u8);
        match self {
            AddressingMode::Immediate(imm) => {
                return (*imm, false);
            },
            AddressingMode::Implied => {
                return (core.registers.a, false);
            },
            _ => {
                let (address, crossed) = self.resolve(core);
                let value = core.address_space.read_u8(address as u32);
                return (value, crossed);
            },
        }
    }

    /// The signed distance of a branch.
    pub fn read_operand_i8(&self, _core: &mut Core) -> (read: (i8, bool))
        requires
            self is Relative,
        ensures
            *final(_core) == *old(_core),
            self == AddressingMode::Relative(read.0),
            !read.1,
    {
        match self {
            AddressingMode::Relative(rel) => (*rel, false),
            _ => unreached(),
        }
    }

    /// The target of a jump. Returns it and whether indexing left the page.
    pub fn read_operand_u16(&self, core: &mut Core) -> (read: (u16, bool))
        requires
            old(core).inv(),
            self.jumps(),
        ensures
            final(core).inv(),
            (final(core)@, read.0, read.1) == old(core)@.operand_u16(*self),
            final(core).cycles == old(core).cycles,
            final(core).registers == old(core).registers,
            final(core).flags == old(core).flags,
    {
        reveal(CoreView::operand_u16);
        match self {
            AddressingMode::AbsoluteAddress(addr) => {
                return (*addr, false);
            },
            AddressingMode::IndirectAddress(addr) => {
                let value = core.address_space.read_u16_le(*addr as u32);
                return (value, false);
            },
            AddressingMode::AbsoluteXIndexedIndirectAddress(addr) => {
                let address_address = indexed(*addr, core.registers.x);
                let jmp_addr = core.address_space.read_u16_le(address_address as u32);
                return (jmp_addr, crosses_page(*addr, address_address));
            },
            _ => unreached(),
        }
    }

    /// The byte at the zero-page address and the signed distance of a
    /// bit branch.
    pub fn read_operand_u8_i8(&self, core: &mut Core) -> (read: ((u8, i8), bool))
        requires
            old(core).inv(),
            self is ZeroPageRelative,
        ensures
            final(core).inv(),
            self matches AddressingMode::ZeroPageRelative(zp_addr, offset) && offset == read.0.1
                && (final(core)@, read.0.0) == old(core)@.read(zp_addr as u16),
            !read.1,
            final(core).cycles == old(core).cycles,
            final(core).registers == old(core).registers,
            final(core).flags == old(core).flags,
    {
        match self {
            AddressingMode::ZeroPageRelative(zp_addr, offset) => {
                let value = core.address_space.read_u8(*zp_addr as u32);
                ((value, *offset), false)
            },
            _ => unreached(),
        }
    }

    /// Stores `value` where the mode names. Returns whether indexing left
    /// the page.
    pub fn write_operand_u8(&self, core: &mut Core, value: u8) -> (crossed: bool)
        requires
            old(core).inv(),
            self.writes_u8(),
        ensures
            final(core).inv(),
            (final(core)@, crossed) == old(core)@.store_u8(*self, value),
            final(core).cycles == old(core).cycles,
            final(core).flags == old(core).flags,
            final(core).registers.pc == old(core).registers.pc,
    {
        reveal(CoreView::store_u8);
        match self {
            AddressingMode::Implied => {
                core.registers.a = value;
                return false;
            },
            _ => {
                let (address, crossed) = self.resolve(core);
                core.address_space.write_u8(address as u32, value);
                return crossed;
            },
        }
    }
}

} // verus!
