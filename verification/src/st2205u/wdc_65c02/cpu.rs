//! The registers, flags and stack of the 65C02, and its fetch-execute step.

use vstd::prelude::*;
use vstd::string::*;
use crate::st2205u::addr_space::SpaceView;
use crate::st2205u::addr_space::St2205uAddressSpace;
use crate::st2205u::wdc_65c02::decoder::DecodedInstruction;
use crate::st2205u::wdc_65c02::instr;
use crate::st2205u::wdc_65c02::instr::Instruction;
use crate::st2205u::wdc_65c02::interrupt::HandlesInterrupt;
use crate::st2205u::wdc_65c02::opcode::Opcode;

verus! {

/// The core runs one instruction cycle in this many oscillator cycles.
pub const CYCLE_FREQUENCY_DIVISOR: u64 = 2;

/// The largest count of instruction cycles of which the count of
/// oscillator cycles still fits in 64 bits.
pub const CYCLES_MAX: u64 = 0x7FFF_FFFF_FFFF_FFFF;

/// Up to this count of instruction cycles the core can run one more
/// instruction.
pub const STEP_LIMIT: u64 = 0x7FFF_FFFF_FFFF_FF00;

/// The first address of the stack page.
pub const STACK_PAGE: u16 = 0x100;

/// `x + y` within 8 bits.
pub open spec fn add8(x: u8, y: int) -> u8 {
    ((x + y) % 0x100) as u8
}

/// `x + y` within 16 bits.
pub open spec fn add16(x: u16, y: int) -> u16 {
    ((x + y) % 0x10000) as u16
}

/// `weight` if `flag`, else zero.
pub open spec fn flag_bit(flag: bool, weight: int) -> int {
    if flag {
        weight
    } else {
        0
    }
}

/// The flags of the processor status register.
#[derive(Clone, Copy, Debug, Default, PartialEq, Eq, Structural)]
pub struct Flags {
    pub carry: bool,
    pub zero: bool,
    pub interrupt_disable: bool,
    pub decimal: bool,
    pub overflow: bool,
    pub negative: bool,
}

impl Flags {
    /// The status byte `N V 0 0 D I Z C`: the bits 4 and 5 are zero.
    pub open spec fn packed(self) -> int {
        flag_bit(self.negative, 0x80) + flag_bit(self.overflow, 0x40) + flag_bit(
            self.decimal,
            0x08,
        ) + flag_bit(self.interrupt_disable, 0x04) + flag_bit(self.zero, 0x02) + flag_bit(
            self.carry,
            0x01,
        )
    }

    /// The flags that a status byte holds; its bits 4 and 5 are ignored.
    pub open spec fn unpacked(val: u8) -> Flags {
        Flags {
            negative: val >= 0x80,
            overflow: (val / 0x40) % 2 == 1,
            decimal: (val / 0x08) % 2 == 1,
            interrupt_disable: (val / 0x04) % 2 == 1,
            zero: (val / 0x02) % 2 == 1,
            carry: val % 2 == 1,
        }
    }

    /// The flags with zero and negative set from `value`.
    pub open spec fn with_nz(self, value: u8) -> Flags {
        Flags { zero: value == 0, negative: value >= 0x80, ..self }
    }

    /// Packs the flags into the status byte.
    pub fn to_u8(&self) -> (p: u8)
        ensures
            p == self.packed(),
    {
        let n: u8 = if self.negative { 0x80 } else { 0 };
        let v: u8 = if self.overflow { 0x40 } else { 0 };
        let d: u8 = if self.decimal { 0x08 } else { 0 };
        let i: u8 = if self.interrupt_disable { 0x04 } else { 0 };
        let z: u8 = if self.zero { 0x02 } else { 0 };
        let c: u8 = if self.carry { 0x01 } else { 0 };
        n + v + d + i + z + c
    }

    /// Takes the flags out of a status byte.
    pub fn from_u8(val: u8) -> (flags: Self)
        ensures
            flags == Self::unpacked(val),
    {
        Flags {
            negative: val >= 0x80,
            overflow: (val / 0x40) % 2 == 1,
            decimal: (val / 0x08) % 2 == 1,
            interrupt_disable: (val / 0x04) % 2 == 1,
            zero: (val / 0x02) % 2 == 1,
            carry: val % 2 == 1,
        }
    }
}

/// Packing flags and taking them out of the byte gives the flags back.
pub proof fn lemma_flags_round_trip(flags: Flags)
    ensures
        0 <= flags.packed() < 256,
        Flags::unpacked(flags.packed() as u8) == flags,
{
}

/// The registers of the processor.
#[derive(Clone, Copy, Debug, PartialEq, Eq, Structural)]
pub struct Registers {
    /// The low 8 bits of the stack pointer. The stack lies in page 1, so
    /// the stack pointer ranges over `0x100..=0x1FF`.
    pub sp: u8,
    /// The address of the instruction to execute next.
    pub pc: u16,
    pub a: u8,
    pub x: u8,
    pub y: u8,
}

impl Registers {
    /// The address that the stack pointer names.
    pub open spec fn stack_address(self) -> u16 {
        (STACK_PAGE + self.sp) as u16
    }

    /// The registers in words, in hexadecimal.
    pub open spec fn text(self) -> Seq<char> {
        "SP: 0x(1)"@ + crate::hex::hex_byte(self.sp) + "; PC: "@ + crate::hex::hex_word(self.pc)
            + "; A: "@ + crate::hex::hex_byte(self.a) + ", X: "@ + crate::hex::hex_byte(self.x)
            + "; Y: "@ + crate::hex::hex_byte(self.y)
    }

    /// The registers in words, in hexadecimal.
    pub fn to_string(&self) -> (text: String)
        ensures
            text@ == self.text(),
    {
        let mut text = String::from_str("SP: 0x(1)");
        crate::hex::push_hex_byte(&mut text, self.sp);
        text.append("; PC: ");
        crate::hex::push_hex_word(&mut text, self.pc);
        text.append("; A: ");
        crate::hex::push_hex_byte(&mut text, self.a);
        text.append(", X: ");
        crate::hex::push_hex_byte(&mut text, self.x);
        text.append("; Y: ");
        crate::hex::push_hex_byte(&mut text, self.y);
        text
    }

    pub fn full_sp(&self) -> (address: u16)
        ensures
            address == self.stack_address(),
            0x100 <= address <= 0x1FF,
    {
        self.sp as u16 + 0x100
    }
}

/// The processor as contracts see it.
pub struct CoreView {
    pub frequency: u64,
    /// The instruction cycles that have elapsed.
    pub cycles: u64,
    pub mem: SpaceView,
    pub registers: Registers,
    pub flags: Flags,
}

impl CoreView {
    /// The processor after a read of `address`, and the byte read.
    pub open spec fn read(self, address: u16) -> (CoreView, u8) {
        (
            CoreView { mem: self.mem.after_read(address as u32), ..self },
            self.mem.read_value(address as u32),
        )
    }

    /// The processor after a write of `value` to `address`.
    pub open spec fn write(self, address: u16, value: u8) -> CoreView {
        CoreView { mem: self.mem.after_write(address as u32, value), ..self }
    }

    /// The processor after the read of a little-endian word at `address`,
    /// and the word read.
    pub open spec fn read_word(self, address: u16) -> (CoreView, u16) {
        (
            CoreView { mem: self.mem.after_read_word(address as u32), ..self },
            self.mem.read_word(address as u32),
        )
    }

    /// The processor with the program counter at `pc`.
    pub open spec fn with_pc(self, pc: u16) -> CoreView {
        CoreView { registers: Registers { pc, ..self.registers }, ..self }
    }

    /// The processor with the stack pointer at `sp`.
    pub open spec fn with_sp(self, sp: u8) -> CoreView {
        CoreView { registers: Registers { sp, ..self.registers }, ..self }
    }

    /// The processor with `cycles` more instruction cycles elapsed.
    pub open spec fn after_cycles(self, cycles: int) -> CoreView {
        CoreView { cycles: (self.cycles + cycles) as u64, ..self }
    }

    /// The processor after `val` was pushed: it is written where the
    /// stack pointer names, which then moves down, within the stack page.
    pub open spec fn push_u8(self, val: u8) -> CoreView {
        self.write(self.registers.stack_address(), val).with_sp(add8(self.registers.sp, -1))
    }

    /// The processor after a byte was pulled, and the byte: the stack
    /// pointer moves up, within the stack page, and names the byte.
    pub open spec fn pop_u8(self) -> (CoreView, u8) {
        let raised = self.with_sp(add8(self.registers.sp, 1));
        raised.read(raised.registers.stack_address())
    }

    /// The processor after a word was pushed, the high byte first.
    pub open spec fn push_u16(self, val: u16) -> CoreView {
        self.push_u8((val / 256) as u8).push_u8((val % 256) as u8)
    }

    /// The processor after a word was pulled, the low byte first, and the word.
    pub open spec fn pop_u16(self) -> (CoreView, u16) {
        let (first, low) = self.pop_u8();
        let (second, high) = first.pop_u8();
        (second, (low + 256 * high) as u16)
    }

    /// The oscillator cycles that have elapsed.
    pub open spec fn oscillator_cycles(self) -> int {
        self.cycles * 2
    }

    /// The instruction at the program counter, and the processor after
    /// the reads of its bytes, with the program counter past them.
    pub open spec fn fetched(self) -> (CoreView, DecodedInstruction) {
        let (mem, decoded) = DecodedInstruction::decoded(self.mem, self.registers.pc as u32);
        (
            (CoreView { mem, ..self }).with_pc(
                add16(
                    self.registers.pc,
                    1 + decoded.instruction.addressing_mode.operand_len(),
                ),
            ),
            decoded,
        )
    }

    /// The processor after the decoded instruction `decoded`: what the
    /// instruction does, and its cycles, which are one more where the
    /// table allows for it and indexing the operand left the page.
    pub open spec fn executed(self, decoded: DecodedInstruction) -> CoreView {
        let (core, crossed) = self.execute(decoded.instruction);
        core.after_cycles(
            decoded.cycles + flag_bit(crossed && decoded.extra_page_boundary_cycle, 1),
        )
    }

    /// The processor after one instruction.
    pub open spec fn step(self) -> CoreView {
        let (core, decoded) = self.fetched();
        core.executed(decoded)
    }
}

/// A WDC 65C02 processor core over the address space of the microcontroller.
pub struct Core {
    pub frequency: u64,
    /// The instruction cycles that have elapsed.
    pub cycles: u64,
    pub address_space: St2205uAddressSpace,
    pub registers: Registers,
    pub flags: Flags,
}

impl View for Core {
    type V = CoreView;

    open spec fn view(&self) -> CoreView {
        CoreView {
            frequency: self.frequency,
            cycles: self.cycles,
            mem: self.address_space@,
            registers: self.registers,
            flags: self.flags,
        }
    }
}

impl Core {
    /// The invariant of the processor: that of its address space, and a
    /// count of cycles that can be doubled.
    pub open spec fn inv(&self) -> bool {
        &&& self.address_space.inv()
        &&& self.cycles <= CYCLES_MAX
    }

    /// Whether the processor can run one more instruction.
    pub open spec fn ready(&self) -> bool {
        &&& self.address_space.inv()
        &&& self.cycles <= STEP_LIMIT
    }

    /// The processor after power-on, before its reset.
    pub open spec fn initial(frequency: u64, mem: SpaceView) -> CoreView {
        CoreView {
            frequency,
            cycles: 0,
            mem,
            registers: Registers { sp: 0, pc: 0, a: 0, x: 0, y: 0 },
            flags: Flags {
                carry: false,
                zero: false,
                interrupt_disable: false,
                decimal: false,
                overflow: false,
                negative: false,
            },
        }
    }

    /// A processor clocked by an oscillator of `frequency` Hz.
    pub fn new(frequency: u64, address_space: St2205uAddressSpace) -> (core: Self)
        requires
            address_space.inv(),
        ensures
            core.ready(),
            core.inv(),
            core@ == Self::initial(frequency, address_space@),
    {
        Core {
            frequency,
            cycles: 0,
            flags: Flags {
                carry: false,
                zero: false,
                interrupt_disable: false,
                decimal: false,
                overflow: false,
                negative: false,
            },
            address_space,
            registers: Registers { sp: 0, pc: 0, a: 0, x: 0, y: 0 },
        }
    }

    /// The instruction cycles per second.
    pub fn cycles_per_second(&self) -> (rate: u64)
        ensures
            rate == self.frequency / 2,
    {
        self.frequency / CYCLE_FREQUENCY_DIVISOR
    }

    /// The instruction cycles that have elapsed.
    pub fn instruction_cycles(&self) -> (cycles: u64)
        ensures
            cycles == self.cycles,
    {
        self.cycles
    }

    /// The oscillator cycles that have elapsed: twice the instruction cycles.
    pub fn oscillator_cycles(&self) -> (cycles: u64)
        requires
            self.cycles <= CYCLES_MAX,
        ensures
            cycles == 2 * self.cycles,
    {
        self.cycles * CYCLE_FREQUENCY_DIVISOR
    }

    /// Decodes the instruction at the program counter.
    pub fn decode_next_instruction(&mut self) -> (decoded: DecodedInstruction)
        requires
            old(self).address_space.inv(),
        ensures
            final(self).address_space.inv(),
            (final(self).address_space@, decoded) == DecodedInstruction::decoded(
                old(self).address_space@,
                old(self).registers.pc as u32,
            ),
            final(self).registers == old(self).registers,
            final(self).flags == old(self).flags,
            final(self).cycles == old(self).cycles,
            final(self).frequency == old(self).frequency,
            decoded.instruction.well_formed(),
            1 <= decoded.cycles <= crate::st2205u::wdc_65c02::decoder::CYCLES_PER_INSTRUCTION_MAX,
    {
        DecodedInstruction::decode(&mut self.address_space, self.registers.pc as u32)
    }

    /// Runs one instruction: decodes it, moves the program counter past
    /// it and executes it. At least one cycle elapses.
    pub fn step(&mut self)
        requires
            old(self).ready(),
        ensures
            final(self).inv(),
            final(self)@ == old(self)@.step(),
            final(self).cycles > old(self).cycles,
    {
        let dins = self.decode_next_instruction();
        // The program counter moves on before the execution. A branch, for
        // one, is relative to the instruction after it.
        let length: u16 = dins.instruction.encoded_length() as u16;
        self.registers.pc = self.registers.pc.wrapping_add(length);
        self.execute_instruction(&dins);
    }

    /// Does what the instruction `inst` does. Returns whether indexing
    /// its operand left the page.
    #[verifier::rlimit(100)]
    fn run(&mut self, inst: &Instruction) -> (crossed: bool)
        requires
            old(self).ready(),
            inst.well_formed(),
        ensures
            final(self).inv(),
            (final(self)@, crossed) == old(self)@.execute(*inst),
            old(self).cycles <= final(self).cycles <= old(self).cycles + 1,
    {
        reveal(CoreView::execute);
        match inst.opcode {
            Opcode::Adc => {
                return instr::adc(self, inst);
            },
            Opcode::And => {
                return instr::and(self, inst);
            },
            Opcode::Asl => {
                return instr::asl(self, inst);
            },
            Opcode::Bbr0 => {
                return instr::bbr0(self, inst);
            },
            Opcode::Bbr1 => {
                return instr::bbr1(self, inst);
            },
            Opcode::Bbr2 => {
                return instr::bbr2(self, inst);
            },
            Opcode::Bbr3 => {
                return instr::bbr3(self, inst);
            },
            Opcode::Bbr4 => {
                return instr::bbr4(self, inst);
            },
            Opcode::Bbr5 => {
                return instr::bbr5(self, inst);
            },
            Opcode::Bbr6 => {
                return instr::bbr6(self, inst);
            },
            Opcode::Bbr7 => {
                return instr::bbr7(self, inst);
            },
            Opcode::Bbs0 => {
                return instr::bbs0(self, inst);
            },
            Opcode::Bbs1 => {
                return instr::bbs1(self, inst);
            },
            Opcode::Bbs2 => {
                return instr::bbs2(self, inst);
            },
            Opcode::Bbs3 => {
                return instr::bbs3(self, inst);
            },
            Opcode::Bbs4 => {
                return instr::bbs4(self, inst);
            },
            Opcode::Bbs5 => {
                return instr::bbs5(self, inst);
            },
            Opcode::Bbs6 => {
                return instr::bbs6(self, inst);
            },
            Opcode::Bbs7 => {
                return instr::bbs7(self, inst);
            },
            Opcode::Bcc => {
                return instr::bcc(self, inst);
            },
            Opcode::Bcs => {
                return instr::bcs(self, inst);
            },
            Opcode::Beq => {
                return instr::beq(self, inst);
            },
            Opcode::Bit => {
                return instr::bit(self, inst);
            },
            Opcode::Bmi => {
                return instr::bmi(self, inst);
            },
            Opcode::Bne => {
                return instr::bne(self, inst);
            },
            Opcode::Bpl => {
                return instr::bpl(self, inst);
            },
            Opcode::Bra => {
                return instr::bra(self, inst);
            },
            Opcode::Brk => {
                return instr::brk(self, inst);
            },
            Opcode::Bvc => {
                return instr::bvc(self, inst);
            },
            Opcode::Bvs => {
                return instr::bvs(self, inst);
            },
            Opcode::Clc => {
                return instr::clc(self, inst);
            },
            Opcode::Cld => {
                return instr::cld(self, inst);
            },
            Opcode::Cli => {
                return instr::cli(self, inst);
            },
            Opcode::Clv => {
                return instr::clv(self, inst);
            },
            Opcode::Cmp => {
                return instr::cmp(self, inst);
            },
            Opcode::Cpx => {
                return instr::cpx(self, inst);
            },
            Opcode::Cpy => {
                return instr::cpy(self, inst);
            },
            Opcode::Dec => {
                return instr::dec(self, inst);
            },
            Opcode::Dex => {
                return instr::dex(self, inst);
            },
            Opcode::Dey => {
                return instr::dey(self, inst);
            },
            Opcode::Eor => {
                return instr::eor(self, inst);
            },
            Opcode::Inc => {
                return instr::inc(self, inst);
            },
            Opcode::Inx => {
                return instr::inx(self, inst);
            },
            Opcode::Iny => {
                return instr::iny(self, inst);
            },
            Opcode::Jmp => {
                return instr::jmp(self, inst);
            },
            Opcode::Jsr => {
                return instr::jsr(self, inst);
            },
            Opcode::Lda => {
                return instr::lda(self, inst);
            },
            Opcode::Ldx => {
                return instr::ldx(self, inst);
            },
            Opcode::Ldy => {
                return instr::ldy(self, inst);
            },
            Opcode::Lsr => {
                return instr::lsr(self, inst);
            },
            Opcode::Nop => {
                return instr::nop(self, inst);
            },
            Opcode::Ora => {
                return instr::ora(self, inst);
            },
            Opcode::Pha => {
                return instr::pha(self, inst);
            },
            Opcode::Php => {
                return instr::php(self, inst);
            },
            Opcode::Phx => {
                return instr::phx(self, inst);
            },
            Opcode::Phy => {
                return instr::phy(self, inst);
            },
            Opcode::Pla => {
                return instr::pla(self, inst);
            },
            Opcode::Plp => {
                return instr::plp(self, inst);
            },
            Opcode::Plx => {
                return instr::plx(self, inst);
            },
            Opcode::Ply => {
                return instr::ply(self, inst);
            },
            Opcode::Rmb0 => {
                return instr::rmb0(self, inst);
            },
            Opcode::Rmb1 => {
                return instr::rmb1(self, inst);
            },
            Opcode::Rmb2 => {
                return instr::rmb2(self, inst);
            },
            Opcode::Rmb3 => {
                return instr::rmb3(self, inst);
            },
            Opcode::Rmb4 => {
                return instr::rmb4(self, inst);
            },
            Opcode::Rmb5 => {
                return instr::rmb5(self, inst);
            },
            Opcode::Rmb6 => {
                return instr::rmb6(self, inst);
            },
            Opcode::Rmb7 => {
                return instr::rmb7(self, inst);
            },
            Opcode::Rol => {
                return instr::rol(self, inst);
            },
            Opcode::Ror => {
                return instr::ror(self, inst);
            },
            Opcode::Rti => {
                return instr::rti(self, inst);
            },
            Opcode::Rts => {
                return instr::rts(self, inst);
            },
            Opcode::Sbc => {
                return instr::sbc(self, inst);
            },
            Opcode::Sec => {
                return instr::sec(self, inst);
            },
            Opcode::Sed => {
                return instr::sed(self, inst);
            },
            Opcode::Sei => {
                return instr::sei(self, inst);
            },
            Opcode::Smb0 => {
                return instr::smb0(self, inst);
            },
            Opcode::Smb1 => {
                return instr::smb1(self, inst);
            },
            Opcode::Smb2 => {
                return instr::smb2(self, inst);
            },
            Opcode::Smb3 => {
                return instr::smb3(self, inst);
            },
            Opcode::Smb4 => {
                return instr::smb4(self, inst);
            },
            Opcode::Smb5 => {
                return instr::smb5(self, inst);
            },
            Opcode::Smb6 => {
                return instr::smb6(self, inst);
            },
            Opcode::Smb7 => {
                return instr::smb7(self, inst);
            },
            Opcode::Sta => {
                return instr::sta(self, inst);
            },
            Opcode::Stp => {
                return instr::stp(self, inst);
            },
            Opcode::Stx => {
                return instr::stx(self, inst);
            },
            Opcode::Sty => {
                return instr::sty(self, inst);
            },
            Opcode::Stz => {
                return instr::stz(self, inst);
            },
            Opcode::Tax => {
                return instr::tax(self, inst);
            },
            Opcode::Tay => {
                return instr::tay(self, inst);
            },
            Opcode::Trb => {
                return instr::trb(self, inst);
            },
            Opcode::Tsb => {
                return instr::tsb(self, inst);
            },
            Opcode::Tsx => {
                return instr::tsx(self, inst);
            },
            Opcode::Txa => {
                return instr::txa(self, inst);
            },
            Opcode::Txs => {
                return instr::txs(self, inst);
            },
            Opcode::Tya => {
                return instr::tya(self, inst);
            },
            Opcode::Wai => {
                return instr::wai(self, inst);
            },
        }
    }

    fn execute_instruction(&mut self, dec_inst: &DecodedInstruction)
        requires
            old(self).ready(),
            dec_inst.instruction.well_formed(),
            1 <= dec_inst.cycles <= crate::st2205u::wdc_65c02::decoder::CYCLES_PER_INSTRUCTION_MAX,
        ensures
            final(self).inv(),
            final(self)@ == old(self)@.executed(*dec_inst),
            final(self).cycles > old(self).cycles,
    {
        let bounds_extra_cycle = self.run(&dec_inst.instruction);
        self.cycles = self.cycles + dec_inst.cycles;
        if bounds_extra_cycle && dec_inst.extra_page_boundary_cycle {
            self.cycles = self.cycles + 1;
        }
    }

    /// Pushes a byte on the stack.
    pub fn push_u8(&mut self, val: u8)
        requires
            old(self).address_space.inv(),
        ensures
            final(self).address_space.inv(),
            final(self)@ == old(self)@.push_u8(val),
    {
        self.address_space.write_u8(self.registers.full_sp() as u32, val);
        self.registers.sp = self.registers.sp.wrapping_sub(1);
    }

    /// Pulls a byte from the stack.
    pub fn pop_u8(&mut self) -> (val: u8)
        requires
            old(self).address_space.inv(),
        ensures
            final(self).address_space.inv(),
            (final(self)@, val) == old(self)@.pop_u8(),
    {
        self.registers.sp = self.registers.sp.wrapping_add(1);
        self.address_space.read_u8(self.registers.full_sp() as u32)
    }

    /// Pushes a word on the stack, the high byte first.
    pub fn push_u16(&mut self, val: u16)
        requires
            old(self).address_space.inv(),
        ensures
            final(self).address_space.inv(),
            final(self)@ == old(self)@.push_u16(val),
    {
        let low = (val % 256) as u8;
        let high = (val / 256) as u8;
        self.push_u8(high);
        self.push_u8(low);
    }

    /// Pulls a word from the stack, the low byte first.
    pub fn pop_u16(&mut self) -> (val: u16)
        requires
            old(self).address_space.inv(),
        ensures
            final(self).address_space.inv(),
            (final(self)@, val) == old(self)@.pop_u16(),
    {
        let low = self.pop_u8();
        let high = self.pop_u8();
        low as u16 + 256 * (high as u16)
    }

    /// Sets the latch that tells whether an interrupt is serviced.
    pub fn set_interrupted(&mut self, interrupted: bool)
        ensures
            final(self)@ == (CoreView {
                mem: old(self)@.mem.with_interrupted(interrupted),
                ..old(self)@
            }),
            final(self).cycles == old(self).cycles,
            old(self).address_space.inv() ==> final(self).address_space.inv(),
    {
        self.address_space.set_interrupted(interrupted);
    }

    /// Whether an interrupt is serviced.
    pub fn interrupted(&self) -> (interrupted: bool)
        ensures
            interrupted == self@.mem.interrupt.interrupted,
    {
        self.address_space.interrupted()
    }
}

impl HandlesInterrupt for Core {
    open spec fn servicing(&self) -> bool {
        self.address_space.interrupt.interrupted
    }

    fn set_interrupted(&mut self, interrupted: bool)
        ensures
            final(self)@ == (CoreView {
                mem: old(self)@.mem.with_interrupted(interrupted),
                ..old(self)@
            }),
    {
        Core::set_interrupted(self, interrupted)
    }

    fn interrupted(&self) -> (interrupted: bool) {
        Core::interrupted(self)
    }
}

} // verus!
