//! The DMA engine, which copies bytes between two banked regions through
//! the window of DRR.

use vstd::prelude::*;
use crate::reg::U16Register;
use crate::reg::U8Register;
use crate::st2205u::addr_space::SpaceView;
use crate::st2205u::addr_space::St2205uAddressSpace;
use crate::st2205u::bank;

verus! {

/// The registers of the DMA engine.
#[derive(Clone, Copy, Debug)]
pub struct State {
    /// The source pointer: DPTR while DSEL selects the source.
    pub src_dptr: U16Register,
    /// The destination pointer: DPTR while DSEL selects the destination.
    pub dest_dptr: U16Register,
    /// The source bank: DBKR while DSEL selects the source.
    pub src_dbkr: U16Register,
    /// The destination bank: DBKR while DSEL selects the destination.
    pub dest_dbkr: U16Register,
    /// DCNT: the number of bytes to copy.
    pub dcnt: U16Register,
    /// DSEL: which pointer and bank the registers DPTR and DBKR show.
    pub dsel: U8Register,
    /// DMOD: how the pointers move.
    pub dmod: U8Register,
}

/// Which of the two pointers DPTR and DBKR show.
#[derive(Clone, Copy, Debug, PartialEq, Eq, Structural)]
pub enum PointerSelection {
    Source,
    Destination,
}

/// How a pointer moves during and after a transfer.
#[derive(Clone, Copy, Debug, PartialEq, Eq, Structural)]
pub enum Mode {
    /// The pointer moves on with every byte and stays where the transfer ends.
    Continue,
    /// The pointer moves on with every byte and returns to its start
    /// when the transfer ends.
    Reload,
    /// The pointer does not move.
    Fixed,
}

impl Mode {
    /// The mode that two bits of DMOD select.
    pub open spec fn of_bits(bits: int) -> Mode {
        if bits == 0 {
            Mode::Continue
        } else if bits == 1 {
            Mode::Reload
        } else {
            Mode::Fixed
        }
    }

    /// Whether the pointer moves on with every byte.
    pub open spec fn moves(self) -> bool {
        self != Mode::Fixed
    }
}

/// A register of 16 bits with the bits of `mask` that holds zero.
pub open spec fn zeroed(mask_low: u8, mask_high: u8) -> U16Register {
    U16Register {
        l: U8Register { val: 0, mask: mask_low },
        h: U8Register { val: 0, mask: mask_high },
    }
}

/// The address in the window of DRR that a pointer register names.
pub open spec fn window_address(pointer: U16Register) -> u16 {
    (pointer.value() % 0x8000 + 0x8000) as u16
}

/// The address after `address`, which wraps around after 16 bits.
pub open spec fn next_address(address: u16) -> u16 {
    ((address + 1) % 0x10000) as u16
}

impl State {
    pub open spec fn wf(&self) -> bool {
        &&& self.src_dptr.wf()
        &&& self.dest_dptr.wf()
        &&& self.src_dbkr.wf()
        &&& self.dest_dbkr.wf()
        &&& self.dcnt.wf()
    }

    /// The registers after power-on.
    pub open spec fn initial() -> State {
        State {
            src_dptr: zeroed(0xFF, 0x7F),
            dest_dptr: zeroed(0xFF, 0x7F),
            src_dbkr: zeroed(0xFF, 0x87),
            dest_dbkr: zeroed(0xFF, 0x87),
            dcnt: zeroed(0xFF, 0x7F),
            dsel: U8Register { val: 0, mask: 0x03 },
            dmod: U8Register { val: 0, mask: 0x3F },
        }
    }

    /// Which pointer and bank DPTR and DBKR show: bit 0 of DSEL.
    pub open spec fn selection(self) -> PointerSelection {
        if self.dsel.val % 2 == 0 {
            PointerSelection::Source
        } else {
            PointerSelection::Destination
        }
    }

    /// How the source pointer moves: the bits 0 and 1 of DMOD.
    pub open spec fn src_mode(self) -> Mode {
        Mode::of_bits(self.dmod.val as int % 4)
    }

    /// How the destination pointer moves: the bits 2 and 3 of DMOD.
    pub open spec fn dest_mode(self) -> Mode {
        Mode::of_bits((self.dmod.val as int / 4) % 4)
    }

    /// The pointer that DPTR shows.
    pub open spec fn dptr(self) -> U16Register {
        match self.selection() {
            PointerSelection::Source => self.src_dptr,
            PointerSelection::Destination => self.dest_dptr,
        }
    }

    /// The bank that DBKR shows.
    pub open spec fn dbkr(self) -> U16Register {
        match self.selection() {
            PointerSelection::Source => self.src_dbkr,
            PointerSelection::Destination => self.dest_dbkr,
        }
    }

    /// The registers with `pointer` in the place that DPTR shows.
    pub open spec fn with_dptr(self, pointer: U16Register) -> State {
        match self.selection() {
            PointerSelection::Source => State { src_dptr: pointer, ..self },
            PointerSelection::Destination => State { dest_dptr: pointer, ..self },
        }
    }

    /// The registers with `bank` in the place that DBKR shows.
    pub open spec fn with_dbkr(self, bank: U16Register) -> State {
        match self.selection() {
            PointerSelection::Source => State { src_dbkr: bank, ..self },
            PointerSelection::Destination => State { dest_dbkr: bank, ..self },
        }
    }

    /// DPTRL as the firmware reads it, missing bits as 1.
    pub open spec fn dptrl(self) -> u8 {
        self.dptr().read_l_ones()
    }

    /// DPTRH as the firmware reads it, missing bits as 1.
    pub open spec fn dptrh(self) -> u8 {
        self.dptr().read_h_ones()
    }

    /// DBKRL as the firmware reads it, missing bits as 1.
    pub open spec fn dbkrl(self) -> u8 {
        self.dbkr().read_l_ones()
    }

    /// DBKRH as the firmware reads it, missing bits as 1.
    pub open spec fn dbkrh(self) -> u8 {
        self.dbkr().read_h_ones()
    }

    /// DCNTL as the firmware reads it, missing bits as 1.
    pub open spec fn dcntl(self) -> u8 {
        self.dcnt.read_l_ones()
    }

    /// DCNTH as the firmware reads it, missing bits as 1.
    pub open spec fn dcnth(self) -> u8 {
        self.dcnt.read_h_ones()
    }

    pub open spec fn with_dptrl(self, value: u8) -> State {
        self.with_dptr(self.dptr().with_l(value))
    }

    pub open spec fn with_dptrh(self, value: u8) -> State {
        self.with_dptr(self.dptr().with_h(value))
    }

    pub open spec fn with_dbkrl(self, value: u8) -> State {
        self.with_dbkr(self.dbkr().with_l(value))
    }

    pub open spec fn with_dbkrh(self, value: u8) -> State {
        self.with_dbkr(self.dbkr().with_h(value))
    }

    pub open spec fn with_dcntl(self, value: u8) -> State {
        State { dcnt: self.dcnt.with_l(value), ..self }
    }

    pub open spec fn with_dcnth(self, value: u8) -> State {
        State { dcnt: self.dcnt.with_h(value), ..self }
    }

    /// The registers after one byte was copied: each pointer that moves
    /// names the next address.
    pub open spec fn advanced(self) -> State {
        State {
            src_dptr: if self.src_mode().moves() {
                self.src_dptr.with_u16(next_address(window_address(self.src_dptr)))
            } else {
                self.src_dptr
            },
            dest_dptr: if self.dest_mode().moves() {
                self.dest_dptr.with_u16(next_address(window_address(self.dest_dptr)))
            } else {
                self.dest_dptr
            },
            ..self
        }
    }

    pub fn new() -> (state: Self)
        ensures
            state == Self::initial(),
            state.wf(),
    {
        proof {
            lemma_reset_values();
        }
        State {
            src_dptr: U16Register::new(0b0000_0000_0000_0000, 0b0111_1111_1111_1111),
            dest_dptr: U16Register::new(0b0000_0000_0000_0000, 0b0111_1111_1111_1111),
            src_dbkr: U16Register::new(0b0000_0000_0000_0000, 0b1000_0111_1111_1111),
            dest_dbkr: U16Register::new(0b0000_0000_0000_0000, 0b1000_0111_1111_1111),
            dcnt: U16Register::new(0b0000_0000_0000_0000, 0b0111_1111_1111_1111),
            dsel: U8Register::new(0b0000_0000, 0b0000_0011),
            dmod: U8Register::new(0b0000_0000, 0b0011_1111),
        }
    }

    /// Moves on each pointer that moves.
    fn advance(&mut self)
        requires
            old(self).wf(),
        ensures
            final(self).wf(),
            *final(self) == old(self).advanced(),
    {
        let mut src_dptr = self.src_dptr;
        let mut dest_dptr = self.dest_dptr;
        let src_ptr: u16 = src_dptr.u16() % 0x8000 + 0x8000;
        let dest_ptr: u16 = dest_dptr.u16() % 0x8000 + 0x8000;
        src_dptr.set_u16(src_ptr.wrapping_add(1));
        dest_dptr.set_u16(dest_ptr.wrapping_add(1));
        let src_moves = match self.get_src_mode() {
            Mode::Continue | Mode::Reload => true,
            Mode::Fixed => false,
        };
        let dest_moves = match self.get_dest_mode() {
            Mode::Continue | Mode::Reload => true,
            Mode::Fixed => false,
        };
        *self = State {
            src_dptr: if src_moves {
                src_dptr
            } else {
                self.src_dptr
            },
            dest_dptr: if dest_moves {
                dest_dptr
            } else {
                self.dest_dptr
            },
            src_dbkr: self.src_dbkr,
            dest_dbkr: self.dest_dbkr,
            dcnt: self.dcnt,
            dsel: self.dsel,
            dmod: self.dmod,
        };
    }

    fn get_ptr_selection(&self) -> (selection: PointerSelection)
        ensures
            selection == self.selection(),
    {
        if self.dsel.get() % 2 == 0 {
            PointerSelection::Source
        } else {
            PointerSelection::Destination
        }
    }

    fn get_src_mode(&self) -> (mode: Mode)
        ensures
            mode == self.src_mode(),
    {
        Self::get_mode(self.dmod.get() % 4)
    }

    fn get_dest_mode(&self) -> (mode: Mode)
        ensures
            mode == self.dest_mode(),
    {
        Self::get_mode((self.dmod.get() / 4) % 4)
    }

    fn get_mode(mode_bits: u8) -> (mode: Mode)
        ensures
            mode == Mode::of_bits(mode_bits as int),
    {
        if mode_bits == 0b00 {
            Mode::Continue
        } else if mode_bits == 0b01 {
            Mode::Reload
        } else {
            Mode::Fixed
        }
    }
}

/// The bytes of the reset values and masks.
proof fn lemma_reset_values()
    by (bit_vector)
    ensures
        crate::reg::low_byte(0x0000) & crate::reg::low_byte(0x7FFF) == 0x00,
        crate::reg::high_byte(0x0000) & crate::reg::high_byte(0x7FFF) == 0x00,
        crate::reg::low_byte(0x7FFF) == 0xFF,
        crate::reg::high_byte(0x7FFF) == 0x7F,
        crate::reg::low_byte(0x0000) & crate::reg::low_byte(0x87FF) == 0x00,
        crate::reg::high_byte(0x0000) & crate::reg::high_byte(0x87FF) == 0x00,
        crate::reg::low_byte(0x87FF) == 0xFF,
        crate::reg::high_byte(0x87FF) == 0x87,
        0x00u8 & 0x03u8 == 0x00u8,
        0x00u8 & 0x3Fu8 == 0x00u8,
{
}

impl SpaceView {
    /// The address space after the DMA engine copied one byte: it is read
    /// through the window of DRR with the source bank in DRR, and written
    /// through it with the destination bank in DRR.
    pub open spec fn dma_step(self) -> SpaceView {
        let source = SpaceView { banks: bank::State { drr: self.dma.src_dbkr, ..self.banks }, ..self };
        let src_ptr = window_address(self.dma.src_dptr);
        let byte = source.memory_value(src_ptr);
        let read = source.after_memory_read(src_ptr);
        let destination = SpaceView {
            banks: bank::State { drr: self.dma.dest_dbkr, ..read.banks },
            ..read
        };
        let written = destination.after_memory_write(window_address(self.dma.dest_dptr), byte);
        SpaceView { dma: self.dma.advanced(), ..written }
    }

    /// The address space after the DMA engine copied `count` bytes.
    pub open spec fn dma_steps(self, count: nat) -> SpaceView
        decreases count,
    {
        if count == 0 {
            self
        } else {
            self.dma_steps((count - 1) as nat).dma_step()
        }
    }

    /// The address space after a transfer of as many bytes as DCNT
    /// holds: the bytes are copied, DRR is as before, and a pointer in
    /// the mode `Reload` is as before.
    pub open spec fn after_dma(self) -> SpaceView {
        let copied = self.dma_steps(self.dma.dcnt.value() as nat);
        SpaceView {
            banks: bank::State { drr: self.banks.drr, ..copied.banks },
            dma: State {
                src_dptr: if self.dma.src_mode() == Mode::Reload {
                    self.dma.src_dptr
                } else {
                    copied.dma.src_dptr
                },
                dest_dptr: if self.dma.dest_mode() == Mode::Reload {
                    self.dma.dest_dptr
                } else {
                    copied.dma.dest_dptr
                },
                ..copied.dma
            },
            ..copied
        }
    }
}

/// Writes the low byte of the pointer that DSEL selects.
pub fn write_dptrl(st2205u: &mut St2205uAddressSpace, val: u8)
    ensures
        *final(st2205u) == (St2205uAddressSpace {
            dma: old(st2205u).dma.with_dptrl(val),
            ..*old(st2205u)
        }),
        old(st2205u).dma.wf() ==> final(st2205u).dma.wf(),
{
    match st2205u.dma.get_ptr_selection() {
        PointerSelection::Source => st2205u.dma.src_dptr.set_l(val),
        PointerSelection::Destination => st2205u.dma.dest_dptr.set_l(val),
    }
}

/// Writes the high byte of the pointer that DSEL selects.
pub fn write_dptrh(st2205u: &mut St2205uAddressSpace, val: u8)
    ensures
        *final(st2205u) == (St2205uAddressSpace {
            dma: old(st2205u).dma.with_dptrh(val),
            ..*old(st2205u)
        }),
        old(st2205u).dma.wf() ==> final(st2205u).dma.wf(),
{
    match st2205u.dma.get_ptr_selection() {
        PointerSelection::Source => st2205u.dma.src_dptr.set_h(val),
        PointerSelection::Destination => st2205u.dma.dest_dptr.set_h(val),
    }
}

/// Writes the low byte of the bank that DSEL selects.
pub fn write_dbkrl(st2205u: &mut St2205uAddressSpace, val: u8)
    ensures
        *final(st2205u) == (St2205uAddressSpace {
            dma: old(st2205u).dma.with_dbkrl(val),
            ..*old(st2205u)
        }),
        old(st2205u).dma.wf() ==> final(st2205u).dma.wf(),
{
    match st2205u.dma.get_ptr_selection() {
        PointerSelection::Source => st2205u.dma.src_dbkr.set_l(val),
        PointerSelection::Destination => st2205u.dma.dest_dbkr.set_l(val),
    }
}

/// Writes the high byte of the bank that DSEL selects.
pub fn write_dbkrh(st2205u: &mut St2205uAddressSpace, val: u8)
    ensures
        *final(st2205u) == (St2205uAddressSpace {
            dma: old(st2205u).dma.with_dbkrh(val),
            ..*old(st2205u)
        }),
        old(st2205u).dma.wf() ==> final(st2205u).dma.wf(),
{
    match st2205u.dma.get_ptr_selection() {
        PointerSelection::Source => st2205u.dma.src_dbkr.set_h(val),
        PointerSelection::Destination => st2205u.dma.dest_dbkr.set_h(val),
    }
}

/// Writes the low byte of the length.
pub fn write_dcntl(st2205u: &mut St2205uAddressSpace, val: u8)
    ensures
        *final(st2205u) == (St2205uAddressSpace {
            dma: old(st2205u).dma.with_dcntl(val),
            ..*old(st2205u)
        }),
        old(st2205u).dma.wf() ==> final(st2205u).dma.wf(),
{
    st2205u.dma.dcnt.set_l(val);
}

/// Writes the high byte of the length and runs the transfer.
pub fn write_dcnth(st2205u: &mut St2205uAddressSpace, val: u8)
    requires
        old(st2205u).inv(),
    ensures
        final(st2205u).inv(),
        final(st2205u)@ == (SpaceView {
            dma: old(st2205u)@.dma.with_dcnth(val),
            ..old(st2205u)@
        }).after_dma(),
{
    st2205u.dma.dcnt.set_h(val);
    execute_dma(st2205u);
}

/// Writes DSEL.
pub fn write_dsel(st2205u: &mut St2205uAddressSpace, val: u8)
    ensures
        *final(st2205u) == (St2205uAddressSpace {
            dma: State { dsel: old(st2205u).dma.dsel.with(val), ..old(st2205u).dma },
            ..*old(st2205u)
        }),
{
    st2205u.dma.dsel.set(val);
}

/// Writes DMOD.
pub fn write_dmod(st2205u: &mut St2205uAddressSpace, val: u8)
    ensures
        *final(st2205u) == (St2205uAddressSpace {
            dma: State { dmod: old(st2205u).dma.dmod.with(val), ..old(st2205u).dma },
            ..*old(st2205u)
        }),
{
    st2205u.dma.dmod.set(val);
}

/// The low byte of the pointer that DSEL selects.
pub fn read_dptrl(st2205u: &mut St2205uAddressSpace) -> (value: u8)
    ensures
        *final(st2205u) == *old(st2205u),
        value == old(st2205u).dma.dptrl(),
{
    match st2205u.dma.get_ptr_selection() {
        PointerSelection::Source => st2205u.dma.src_dptr.l() | !st2205u.dma.src_dptr.l_mask(),
        PointerSelection::Destination => st2205u.dma.dest_dptr.l()
            | !st2205u.dma.dest_dptr.l_mask(),
    }
}

/// The high byte of the pointer that DSEL selects.
pub fn read_dptrh(st2205u: &mut St2205uAddressSpace) -> (value: u8)
    ensures
        *final(st2205u) == *old(st2205u),
        value == old(st2205u).dma.dptrh(),
{
    match st2205u.dma.get_ptr_selection() {
        PointerSelection::Source => st2205u.dma.src_dptr.h() | !st2205u.dma.src_dptr.h_mask(),
        PointerSelection::Destination => st2205u.dma.dest_dptr.h()
            | !st2205u.dma.dest_dptr.h_mask(),
    }
}

/// The low byte of the bank that DSEL selects.
pub fn read_dbkrl(st2205u: &mut St2205uAddressSpace) -> (value: u8)
    ensures
        *final(st2205u) == *old(st2205u),
        value == old(st2205u).dma.dbkrl(),
{
    match st2205u.dma.get_ptr_selection() {
        PointerSelection::Source => st2205u.dma.src_dbkr.l() | !st2205u.dma.src_dbkr.l_mask(),
        PointerSelection::Destination => st2205u.dma.dest_dbkr.l()
            | !st2205u.dma.dest_dbkr.l_mask(),
    }
}

/// The high byte of the bank that DSEL selects.
pub fn read_dbkrh(st2205u: &mut St2205uAddressSpace) -> (value: u8)
    ensures
        *final(st2205u) == *old(st2205u),
        value == old(st2205u).dma.dbkrh(),
{
    match st2205u.dma.get_ptr_selection() {
        PointerSelection::Source => st2205u.dma.src_dbkr.h() | !st2205u.dma.src_dbkr.h_mask(),
        PointerSelection::Destination => st2205u.dma.dest_dbkr.h()
            | !st2205u.dma.dest_dbkr.h_mask(),
    }
}

/// The low byte of the length.
pub fn read_dcntl(st2205u: &mut St2205uAddressSpace) -> (value: u8)
    ensures
        *final(st2205u) == *old(st2205u),
        value == old(st2205u).dma.dcntl(),
{
    st2205u.dma.dcnt.l() | !st2205u.dma.dcnt.l_mask()
}

/// The high byte of the length.
pub fn read_dcnth(st2205u: &mut St2205uAddressSpace) -> (value: u8)
    ensures
        *final(st2205u) == *old(st2205u),
        value == old(st2205u).dma.dcnth(),
{
    st2205u.dma.dcnt.h() | !st2205u.dma.dcnt.h_mask()
}

/// DSEL as the firmware reads it, missing bits as 1.
pub fn read_dsel(st2205u: &mut St2205uAddressSpace) -> (value: u8)
    ensures
        *final(st2205u) == *old(st2205u),
        value == old(st2205u).dma.dsel.read_ones(),
{
    st2205u.dma.dsel.read()
}

/// DMOD as the firmware reads it, missing bits as 1.
pub fn read_dmod(st2205u: &mut St2205uAddressSpace) -> (value: u8)
    ensures
        *final(st2205u) == *old(st2205u),
        value == old(st2205u).dma.dmod.read_ones(),
{
    st2205u.dma.dmod.read()
}

/// Copies one byte and moves the pointers on.
fn transfer_byte(st2205u: &mut St2205uAddressSpace)
    requires
        old(st2205u).inv(),
    ensures
        final(st2205u).inv(),
        final(st2205u)@ == old(st2205u)@.dma_step(),
        final(st2205u).dma.dcnt == old(st2205u).dma.dcnt,
        final(st2205u).dma.dmod == old(st2205u).dma.dmod,
{
    // Switch to the source bank and read.
    st2205u.banks.drr = st2205u.dma.src_dbkr;
    let src_ptr: u16 = st2205u.dma.src_dptr.u16() % 0x8000 + 0x8000;
    let src_byte = st2205u.read_memory(src_ptr);
    // Switch to the destination bank and write.
    st2205u.banks.drr = st2205u.dma.dest_dbkr;
    let dest_ptr: u16 = st2205u.dma.dest_dptr.u16() % 0x8000 + 0x8000;
    st2205u.write_memory(dest_ptr, src_byte);
    st2205u.dma.advance();
}

/// Runs a transfer of as many bytes as DCNT holds.
fn execute_dma(st2205u: &mut St2205uAddressSpace)
    requires
        old(st2205u).inv(),
    ensures
        final(st2205u).inv(),
        final(st2205u)@ == old(st2205u)@.after_dma(),
{
    // DRR is restored at the end.
    let saved_drr = st2205u.banks.drr;
    // The pointers are restored at the end in the mode `Reload`.
    let saved_src_dptr = st2205u.dma.src_dptr;
    let saved_dest_dptr = st2205u.dma.dest_dptr;
    let count = st2205u.dma.dcnt.u16();
    let mut i: u16 = 0;
    while i < count
        invariant
            i <= count,
            st2205u.inv(),
            st2205u@ == old(st2205u)@.dma_steps(i as nat),
            st2205u.dma.dcnt == old(st2205u).dma.dcnt,
            st2205u.dma.dmod == old(st2205u).dma.dmod,
        decreases count - i,
    {
        transfer_byte(st2205u);
        i = i + 1;
    }
    if let Mode::Reload = st2205u.dma.get_src_mode() {
        st2205u.dma.src_dptr = saved_src_dptr;
    }
    if let Mode::Reload = st2205u.dma.get_dest_mode() {
        st2205u.dma.dest_dptr = saved_dest_dptr;
    }
    st2205u.banks.drr = saved_drr;
}

} // verus!
