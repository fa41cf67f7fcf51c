//! The four bank registers, which select what the banked windows of the
//! processor's address space show.

use vstd::prelude::*;
use crate::reg::U16Register;
use crate::reg::U8Register;
use crate::st2205u::addr_space::St2205uAddressSpace;

verus! {

/// The bits of BRR that exist.
pub const BRR_MASK: u16 = 0x9FFF;

/// The bits of PRR that exist.
pub const PRR_MASK: u16 = 0x8FFF;

/// The bits of IRR that exist.
pub const IRR_MASK: u16 = 0x8FFF;

/// The bits of DRR that exist.
pub const DRR_MASK: u16 = 0x87FF;

/// The bank registers. A read of a bit that does not exist returns 1.
#[derive(Clone, Copy, Debug)]
pub struct State {
    pub brr: U16Register,
    pub prr: U16Register,
    pub irr: U16Register,
    pub drr: U16Register,
}

impl State {
    pub open spec fn wf(&self) -> bool {
        self.brr.wf() && self.prr.wf() && self.irr.wf() && self.drr.wf()
    }

    /// The registers after power-on: BRR selects on-chip RAM, the others
    /// hold zero.
    pub open spec fn initial() -> State {
        State {
            brr: U16Register {
                l: U8Register { val: 0x00, mask: 0xFF },
                h: U8Register { val: 0x80, mask: 0x9F },
            },
            prr: U16Register {
                l: U8Register { val: 0x00, mask: 0xFF },
                h: U8Register { val: 0x00, mask: 0x8F },
            },
            irr: U16Register {
                l: U8Register { val: 0x00, mask: 0xFF },
                h: U8Register { val: 0x00, mask: 0x8F },
            },
            drr: U16Register {
                l: U8Register { val: 0x00, mask: 0xFF },
                h: U8Register { val: 0x00, mask: 0x87 },
            },
        }
    }

    pub fn new() -> (state: Self)
        ensures
            state == Self::initial(),
            state.wf(),
    {
        proof {
            lemma_reset_values();
        }
        State {
            brr: U16Register::new(0x8000, BRR_MASK),
            prr: U16Register::new(0x0000, PRR_MASK),
            irr: U16Register::new(0x0000, IRR_MASK),
            drr: U16Register::new(0x0000, DRR_MASK),
        }
    }
}

/// The bits behind the round trip of a register: the bytes written,
/// masked and read with the missing bits as 1.
proof fn lemma_round_trip_bits(value: u16, low: u8, high: u8, mask_low: u8, mask_high: u8)
    by (bit_vector)
    ensures
        crate::reg::word(
            (crate::reg::low_byte(value) & mask_low) | !mask_low,
            (crate::reg::high_byte(value) & mask_high) | !mask_high,
        ) == (value & crate::reg::word(mask_low, mask_high)) | !crate::reg::word(
            mask_low,
            mask_high,
        ),
        crate::reg::word((low & mask_low) | !mask_low, (high & mask_high) | !mask_high) == (
        crate::reg::word(low, high) & crate::reg::word(mask_low, mask_high)) | !crate::reg::word(
            mask_low,
            mask_high,
        ),
{
}

/// What is written to a bank register is what its two bytes read
/// afterwards: the bits written that exist in the register, and 1 for
/// every bit that does not exist. This holds of a write of the whole
/// register and of writes of its two bytes, in either order.
pub proof fn lemma_bank_round_trip(register: U16Register, value: u16, low: u8, high: u8)
    ensures
        register.with_u16(value).read_ones() == (value & register.mask()) | !register.mask(),
        register.with_l(low).with_h(high).read_ones() == (crate::reg::word(low, high)
            & register.mask()) | !register.mask(),
        register.with_h(high).with_l(low) == register.with_l(low).with_h(high),
        register.with_u16(value).mask() == register.mask(),
{
    lemma_round_trip_bits(value, low, high, register.l.mask, register.h.mask);
}

/// The bytes of the reset values and masks.
proof fn lemma_reset_values()
    by (bit_vector)
    ensures
        crate::reg::low_byte(0x8000) & crate::reg::low_byte(0x9FFF) == 0x00,
        crate::reg::high_byte(0x8000) & crate::reg::high_byte(0x9FFF) == 0x80,
        crate::reg::low_byte(0x9FFF) == 0xFF,
        crate::reg::high_byte(0x9FFF) == 0x9F,
        crate::reg::low_byte(0x0000) & crate::reg::low_byte(0x8FFF) == 0x00,
        crate::reg::high_byte(0x0000) & crate::reg::high_byte(0x8FFF) == 0x00,
        crate::reg::low_byte(0x8FFF) == 0xFF,
        crate::reg::high_byte(0x8FFF) == 0x8F,
        crate::reg::low_byte(0x0000) & crate::reg::low_byte(0x87FF) == 0x00,
        crate::reg::high_byte(0x0000) & crate::reg::high_byte(0x87FF) == 0x00,
        crate::reg::low_byte(0x87FF) == 0xFF,
        crate::reg::high_byte(0x87FF) == 0x87,
{
}

/// The low byte of BRR, missing bits as 1.
pub fn read_brrl(st2205u: &St2205uAddressSpace) -> (value: u8)
    ensures
        value == st2205u.banks.brr.read_l_ones(),
{
    st2205u.banks.brr.l() | !st2205u.banks.brr.l_mask()
}

/// The high byte of BRR, missing bits as 1.
pub fn read_brrh(st2205u: &St2205uAddressSpace) -> (value: u8)
    ensures
        value == st2205u.banks.brr.read_h_ones(),
{
    st2205u.banks.brr.h() | !st2205u.banks.brr.h_mask()
}

/// The low byte of PRR, missing bits as 1.
pub fn read_prrl(st2205u: &St2205uAddressSpace) -> (value: u8)
    ensures
        value == st2205u.banks.prr.read_l_ones(),
{
    st2205u.banks.prr.l() | !st2205u.banks.prr.l_mask()
}

/// The high byte of PRR, missing bits as 1.
pub fn read_prrh(st2205u: &St2205uAddressSpace) -> (value: u8)
    ensures
        value == st2205u.banks.prr.read_h_ones(),
{
    st2205u.banks.prr.h() | !st2205u.banks.prr.h_mask()
}

/// The low byte of IRR, missing bits as 1.
pub fn read_irrl(st2205u: &St2205uAddressSpace) -> (value: u8)
    ensures
        value == st2205u.banks.irr.read_l_ones(),
{
    st2205u.banks.irr.l() | !st2205u.banks.irr.l_mask()
}

/// The high byte of IRR, missing bits as 1.
pub fn read_irrh(st2205u: &St2205uAddressSpace) -> (value: u8)
    ensures
        value == st2205u.banks.irr.read_h_ones(),
{
    st2205u.banks.irr.h() | !st2205u.banks.irr.h_mask()
}

/// The low byte of DRR, missing bits as 1.
pub fn read_drrl(st2205u: &St2205uAddressSpace) -> (value: u8)
    ensures
        value == st2205u.banks.drr.read_l_ones(),
{
    st2205u.banks.drr.l() | !st2205u.banks.drr.l_mask()
}

/// The high byte of DRR, missing bits as 1.
pub fn read_drrh(st2205u: &St2205uAddressSpace) -> (value: u8)
    ensures
        value == st2205u.banks.drr.read_h_ones(),
{
    st2205u.banks.drr.h() | !st2205u.banks.drr.h_mask()
}

/// Writes the low byte of BRR.
pub fn write_brrl(st2205u: &mut St2205uAddressSpace, value: u8)
    ensures
        *final(st2205u) == (St2205uAddressSpace {
            banks: State { brr: old(st2205u).banks.brr.with_l(value), ..old(st2205u).banks },
            ..*old(st2205u)
        }),
        old(st2205u).banks.wf() ==> final(st2205u).banks.wf(),
{
    st2205u.banks.brr.set_l(value)
}

/// Writes the high byte of BRR.
pub fn write_brrh(st2205u: &mut St2205uAddressSpace, value: u8)
    ensures
        *final(st2205u) == (St2205uAddressSpace {
            banks: State { brr: old(st2205u).banks.brr.with_h(value), ..old(st2205u).banks },
            ..*old(st2205u)
        }),
        old(st2205u).banks.wf() ==> final(st2205u).banks.wf(),
{
    st2205u.banks.brr.set_h(value)
}

/// Writes the low byte of PRR.
pub fn write_prrl(st2205u: &mut St2205uAddressSpace, value: u8)
    ensures
        *final(st2205u) == (St2205uAddressSpace {
            banks: State { prr: old(st2205u).banks.prr.with_l(value), ..old(st2205u).banks },
            ..*old(st2205u)
        }),
        old(st2205u).banks.wf() ==> final(st2205u).banks.wf(),
{
    st2205u.banks.prr.set_l(value)
}

/// Writes the high byte of PRR.
pub fn write_prrh(st2205u: &mut St2205uAddressSpace, value: u8)
    ensures
        *final(st2205u) == (St2205uAddressSpace {
            banks: State { prr: old(st2205u).banks.prr.with_h(value), ..old(st2205u).banks },
            ..*old(st2205u)
        }),
        old(st2205u).banks.wf() ==> final(st2205u).banks.wf(),
{
    st2205u.banks.prr.set_h(value)
}

/// Writes the low byte of IRR.
pub fn write_irrl(st2205u: &mut St2205uAddressSpace, value: u8)
    ensures
        *final(st2205u) == (St2205uAddressSpace {
            banks: State { irr: old(st2205u).banks.irr.with_l(value), ..old(st2205u).banks },
            ..*old(st2205u)
        }),
        old(st2205u).banks.wf() ==> final(st2205u).banks.wf(),
{
    st2205u.banks.irr.set_l(value)
}

/// Writes the high byte of IRR.
pub fn write_irrh(st2205u: &mut St2205uAddressSpace, value: u8)
    ensures
        *final(st2205u) == (St2205uAddressSpace {
            banks: State { irr: old(st2205u).banks.irr.with_h(value), ..old(st2205u).banks },
            ..*old(st2205u)
        }),
        old(st2205u).banks.wf() ==> final(st2205u).banks.wf(),
{
    st2205u.banks.irr.set_h(value)
}

/// Writes the low byte of DRR.
pub fn write_drrl(st2205u: &mut St2205uAddressSpace, value: u8)
    ensures
        *final(st2205u) == (St2205uAddressSpace {
            banks: State { drr: old(st2205u).banks.drr.with_l(value), ..old(st2205u).banks },
            ..*old(st2205u)
        }),
        old(st2205u).banks.wf() ==> final(st2205u).banks.wf(),
{
    st2205u.banks.drr.set_l(value)
}

/// Writes the high byte of DRR.
pub fn write_drrh(st2205u: &mut St2205uAddressSpace, value: u8)
    ensures
        *final(st2205u) == (St2205uAddressSpace {
            banks: State { drr: old(st2205u).banks.drr.with_h(value), ..old(st2205u).banks },
            ..*old(st2205u)
        }),
        old(st2205u).banks.wf() ==> final(st2205u).banks.wf(),
{
    st2205u.banks.drr.set_h(value)
}

/// BRR as the windows see it: the stored bits, missing bits as 1.
pub fn brr(st2205u: &St2205uAddressSpace) -> (value: u16)
    ensures
        value == st2205u.banks.brr.read_ones(),
{
    (read_brrl(st2205u) as u16) | ((read_brrh(st2205u) as u16) << 8)
}

/// Writes both bytes of BRR.
pub fn set_brr(st2205u: &mut St2205uAddressSpace, value: u16)
    ensures
        *final(st2205u) == (St2205uAddressSpace {
            banks: State { brr: old(st2205u).banks.brr.with_u16(value), ..old(st2205u).banks },
            ..*old(st2205u)
        }),
        old(st2205u).banks.wf() ==> final(st2205u).banks.wf(),
{
    st2205u.banks.brr.set_u16(value)
}

/// PRR as the windows see it: the stored bits, missing bits as 1.
pub fn prr(st2205u: &St2205uAddressSpace) -> (value: u16)
    ensures
        value == st2205u.banks.prr.read_ones(),
{
    (read_prrl(st2205u) as u16) | ((read_prrh(st2205u) as u16) << 8)
}

/// Writes both bytes of PRR.
pub fn set_prr(st2205u: &mut St2205uAddressSpace, value: u16)
    ensures
        *final(st2205u) == (St2205uAddressSpace {
            banks: State { prr: old(st2205u).banks.prr.with_u16(value), ..old(st2205u).banks },
            ..*old(st2205u)
        }),
        old(st2205u).banks.wf() ==> final(st2205u).banks.wf(),
{
    st2205u.banks.prr.set_u16(value)
}

/// IRR as the windows see it: the stored bits, missing bits as 1.
pub fn irr(st2205u: &St2205uAddressSpace) -> (value: u16)
    ensures
        value == st2205u.banks.irr.read_ones(),
{
    (read_irrl(st2205u) as u16) | ((read_irrh(st2205u) as u16) << 8)
}

/// Writes both bytes of IRR.
pub fn set_irr(st2205u: &mut St2205uAddressSpace, value: u16)
    ensures
        *final(st2205u) == (St2205uAddressSpace {
            banks: State { irr: old(st2205u).banks.irr.with_u16(value), ..old(st2205u).banks },
            ..*old(st2205u)
        }),
        old(st2205u).banks.wf() ==> final(st2205u).banks.wf(),
{
    st2205u.banks.irr.set_u16(value)
}

/// DRR as the windows see it: the stored bits, missing bits as 1.
pub fn drr(st2205u: &St2205uAddressSpace) -> (value: u16)
    ensures
        value == st2205u.banks.drr.read_ones(),
{
    (read_drrl(st2205u) as u16) | ((read_drrh(st2205u) as u16) << 8)
}

/// Writes both bytes of DRR.
pub fn set_drr(st2205u: &mut St2205uAddressSpace, value: u16)
    ensures
        *final(st2205u) == (St2205uAddressSpace {
            banks: State { drr: old(st2205u).banks.drr.with_u16(value), ..old(st2205u).banks },
            ..*old(st2205u)
        }),
        old(st2205u).banks.wf() ==> final(st2205u).banks.wf(),
{
    st2205u.banks.drr.set_u16(value)
}

} // verus!
