//! Byte-wide and word-wide control registers with writable-bit masks.
//!
//! Every control register keeps the set of bits that exist in silicon. A
//! write stores only those bits; the peripherals decide what a read of the
//! missing bits returns.

use vstd::prelude::*;

verus! {

/// An 8-bit register of which only the bits set in `mask` exist.
#[derive(Clone, Copy, Debug, Default)]
pub struct U8Register {
    pub val: u8,
    /// Bits which exist in this register.
    pub mask: u8,
}

impl U8Register {
    /// The stored value holds no bit outside the mask.
    pub open spec fn wf(&self) -> bool {
        self.val & self.mask == self.val
    }

    /// The register after a write of `value`.
    pub open spec fn with(self, value: u8) -> U8Register {
        U8Register { val: value & self.mask, mask: self.mask }
    }

    /// What the firmware reads: the stored bits, and 1 for every bit that
    /// does not exist.
    pub open spec fn read_ones(&self) -> u8 {
        self.val | !self.mask
    }

    /// The register as the firmware reads it.
    pub fn read(&self) -> (v: u8)
        ensures
            v == self.read_ones(),
    {
        self.val | !self.mask
    }

    /// A register with the given mask that holds the bits of `value` that exist.
    pub fn new(value: u8, mask: u8) -> (reg: Self)
        ensures
            reg.wf(),
            reg == (U8Register { val: value & mask, mask }),
    {
        proof {
            lemma_bytes_and_masks(0, 0, value, mask);
        }
        U8Register { val: value & mask, mask }
    }

    pub fn mask(&self) -> (m: u8)
        ensures
            m == self.mask,
    {
        self.mask
    }

    /// Stores the bits of `value` that exist in this register.
    pub fn set(&mut self, value: u8)
        ensures
            *final(self) == old(self).with(value),
            final(self).wf(),
    {
        proof {
            lemma_bytes_and_masks(0, 0, value, self.mask);
        }
        self.val = value & self.mask;
    }

    pub fn get(&self) -> (v: u8)
        ensures
            v == self.val,
    {
        self.val
    }
}

/// The low byte of a 16-bit word.
pub open spec fn low_byte(value: u16) -> u8 {
    (value & 0x00FF) as u8
}

/// The high byte of a 16-bit word.
pub open spec fn high_byte(value: u16) -> u8 {
    ((value & 0xFF00) >> 8) as u8
}

/// The 16-bit word made of a low and a high byte.
pub open spec fn word(low: u8, high: u8) -> u16 {
    (low as u16) | ((high as u16) << 8)
}

/// Facts on bytes, words and masks that the registers rest on: masking is
/// idempotent, a word is the join of its two bytes, and masking a word is
/// masking its bytes.
pub proof fn lemma_bytes_and_masks(value: u16, mask: u16, low: u8, high: u8)
    by (bit_vector)
    ensures
        (low & high) & high == low & high,
        word(low_byte(value), high_byte(value)) == value,
        low_byte(word(low, high)) == low,
        high_byte(word(low, high)) == high,
        word(low_byte(value) & low_byte(mask), high_byte(value) & high_byte(mask)) == value
            & mask,
        word(low_byte(value) & low, high_byte(value) & high) == value & word(low, high),
{
}

/// A 16-bit register made of two byte registers.
#[derive(Clone, Copy, Debug, Default)]
pub struct U16Register {
    /// Low byte of the register.
    pub l: U8Register,
    /// High byte of the register.
    pub h: U8Register,
}

impl U16Register {
    pub open spec fn wf(&self) -> bool {
        self.l.wf() && self.h.wf()
    }

    /// The stored 16-bit value.
    pub open spec fn value(&self) -> u16 {
        word(self.l.val, self.h.val)
    }

    /// The 16-bit mask of the bits that exist.
    pub open spec fn mask(&self) -> u16 {
        word(self.l.mask, self.h.mask)
    }

    /// The register after a write of `value` to its low byte.
    pub open spec fn with_l(self, value: u8) -> U16Register {
        U16Register { l: self.l.with(value), h: self.h }
    }

    /// The register after a write of `value` to its high byte.
    pub open spec fn with_h(self, value: u8) -> U16Register {
        U16Register { l: self.l, h: self.h.with(value) }
    }

    /// The register after a write of the whole word `value`.
    pub open spec fn with_u16(self, value: u16) -> U16Register {
        U16Register { l: self.l.with(low_byte(value)), h: self.h.with(high_byte(value)) }
    }

    /// What a read of the low byte returns where missing bits read as 1.
    pub open spec fn read_l_ones(&self) -> u8 {
        self.l.val | !self.l.mask
    }

    /// What a read of the high byte returns where missing bits read as 1.
    pub open spec fn read_h_ones(&self) -> u8 {
        self.h.val | !self.h.mask
    }

    /// The whole word where missing bits read as 1.
    pub open spec fn read_ones(&self) -> u16 {
        word(self.read_l_ones(), self.read_h_ones())
    }

    /// A register with mask `mask` that holds the bits of `value` that exist.
    pub fn new(value: u16, mask: u16) -> (reg: Self)
        ensures
            reg.wf(),
            reg.l == (U8Register { val: low_byte(value) & low_byte(mask), mask: low_byte(mask) }),
            reg.h == (U8Register {
                val: high_byte(value) & high_byte(mask),
                mask: high_byte(mask),
            }),
            reg.mask() == mask,
            reg.value() == value & mask,
    {
        let l = U8Register::new((value & 0x00FF) as u8, (mask & 0x00FF) as u8);
        let h = U8Register::new(((value & 0xFF00) >> 8) as u8, ((mask & 0xFF00) >> 8) as u8);
        proof {
            lemma_bytes_and_masks(mask, mask, 0, 0);
            lemma_bytes_and_masks(value, mask, 0, 0);
        }
        U16Register { l, h }
    }

    pub fn u16(&self) -> (v: u16)
        ensures
            v == self.value(),
    {
        (self.l.get() as u16) | ((self.h.get() as u16) << 8)
    }

    pub fn l(&self) -> (v: u8)
        ensures
            v == self.l.val,
    {
        self.l.get()
    }

    pub fn h(&self) -> (v: u8)
        ensures
            v == self.h.val,
    {
        self.h.get()
    }

    pub fn set_l(&mut self, value: u8)
        ensures
            *final(self) == old(self).with_l(value),
            old(self).h.wf() ==> final(self).wf(),
    {
        self.l.set(value);
    }

    pub fn set_h(&mut self, value: u8)
        ensures
            *final(self) == old(self).with_h(value),
            old(self).l.wf() ==> final(self).wf(),
    {
        self.h.set(value);
    }

    pub fn set_u16(&mut self, value: u16)
        ensures
            *final(self) == old(self).with_u16(value),
            final(self).wf(),
            final(self).value() == value & old(self).mask(),
    {
        self.l.set((value & 0x00FF) as u8);
        self.h.set(((value & 0xFF00) >> 8) as u8);
        proof {
            lemma_bytes_and_masks(value, 0, self.l.mask, self.h.mask);
        }
    }

    pub fn mask_u16(&self) -> (m: u16)
        ensures
            m == self.mask(),
    {
        (self.l_mask() as u16) | ((self.h_mask() as u16) << 8)
    }

    pub fn l_mask(&self) -> (m: u8)
        ensures
            m == self.l.mask,
    {
        self.l.mask()
    }

    pub fn h_mask(&self) -> (m: u8)
        ensures
            m == self.h.mask,
    {
        self.h.mask()
    }
}

} // verus!
