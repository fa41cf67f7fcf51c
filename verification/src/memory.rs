//! The interface of everything that can be read and written by address.

use vstd::prelude::*;
use crate::reg::word;

verus! {

/// A byte-addressed space. A read may change the state of the hardware
/// behind it, so both operations take the space mutably.
///
/// An implementation names the model that its contracts speak of, and
/// says with three functions on that model what a read returns and what a
/// read and a write leave behind.
pub trait AddressSpace {
    /// The state of the space as contracts see it.
    type Model;

    /// The state of the space as contracts see it.
    spec fn model(&self) -> Self::Model;

    /// The invariant of the space, which the operations need and keep.
    spec fn wf(&self) -> bool;

    /// What a read of `address` returns.
    spec fn read_value(model: Self::Model, address: u32) -> u8;

    /// The space after a read of `address`.
    spec fn after_read(model: Self::Model, address: u32) -> Self::Model;

    /// The space after a write of `value` to `address`.
    spec fn after_write(model: Self::Model, address: u32, value: u8) -> Self::Model;

    fn read_u8(&mut self, address: u32) -> (value: u8)
        requires
            old(self).wf(),
        ensures
            final(self).wf(),
            value == Self::read_value(old(self).model(), address),
            final(self).model() == Self::after_read(old(self).model(), address),
    ;

    fn write_u8(&mut self, address: u32, value: u8)
        requires
            old(self).wf(),
        ensures
            final(self).wf(),
            final(self).model() == Self::after_write(old(self).model(), address, value),
    ;

    /// Reads a little-endian 16-bit word: the low byte at `address`, then
    /// the high byte at the address after it.
    fn read_u16_le(&mut self, address: u32) -> (value: u16)
        requires
            old(self).wf(),
            address < u32::MAX,
        ensures
            final(self).wf(),
            value == word(
                Self::read_value(old(self).model(), address),
                Self::read_value(
                    Self::after_read(old(self).model(), address),
                    (address + 1) as u32,
                ),
            ),
            final(self).model() == Self::after_read(
                Self::after_read(old(self).model(), address),
                (address + 1) as u32,
            ),
    {
        let low = self.read_u8(address);
        let high = self.read_u8(address + 1);
        (low as u16) | ((high as u16) << 8)
    }
}

} // verus!
