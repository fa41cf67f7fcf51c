//! The two clocks that drive the timers.

use vstd::prelude::*;

verus! {

/// Something that is told how many cycles of the oscillator and of the
/// instruction clock have elapsed since power-on.
pub trait Clock {
    fn set_clocks(&mut self, clocks: u64, sysck: u64);
}

} // verus!
