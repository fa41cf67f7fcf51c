//! The latch that tells the address space whether an interrupt is serviced.

use vstd::prelude::*;

verus! {

/// Something that knows whether the processor is servicing an interrupt.
/// Each implementation states on `set_interrupted` what else stays as it was.
pub trait HandlesInterrupt {
    /// Whether an interrupt is being serviced.
    spec fn servicing(&self) -> bool;

    fn set_interrupted(&mut self, interrupted: bool)
        ensures
            final(self).servicing() == interrupted,
    ;

    fn interrupted(&self) -> (interrupted: bool)
        ensures
            interrupted == self.servicing(),
    ;
}

} // verus!
