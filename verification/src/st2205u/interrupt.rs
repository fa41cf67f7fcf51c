//! The interrupt controller: sixteen request bits with fixed priorities.

use vstd::prelude::*;
use crate::reg::U16Register;
use crate::reg::U8Register;
use crate::st2205u::wdc_65c02::interrupt::HandlesInterrupt;

verus! {

/// The request and enable bits that exist: all but bit 13.
pub const INTERRUPT_MASK: u16 = 0xDFFF;

/// The interrupt controller.
///
/// `ireq` is what the firmware reads and clears. `shadow_ireq` is what the
/// dispatcher consults: a request leaves it when it is dispatched, so that
/// a handler which enables interrupts again is not entered once more for
/// a request that the firmware has not cleared yet.
#[derive(Clone, Copy, Debug)]
pub struct State {
    pub ireq: U16Register,
    pub shadow_ireq: U16Register,
    pub iena: U16Register,
    /// True between the entry into an interrupt and the return from it.
    pub interrupted: bool,
}

/// The sources of interrupts, highest priority first.
#[derive(Debug, Copy, Clone, PartialEq, Eq, Structural)]
pub enum Interrupt {
    /// External interrupt.
    Intx,
    /// Timer 0.
    Timer0,
    /// Timer 1.
    Timer1,
    /// Timer 2.
    Timer2,
    /// Timer 3.
    Timer3,
    /// Port A transition.
    PortATransition,
    /// Base timer.
    BaseTimer,
    /// LCD buffer.
    LcdBuffer,
    /// SPI transmit buffer empty.
    SpiTxEmpty,
    /// SPI receive buffer ready.
    SpiRxReady,
    /// UART transmit.
    UartTx,
    /// UART receive.
    UartRx,
    /// USB.
    Usb,
    /// PCM.
    Pcm,
    /// Real-time clock.
    Rtc,
}

impl Interrupt {
    /// The request bit of the source. A lower bit has the higher priority.
    pub open spec fn bit(self) -> int {
        match self {
            Interrupt::Intx => 0,
            Interrupt::Timer0 => 1,
            Interrupt::Timer1 => 2,
            Interrupt::Timer2 => 3,
            Interrupt::Timer3 => 4,
            Interrupt::PortATransition => 5,
            Interrupt::BaseTimer => 6,
            Interrupt::LcdBuffer => 7,
            Interrupt::SpiTxEmpty => 8,
            Interrupt::SpiRxReady => 9,
            Interrupt::UartTx => 10,
            Interrupt::UartRx => 11,
            Interrupt::Usb => 12,
            Interrupt::Pcm => 14,
            Interrupt::Rtc => 15,
        }
    }

    /// The request bit of the source as a mask.
    pub open spec fn mask(self) -> u16 {
        match self {
            Interrupt::Intx => 0x0001,
            Interrupt::Timer0 => 0x0002,
            Interrupt::Timer1 => 0x0004,
            Interrupt::Timer2 => 0x0008,
            Interrupt::Timer3 => 0x0010,
            Interrupt::PortATransition => 0x0020,
            Interrupt::BaseTimer => 0x0040,
            Interrupt::LcdBuffer => 0x0080,
            Interrupt::SpiTxEmpty => 0x0100,
            Interrupt::SpiRxReady => 0x0200,
            Interrupt::UartTx => 0x0400,
            Interrupt::UartRx => 0x0800,
            Interrupt::Usb => 0x1000,
            Interrupt::Pcm => 0x4000,
            Interrupt::Rtc => 0x8000,
        }
    }

    /// The request bit of the source as a mask.
    pub fn request_mask(self) -> (mask: u16)
        ensures
            mask == self.mask(),
    {
        match self {
            Interrupt::Intx => 0x0001,
            Interrupt::Timer0 => 0x0002,
            Interrupt::Timer1 => 0x0004,
            Interrupt::Timer2 => 0x0008,
            Interrupt::Timer3 => 0x0010,
            Interrupt::PortATransition => 0x0020,
            Interrupt::BaseTimer => 0x0040,
            Interrupt::LcdBuffer => 0x0080,
            Interrupt::SpiTxEmpty => 0x0100,
            Interrupt::SpiRxReady => 0x0200,
            Interrupt::UartTx => 0x0400,
            Interrupt::UartRx => 0x0800,
            Interrupt::Usb => 0x1000,
            Interrupt::Pcm => 0x4000,
            Interrupt::Rtc => 0x8000,
        }
    }
}

/// A register with the interrupt mask that holds no request.
pub open spec fn cleared_register() -> U16Register {
    U16Register { l: U8Register { val: 0, mask: 0xFF }, h: U8Register { val: 0, mask: 0xDF } }
}

/// The bytes of the reset value and of the mask.
proof fn lemma_request_bits()
    by (bit_vector)
    ensures
        crate::reg::low_byte(0xDFFF) == 0xFF,
        crate::reg::high_byte(0xDFFF) == 0xDF,
        crate::reg::low_byte(0) & 0xFF == 0,
        crate::reg::high_byte(0) & 0xDF == 0,
{
}

impl State {
    pub open spec fn wf(&self) -> bool {
        &&& self.ireq.wf()
        &&& self.shadow_ireq.wf()
        &&& self.iena.wf()
        &&& self.ireq.mask() == INTERRUPT_MASK
        &&& self.shadow_ireq.mask() == INTERRUPT_MASK
        &&& self.iena.mask() == INTERRUPT_MASK
    }

    /// The controller after power-on: nothing requested, nothing enabled.
    pub open spec fn initial() -> State {
        State {
            ireq: cleared_register(),
            shadow_ireq: cleared_register(),
            iena: cleared_register(),
            interrupted: false,
        }
    }

    /// The controller after the source `irq` raised its request: the
    /// request is latched in both request registers where the source is
    /// enabled, and dropped where it is not.
    pub open spec fn asserted(self, irq: Interrupt) -> State {
        if self.iena.value() & irq.mask() != 0 {
            State {
                ireq: self.ireq.with_u16(self.ireq.value() | irq.mask()),
                shadow_ireq: self.shadow_ireq.with_u16(self.shadow_ireq.value() | irq.mask()),
                ..self
            }
        } else {
            self
        }
    }

    /// The controller after the request of `irq` was dispatched: it is
    /// gone for the dispatcher and stays visible to the firmware.
    pub open spec fn cleared(self, irq: Interrupt) -> State {
        State {
            shadow_ireq: self.shadow_ireq.with_u16(self.shadow_ireq.value() & !irq.mask()),
            ..self
        }
    }

    /// Whether the dispatcher sees a request of `irq`.
    pub open spec fn pending(self, irq: Interrupt) -> bool {
        self.shadow_ireq.value() & irq.mask() != 0
    }

    /// The source that is dispatched next: of those that the dispatcher
    /// sees a request of, the one with the lowest bit.
    pub open spec fn highest(self) -> Option<Interrupt> {
        let shadow = self.shadow_ireq.value();
        if shadow & 0x0001 != 0 {
            Some(Interrupt::Intx)
        } else if shadow & 0x0002 != 0 {
            Some(Interrupt::Timer0)
        } else if shadow & 0x0004 != 0 {
            Some(Interrupt::Timer1)
        } else if shadow & 0x0008 != 0 {
            Some(Interrupt::Timer2)
        } else if shadow & 0x0010 != 0 {
            Some(Interrupt::Timer3)
        } else if shadow & 0x0020 != 0 {
            Some(Interrupt::PortATransition)
        } else if shadow & 0x0040 != 0 {
            Some(Interrupt::BaseTimer)
        } else if shadow & 0x0080 != 0 {
            Some(Interrupt::LcdBuffer)
        } else if shadow & 0x0100 != 0 {
            Some(Interrupt::SpiTxEmpty)
        } else if shadow & 0x0200 != 0 {
            Some(Interrupt::SpiRxReady)
        } else if shadow & 0x0400 != 0 {
            Some(Interrupt::UartTx)
        } else if shadow & 0x0800 != 0 {
            Some(Interrupt::UartRx)
        } else if shadow & 0x1000 != 0 {
            Some(Interrupt::Usb)
        } else if shadow & 0x4000 != 0 {
            Some(Interrupt::Pcm)
        } else if shadow & 0x8000 != 0 {
            Some(Interrupt::Rtc)
        } else {
            None
        }
    }

    pub fn new() -> (state: Self)
        ensures
            state == Self::initial(),
            state.wf(),
    {
        proof {
            lemma_request_bits();
            crate::reg::lemma_bytes_and_masks(0, 0, 0xFF, 0xDF);
        }
        State {
            ireq: U16Register::new(0x0000, INTERRUPT_MASK),
            shadow_ireq: U16Register::new(0x0000, INTERRUPT_MASK),
            iena: U16Register::new(0x0000, INTERRUPT_MASK),
            interrupted: false,
        }
    }

    /// Raises the request of `irq`, which is latched if the source is enabled.
    pub fn assert_interrupt(&mut self, irq: Interrupt)
        requires
            old(self).wf(),
        ensures
            final(self).wf(),
            *final(self) == old(self).asserted(irq),
    {
        let mask = irq.request_mask();
        if self.iena.u16() & mask != 0 {
            self.ireq.set_u16(self.ireq.u16() | mask);
            self.shadow_ireq.set_u16(self.shadow_ireq.u16() | mask);
        }
    }

    /// The source to dispatch next, if the dispatcher sees any request.
    pub fn highest_priority_interrupt(&self) -> (irq: Option<Interrupt>)
        requires
            self.wf(),
        ensures
            irq == self.highest(),
            irq matches Some(first) ==> self.pending(first) && forall|other: Interrupt|
                other.bit() < first.bit() ==> !self.pending(other),
            irq is None ==> forall|other: Interrupt| !self.pending(other),
    {
        let shadow = self.shadow_ireq.u16();
        if shadow & 0x0001 != 0 {
            Some(Interrupt::Intx)
        } else if shadow & 0x0002 != 0 {
            Some(Interrupt::Timer0)
        } else if shadow & 0x0004 != 0 {
            Some(Interrupt::Timer1)
        } else if shadow & 0x0008 != 0 {
            Some(Interrupt::Timer2)
        } else if shadow & 0x0010 != 0 {
            Some(Interrupt::Timer3)
        } else if shadow & 0x0020 != 0 {
            Some(Interrupt::PortATransition)
        } else if shadow & 0x0040 != 0 {
            Some(Interrupt::BaseTimer)
        } else if shadow & 0x0080 != 0 {
            Some(Interrupt::LcdBuffer)
        } else if shadow & 0x0100 != 0 {
            Some(Interrupt::SpiTxEmpty)
        } else if shadow & 0x0200 != 0 {
            Some(Interrupt::SpiRxReady)
        } else if shadow & 0x0400 != 0 {
            Some(Interrupt::UartTx)
        } else if shadow & 0x0800 != 0 {
            Some(Interrupt::UartRx)
        } else if shadow & 0x1000 != 0 {
            Some(Interrupt::Usb)
        } else if shadow & 0x4000 != 0 {
            Some(Interrupt::Pcm)
        } else if shadow & 0x8000 != 0 {
            Some(Interrupt::Rtc)
        } else {
            None
        }
    }

    /// Takes the request of `irq` away from the dispatcher.
    pub fn clear_interrupt_request(&mut self, irq: Interrupt)
        requires
            old(self).wf(),
        ensures
            final(self).wf(),
            *final(self) == old(self).cleared(irq),
    {
        let mask = irq.request_mask();
        self.shadow_ireq.set_u16(self.shadow_ireq.u16() & !mask);
    }

    /// Sets the latch that tells whether an interrupt is being serviced.
    pub fn set_interrupted(&mut self, interrupted: bool)
        ensures
            *final(self) == (State { interrupted, ..*old(self) }),
    {
        self.interrupted = interrupted;
    }

    /// Whether an interrupt is being serviced.
    pub fn interrupted(&self) -> (interrupted: bool)
        ensures
            interrupted == self.interrupted,
    {
        self.interrupted
    }
}

/// The source that is dispatched next is pending, and no source with a
/// lower bit is; none is dispatched only where none is pending.
pub proof fn lemma_highest_is_lowest_bit(state: State)
    ensures
        state.highest() matches Some(first) ==> state.pending(first) && forall|other: Interrupt|
            other.bit() < first.bit() ==> !state.pending(other),
        state.highest() is None ==> forall|other: Interrupt| !state.pending(other),
{
}

impl HandlesInterrupt for State {
    open spec fn servicing(&self) -> bool {
        self.interrupted
    }

    fn set_interrupted(&mut self, interrupted: bool)
        ensures
            *final(self) == (State { interrupted, ..*old(self) }),
    {
        State::set_interrupted(self, interrupted)
    }

    fn interrupted(&self) -> (interrupted: bool) {
        State::interrupted(self)
    }
}

/// The low byte of the request register, as the firmware reads it:
/// missing bits as 1.
pub fn read_ireql(state: &State) -> (value: u8)
    ensures
        value == state.ireq.read_l_ones(),
{
    state.ireq.l() | !state.ireq.l_mask()
}

/// The high byte of the request register, as the firmware reads it:
/// missing bits as 1.
pub fn read_ireqh(state: &State) -> (value: u8)
    ensures
        value == state.ireq.read_h_ones(),
{
    state.ireq.h() | !state.ireq.h_mask()
}

/// The low byte of the enable register, missing bits as 1.
pub fn read_ienal(state: &State) -> (value: u8)
    ensures
        value == state.iena.read_l_ones(),
{
    state.iena.l() | !state.iena.l_mask()
}

/// The high byte of the enable register, missing bits as 1.
pub fn read_ienah(state: &State) -> (value: u8)
    ensures
        value == state.iena.read_h_ones(),
{
    state.iena.h() | !state.iena.h_mask()
}

/// A write to the low byte of the request register clears the requests
/// whose bit is written as 0; a bit written as 1 leaves its request alone.
pub fn write_ireql(state: &mut State, value: u8)
    requires
        old(state).wf(),
    ensures
        final(state).wf(),
        *final(state) == (State {
            ireq: old(state).ireq.with_l(old(state).ireq.l.val & value),
            ..*old(state)
        }),
{
    let ireql = state.ireq.l();
    state.ireq.set_l(ireql & value);
}

/// A write to the high byte of the request register clears the requests
/// whose bit is written as 0; a bit written as 1 leaves its request alone.
pub fn write_ireqh(state: &mut State, value: u8)
    requires
        old(state).wf(),
    ensures
        final(state).wf(),
        *final(state) == (State {
            ireq: old(state).ireq.with_h(old(state).ireq.h.val & value),
            ..*old(state)
        }),
{
    let ireqh = state.ireq.h();
    state.ireq.set_h(ireqh & value);
}

/// Writes the low byte of the enable register.
pub fn write_ienal(state: &mut State, value: u8)
    requires
        old(state).wf(),
    ensures
        final(state).wf(),
        *final(state) == (State { iena: old(state).iena.with_l(value), ..*old(state) }),
{
    state.iena.set_l(value);
}

/// Writes the high byte of the enable register.
pub fn write_ienah(state: &mut State, value: u8)
    requires
        old(state).wf(),
    ensures
        final(state).wf(),
        *final(state) == (State { iena: old(state).iena.with_h(value), ..*old(state) }),
{
    state.iena.set_h(value);
}

} // verus!
