//! The addresses at which the processor finds where to continue after a
//! reset or an interrupt. Each holds a little-endian address.

use vstd::prelude::*;
use crate::st2205u::interrupt::Interrupt;

verus! {

/// Software interrupt.
pub const BRK: u16 = 0x7FFE;

/// Reset.
pub const RESET: u16 = 0x7FFC;

/// External interrupt.
pub const INTX: u16 = 0x7FF8;

/// Timer 0.
pub const T0: u16 = 0x7FF6;

/// Timer 1.
pub const T1: u16 = 0x7FF4;

/// Timer 2.
pub const T2: u16 = 0x7FF2;

/// Timer 3.
pub const T3: u16 = 0x7FF0;

/// Port A transition.
pub const PT: u16 = 0x7FEE;

/// Base timer.
pub const BT: u16 = 0x7FEC;

/// LCD buffer.
pub const LCD: u16 = 0x7FEA;

/// SPI transmit buffer empty.
pub const STX: u16 = 0x7FE8;

/// SPI receive buffer ready.
pub const SRX: u16 = 0x7FE6;

/// UART transmit.
pub const UTX: u16 = 0x7FE4;

/// UART receive.
pub const URX: u16 = 0x7FE2;

/// USB.
pub const USB: u16 = 0x7FE0;

/// PCM.
pub const PCM: u16 = 0x7FDC;

/// Real-time clock.
pub const RTC: u16 = 0x7FDA;

/// The vector of an interrupt source.
pub open spec fn vector_of(interrupt: Interrupt) -> u16 {
    match interrupt {
        Interrupt::Intx => INTX,
        Interrupt::Timer0 => T0,
        Interrupt::Timer1 => T1,
        Interrupt::Timer2 => T2,
        Interrupt::Timer3 => T3,
        Interrupt::PortATransition => PT,
        Interrupt::BaseTimer => BT,
        Interrupt::LcdBuffer => LCD,
        Interrupt::SpiTxEmpty => STX,
        Interrupt::SpiRxReady => SRX,
        Interrupt::UartTx => UTX,
        Interrupt::UartRx => URX,
        Interrupt::Usb => USB,
        Interrupt::Pcm => PCM,
        Interrupt::Rtc => RTC,
    }
}

/// The vector of an interrupt source.
pub fn interrupt_vector(interrupt: Interrupt) -> (vector: u16)
    ensures
        vector == vector_of(interrupt),
{
    match interrupt {
        Interrupt::Intx => INTX,
        Interrupt::Timer0 => T0,
        Interrupt::Timer1 => T1,
        Interrupt::Timer2 => T2,
        Interrupt::Timer3 => T3,
        Interrupt::PortATransition => PT,
        Interrupt::BaseTimer => BT,
        Interrupt::LcdBuffer => LCD,
        Interrupt::SpiTxEmpty => STX,
        Interrupt::SpiRxReady => SRX,
        Interrupt::UartTx => UTX,
        Interrupt::UartRx => URX,
        Interrupt::Usb => USB,
        Interrupt::Pcm => PCM,
        Interrupt::Rtc => RTC,
    }
}

} // verus!
