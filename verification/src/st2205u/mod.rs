//! The ST2205U microcontroller: a 65C02 core with its banked address space
//! and on-chip peripherals.

pub mod addr_space;
pub mod bank;
pub mod base_timer;
pub mod clock;
pub mod dma;
pub mod gpio;
pub mod interrupt;
pub mod mcu;
pub mod psg;
pub mod timer;
pub mod vector;
pub mod wdc_65c02;
