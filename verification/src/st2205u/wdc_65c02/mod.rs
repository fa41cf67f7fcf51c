//! The WDC 65C02 processor core.

pub mod addr_mode;
pub mod cpu;
pub mod decoder;
pub mod instr;
pub mod interrupt;
pub mod opcode;
pub mod stack;
