//! Cycle-driven core of a handheld built around an ST2205U microcontroller.

pub mod gpio;
pub mod handheld;
pub mod hex;
pub mod lcd;
pub mod flash;
pub mod memory;
pub mod reg;
pub mod screen;
pub mod st2205u;
