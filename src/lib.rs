//! A Z80 emulator driven one clock edge at a time through its pins.
//!
//! The host owns the pins and the register file and calls
//! `Emulator::on_clock` once per clock edge; memory is supplied as
//! 256-byte pages attached to the emulator's page table.
pub mod alu;
pub mod cpu;
pub mod mmu;
pub mod pins;
pub mod registers;

pub use crate::cpu::{create_emulator, Emulator};
pub use crate::mmu::{ConfigError, Memory};
pub use crate::pins::{InputOutputPins, InputPins, OutputPins, PinBistate, PinTristate};
pub use crate::registers::{Register16, Register16HiLo, Registers};
