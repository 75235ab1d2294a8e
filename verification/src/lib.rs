//! An emulator for the MOS 6502 microprocessor.
//!
//! The crate models the architectural state of the 8-bit CPU — register
//! file, status flags, stack, and a flat 64 KiB memory — and executes its
//! documented machine code one instruction per step, returning the cycle
//! count each instruction consumes.

pub mod addressing_mode;
pub mod cpu;
pub mod cpu_state;
pub mod errors;
pub mod instruction;
pub mod memory;
pub mod model;
pub mod stack;
pub mod status_register;
pub mod word;
