//! An emulator for the SIC/XE teaching architecture.
//!
//! The crate models a 24-bit, register-based machine: a register file,
//! a sparse byte-addressable memory, an object-program loader, an
//! instruction decoder for the four SIC/XE instruction formats, and an
//! execute dispatcher.  Device and floating-point work that the machine
//! cannot perform itself is handed back to the caller as an effect.

pub mod device;
pub mod errors;
pub mod format;
pub mod laws;
pub mod loader;
pub mod machine;
pub mod opcode;
pub mod register;
pub mod runner;
