//! A MOS 6502 CPU emulator, verified with Verus.
//!
//! The crate contains three layers:
//! - `engine`: a cycle-stepped execution core whose per-instruction state
//!   machines reproduce the documented bus-cycle sequences, including the
//!   page-crossing and indexed-addressing quirks of the real chip;
//! - `interp`: an instruction-stepped interpreter with a disassembly trace
//!   renderer;
//! - `basic`: a minimal interpreter covering only the load/transfer/increment
//!   subset, kept as the simplest model of the instruction loop.
//!
//! `flags`, `memory` and `ines` hold the status-register model, the
//! bus/memory map of the engine, and the cartridge-header parser.

mod bits;
pub mod basic;
pub mod engine;
pub mod flags;
pub mod ines;
pub mod interp;
pub mod memory;
