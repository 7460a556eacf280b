//! The instruction-stepped interpreter: a flat 64 KiB memory image, one
//! method per instruction, a fetch-dispatch-execute loop, and a
//! disassembly-style trace renderer for golden-log comparison.

pub mod bus;
pub mod cpu;
pub mod opcodes;
pub mod status;
pub mod trace;
