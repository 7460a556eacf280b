//! The cycle-stepped execution core.
//!
//! Each instruction is a small state machine implementing [`opcode::OpCode`];
//! one call to its `decode` advances the machine by exactly one bus cycle.
//! The executor in [`exec`] alternates opcode fetches with those single-cycle
//! steps, so a driver that calls it in a loop sees one hardware clock cycle
//! per call.

pub mod addressing;
pub mod alu;
pub mod control;
pub mod exec;
pub mod cpu;
pub mod implied;
pub mod laws;
pub mod stack_ops;
pub mod opcode;
pub mod rmw;
