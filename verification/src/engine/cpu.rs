//! The register block of the cycle-stepped engine, and its mathematical
//! model.
//!
//! Contracts of the engine are stated over [`CpuModel`], a ghost value
//! holding the registers, the flags and the memory contents as a sequence.

use vstd::prelude::*;
use crate::flags::CpuFlags;
use crate::memory::{mem_mapped, spec_get_addr, Memory};

verus! {

pub struct Cpu {
    pub pc: u16,
    pub sp: u8,
    pub a: u8,
    pub x: u8,
    pub y: u8,
    pub flags: CpuFlags,
    pub mem: Memory,
}

/// The mathematical state of the engine: registers, flags, and the backing
/// bytes of memory.
pub ghost struct CpuModel {
    pub pc: u16,
    pub sp: u8,
    pub a: u8,
    pub x: u8,
    pub y: u8,
    pub flags: CpuFlags,
    pub mem: Seq<u8>,
}

impl CpuModel {
    /// The byte a read of the mapped address `addr` returns.
    pub open spec fn byte(self, addr: u16) -> u8
        recommends
            mem_mapped(addr),
    {
        self.mem[spec_get_addr(addr)]
    }

    /// An opcode or operand byte can be fetched at `pc`: the address is
    /// mapped and incrementing `pc` cannot overflow.
    pub open spec fn can_fetch(self) -> bool {
        self.pc < 0xFFFF && mem_mapped(self.pc)
    }

    /// The byte behind the program counter.
    pub open spec fn pc_byte(self) -> u8 {
        self.byte(self.pc)
    }

    /// The same state with the program counter moved past one fetched byte.
    pub open spec fn after_fetch(self) -> CpuModel
        recommends
            self.pc < 0xFFFF,
    {
        CpuModel { pc: (self.pc + 1) as u16, ..self }
    }

    /// The same state with one memory byte replaced.
    pub open spec fn with_byte(self, addr: u16, val: u8) -> CpuModel
        recommends
            mem_mapped(addr),
    {
        CpuModel { mem: self.mem.update(spec_get_addr(addr), val), ..self }
    }
}

impl Cpu {
    pub open spec fn wf(self) -> bool {
        self.mem.wf()
    }

    /// The ghost model of this state.
    pub open spec fn model(self) -> CpuModel {
        CpuModel {
            pc: self.pc,
            sp: self.sp,
            a: self.a,
            x: self.x,
            y: self.y,
            flags: self.flags,
            mem: self.mem@,
        }
    }

    /// Runtime test matching `CpuModel::can_fetch`.
    pub fn fetch_ok(&self) -> (r: bool)
        ensures
            r == self.model().can_fetch(),
    {
        self.pc < 0xFFFF && crate::memory::is_mapped(self.pc)
    }

    /// Reads the byte at `pc` and moves `pc` past it.
    pub fn read_from_pc(&mut self) -> (op: u8)
        requires
            old(self).wf(),
            old(self).model().can_fetch(),
        ensures
            final(self).wf(),
            op == old(self).model().pc_byte(),
            final(self).model() == old(self).model().after_fetch(),
    {
        let op = self.mem.get(self.pc);
        self.pc = self.pc + 1;
        op
    }
}

/// The high byte of a 16-bit address.
pub open spec fn pc_hi(pc: u16) -> u8 {
    (pc / 256) as u8
}

/// The low byte of a 16-bit address.
pub open spec fn pc_lo(pc: u16) -> u8 {
    (pc % 256) as u8
}

/// A 16-bit address assembled from its low and high bytes.
pub open spec fn spec_mk_addr(low: u8, high: u8) -> u16 {
    (high * 256 + low) as u16
}

/// Assembles a 16-bit address from its low and high bytes.
pub fn mk_addr(low: u8, high: u8) -> (r: u16)
    ensures
        r == spec_mk_addr(low, high),
{
    (high as u16) * 256 + (low as u16)
}

/// The power-on register state over the given memory image: execution
/// starts at `$C000` with the stack pointer at `$FD`.
pub fn new(mem: Memory) -> (cpu: Cpu)
    ensures
        cpu.model() == (CpuModel {
            pc: 0xC000,
            sp: 0xFD,
            a: 0,
            x: 0,
            y: 0,
            flags: CpuFlags::spec_power_on(),
            mem: mem@,
        }),
        cpu.wf() == mem.wf(),
{
    Cpu { pc: 0xC000, sp: 0xFD, a: 0, x: 0, y: 0, mem: mem, flags: CpuFlags::new() }
}

} // verus!
