//! Read-modify-write instructions (shifts, rotates, increment, decrement):
//! the memory forms with their dummy write-back, and the accumulator forms.
//!
//! A memory form reads the value, writes it back unchanged while the new
//! value is computed — the hardware's dummy write — and then writes the new
//! value. The absolute indexed form always pays the fix-up cycle and
//! performs a speculative read at the possibly-unfixed address first.

use vstd::prelude::*;
use crate::engine::cpu::{mk_addr, spec_mk_addr, Cpu, CpuModel};
use crate::engine::opcode::{OpCode, Step};
use crate::flags::CpuFlags;
use crate::memory::{is_mapped, is_writable, mem_mapped, mem_writable, spec_get_addr};

verus! {

/// The six read-modify-write operations.
#[derive(Clone, Copy, Debug)]
pub enum RmwOp {
    Asl,
    Lsr,
    Rol,
    Ror,
    Inc,
    Dec,
}

/// The new value an operation produces from the old one, with the carry-in
/// feeding the vacated bit of the rotates.
pub open spec fn rmw_result(op: RmwOp, carry_in: bool, d: u8) -> u8 {
    match op {
        RmwOp::Asl => d << 1,
        RmwOp::Lsr => d >> 1,
        RmwOp::Rol => (d << 1) | (if carry_in {
            1
        } else {
            0
        }),
        RmwOp::Ror => (d >> 1) | (if carry_in {
            0x80
        } else {
            0
        }),
        RmwOp::Inc => d.wrapping_add(1),
        RmwOp::Dec => d.wrapping_sub(1),
    }
}

/// The flags after an operation: shifts and rotates set carry to the bit
/// shifted off; increment and decrement leave carry alone; zero and
/// negative always come from the result.
pub open spec fn rmw_flags(op: RmwOp, f: CpuFlags, d: u8) -> CpuFlags {
    let r = rmw_result(op, f.carry, d);
    let c = match op {
        RmwOp::Asl => (d & 0x80) != 0,
        RmwOp::Lsr => (d & 0x01) != 0,
        RmwOp::Rol => (d & 0x80) != 0,
        RmwOp::Ror => (d & 0x01) != 0,
        RmwOp::Inc => f.carry,
        RmwOp::Dec => f.carry,
    };
    CpuFlags { carry: c, zero: r == 0, negative: (r & 0x80) != 0, ..f }
}

/// Core of arithmetic shift left.
pub fn asl_core(cpu: &mut Cpu, data: u8) -> (res: u8)
    requires
        old(cpu).wf(),
    ensures
        final(cpu).wf(),
        res == rmw_result(RmwOp::Asl, old(cpu).flags.carry, data),
        final(cpu).model() == (CpuModel {
            flags: rmw_flags(RmwOp::Asl, old(cpu).flags, data),
            ..old(cpu).model()
        }),
{
    cpu.flags.carry = (data & 0x80) != 0;
    let res = data << 1;
    cpu.flags.zero = res == 0;
    cpu.flags.negative = (res & 0x80) != 0;
    res
}

/// Core of logical shift right.
pub fn lsr_core(cpu: &mut Cpu, data: u8) -> (res: u8)
    requires
        old(cpu).wf(),
    ensures
        final(cpu).wf(),
        res == rmw_result(RmwOp::Lsr, old(cpu).flags.carry, data),
        final(cpu).model() == (CpuModel {
            flags: rmw_flags(RmwOp::Lsr, old(cpu).flags, data),
            ..old(cpu).model()
        }),
{
    cpu.flags.carry = (data & 0x01) != 0;
    let res = data >> 1;
    cpu.flags.zero = res == 0;
    cpu.flags.negative = (res & 0x80) != 0;
    res
}

/// Core of rotate left: the previous carry enters bit 0.
pub fn rol_core(cpu: &mut Cpu, data: u8) -> (res: u8)
    requires
        old(cpu).wf(),
    ensures
        final(cpu).wf(),
        res == rmw_result(RmwOp::Rol, old(cpu).flags.carry, data),
        final(cpu).model() == (CpuModel {
            flags: rmw_flags(RmwOp::Rol, old(cpu).flags, data),
            ..old(cpu).model()
        }),
{
    let res: u8 = (data << 1) | (if cpu.flags.carry {
        1
    } else {
        0
    });
    cpu.flags.carry = (data & 0x80) != 0;
    cpu.flags.zero = res == 0;
    cpu.flags.negative = (res & 0x80) != 0;
    res
}

/// Core of rotate right: the previous carry enters bit 7.
pub fn ror_core(cpu: &mut Cpu, data: u8) -> (res: u8)
    requires
        old(cpu).wf(),
    ensures
        final(cpu).wf(),
        res == rmw_result(RmwOp::Ror, old(cpu).flags.carry, data),
        final(cpu).model() == (CpuModel {
            flags: rmw_flags(RmwOp::Ror, old(cpu).flags, data),
            ..old(cpu).model()
        }),
{
    let res: u8 = (data >> 1) | (if cpu.flags.carry {
        0x80
    } else {
        0
    });
    cpu.flags.carry = (data & 0x01) != 0;
    cpu.flags.zero = res == 0;
    cpu.flags.negative = (res & 0x80) != 0;
    res
}

/// Core of increment: 8-bit wraparound, carry untouched.
pub fn inc_core(cpu: &mut Cpu, data: u8) -> (res: u8)
    requires
        old(cpu).wf(),
    ensures
        final(cpu).wf(),
        res == rmw_result(RmwOp::Inc, old(cpu).flags.carry, data),
        final(cpu).model() == (CpuModel {
            flags: rmw_flags(RmwOp::Inc, old(cpu).flags, data),
            ..old(cpu).model()
        }),
{
    let res: u8 = data.wrapping_add(1);
    cpu.flags.zero = res == 0;
    cpu.flags.negative = (res & 0x80) != 0;
    res
}

/// Core of decrement: 8-bit wraparound, carry untouched.
pub fn dec_core(cpu: &mut Cpu, data: u8) -> (res: u8)
    requires
        old(cpu).wf(),
    ensures
        final(cpu).wf(),
        res == rmw_result(RmwOp::Dec, old(cpu).flags.carry, data),
        final(cpu).model() == (CpuModel {
            flags: rmw_flags(RmwOp::Dec, old(cpu).flags, data),
            ..old(cpu).model()
        }),
{
    let res: u8 = data.wrapping_sub(1);
    cpu.flags.zero = res == 0;
    cpu.flags.negative = (res & 0x80) != 0;
    res
}

/// Applies the chosen core.
pub fn apply_rmw(cpu: &mut Cpu, op: RmwOp, data: u8) -> (res: u8)
    requires
        old(cpu).wf(),
    ensures
        final(cpu).wf(),
        res == rmw_result(op, old(cpu).flags.carry, data),
        final(cpu).model() == (CpuModel {
            flags: rmw_flags(op, old(cpu).flags, data),
            ..old(cpu).model()
        }),
{
    match op {
        RmwOp::Asl => asl_core(cpu, data),
        RmwOp::Lsr => lsr_core(cpu, data),
        RmwOp::Rol => rol_core(cpu, data),
        RmwOp::Ror => ror_core(cpu, data),
        RmwOp::Inc => inc_core(cpu, data),
        RmwOp::Dec => dec_core(cpu, data),
    }
}

/// The state after a complete read-modify-write at `addr`: flags from the
/// old value, the new value in memory.
pub open spec fn rmw_at(op: RmwOp, m: CpuModel, addr: u16) -> CpuModel {
    let d = m.byte(addr);
    CpuModel {
        flags: rmw_flags(op, m.flags, d),
        mem: m.mem.update(spec_get_addr(addr), rmw_result(op, m.flags.carry, d)),
        ..m
    }
}

/// Zero-page read-modify-write: fetch address, read, dummy write, write.
pub struct RmwZeroPage {
    pub op: RmwOp,
    pub addr: u8,
    pub data: u8,
    pub state: usize,
}

impl RmwZeroPage {
    pub fn start(op: RmwOp) -> (r: RmwZeroPage)
        ensures
            r == (RmwZeroPage { op, addr: 0, data: 0, state: 0 }),
    {
        RmwZeroPage { op, addr: 0, data: 0, state: 0 }
    }
}

impl OpCode for RmwZeroPage {
    open spec fn inv(&self) -> bool {
        self.state <= 3
    }

    open spec fn ok(&self, m: CpuModel) -> bool {
        self.state == 0 ==> m.can_fetch()
    }

    open spec fn remaining(&self, m: CpuModel) -> nat {
        if self.state == 0 {
            4
        } else if self.state == 1 {
            3
        } else if self.state == 2 {
            2
        } else {
            1
        }
    }

    open spec fn outcome(&self, m: CpuModel) -> CpuModel {
        if self.state == 0 {
            rmw_at(self.op, m.after_fetch(), m.pc_byte() as u16)
        } else if self.state == 1 {
            rmw_at(self.op, m, self.addr as u16)
        } else if self.state == 2 {
            CpuModel {
                flags: rmw_flags(self.op, m.flags, self.data),
                mem: m.mem.update(
                    spec_get_addr(self.addr as u16),
                    rmw_result(self.op, m.flags.carry, self.data),
                ),
                ..m
            }
        } else {
            m.with_byte(self.addr as u16, self.data)
        }
    }

    fn new() -> (r: RmwZeroPage) {
        RmwZeroPage { op: RmwOp::Inc, addr: 0, data: 0, state: 0 }
    }

    fn decode(&mut self, cpu: &mut Cpu) -> (r: Step)
        ensures
            // the dummy write: the write-back cycle stores the unchanged
            // value before the new one is computed
            old(self).state == 2 ==> final(cpu).model().mem == old(cpu).model().mem.update(
                spec_get_addr(old(self).addr as u16),
                old(self).data,
            ),
    {
        if self.state == 0 {
            if !cpu.fetch_ok() {
                return Step::Fault;
            }
            self.addr = cpu.read_from_pc();
            self.state = 1;
            Step::Busy
        } else if self.state == 1 {
            self.data = cpu.mem.get(self.addr as u16);
            self.state = 2;
            Step::Busy
        } else if self.state == 2 {
            let ghost m0 = cpu.model();
            let ghost d = self.data;
            let ghost p = spec_get_addr(self.addr as u16);
            cpu.mem.set(self.addr as u16, self.data);
            self.data = apply_rmw(cpu, self.op, self.data);
            self.state = 3;
            proof {
                let r = rmw_result(self.op, m0.flags.carry, d);
                assert(m0.mem.update(p, d).update(p, r) =~= m0.mem.update(p, r));
            }
            Step::Busy
        } else {
            cpu.mem.set(self.addr as u16, self.data);
            Step::Done
        }
    }
}

/// Zero-page indexed read-modify-write: as zero page, after adding X to
/// the address with 8-bit wraparound.
pub struct RmwZeroPageX {
    pub op: RmwOp,
    pub addr: u8,
    pub imm: u8,
    pub state: usize,
}

impl RmwZeroPageX {
    pub fn start(op: RmwOp) -> (r: RmwZeroPageX)
        ensures
            r == (RmwZeroPageX { op, addr: 0, imm: 0, state: 0 }),
    {
        RmwZeroPageX { op, addr: 0, imm: 0, state: 0 }
    }
}

impl OpCode for RmwZeroPageX {
    open spec fn inv(&self) -> bool {
        self.state <= 4
    }

    open spec fn ok(&self, m: CpuModel) -> bool {
        self.state == 0 ==> m.can_fetch()
    }

    open spec fn remaining(&self, m: CpuModel) -> nat {
        if self.state == 0 {
            5
        } else if self.state == 1 {
            4
        } else if self.state == 2 {
            3
        } else if self.state == 3 {
            2
        } else {
            1
        }
    }

    open spec fn outcome(&self, m: CpuModel) -> CpuModel {
        if self.state == 0 {
            rmw_at(self.op, m.after_fetch(), m.pc_byte().wrapping_add(m.x) as u16)
        } else if self.state == 1 {
            rmw_at(self.op, m, self.addr.wrapping_add(m.x) as u16)
        } else if self.state == 2 {
            rmw_at(self.op, m, self.addr as u16)
        } else if self.state == 3 {
            CpuModel {
                flags: rmw_flags(self.op, m.flags, self.imm),
                mem: m.mem.update(
                    spec_get_addr(self.addr as u16),
                    rmw_result(self.op, m.flags.carry, self.imm),
                ),
                ..m
            }
        } else {
            m.with_byte(self.addr as u16, self.imm)
        }
    }

    fn new() -> (r: RmwZeroPageX) {
        RmwZeroPageX { op: RmwOp::Inc, addr: 0, imm: 0, state: 0 }
    }

    fn decode(&mut self, cpu: &mut Cpu) -> (r: Step)
        ensures
            // the dummy write: the write-back cycle stores the unchanged
            // value before the new one is computed
            old(self).state == 3 ==> final(cpu).model().mem == old(cpu).model().mem.update(
                spec_get_addr(old(self).addr as u16),
                old(self).imm,
            ),
    {
        if self.state == 0 {
            if !cpu.fetch_ok() {
                return Step::Fault;
            }
            self.addr = cpu.read_from_pc();
            self.state = 1;
            Step::Busy
        } else if self.state == 1 {
            let x = cpu.x;
            self.addr = self.addr.wrapping_add(x);
            self.state = 2;
            Step::Busy
        } else if self.state == 2 {
            self.imm = cpu.mem.get(self.addr as u16);
            self.state = 3;
            Step::Busy
        } else if self.state == 3 {
            let ghost m0 = cpu.model();
            let ghost d = self.imm;
            let ghost p = spec_get_addr(self.addr as u16);
            cpu.mem.set(self.addr as u16, self.imm);
            self.imm = apply_rmw(cpu, self.op, self.imm);
            self.state = 4;
            proof {
                let r = rmw_result(self.op, m0.flags.carry, d);
                assert(m0.mem.update(p, d).update(p, r) =~= m0.mem.update(p, r));
            }
            Step::Busy
        } else {
            cpu.mem.set(self.addr as u16, self.imm);
            Step::Done
        }
    }
}

/// Absolute read-modify-write: fetch both address bytes, read, dummy
/// write, write.
pub struct RmwAbsolute {
    pub op: RmwOp,
    pub low: u8,
    pub high: u8,
    pub addr: u16,
    pub data: u8,
    pub state: usize,
}

impl RmwAbsolute {
    pub fn start(op: RmwOp) -> (r: RmwAbsolute)
        ensures
            r == (RmwAbsolute { op, low: 0, high: 0, addr: 0, data: 0, state: 0 }),
    {
        RmwAbsolute { op, low: 0, high: 0, addr: 0, data: 0, state: 0 }
    }
}

impl OpCode for RmwAbsolute {
    open spec fn inv(&self) -> bool {
        self.state <= 4
    }

    open spec fn ok(&self, m: CpuModel) -> bool {
        if self.state == 0 {
            m.can_fetch() && m.after_fetch().can_fetch() && mem_writable(
                spec_mk_addr(m.pc_byte(), m.after_fetch().pc_byte()),
            )
        } else if self.state == 1 {
            m.can_fetch() && mem_writable(spec_mk_addr(self.low, m.pc_byte()))
        } else if self.state == 2 {
            mem_writable(spec_mk_addr(self.low, self.high))
        } else {
            mem_writable(self.addr)
        }
    }

    open spec fn remaining(&self, m: CpuModel) -> nat {
        if self.state == 0 {
            5
        } else if self.state == 1 {
            4
        } else if self.state == 2 {
            3
        } else if self.state == 3 {
            2
        } else {
            1
        }
    }

    open spec fn outcome(&self, m: CpuModel) -> CpuModel {
        if self.state == 0 {
            rmw_at(
                self.op,
                m.after_fetch().after_fetch(),
                spec_mk_addr(m.pc_byte(), m.after_fetch().pc_byte()),
            )
        } else if self.state == 1 {
            rmw_at(self.op, m.after_fetch(), spec_mk_addr(self.low, m.pc_byte()))
        } else if self.state == 2 {
            rmw_at(self.op, m, spec_mk_addr(self.low, self.high))
        } else if self.state == 3 {
            CpuModel {
                flags: rmw_flags(self.op, m.flags, self.data),
                mem: m.mem.update(
                    spec_get_addr(self.addr),
                    rmw_result(self.op, m.flags.carry, self.data),
                ),
                ..m
            }
        } else {
            m.with_byte(self.addr, self.data)
        }
    }

    fn new() -> (r: RmwAbsolute) {
        RmwAbsolute { op: RmwOp::Inc, low: 0, high: 0, addr: 0, data: 0, state: 0 }
    }

    fn decode(&mut self, cpu: &mut Cpu) -> (r: Step)
        ensures
            // the dummy write: the write-back cycle stores the unchanged
            // value before the new one is computed
            (old(self).state == 3 && mem_writable(old(self).addr)) ==> final(cpu).model().mem
                == old(cpu).model().mem.update(spec_get_addr(old(self).addr), old(self).data),
    {
        if self.state == 0 {
            if !cpu.fetch_ok() {
                return Step::Fault;
            }
            self.low = cpu.read_from_pc();
            self.state = 1;
            Step::Busy
        } else if self.state == 1 {
            if !cpu.fetch_ok() {
                return Step::Fault;
            }
            self.high = cpu.read_from_pc();
            self.state = 2;
            Step::Busy
        } else if self.state == 2 {
            self.addr = mk_addr(self.low, self.high);
            if !is_mapped(self.addr) {
                return Step::Fault;
            }
            self.data = cpu.mem.get(self.addr);
            self.state = 3;
            Step::Busy
        } else if self.state == 3 {
            if !is_writable(self.addr) {
                return Step::Fault;
            }
            let ghost m0 = cpu.model();
            let ghost d = self.data;
            let ghost p = spec_get_addr(self.addr);
            cpu.mem.set(self.addr, self.data);
            self.data = apply_rmw(cpu, self.op, self.data);
            self.state = 4;
            proof {
                let r = rmw_result(self.op, m0.flags.carry, d);
                assert(m0.mem.update(p, d).update(p, r) =~= m0.mem.update(p, r));
            }
            Step::Busy
        } else {
            if !is_writable(self.addr) {
                return Step::Fault;
            }
            cpu.mem.set(self.addr, self.data);
            Step::Done
        }
    }
}

/// Absolute indexed read-modify-write: always seven cycles, with a
/// speculative read at the possibly-unfixed address during the fix-up.
pub struct RmwAbsoluteX {
    pub op: RmwOp,
    pub low: u8,
    pub high: u8,
    pub carry: bool,
    pub state: usize,
    pub imm: u8,
    pub addr: u16,
}

impl RmwAbsoluteX {
    pub fn start(op: RmwOp) -> (r: RmwAbsoluteX)
        ensures
            r == (RmwAbsoluteX { op, low: 0, high: 0, carry: false, state: 0, imm: 0, addr: 0 }),
    {
        RmwAbsoluteX { op, low: 0, high: 0, carry: false, state: 0, imm: 0, addr: 0 }
    }
}

impl OpCode for RmwAbsoluteX {
    open spec fn inv(&self) -> bool {
        self.state <= 5
    }

    open spec fn ok(&self, m: CpuModel) -> bool {
        if self.state == 0 {
            let low = m.pc_byte();
            let high = m.after_fetch().pc_byte();
            m.can_fetch() && m.after_fetch().can_fetch() && mem_mapped(
                spec_mk_addr(low.wrapping_add(m.x), high),
            ) && mem_writable(crate::engine::addressing::indexed_addr(low, high, m.x))
        } else if self.state == 1 {
            let high = m.pc_byte();
            m.can_fetch() && mem_mapped(spec_mk_addr(self.low.wrapping_add(m.x), high))
                && mem_writable(crate::engine::addressing::indexed_addr(self.low, high, m.x))
        } else if self.state == 2 {
            mem_mapped(spec_mk_addr(self.low, self.high)) && mem_writable(
                spec_mk_addr(
                    self.low,
                    if self.carry {
                        self.high.wrapping_add(1)
                    } else {
                        self.high
                    },
                ),
            )
        } else if self.state == 3 {
            mem_writable(spec_mk_addr(self.low, self.high))
        } else {
            mem_writable(self.addr)
        }
    }

    open spec fn remaining(&self, m: CpuModel) -> nat {
        if self.state == 0 {
            6
        } else if self.state == 1 {
            5
        } else if self.state == 2 {
            4
        } else if self.state == 3 {
            3
        } else if self.state == 4 {
            2
        } else {
            1
        }
    }

    open spec fn outcome(&self, m: CpuModel) -> CpuModel {
        if self.state == 0 {
            rmw_at(
                self.op,
                m.after_fetch().after_fetch(),
                crate::engine::addressing::indexed_addr(
                    m.pc_byte(),
                    m.after_fetch().pc_byte(),
                    m.x,
                ),
            )
        } else if self.state == 1 {
            rmw_at(
                self.op,
                m.after_fetch(),
                crate::engine::addressing::indexed_addr(self.low, m.pc_byte(), m.x),
            )
        } else if self.state == 2 {
            rmw_at(
                self.op,
                m,
                spec_mk_addr(
                    self.low,
                    if self.carry {
                        self.high.wrapping_add(1)
                    } else {
                        self.high
                    },
                ),
            )
        } else if self.state == 3 {
            rmw_at(self.op, m, spec_mk_addr(self.low, self.high))
        } else if self.state == 4 {
            CpuModel {
                flags: rmw_flags(self.op, m.flags, self.imm),
                mem: m.mem.update(
                    spec_get_addr(self.addr),
                    rmw_result(self.op, m.flags.carry, self.imm),
                ),
                ..m
            }
        } else {
            m.with_byte(self.addr, self.imm)
        }
    }

    fn new() -> (r: RmwAbsoluteX) {
        RmwAbsoluteX { op: RmwOp::Inc, low: 0, high: 0, carry: false, state: 0, imm: 0, addr: 0 }
    }

    fn decode(&mut self, cpu: &mut Cpu) -> (r: Step)
        ensures
            // the dummy write: the write-back cycle stores the unchanged
            // value before the new one is computed
            (old(self).state == 4 && mem_writable(old(self).addr)) ==> final(cpu).model().mem
                == old(cpu).model().mem.update(spec_get_addr(old(self).addr), old(self).imm),
    {
        if self.state == 0 {
            if !cpu.fetch_ok() {
                return Step::Fault;
            }
            self.low = cpu.read_from_pc();
            self.state = 1;
            Step::Busy
        } else if self.state == 1 {
            if !cpu.fetch_ok() {
                return Step::Fault;
            }
            self.high = cpu.read_from_pc();
            let x = cpu.x;
            self.carry = (self.low as u16) + (x as u16) > 255;
            self.low = self.low.wrapping_add(x);
            self.state = 2;
            Step::Busy
        } else if self.state == 2 {
            self.addr = mk_addr(self.low, self.high);
            if !is_mapped(self.addr) {
                return Step::Fault;
            }
            self.imm = cpu.mem.get(self.addr);
            if self.carry {
                self.high = self.high.wrapping_add(1);
            }
            self.state = 3;
            Step::Busy
        } else if self.state == 3 {
            self.addr = mk_addr(self.low, self.high);
            if !is_mapped(self.addr) {
                return Step::Fault;
            }
            self.imm = cpu.mem.get(self.addr);
            self.state = 4;
            Step::Busy
        } else if self.state == 4 {
            if !is_writable(self.addr) {
                return Step::Fault;
            }
            let ghost m0 = cpu.model();
            let ghost d = self.imm;
            let ghost p = spec_get_addr(self.addr);
            cpu.mem.set(self.addr, self.imm);
            self.imm = apply_rmw(cpu, self.op, self.imm);
            self.state = 5;
            proof {
                let r = rmw_result(self.op, m0.flags.carry, d);
                assert(m0.mem.update(p, d).update(p, r) =~= m0.mem.update(p, r));
            }
            Step::Busy
        } else {
            if !is_writable(self.addr) {
                return Step::Fault;
            }
            cpu.mem.set(self.addr, self.imm);
            Step::Done
        }
    }
}

/// Applies the chosen core to the accumulator itself.
pub fn apply_rmw_a(cpu: &mut Cpu, op: RmwOp)
    requires
        old(cpu).wf(),
    ensures
        final(cpu).wf(),
        final(cpu).model() == (CpuModel {
            a: rmw_result(op, old(cpu).flags.carry, old(cpu).a),
            flags: rmw_flags(op, old(cpu).flags, old(cpu).a),
            ..old(cpu).model()
        }),
{
    let a = cpu.a;
    let res = apply_rmw(cpu, op, a);
    cpu.a = res;
}


} // verus!
