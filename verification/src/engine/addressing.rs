//! Addressing-mode state machines for instructions that read an operand or
//! store a register: immediate, zero page, zero page indexed, absolute,
//! absolute indexed, pre-indexed indirect and post-indexed indirect.
//!
//! Address arithmetic follows the hardware: the low byte of an indexed
//! address is added modulo 256, and the carry is applied to the high byte
//! only where the documented cycle sequence fixes it up — one extra cycle
//! on a page crossing for reads, always the worst case for stores.

use vstd::prelude::*;
use crate::engine::alu::{access_ok, apply_addr, apply_imm, spec_apply_addr, spec_apply_imm, ReadOp};
use crate::engine::cpu::{mk_addr, spec_mk_addr, Cpu, CpuModel};
use crate::engine::opcode::{OpCode, Step};

verus! {

/// Which index register an indexed mode adds.
#[derive(Clone, Copy, Debug)]
pub enum Index {
    X,
    Y,
}

/// The value of the chosen index register.
pub open spec fn index_val(m: CpuModel, reg: Index) -> u8 {
    match reg {
        Index::X => m.x,
        Index::Y => m.y,
    }
}

/// Reads the chosen index register.
pub fn read_index(cpu: &Cpu, reg: Index) -> (r: u8)
    ensures
        r == index_val(cpu.model(), reg),
{
    match reg {
        Index::X => cpu.x,
        Index::Y => cpu.y,
    }
}

/// Immediate mode: one cycle fetches the operand and applies the operation.
pub struct Imm {
    pub op: ReadOp,
}

impl Imm {
    pub fn start(op: ReadOp) -> (r: Imm)
        ensures
            r == (Imm { op }),
    {
        Imm { op }
    }
}

impl OpCode for Imm {
    open spec fn inv(&self) -> bool {
        true
    }

    open spec fn ok(&self, m: CpuModel) -> bool {
        m.can_fetch()
    }

    open spec fn remaining(&self, m: CpuModel) -> nat {
        1
    }

    open spec fn outcome(&self, m: CpuModel) -> CpuModel {
        spec_apply_imm(self.op, m.after_fetch(), m.pc_byte())
    }

    fn new() -> (r: Imm) {
        Imm { op: ReadOp::Nop }
    }

    fn decode(&mut self, cpu: &mut Cpu) -> (r: Step) {
        if !cpu.fetch_ok() {
            return Step::Fault;
        }
        let imm = cpu.read_from_pc();
        apply_imm(cpu, self.op, imm);
        Step::Done
    }
}

/// Zero-page mode: fetch an 8-bit address, then operate through it.
pub struct ZeroPage {
    pub op: ReadOp,
    pub addr: u8,
    pub state: usize,
}

impl ZeroPage {
    pub fn start(op: ReadOp) -> (r: ZeroPage)
        ensures
            r == (ZeroPage { op, addr: 0, state: 0 }),
    {
        ZeroPage { op, addr: 0, state: 0 }
    }
}

impl OpCode for ZeroPage {
    open spec fn inv(&self) -> bool {
        self.state <= 1
    }

    open spec fn ok(&self, m: CpuModel) -> bool {
        self.state == 0 ==> m.can_fetch()
    }

    open spec fn remaining(&self, m: CpuModel) -> nat {
        if self.state == 0 {
            2
        } else {
            1
        }
    }

    open spec fn outcome(&self, m: CpuModel) -> CpuModel {
        if self.state == 0 {
            spec_apply_addr(self.op, m.after_fetch(), m.pc_byte() as u16)
        } else {
            spec_apply_addr(self.op, m, self.addr as u16)
        }
    }

    fn new() -> (r: ZeroPage) {
        ZeroPage { op: ReadOp::Nop, addr: 0, state: 0 }
    }

    fn decode(&mut self, cpu: &mut Cpu) -> (r: Step) {
        if self.state == 0 {
            if !cpu.fetch_ok() {
                return Step::Fault;
            }
            self.addr = cpu.read_from_pc();
            self.state = 1;
            Step::Busy
        } else {
            let ok = apply_addr(cpu, self.op, self.addr as u16);
            if ok {
                Step::Done
            } else {
                Step::Fault
            }
        }
    }
}

/// Zero-page indexed mode: fetch an 8-bit address, add the index register
/// with 8-bit wraparound (the high byte stays zero), then operate.
pub struct ZeroPageReg {
    pub op: ReadOp,
    pub reg: Index,
    pub addr: u8,
    pub state: usize,
}

impl ZeroPageReg {
    pub fn start(op: ReadOp, reg: Index) -> (r: ZeroPageReg)
        ensures
            r == (ZeroPageReg { op, reg, addr: 0, state: 0 }),
    {
        ZeroPageReg { op, reg, addr: 0, state: 0 }
    }
}

impl OpCode for ZeroPageReg {
    open spec fn inv(&self) -> bool {
        self.state <= 2
    }

    open spec fn ok(&self, m: CpuModel) -> bool {
        self.state == 0 ==> m.can_fetch()
    }

    open spec fn remaining(&self, m: CpuModel) -> nat {
        if self.state == 0 {
            3
        } else if self.state == 1 {
            2
        } else {
            1
        }
    }

    open spec fn outcome(&self, m: CpuModel) -> CpuModel {
        if self.state == 0 {
            spec_apply_addr(
                self.op,
                m.after_fetch(),
                m.pc_byte().wrapping_add(index_val(m, self.reg)) as u16,
            )
        } else if self.state == 1 {
            spec_apply_addr(self.op, m, self.addr.wrapping_add(index_val(m, self.reg)) as u16)
        } else {
            spec_apply_addr(self.op, m, self.addr as u16)
        }
    }

    fn new() -> (r: ZeroPageReg) {
        ZeroPageReg { op: ReadOp::Nop, reg: Index::X, addr: 0, state: 0 }
    }

    fn decode(&mut self, cpu: &mut Cpu) -> (r: Step) {
        if self.state == 0 {
            if !cpu.fetch_ok() {
                return Step::Fault;
            }
            self.addr = cpu.read_from_pc();
            self.state = 1;
            Step::Busy
        } else if self.state == 1 {
            let idx = read_index(cpu, self.reg);
            self.addr = self.addr.wrapping_add(idx);
            self.state = 2;
            Step::Busy
        } else {
            let ok = apply_addr(cpu, self.op, self.addr as u16);
            if ok {
                Step::Done
            } else {
                Step::Fault
            }
        }
    }
}

/// Absolute mode: fetch the low and high address bytes, then operate.
pub struct Absolute {
    pub op: ReadOp,
    pub low: u8,
    pub high: u8,
    pub state: usize,
}

impl Absolute {
    pub fn start(op: ReadOp) -> (r: Absolute)
        ensures
            r == (Absolute { op, low: 0, high: 0, state: 0 }),
    {
        Absolute { op, low: 0, high: 0, state: 0 }
    }
}

impl OpCode for Absolute {
    open spec fn inv(&self) -> bool {
        self.state <= 2
    }

    open spec fn ok(&self, m: CpuModel) -> bool {
        if self.state == 0 {
            m.can_fetch() && m.after_fetch().can_fetch() && access_ok(
                self.op,
                spec_mk_addr(m.pc_byte(), m.after_fetch().pc_byte()),
            )
        } else if self.state == 1 {
            m.can_fetch() && access_ok(self.op, spec_mk_addr(self.low, m.pc_byte()))
        } else {
            access_ok(self.op, spec_mk_addr(self.low, self.high))
        }
    }

    open spec fn remaining(&self, m: CpuModel) -> nat {
        if self.state == 0 {
            3
        } else if self.state == 1 {
            2
        } else {
            1
        }
    }

    open spec fn outcome(&self, m: CpuModel) -> CpuModel {
        if self.state == 0 {
            spec_apply_addr(
                self.op,
                m.after_fetch().after_fetch(),
                spec_mk_addr(m.pc_byte(), m.after_fetch().pc_byte()),
            )
        } else if self.state == 1 {
            spec_apply_addr(self.op, m.after_fetch(), spec_mk_addr(self.low, m.pc_byte()))
        } else {
            spec_apply_addr(self.op, m, spec_mk_addr(self.low, self.high))
        }
    }

    fn new() -> (r: Absolute) {
        Absolute { op: ReadOp::Nop, low: 0, high: 0, state: 0 }
    }

    fn decode(&mut self, cpu: &mut Cpu) -> (r: Step) {
        if self.state == 0 {
            if !cpu.fetch_ok() {
                return Step::Fault;
            }
            self.low = cpu.read_from_pc();
            self.state = 1;
            Step::Busy
        } else if self.state == 1 {
            if !cpu.fetch_ok() {
                return Step::Fault;
            }
            self.high = cpu.read_from_pc();
            self.state = 2;
            Step::Busy
        } else {
            let addr = mk_addr(self.low, self.high);
            let ok = apply_addr(cpu, self.op, addr);
            if ok {
                Step::Done
            } else {
                Step::Fault
            }
        }
    }
}

/// The effective address of an absolute indexed access: the low byte is
/// added modulo 256 and the carry, when it occurred, increments the high
/// byte modulo 256.
pub open spec fn indexed_addr(low: u8, high: u8, idx: u8) -> u16 {
    let lw = low.wrapping_add(idx);
    let hw = if low + idx > 255 {
        high.wrapping_add(1)
    } else {
        high
    };
    spec_mk_addr(lw, hw)
}

/// Absolute indexed mode: fetch the address, add the index to the low
/// byte, and spend one extra fix-up cycle only when that addition carried
/// — except that stores always pay the worst-case cycle count.
pub struct AbsoluteReg {
    pub op: ReadOp,
    pub reg: Index,
    pub store: bool,
    pub low: u8,
    pub high: u8,
    pub carry: bool,
    pub state: usize,
}

impl AbsoluteReg {
    pub fn start(op: ReadOp, reg: Index, store: bool) -> (r: AbsoluteReg)
        ensures
            r == (AbsoluteReg { op, reg, store, low: 0, high: 0, carry: false, state: 0 }),
    {
        AbsoluteReg { op, reg, store, low: 0, high: 0, carry: false, state: 0 }
    }
}

impl OpCode for AbsoluteReg {
    open spec fn inv(&self) -> bool {
        self.state <= 3
    }

    open spec fn ok(&self, m: CpuModel) -> bool {
        if self.state == 0 {
            m.can_fetch() && m.after_fetch().can_fetch() && access_ok(
                self.op,
                indexed_addr(m.pc_byte(), m.after_fetch().pc_byte(), index_val(m, self.reg)),
            )
        } else if self.state == 1 {
            m.can_fetch() && access_ok(
                self.op,
                indexed_addr(self.low, m.pc_byte(), index_val(m, self.reg)),
            )
        } else if self.state == 2 {
            access_ok(
                self.op,
                spec_mk_addr(
                    self.low,
                    if self.carry {
                        self.high.wrapping_add(1)
                    } else {
                        self.high
                    },
                ),
            )
        } else {
            access_ok(self.op, spec_mk_addr(self.low, self.high))
        }
    }

    open spec fn remaining(&self, m: CpuModel) -> nat {
        if self.state == 0 {
            let crosses = m.pc_byte() + index_val(m, self.reg) > 255;
            if crosses || self.store {
                4
            } else {
                3
            }
        } else if self.state == 1 {
            let crosses = self.low + index_val(m, self.reg) > 255;
            if crosses || self.store {
                3
            } else {
                2
            }
        } else if self.state == 2 {
            if self.carry || self.store {
                2
            } else {
                1
            }
        } else {
            1
        }
    }

    open spec fn outcome(&self, m: CpuModel) -> CpuModel {
        if self.state == 0 {
            spec_apply_addr(
                self.op,
                m.after_fetch().after_fetch(),
                indexed_addr(m.pc_byte(), m.after_fetch().pc_byte(), index_val(m, self.reg)),
            )
        } else if self.state == 1 {
            spec_apply_addr(
                self.op,
                m.after_fetch(),
                indexed_addr(self.low, m.pc_byte(), index_val(m, self.reg)),
            )
        } else if self.state == 2 {
            spec_apply_addr(
                self.op,
                m,
                spec_mk_addr(
                    self.low,
                    if self.carry {
                        self.high.wrapping_add(1)
                    } else {
                        self.high
                    },
                ),
            )
        } else {
            spec_apply_addr(self.op, m, spec_mk_addr(self.low, self.high))
        }
    }

    fn new() -> (r: AbsoluteReg) {
        AbsoluteReg {
            op: ReadOp::Nop,
            reg: Index::X,
            store: false,
            low: 0,
            high: 0,
            carry: false,
            state: 0,
        }
    }

    fn decode(&mut self, cpu: &mut Cpu) -> (r: Step) {
        if self.state == 0 {
            if !cpu.fetch_ok() {
                return Step::Fault;
            }
            self.low = cpu.read_from_pc();
            self.state = 1;
            Step::Busy
        } else if self.state == 1 {
            if !cpu.fetch_ok() {
                return Step::Fault;
            }
            self.high = cpu.read_from_pc();
            let idx = read_index(cpu, self.reg);
            self.carry = (self.low as u16) + (idx as u16) > 255;
            self.low = self.low.wrapping_add(idx);
            self.state = 2;
            Step::Busy
        } else if self.state == 2 {
            self.state = 3;
            if self.carry {
                self.high = self.high.wrapping_add(1);
                Step::Busy
            } else if self.store {
                Step::Busy
            } else {
                let addr = mk_addr(self.low, self.high);
                let ok = apply_addr(cpu, self.op, addr);
                if ok {
                    Step::Done
                } else {
                    Step::Fault
                }
            }
        } else {
            let addr = mk_addr(self.low, self.high);
            let ok = apply_addr(cpu, self.op, addr);
            if ok {
                Step::Done
            } else {
                Step::Fault
            }
        }
    }
}

/// Pre-indexed indirect mode `(zp,X)`: fetch a zero-page pointer, add X
/// with 8-bit wraparound, read the target address from that (wrapped)
/// pointer, then operate.
pub struct IndirectX {
    pub op: ReadOp,
    pub low: u8,
    pub high: u8,
    pub addr: u8,
    pub state: usize,
}

/// The target address a `(zp,X)` access resolves to.
pub open spec fn indirect_x_target(m: CpuModel, ptr: u8, x: u8) -> u16 {
    let p = ptr.wrapping_add(x);
    spec_mk_addr(m.byte(p as u16), m.byte(p.wrapping_add(1) as u16))
}

impl IndirectX {
    pub fn start(op: ReadOp) -> (r: IndirectX)
        ensures
            r == (IndirectX { op, low: 0, high: 0, addr: 0, state: 0 }),
    {
        IndirectX { op, low: 0, high: 0, addr: 0, state: 0 }
    }
}

impl OpCode for IndirectX {
    open spec fn inv(&self) -> bool {
        self.state <= 4
    }

    open spec fn ok(&self, m: CpuModel) -> bool {
        if self.state == 0 {
            m.can_fetch() && access_ok(self.op, indirect_x_target(m, m.pc_byte(), m.x))
        } else if self.state == 1 {
            access_ok(self.op, indirect_x_target(m, self.addr, m.x))
        } else if self.state == 2 {
            access_ok(
                self.op,
                spec_mk_addr(m.byte(self.addr as u16), m.byte(self.addr.wrapping_add(1) as u16)),
            )
        } else if self.state == 3 {
            access_ok(self.op, spec_mk_addr(self.low, m.byte(self.addr as u16)))
        } else {
            access_ok(self.op, spec_mk_addr(self.low, self.high))
        }
    }

    open spec fn remaining(&self, m: CpuModel) -> nat {
        if self.state == 0 {
            5
        } else if self.state == 1 {
            4
        } else if self.state == 2 {
            3
        } else if self.state == 3 {
            2
        } else {
            1
        }
    }

    open spec fn outcome(&self, m: CpuModel) -> CpuModel {
        if self.state == 0 {
            spec_apply_addr(
                self.op,
                m.after_fetch(),
                indirect_x_target(m, m.pc_byte(), m.x),
            )
        } else if self.state == 1 {
            spec_apply_addr(self.op, m, indirect_x_target(m, self.addr, m.x))
        } else if self.state == 2 {
            spec_apply_addr(
                self.op,
                m,
                spec_mk_addr(m.byte(self.addr as u16), m.byte(self.addr.wrapping_add(1) as u16)),
            )
        } else if self.state == 3 {
            spec_apply_addr(self.op, m, spec_mk_addr(self.low, m.byte(self.addr as u16)))
        } else {
            spec_apply_addr(self.op, m, spec_mk_addr(self.low, self.high))
        }
    }

    fn new() -> (r: IndirectX) {
        IndirectX { op: ReadOp::Nop, low: 0, high: 0, addr: 0, state: 0 }
    }

    fn decode(&mut self, cpu: &mut Cpu) -> (r: Step) {
        if self.state == 0 {
            if !cpu.fetch_ok() {
                return Step::Fault;
            }
            self.addr = cpu.read_from_pc();
            self.state = 1;
            Step::Busy
        } else if self.state == 1 {
            let x = cpu.x;
            self.addr = self.addr.wrapping_add(x);
            self.state = 2;
            Step::Busy
        } else if self.state == 2 {
            self.low = cpu.mem.get(self.addr as u16);
            self.addr = self.addr.wrapping_add(1);
            self.state = 3;
            Step::Busy
        } else if self.state == 3 {
            self.high = cpu.mem.get(self.addr as u16);
            self.state = 4;
            Step::Busy
        } else {
            let addr = mk_addr(self.low, self.high);
            let ok = apply_addr(cpu, self.op, addr);
            if ok {
                Step::Done
            } else {
                Step::Fault
            }
        }
    }
}

/// The base address a `(zp),Y` access reads from the zero page.
pub open spec fn indirect_y_base(m: CpuModel, ptr: u8) -> (u8, u8) {
    (m.byte(ptr as u16), m.byte(ptr.wrapping_add(1) as u16))
}

/// Post-indexed indirect mode `(zp),Y`: read a base address from a
/// zero-page pointer, add Y to its low byte, and spend the fix-up cycle
/// only on a carry — stores always pay it.
pub struct IndirectY {
    pub op: ReadOp,
    pub store: bool,
    pub low: u8,
    pub high: u8,
    pub carry: bool,
    pub addr: u8,
    pub state: usize,
}

impl IndirectY {
    pub fn start(op: ReadOp, store: bool) -> (r: IndirectY)
        ensures
            r == (IndirectY { op, store, low: 0, high: 0, carry: false, addr: 0, state: 0 }),
    {
        IndirectY { op, store, low: 0, high: 0, carry: false, addr: 0, state: 0 }
    }
}

impl OpCode for IndirectY {
    open spec fn inv(&self) -> bool {
        self.state <= 4
    }

    open spec fn ok(&self, m: CpuModel) -> bool {
        if self.state == 0 {
            let base = indirect_y_base(m, m.pc_byte());
            m.can_fetch() && access_ok(self.op, indexed_addr(base.0, base.1, m.y))
        } else if self.state == 1 {
            let base = indirect_y_base(m, self.addr);
            access_ok(self.op, indexed_addr(base.0, base.1, m.y))
        } else if self.state == 2 {
            access_ok(self.op, indexed_addr(self.low, m.byte(self.addr as u16), m.y))
        } else if self.state == 3 {
            access_ok(
                self.op,
                spec_mk_addr(
                    self.low,
                    if self.carry {
                        self.high.wrapping_add(1)
                    } else {
                        self.high
                    },
                ),
            )
        } else {
            access_ok(self.op, spec_mk_addr(self.low, self.high))
        }
    }

    open spec fn remaining(&self, m: CpuModel) -> nat {
        if self.state == 0 {
            let base = indirect_y_base(m, m.pc_byte());
            if base.0 + m.y > 255 || self.store {
                5
            } else {
                4
            }
        } else if self.state == 1 {
            let base = indirect_y_base(m, self.addr);
            if base.0 + m.y > 255 || self.store {
                4
            } else {
                3
            }
        } else if self.state == 2 {
            if self.low + m.y > 255 || self.store {
                3
            } else {
                2
            }
        } else if self.state == 3 {
            if self.carry || self.store {
                2
            } else {
                1
            }
        } else {
            1
        }
    }

    open spec fn outcome(&self, m: CpuModel) -> CpuModel {
        if self.state == 0 {
            let base = indirect_y_base(m, m.pc_byte());
            spec_apply_addr(self.op, m.after_fetch(), indexed_addr(base.0, base.1, m.y))
        } else if self.state == 1 {
            let base = indirect_y_base(m, self.addr);
            spec_apply_addr(self.op, m, indexed_addr(base.0, base.1, m.y))
        } else if self.state == 2 {
            spec_apply_addr(self.op, m, indexed_addr(self.low, m.byte(self.addr as u16), m.y))
        } else if self.state == 3 {
            spec_apply_addr(
                self.op,
                m,
                spec_mk_addr(
                    self.low,
                    if self.carry {
                        self.high.wrapping_add(1)
                    } else {
                        self.high
                    },
                ),
            )
        } else {
            spec_apply_addr(self.op, m, spec_mk_addr(self.low, self.high))
        }
    }

    fn new() -> (r: IndirectY) {
        IndirectY {
            op: ReadOp::Nop,
            store: false,
            low: 0,
            high: 0,
            carry: false,
            addr: 0,
            state: 0,
        }
    }

    fn decode(&mut self, cpu: &mut Cpu) -> (r: Step) {
        if self.state == 0 {
            if !cpu.fetch_ok() {
                return Step::Fault;
            }
            self.addr = cpu.read_from_pc();
            self.state = 1;
            Step::Busy
        } else if self.state == 1 {
            self.low = cpu.mem.get(self.addr as u16);
            self.addr = self.addr.wrapping_add(1);
            self.state = 2;
            Step::Busy
        } else if self.state == 2 {
            self.high = cpu.mem.get(self.addr as u16);
            let y = cpu.y;
            self.carry = (self.low as u16) + (y as u16) > 255;
            self.low = self.low.wrapping_add(y);
            self.state = 3;
            Step::Busy
        } else if self.state == 3 {
            self.state = 4;
            if self.carry {
                self.high = self.high.wrapping_add(1);
                Step::Busy
            } else if self.store {
                Step::Busy
            } else {
                let addr = mk_addr(self.low, self.high);
                let ok = apply_addr(cpu, self.op, addr);
                if ok {
                    Step::Done
                } else {
                    Step::Fault
                }
            }
        } else {
            let addr = mk_addr(self.low, self.high);
            let ok = apply_addr(cpu, self.op, addr);
            if ok {
                Step::Done
            } else {
                Step::Fault
            }
        }
    }
}

} // verus!
