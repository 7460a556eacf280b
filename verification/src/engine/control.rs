//! Control flow: jumps, the jump-indirect page-boundary quirk, subroutine
//! call and returns, and the conditional branches with their page-crossing
//! cycle accounting.

use vstd::prelude::*;
use crate::engine::cpu::{mk_addr, pc_hi, pc_lo, spec_mk_addr, Cpu, CpuModel};
use crate::engine::opcode::{OpCode, Step};
use crate::engine::stack_ops::{push, spec_push, stack_addr};
use crate::flags::CpuFlags;
use crate::memory::{is_mapped, mem_mapped};

verus! {

/// Absolute jump: fetch the target and set `pc` to it.
pub struct Jmp {
    pub low: u8,
    pub high: u8,
    pub state: usize,
}

impl OpCode for Jmp {
    open spec fn inv(&self) -> bool {
        self.state <= 1
    }

    open spec fn ok(&self, m: CpuModel) -> bool {
        if self.state == 0 {
            m.can_fetch() && m.after_fetch().can_fetch()
        } else {
            m.can_fetch()
        }
    }

    open spec fn remaining(&self, m: CpuModel) -> nat {
        if self.state == 0 {
            2
        } else {
            1
        }
    }

    open spec fn outcome(&self, m: CpuModel) -> CpuModel {
        if self.state == 0 {
            CpuModel { pc: spec_mk_addr(m.pc_byte(), m.after_fetch().pc_byte()), ..m }
        } else {
            CpuModel { pc: spec_mk_addr(self.low, m.pc_byte()), ..m }
        }
    }

    fn new() -> (r: Jmp) {
        Jmp { low: 0, high: 0, state: 0 }
    }

    fn decode(&mut self, cpu: &mut Cpu) -> (r: Step) {
        if self.state == 0 {
            if !cpu.fetch_ok() {
                return Step::Fault;
            }
            self.low = cpu.read_from_pc();
            self.state = 1;
            Step::Busy
        } else {
            if !cpu.fetch_ok() {
                return Step::Fault;
            }
            self.high = cpu.read_from_pc();
            cpu.pc = mk_addr(self.low, self.high);
            Step::Done
        }
    }
}

/// The target an indirect jump reads through its pointer, with the
/// hardware quirk: the high byte is always fetched from the same page as
/// the low byte, so a pointer ending in `$FF` wraps within its page.
pub open spec fn jmp_ind_target(m: CpuModel, low: u8, high: u8) -> u16 {
    spec_mk_addr(
        m.byte(spec_mk_addr(low, high)),
        m.byte(spec_mk_addr(low.wrapping_add(1), high)),
    )
}

/// Indirect jump: dereference a 16-bit pointer, never crossing a page for
/// the high byte.
pub struct JmpInd {
    pub low: u8,
    pub high: u8,
    pub pcl: u8,
    pub state: usize,
}

impl OpCode for JmpInd {
    open spec fn inv(&self) -> bool {
        self.state <= 3
    }

    open spec fn ok(&self, m: CpuModel) -> bool {
        if self.state == 0 {
            let low = m.pc_byte();
            let high = m.after_fetch().pc_byte();
            m.can_fetch() && m.after_fetch().can_fetch() && mem_mapped(spec_mk_addr(low, high))
                && mem_mapped(spec_mk_addr(low.wrapping_add(1), high))
        } else if self.state == 1 {
            let high = m.pc_byte();
            m.can_fetch() && mem_mapped(spec_mk_addr(self.low, high)) && mem_mapped(
                spec_mk_addr(self.low.wrapping_add(1), high),
            )
        } else if self.state == 2 {
            mem_mapped(spec_mk_addr(self.low, self.high)) && mem_mapped(
                spec_mk_addr(self.low.wrapping_add(1), self.high),
            )
        } else {
            mem_mapped(spec_mk_addr(self.low.wrapping_add(1), self.high))
        }
    }

    open spec fn remaining(&self, m: CpuModel) -> nat {
        if self.state == 0 {
            4
        } else if self.state == 1 {
            3
        } else if self.state == 2 {
            2
        } else {
            1
        }
    }

    open spec fn outcome(&self, m: CpuModel) -> CpuModel {
        if self.state == 0 {
            CpuModel {
                pc: jmp_ind_target(m, m.pc_byte(), m.after_fetch().pc_byte()),
                ..m.after_fetch().after_fetch()
            }
        } else if self.state == 1 {
            CpuModel { pc: jmp_ind_target(m, self.low, m.pc_byte()), ..m.after_fetch() }
        } else if self.state == 2 {
            CpuModel { pc: jmp_ind_target(m, self.low, self.high), ..m }
        } else {
            CpuModel {
                pc: spec_mk_addr(
                    self.pcl,
                    m.byte(spec_mk_addr(self.low.wrapping_add(1), self.high)),
                ),
                ..m
            }
        }
    }

    fn new() -> (r: JmpInd) {
        JmpInd { low: 0, high: 0, pcl: 0, state: 0 }
    }

    fn decode(&mut self, cpu: &mut Cpu) -> (r: Step) {
        if self.state == 0 {
            if !cpu.fetch_ok() {
                return Step::Fault;
            }
            self.low = cpu.read_from_pc();
            self.state = 1;
            Step::Busy
        } else if self.state == 1 {
            if !cpu.fetch_ok() {
                return Step::Fault;
            }
            self.high = cpu.read_from_pc();
            self.state = 2;
            Step::Busy
        } else if self.state == 2 {
            let addr = mk_addr(self.low, self.high);
            if !is_mapped(addr) {
                return Step::Fault;
            }
            self.pcl = cpu.mem.get(addr);
            self.state = 3;
            Step::Busy
        } else {
            self.low = self.low.wrapping_add(1);
            let addr = mk_addr(self.low, self.high);
            if !is_mapped(addr) {
                return Step::Fault;
            }
            let pch = cpu.mem.get(addr);
            cpu.pc = mk_addr(self.pcl, pch);
            Step::Done
        }
    }
}

/// Jump to subroutine: pushes the address of the instruction's last byte
/// (return address minus one), high byte first, then jumps.
pub struct Jsr {
    pub low: u8,
    pub high: u8,
    pub state: usize,
}

impl OpCode for Jsr {
    open spec fn inv(&self) -> bool {
        self.state <= 4
    }

    open spec fn ok(&self, m: CpuModel) -> bool {
        if self.state == 0 {
            m.can_fetch() && m.after_fetch().can_fetch()
        } else {
            m.can_fetch()
        }
    }

    open spec fn remaining(&self, m: CpuModel) -> nat {
        if self.state == 0 {
            5
        } else if self.state == 1 {
            4
        } else if self.state == 2 {
            3
        } else if self.state == 3 {
            2
        } else {
            1
        }
    }

    open spec fn outcome(&self, m: CpuModel) -> CpuModel {
        if self.state == 0 {
            let low = m.pc_byte();
            let m1 = m.after_fetch();
            let m2 = spec_push(spec_push(m1, pc_hi(m1.pc)), pc_lo(m1.pc));
            CpuModel { pc: spec_mk_addr(low, m2.pc_byte()), ..m2 }
        } else if self.state == 1 || self.state == 2 {
            let m2 = spec_push(spec_push(m, pc_hi(m.pc)), pc_lo(m.pc));
            CpuModel { pc: spec_mk_addr(self.low, m2.pc_byte()), ..m2 }
        } else if self.state == 3 {
            let m2 = spec_push(m, pc_lo(m.pc));
            CpuModel { pc: spec_mk_addr(self.low, m2.pc_byte()), ..m2 }
        } else {
            CpuModel { pc: spec_mk_addr(self.low, m.pc_byte()), ..m }
        }
    }

    fn new() -> (r: Jsr) {
        Jsr { low: 0, high: 0, state: 0 }
    }

    fn decode(&mut self, cpu: &mut Cpu) -> (r: Step) {
        if self.state == 0 {
            if !cpu.fetch_ok() {
                return Step::Fault;
            }
            self.low = cpu.read_from_pc();
            self.state = 1;
            Step::Busy
        } else if self.state == 1 {
            self.state = 2;
            Step::Busy
        } else if self.state == 2 {
            let val = cpu.pc / 256;
            push(cpu, val as u8);
            self.state = 3;
            Step::Busy
        } else if self.state == 3 {
            let val = cpu.pc % 256;
            push(cpu, val as u8);
            self.state = 4;
            Step::Busy
        } else {
            if !cpu.fetch_ok() {
                return Step::Fault;
            }
            self.high = cpu.read_from_pc();
            cpu.pc = mk_addr(self.low, self.high);
            Step::Done
        }
    }
}

/// Return from subroutine: pulls low then high, forms the address, and
/// adds one.
pub struct Rts {
    pub state: usize,
    pub low: u8,
    pub high: u8,
}

impl OpCode for Rts {
    open spec fn inv(&self) -> bool {
        self.state <= 4
    }

    open spec fn ok(&self, m: CpuModel) -> bool {
        if self.state == 0 {
            mem_mapped(m.pc) && spec_mk_addr(
                m.byte(stack_addr(m.sp.wrapping_add(1))),
                m.byte(stack_addr(m.sp.wrapping_add(2))),
            ) < 0xFFFF
        } else if self.state == 1 {
            spec_mk_addr(
                m.byte(stack_addr(m.sp.wrapping_add(1))),
                m.byte(stack_addr(m.sp.wrapping_add(2))),
            ) < 0xFFFF
        } else if self.state == 2 {
            spec_mk_addr(m.byte(stack_addr(m.sp)), m.byte(stack_addr(m.sp.wrapping_add(1))))
                < 0xFFFF
        } else if self.state == 3 {
            spec_mk_addr(self.low, m.byte(stack_addr(m.sp))) < 0xFFFF
        } else {
            spec_mk_addr(self.low, self.high) < 0xFFFF
        }
    }

    open spec fn remaining(&self, m: CpuModel) -> nat {
        if self.state == 0 {
            5
        } else if self.state == 1 {
            4
        } else if self.state == 2 {
            3
        } else if self.state == 3 {
            2
        } else {
            1
        }
    }

    open spec fn outcome(&self, m: CpuModel) -> CpuModel {
        if self.state == 0 || self.state == 1 {
            let low = m.byte(stack_addr(m.sp.wrapping_add(1)));
            let high = m.byte(stack_addr(m.sp.wrapping_add(2)));
            CpuModel {
                pc: (spec_mk_addr(low, high) + 1) as u16,
                sp: m.sp.wrapping_add(2),
                ..m
            }
        } else if self.state == 2 {
            let low = m.byte(stack_addr(m.sp));
            let high = m.byte(stack_addr(m.sp.wrapping_add(1)));
            CpuModel {
                pc: (spec_mk_addr(low, high) + 1) as u16,
                sp: m.sp.wrapping_add(1),
                ..m
            }
        } else if self.state == 3 {
            let high = m.byte(stack_addr(m.sp));
            CpuModel { pc: (spec_mk_addr(self.low, high) + 1) as u16, ..m }
        } else {
            CpuModel { pc: (spec_mk_addr(self.low, self.high) + 1) as u16, ..m }
        }
    }

    fn new() -> (r: Rts) {
        Rts { state: 0, low: 0, high: 0 }
    }

    fn decode(&mut self, cpu: &mut Cpu) -> (r: Step) {
        if self.state == 0 {
            if !is_mapped(cpu.pc) {
                return Step::Fault;
            }
            let _ = cpu.mem.get(cpu.pc);
            self.state = 1;
            Step::Busy
        } else if self.state == 1 {
            cpu.sp = cpu.sp.wrapping_add(1);
            self.state = 2;
            Step::Busy
        } else if self.state == 2 {
            let sp: u16 = mk_addr(cpu.sp, 1);
            self.low = cpu.mem.get(sp);
            cpu.sp = cpu.sp.wrapping_add(1);
            self.state = 3;
            Step::Busy
        } else if self.state == 3 {
            let sp: u16 = mk_addr(cpu.sp, 1);
            self.high = cpu.mem.get(sp);
            self.state = 4;
            Step::Busy
        } else {
            let addr = mk_addr(self.low, self.high);
            if addr >= 0xFFFF {
                return Step::Fault;
            }
            cpu.pc = addr + 1;
            Step::Done
        }
    }
}

/// Return from interrupt: pulls the flags, then the program counter; does
/// not add one.
pub struct Rti {
    pub state: usize,
    pub low: u8,
    pub high: u8,
}

impl OpCode for Rti {
    open spec fn inv(&self) -> bool {
        self.state <= 4
    }

    open spec fn ok(&self, m: CpuModel) -> bool {
        self.state == 0 ==> mem_mapped(m.pc)
    }

    open spec fn remaining(&self, m: CpuModel) -> nat {
        if self.state == 0 {
            5
        } else if self.state == 1 {
            4
        } else if self.state == 2 {
            3
        } else if self.state == 3 {
            2
        } else {
            1
        }
    }

    open spec fn outcome(&self, m: CpuModel) -> CpuModel {
        if self.state == 0 || self.state == 1 {
            let p = m.byte(stack_addr(m.sp.wrapping_add(1)));
            let low = m.byte(stack_addr(m.sp.wrapping_add(2)));
            let high = m.byte(stack_addr(m.sp.wrapping_add(3)));
            CpuModel {
                pc: spec_mk_addr(low, high),
                sp: m.sp.wrapping_add(3),
                flags: CpuFlags::spec_from_byte(p, m.flags.b4, m.flags.b5),
                ..m
            }
        } else if self.state == 2 {
            let p = m.byte(stack_addr(m.sp));
            let low = m.byte(stack_addr(m.sp.wrapping_add(1)));
            let high = m.byte(stack_addr(m.sp.wrapping_add(2)));
            CpuModel {
                pc: spec_mk_addr(low, high),
                sp: m.sp.wrapping_add(2),
                flags: CpuFlags::spec_from_byte(p, m.flags.b4, m.flags.b5),
                ..m
            }
        } else if self.state == 3 {
            let low = m.byte(stack_addr(m.sp));
            let high = m.byte(stack_addr(m.sp.wrapping_add(1)));
            CpuModel { pc: spec_mk_addr(low, high), sp: m.sp.wrapping_add(1), ..m }
        } else {
            let high = m.byte(stack_addr(m.sp));
            CpuModel { pc: spec_mk_addr(self.low, high), ..m }
        }
    }

    fn new() -> (r: Rti) {
        Rti { state: 0, low: 0, high: 0 }
    }

    fn decode(&mut self, cpu: &mut Cpu) -> (r: Step) {
        if self.state == 0 {
            if !is_mapped(cpu.pc) {
                return Step::Fault;
            }
            let _ = cpu.mem.get(cpu.pc);
            self.state = 1;
            Step::Busy
        } else if self.state == 1 {
            cpu.sp = cpu.sp.wrapping_add(1);
            self.state = 2;
            Step::Busy
        } else if self.state == 2 {
            let sp: u16 = mk_addr(cpu.sp, 1);
            let pflags = cpu.mem.get(sp);
            cpu.flags.update(pflags);
            cpu.sp = cpu.sp.wrapping_add(1);
            self.state = 3;
            Step::Busy
        } else if self.state == 3 {
            let sp: u16 = mk_addr(cpu.sp, 1);
            self.low = cpu.mem.get(sp);
            cpu.sp = cpu.sp.wrapping_add(1);
            self.state = 4;
            Step::Busy
        } else {
            let sp: u16 = mk_addr(cpu.sp, 1);
            self.high = cpu.mem.get(sp);
            cpu.pc = mk_addr(self.low, self.high);
            Step::Done
        }
    }
}

/// Which flag a conditional branch tests.
#[derive(Clone, Copy, Debug)]
pub enum BranchFlag {
    Carry,
    Zero,
    Overflow,
    Negative,
}

/// The value of the tested flag.
pub open spec fn branch_flag_val(f: CpuFlags, which: BranchFlag) -> bool {
    match which {
        BranchFlag::Carry => f.carry,
        BranchFlag::Zero => f.zero,
        BranchFlag::Overflow => f.overflow,
        BranchFlag::Negative => f.negative,
    }
}

/// Reads the tested flag.
pub fn read_branch_flag(cpu: &Cpu, which: BranchFlag) -> (r: bool)
    ensures
        r == branch_flag_val(cpu.flags, which),
{
    match which {
        BranchFlag::Carry => cpu.flags.carry,
        BranchFlag::Zero => cpu.flags.zero,
        BranchFlag::Overflow => cpu.flags.overflow,
        BranchFlag::Negative => cpu.flags.negative,
    }
}

/// Where a taken branch lands: the signed 8-bit offset added to the
/// program counter (which already points past the operand), modulo 2^16.
pub open spec fn branch_target(pc: u16, off: u8) -> u16 {
    if off < 128 {
        pc.wrapping_add(off as u16)
    } else {
        pc.wrapping_add(off as u16).wrapping_sub(256)
    }
}

/// The page-crossing test a taken branch performs: it compares bit 8 of
/// the old and new program counter. Because a branch moves at most 128
/// bytes, the high byte changes by at most one, so this single bit decides
/// it.
pub open spec fn branch_crosses(pc: u16, off: u8) -> bool {
    ((pc >> 8) & 1) != ((branch_target(pc, off) >> 8) & 1)
}

/// A conditional branch: two cycles when not taken, three when taken
/// within the page, four when the target lies in another page.
pub struct Branch {
    pub flag: BranchFlag,
    pub expected: bool,
    pub imm: u8,
    pub state: usize,
}

impl Branch {
    pub fn start(flag: BranchFlag, expected: bool) -> (r: Branch)
        ensures
            r == (Branch { flag, expected, imm: 0, state: 0 }),
    {
        Branch { flag, expected, imm: 0, state: 0 }
    }
}

impl OpCode for Branch {
    open spec fn inv(&self) -> bool {
        self.state <= 2
    }

    open spec fn ok(&self, m: CpuModel) -> bool {
        self.state == 0 ==> m.can_fetch()
    }

    open spec fn remaining(&self, m: CpuModel) -> nat {
        if self.state == 0 {
            if branch_flag_val(m.flags, self.flag) != self.expected {
                1
            } else if branch_crosses(m.after_fetch().pc, m.pc_byte()) {
                3
            } else {
                2
            }
        } else if self.state == 1 {
            if branch_crosses(m.pc, self.imm) {
                2
            } else {
                1
            }
        } else {
            1
        }
    }

    open spec fn outcome(&self, m: CpuModel) -> CpuModel {
        if self.state == 0 {
            if branch_flag_val(m.flags, self.flag) != self.expected {
                m.after_fetch()
            } else {
                CpuModel {
                    pc: branch_target(m.after_fetch().pc, m.pc_byte()),
                    ..m.after_fetch()
                }
            }
        } else if self.state == 1 {
            CpuModel { pc: branch_target(m.pc, self.imm), ..m }
        } else {
            m
        }
    }

    fn new() -> (r: Branch) {
        Branch { flag: BranchFlag::Carry, expected: true, imm: 0, state: 0 }
    }

    fn decode(&mut self, cpu: &mut Cpu) -> (r: Step) {
        if self.state == 0 {
            if !cpu.fetch_ok() {
                return Step::Fault;
            }
            self.imm = cpu.read_from_pc();
            self.state = 1;
            if read_branch_flag(cpu, self.flag) != self.expected {
                Step::Done
            } else {
                Step::Busy
            }
        } else if self.state == 1 {
            self.state = 2;
            let off = self.imm;
            let target: u16 = if off < 128 {
                cpu.pc.wrapping_add(off as u16)
            } else {
                cpu.pc.wrapping_add(off as u16).wrapping_sub(256)
            };
            let p0 = (cpu.pc >> 8) & 1;
            let p1 = (target >> 8) & 1;
            cpu.pc = target;
            if p0 == p1 {
                Step::Done
            } else {
                Step::Busy
            }
        } else {
            Step::Done
        }
    }
}

} // verus!
