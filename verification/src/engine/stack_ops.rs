//! The stack and the four push/pull instructions.
//!
//! The stack lives in the fixed page `$0100-$01FF`; pushes and pulls move
//! the 8-bit stack pointer with wraparound inside that page, never into
//! the page byte.

use vstd::prelude::*;
use crate::engine::cpu::{mk_addr, spec_mk_addr, Cpu, CpuModel};
use crate::engine::opcode::{OpCode, Step};
use crate::flags::CpuFlags;
use crate::memory::{is_mapped, mem_mapped, spec_get_addr};

verus! {

/// The bus address the stack pointer addresses: `$0100 + sp`.
pub open spec fn stack_addr(sp: u8) -> u16 {
    spec_mk_addr(sp, 1)
}

/// The state after pushing one byte: the byte lands at `$0100 + sp` and
/// the stack pointer moves down with wraparound.
pub open spec fn spec_push(m: CpuModel, v: u8) -> CpuModel {
    CpuModel {
        sp: m.sp.wrapping_sub(1),
        mem: m.mem.update(spec_get_addr(stack_addr(m.sp)), v),
        ..m
    }
}

/// Pushes one byte onto the stack.
pub fn push(cpu: &mut Cpu, val: u8)
    requires
        old(cpu).wf(),
    ensures
        final(cpu).wf(),
        final(cpu).model() == spec_push(old(cpu).model(), val),
{
    let sp: u16 = mk_addr(cpu.sp, 1);
    cpu.mem.set(sp, val);
    cpu.sp = cpu.sp.wrapping_sub(1);
}

/// Push processor status: the pushed byte always has bits 4 and 5 set.
pub struct Php {
    pub state: usize,
}

impl OpCode for Php {
    open spec fn inv(&self) -> bool {
        self.state <= 1
    }

    open spec fn ok(&self, m: CpuModel) -> bool {
        self.state == 0 ==> mem_mapped(m.pc)
    }

    open spec fn remaining(&self, m: CpuModel) -> nat {
        if self.state == 0 {
            2
        } else {
            1
        }
    }

    open spec fn outcome(&self, m: CpuModel) -> CpuModel {
        spec_push(m, m.flags.spec_to_p() | 0x30)
    }

    fn new() -> (r: Php) {
        Php { state: 0 }
    }

    fn decode(&mut self, cpu: &mut Cpu) -> (r: Step) {
        if self.state == 0 {
            if !is_mapped(cpu.pc) {
                return Step::Fault;
            }
            let _ = cpu.mem.get(cpu.pc);
            self.state = 1;
            Step::Busy
        } else {
            let val = cpu.flags.to_p() | 0x30;
            push(cpu, val);
            Step::Done
        }
    }
}

/// Push accumulator.
pub struct Pha {
    pub state: usize,
}

impl OpCode for Pha {
    open spec fn inv(&self) -> bool {
        self.state <= 1
    }

    open spec fn ok(&self, m: CpuModel) -> bool {
        self.state == 0 ==> mem_mapped(m.pc)
    }

    open spec fn remaining(&self, m: CpuModel) -> nat {
        if self.state == 0 {
            2
        } else {
            1
        }
    }

    open spec fn outcome(&self, m: CpuModel) -> CpuModel {
        spec_push(m, m.a)
    }

    fn new() -> (r: Pha) {
        Pha { state: 0 }
    }

    fn decode(&mut self, cpu: &mut Cpu) -> (r: Step) {
        if self.state == 0 {
            if !is_mapped(cpu.pc) {
                return Step::Fault;
            }
            let _ = cpu.mem.get(cpu.pc);
            self.state = 1;
            Step::Busy
        } else {
            let val = cpu.a;
            push(cpu, val);
            Step::Done
        }
    }
}

/// Pull accumulator: zero and negative come from the pulled byte.
pub struct Pla {
    pub state: usize,
}

impl OpCode for Pla {
    open spec fn inv(&self) -> bool {
        self.state <= 2
    }

    open spec fn ok(&self, m: CpuModel) -> bool {
        self.state == 0 ==> mem_mapped(m.pc)
    }

    open spec fn remaining(&self, m: CpuModel) -> nat {
        if self.state == 0 {
            3
        } else if self.state == 1 {
            2
        } else {
            1
        }
    }

    open spec fn outcome(&self, m: CpuModel) -> CpuModel {
        if self.state <= 1 {
            let sp1 = m.sp.wrapping_add(1);
            let v = m.byte(stack_addr(sp1));
            CpuModel { sp: sp1, a: v, flags: crate::engine::alu::spec_zn(m.flags, v), ..m }
        } else {
            let v = m.byte(stack_addr(m.sp));
            CpuModel { a: v, flags: crate::engine::alu::spec_zn(m.flags, v), ..m }
        }
    }

    fn new() -> (r: Pla) {
        Pla { state: 0 }
    }

    fn decode(&mut self, cpu: &mut Cpu) -> (r: Step) {
        if self.state == 0 {
            if !is_mapped(cpu.pc) {
                return Step::Fault;
            }
            let _ = cpu.mem.get(cpu.pc);
            self.state = 1;
            Step::Busy
        } else if self.state == 1 {
            cpu.sp = cpu.sp.wrapping_add(1);
            self.state = 2;
            Step::Busy
        } else {
            let sp = mk_addr(cpu.sp, 1);
            let v = cpu.mem.get(sp);
            cpu.a = v;
            cpu.flags.zero = v == 0;
            cpu.flags.negative = (v & 0x80) != 0;
            Step::Done
        }
    }
}

/// Pull processor status: all flags restored through the packed-byte
/// update rule, so bits 4 and 5 of the pulled byte are ignored.
pub struct Plp {
    pub state: usize,
}

impl OpCode for Plp {
    open spec fn inv(&self) -> bool {
        self.state <= 2
    }

    open spec fn ok(&self, m: CpuModel) -> bool {
        self.state == 0 ==> mem_mapped(m.pc)
    }

    open spec fn remaining(&self, m: CpuModel) -> nat {
        if self.state == 0 {
            3
        } else if self.state == 1 {
            2
        } else {
            1
        }
    }

    open spec fn outcome(&self, m: CpuModel) -> CpuModel {
        if self.state <= 1 {
            let sp1 = m.sp.wrapping_add(1);
            let v = m.byte(stack_addr(sp1));
            CpuModel {
                sp: sp1,
                flags: CpuFlags::spec_from_byte(v, m.flags.b4, m.flags.b5),
                ..m
            }
        } else {
            let v = m.byte(stack_addr(m.sp));
            CpuModel { flags: CpuFlags::spec_from_byte(v, m.flags.b4, m.flags.b5), ..m }
        }
    }

    fn new() -> (r: Plp) {
        Plp { state: 0 }
    }

    fn decode(&mut self, cpu: &mut Cpu) -> (r: Step) {
        if self.state == 0 {
            if !is_mapped(cpu.pc) {
                return Step::Fault;
            }
            let _ = cpu.mem.get(cpu.pc);
            self.state = 1;
            Step::Busy
        } else if self.state == 1 {
            cpu.sp = cpu.sp.wrapping_add(1);
            self.state = 2;
            Step::Busy
        } else {
            let sp = mk_addr(cpu.sp, 1);
            let imm = cpu.mem.get(sp);
            cpu.flags.update(imm);
            Step::Done
        }
    }
}

} // verus!
