//! Single-cycle instructions: flag set/clear, register transfers, register
//! increment/decrement, the accumulator shifts and rotates, no-op — and the
//! absolute form of the bit test.

use vstd::prelude::*;
use crate::engine::addressing::{index_val, read_index, Index};
use crate::engine::alu::{spec_bit, spec_zn};
use crate::engine::cpu::{mk_addr, spec_mk_addr, Cpu, CpuModel};
use crate::engine::opcode::{OpCode, Step};
use crate::engine::rmw::{apply_rmw_a, rmw_flags, rmw_result, RmwOp};
use crate::flags::CpuFlags;
use crate::memory::{is_mapped, mem_mapped};

verus! {

/// Which flag a set/clear instruction writes.
#[derive(Clone, Copy, Debug)]
pub enum FlagKind {
    Carry,
    IntDisable,
    DecimalMode,
    Overflow,
}

/// The flag set with one bit replaced.
pub open spec fn set_flag(f: CpuFlags, which: FlagKind, val: bool) -> CpuFlags {
    match which {
        FlagKind::Carry => CpuFlags { carry: val, ..f },
        FlagKind::IntDisable => CpuFlags { int_disable: val, ..f },
        FlagKind::DecimalMode => CpuFlags { decimal_mode: val, ..f },
        FlagKind::Overflow => CpuFlags { overflow: val, ..f },
    }
}

/// A flag set/clear instruction (SEC, SED, SEI, CLC, CLD, CLI, CLV).
pub struct FlagOp {
    pub which: FlagKind,
    pub val: bool,
}

impl FlagOp {
    pub fn start(which: FlagKind, val: bool) -> (r: FlagOp)
        ensures
            r == (FlagOp { which, val }),
    {
        FlagOp { which, val }
    }
}

impl OpCode for FlagOp {
    open spec fn inv(&self) -> bool {
        true
    }

    open spec fn ok(&self, m: CpuModel) -> bool {
        mem_mapped(m.pc)
    }

    open spec fn remaining(&self, m: CpuModel) -> nat {
        1
    }

    open spec fn outcome(&self, m: CpuModel) -> CpuModel {
        CpuModel { flags: set_flag(m.flags, self.which, self.val), ..m }
    }

    fn new() -> (r: FlagOp) {
        FlagOp { which: FlagKind::Carry, val: false }
    }

    fn decode(&mut self, cpu: &mut Cpu) -> (r: Step) {
        if !is_mapped(cpu.pc) {
            return Step::Fault;
        }
        let _ = cpu.mem.get(cpu.pc);
        match self.which {
            FlagKind::Carry => cpu.flags.carry = self.val,
            FlagKind::IntDisable => cpu.flags.int_disable = self.val,
            FlagKind::DecimalMode => cpu.flags.decimal_mode = self.val,
            FlagKind::Overflow => cpu.flags.overflow = self.val,
        }
        Step::Done
    }
}

/// A register named by the transfer instructions.
#[derive(Clone, Copy, Debug)]
pub enum TReg {
    A,
    X,
    Y,
}

/// The value of the named register.
pub open spec fn treg_val(m: CpuModel, r: TReg) -> u8 {
    match r {
        TReg::A => m.a,
        TReg::X => m.x,
        TReg::Y => m.y,
    }
}

/// The state with the named register replaced.
pub open spec fn treg_set(m: CpuModel, r: TReg, v: u8) -> CpuModel {
    match r {
        TReg::A => CpuModel { a: v, ..m },
        TReg::X => CpuModel { x: v, ..m },
        TReg::Y => CpuModel { y: v, ..m },
    }
}

/// A register transfer (TAX, TAY, TXA, TYA): moves a byte and updates
/// zero and negative.
pub struct Transfer {
    pub from: TReg,
    pub to: TReg,
}

impl Transfer {
    pub fn start(from: TReg, to: TReg) -> (r: Transfer)
        ensures
            r == (Transfer { from, to }),
    {
        Transfer { from, to }
    }
}

impl OpCode for Transfer {
    open spec fn inv(&self) -> bool {
        true
    }

    open spec fn ok(&self, m: CpuModel) -> bool {
        true
    }

    open spec fn remaining(&self, m: CpuModel) -> nat {
        1
    }

    open spec fn outcome(&self, m: CpuModel) -> CpuModel {
        let v = treg_val(m, self.from);
        let m2 = treg_set(m, self.to, v);
        CpuModel { flags: spec_zn(m.flags, v), ..m2 }
    }

    fn new() -> (r: Transfer) {
        Transfer { from: TReg::A, to: TReg::X }
    }

    fn decode(&mut self, cpu: &mut Cpu) -> (r: Step) {
        let v = match self.from {
            TReg::A => cpu.a,
            TReg::X => cpu.x,
            TReg::Y => cpu.y,
        };
        match self.to {
            TReg::A => cpu.a = v,
            TReg::X => cpu.x = v,
            TReg::Y => cpu.y = v,
        }
        cpu.flags.zero = v == 0;
        cpu.flags.negative = (v & 0x80) != 0;
        Step::Done
    }
}

/// Transfer stack pointer to X, updating zero and negative.
pub struct TSX {}

impl OpCode for TSX {
    open spec fn inv(&self) -> bool {
        true
    }

    open spec fn ok(&self, m: CpuModel) -> bool {
        true
    }

    open spec fn remaining(&self, m: CpuModel) -> nat {
        1
    }

    open spec fn outcome(&self, m: CpuModel) -> CpuModel {
        CpuModel { x: m.sp, flags: spec_zn(m.flags, m.sp), ..m }
    }

    fn new() -> (r: TSX) {
        TSX {  }
    }

    fn decode(&mut self, cpu: &mut Cpu) -> (r: Step) {
        let imm = cpu.sp;
        cpu.x = imm;
        cpu.flags.zero = imm == 0;
        cpu.flags.negative = (imm & 0x80) != 0;
        Step::Done
    }
}

/// Transfer X to the stack pointer; no flags are touched.
pub struct TXS {}

impl OpCode for TXS {
    open spec fn inv(&self) -> bool {
        true
    }

    open spec fn ok(&self, m: CpuModel) -> bool {
        true
    }

    open spec fn remaining(&self, m: CpuModel) -> nat {
        1
    }

    open spec fn outcome(&self, m: CpuModel) -> CpuModel {
        CpuModel { sp: m.x, ..m }
    }

    fn new() -> (r: TXS) {
        TXS {  }
    }

    fn decode(&mut self, cpu: &mut Cpu) -> (r: Step) {
        cpu.sp = cpu.x;
        Step::Done
    }
}

/// Increment an index register with 8-bit wraparound (INX, INY).
pub struct Incr {
    pub reg: Index,
}

impl Incr {
    pub fn start(reg: Index) -> (r: Incr)
        ensures
            r == (Incr { reg }),
    {
        Incr { reg }
    }
}

impl OpCode for Incr {
    open spec fn inv(&self) -> bool {
        true
    }

    open spec fn ok(&self, m: CpuModel) -> bool {
        true
    }

    open spec fn remaining(&self, m: CpuModel) -> nat {
        1
    }

    open spec fn outcome(&self, m: CpuModel) -> CpuModel {
        let v = index_val(m, self.reg).wrapping_add(1);
        match self.reg {
            Index::X => CpuModel { x: v, flags: spec_zn(m.flags, v), ..m },
            Index::Y => CpuModel { y: v, flags: spec_zn(m.flags, v), ..m },
        }
    }

    fn new() -> (r: Incr) {
        Incr { reg: Index::X }
    }

    fn decode(&mut self, cpu: &mut Cpu) -> (r: Step) {
        let v = read_index(cpu, self.reg).wrapping_add(1);
        match self.reg {
            Index::X => cpu.x = v,
            Index::Y => cpu.y = v,
        }
        cpu.flags.zero = v == 0;
        cpu.flags.negative = (v & 0x80) != 0;
        Step::Done
    }
}

/// Decrement an index register with 8-bit wraparound (DEX, DEY).
pub struct Decr {
    pub reg: Index,
}

impl Decr {
    pub fn start(reg: Index) -> (r: Decr)
        ensures
            r == (Decr { reg }),
    {
        Decr { reg }
    }
}

impl OpCode for Decr {
    open spec fn inv(&self) -> bool {
        true
    }

    open spec fn ok(&self, m: CpuModel) -> bool {
        true
    }

    open spec fn remaining(&self, m: CpuModel) -> nat {
        1
    }

    open spec fn outcome(&self, m: CpuModel) -> CpuModel {
        let v = index_val(m, self.reg).wrapping_sub(1);
        match self.reg {
            Index::X => CpuModel { x: v, flags: spec_zn(m.flags, v), ..m },
            Index::Y => CpuModel { y: v, flags: spec_zn(m.flags, v), ..m },
        }
    }

    fn new() -> (r: Decr) {
        Decr { reg: Index::X }
    }

    fn decode(&mut self, cpu: &mut Cpu) -> (r: Step) {
        let v = read_index(cpu, self.reg).wrapping_sub(1);
        match self.reg {
            Index::X => cpu.x = v,
            Index::Y => cpu.y = v,
        }
        cpu.flags.zero = v == 0;
        cpu.flags.negative = (v & 0x80) != 0;
        Step::Done
    }
}

/// Logical shift right on the accumulator.
pub struct LsrA {}

impl OpCode for LsrA {
    open spec fn inv(&self) -> bool {
        true
    }

    open spec fn ok(&self, m: CpuModel) -> bool {
        true
    }

    open spec fn remaining(&self, m: CpuModel) -> nat {
        1
    }

    open spec fn outcome(&self, m: CpuModel) -> CpuModel {
        CpuModel {
            a: rmw_result(RmwOp::Lsr, m.flags.carry, m.a),
            flags: rmw_flags(RmwOp::Lsr, m.flags, m.a),
            ..m
        }
    }

    fn new() -> (r: LsrA) {
        LsrA {  }
    }

    fn decode(&mut self, cpu: &mut Cpu) -> (r: Step) {
        apply_rmw_a(cpu, RmwOp::Lsr);
        Step::Done
    }
}

/// Arithmetic shift left on the accumulator.
pub struct AslA {}

impl OpCode for AslA {
    open spec fn inv(&self) -> bool {
        true
    }

    open spec fn ok(&self, m: CpuModel) -> bool {
        true
    }

    open spec fn remaining(&self, m: CpuModel) -> nat {
        1
    }

    open spec fn outcome(&self, m: CpuModel) -> CpuModel {
        CpuModel {
            a: rmw_result(RmwOp::Asl, m.flags.carry, m.a),
            flags: rmw_flags(RmwOp::Asl, m.flags, m.a),
            ..m
        }
    }

    fn new() -> (r: AslA) {
        AslA {  }
    }

    fn decode(&mut self, cpu: &mut Cpu) -> (r: Step) {
        apply_rmw_a(cpu, RmwOp::Asl);
        Step::Done
    }
}

/// Rotate right on the accumulator.
pub struct RorA {}

impl OpCode for RorA {
    open spec fn inv(&self) -> bool {
        true
    }

    open spec fn ok(&self, m: CpuModel) -> bool {
        true
    }

    open spec fn remaining(&self, m: CpuModel) -> nat {
        1
    }

    open spec fn outcome(&self, m: CpuModel) -> CpuModel {
        CpuModel {
            a: rmw_result(RmwOp::Ror, m.flags.carry, m.a),
            flags: rmw_flags(RmwOp::Ror, m.flags, m.a),
            ..m
        }
    }

    fn new() -> (r: RorA) {
        RorA {  }
    }

    fn decode(&mut self, cpu: &mut Cpu) -> (r: Step) {
        apply_rmw_a(cpu, RmwOp::Ror);
        Step::Done
    }
}

/// Rotate left on the accumulator.
pub struct RolA {}

impl OpCode for RolA {
    open spec fn inv(&self) -> bool {
        true
    }

    open spec fn ok(&self, m: CpuModel) -> bool {
        true
    }

    open spec fn remaining(&self, m: CpuModel) -> nat {
        1
    }

    open spec fn outcome(&self, m: CpuModel) -> CpuModel {
        CpuModel {
            a: rmw_result(RmwOp::Rol, m.flags.carry, m.a),
            flags: rmw_flags(RmwOp::Rol, m.flags, m.a),
            ..m
        }
    }

    fn new() -> (r: RolA) {
        RolA {  }
    }

    fn decode(&mut self, cpu: &mut Cpu) -> (r: Step) {
        apply_rmw_a(cpu, RmwOp::Rol);
        Step::Done
    }
}

/// No operation: one cycle, one dummy read.
pub struct Nop {}

impl OpCode for Nop {
    open spec fn inv(&self) -> bool {
        true
    }

    open spec fn ok(&self, m: CpuModel) -> bool {
        mem_mapped(m.pc)
    }

    open spec fn remaining(&self, m: CpuModel) -> nat {
        1
    }

    open spec fn outcome(&self, m: CpuModel) -> CpuModel {
        m
    }

    fn new() -> (r: Nop) {
        Nop {  }
    }

    fn decode(&mut self, cpu: &mut Cpu) -> (r: Step) {
        if !is_mapped(cpu.pc) {
            return Step::Fault;
        }
        let _ = cpu.mem.get(cpu.pc);
        Step::Done
    }
}

/// The absolute form of the bit test.
pub struct BitAbs {
    pub low: u8,
    pub high: u8,
    pub imm: u8,
    pub state: usize,
}

impl OpCode for BitAbs {
    open spec fn inv(&self) -> bool {
        self.state <= 2
    }

    open spec fn ok(&self, m: CpuModel) -> bool {
        if self.state == 0 {
            m.can_fetch() && m.after_fetch().can_fetch() && mem_mapped(
                spec_mk_addr(m.pc_byte(), m.after_fetch().pc_byte()),
            )
        } else if self.state == 1 {
            m.can_fetch() && mem_mapped(spec_mk_addr(self.low, m.pc_byte()))
        } else {
            mem_mapped(spec_mk_addr(self.low, self.high))
        }
    }

    open spec fn remaining(&self, m: CpuModel) -> nat {
        if self.state == 0 {
            3
        } else if self.state == 1 {
            2
        } else {
            1
        }
    }

    open spec fn outcome(&self, m: CpuModel) -> CpuModel {
        if self.state == 0 {
            let m2 = m.after_fetch().after_fetch();
            spec_bit(m2, m.byte(spec_mk_addr(m.pc_byte(), m.after_fetch().pc_byte())))
        } else if self.state == 1 {
            spec_bit(m.after_fetch(), m.byte(spec_mk_addr(self.low, m.pc_byte())))
        } else {
            spec_bit(m, m.byte(spec_mk_addr(self.low, self.high)))
        }
    }

    fn new() -> (r: BitAbs) {
        BitAbs { low: 0, high: 0, imm: 0, state: 0 }
    }

    fn decode(&mut self, cpu: &mut Cpu) -> (r: Step) {
        if self.state == 0 {
            if !cpu.fetch_ok() {
                return Step::Fault;
            }
            self.low = cpu.read_from_pc();
            self.state = 1;
            Step::Busy
        } else if self.state == 1 {
            if !cpu.fetch_ok() {
                return Step::Fault;
            }
            self.high = cpu.read_from_pc();
            self.state = 2;
            Step::Busy
        } else {
            let addr: u16 = mk_addr(self.low, self.high);
            if !is_mapped(addr) {
                return Step::Fault;
            }
            self.imm = cpu.mem.get(addr);
            let val = cpu.a & self.imm;
            cpu.flags.zero = val == 0;
            cpu.flags.overflow = (self.imm & 0x40) != 0;
            cpu.flags.negative = (self.imm & 0x80) != 0;
            Step::Done
        }
    }
}

} // verus!
