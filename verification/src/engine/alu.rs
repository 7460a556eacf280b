//! The arithmetic/logic operations of the engine, as pure functions on the
//! model, and the executable cores the state machines call.
//!
//! The signed-overflow formulas for add and subtract are the documented
//! ones: `(A ^ result) & (operand ^ result) & 0x80` for add-with-carry and
//! `(A ^ result) & (A ^ operand) & 0x80` for subtract-with-borrow.

use vstd::prelude::*;
use crate::engine::cpu::{Cpu, CpuModel};
use crate::flags::{flag_bit, CpuFlags};
use crate::memory::{is_mapped, is_writable, mem_mapped, mem_writable};

verus! {

/// The operations that consume one operand byte or one target address.
/// The compare variants name the register they compare.
#[derive(Clone, Copy, Debug)]
pub enum ReadOp {
    Adc,
    Sbc,
    And,
    Ora,
    Eor,
    Lda,
    Ldx,
    Ldy,
    Sta,
    Stx,
    Sty,
    CmpA,
    CmpX,
    CmpY,
    Bit,
    Nop,
}

/// Zero and negative derived from a freshly written byte.
pub open spec fn spec_zn(f: CpuFlags, v: u8) -> CpuFlags {
    CpuFlags { zero: v == 0, negative: (v & 0x80) != 0, ..f }
}

/// The 9-bit add-with-carry intermediate.
pub open spec fn adc_sum(a: u8, m: u8, c: bool) -> int {
    a + m + flag_bit(c)
}

/// The 8-bit truncated add-with-carry result.
pub open spec fn adc_result(a: u8, m: u8, c: bool) -> u8 {
    (adc_sum(a, m, c) % 256) as u8
}

/// Carry out of add-with-carry: bit 8 of the intermediate.
pub open spec fn adc_carry(a: u8, m: u8, c: bool) -> bool {
    adc_sum(a, m, c) > 255
}

/// Signed overflow of add-with-carry.
pub open spec fn adc_overflow(a: u8, m: u8, c: bool) -> bool {
    let r = adc_result(a, m, c);
    ((a ^ r) & (m ^ r) & 0x80) != 0
}

/// Add the operand to the accumulator with carry-in, updating carry,
/// overflow, zero and negative.
pub open spec fn spec_adc(m: CpuModel, v: u8) -> CpuModel {
    let r = adc_result(m.a, v, m.flags.carry);
    CpuModel {
        a: r,
        flags: CpuFlags {
            carry: adc_carry(m.a, v, m.flags.carry),
            overflow: adc_overflow(m.a, v, m.flags.carry),
            zero: r == 0,
            negative: (r & 0x80) != 0,
            ..m.flags
        },
        ..m
    }
}

/// 1 when the subtraction must borrow (carry clear), 0 otherwise.
pub open spec fn borrow_bit(c: bool) -> u8 {
    if c {
        0
    } else {
        1
    }
}

/// The 8-bit wrapped subtract-with-borrow result.
pub open spec fn sbc_result(a: u8, v: u8, c: bool) -> u8 {
    a.wrapping_sub(v).wrapping_sub(borrow_bit(c))
}

/// Subtract the operand from the accumulator with borrow-in; carry is set
/// exactly when the signed difference did not borrow.
pub open spec fn spec_sbc(m: CpuModel, v: u8) -> CpuModel {
    let r = sbc_result(m.a, v, m.flags.carry);
    CpuModel {
        a: r,
        flags: CpuFlags {
            overflow: ((m.a ^ r) & (m.a ^ v) & 0x80) != 0,
            carry: m.a - v - borrow_bit(m.flags.carry) >= 0,
            zero: r == 0,
            negative: (r & 0x80) != 0,
            ..m.flags
        },
        ..m
    }
}

/// Compare a register against the operand: carry when register >= operand
/// (unsigned), zero on equality, negative from the wrapped difference.
pub open spec fn spec_cmp(m: CpuModel, reg: u8, v: u8) -> CpuModel {
    CpuModel {
        flags: CpuFlags {
            carry: reg >= v,
            zero: reg == v,
            negative: (reg.wrapping_sub(v) & 0x80) != 0,
            ..m.flags
        },
        ..m
    }
}

/// Bit test: zero from `A & operand`, overflow and negative copied from
/// bits 6 and 7 of the operand itself.
pub open spec fn spec_bit(m: CpuModel, v: u8) -> CpuModel {
    CpuModel {
        flags: CpuFlags {
            zero: (m.a & v) == 0,
            overflow: (v & 0x40) != 0,
            negative: (v & 0x80) != 0,
            ..m.flags
        },
        ..m
    }
}

/// One operation applied to an operand byte already in hand.
pub open spec fn spec_apply_imm(op: ReadOp, m: CpuModel, v: u8) -> CpuModel {
    match op {
        ReadOp::Adc => spec_adc(m, v),
        ReadOp::Sbc => spec_sbc(m, v),
        ReadOp::And => (CpuModel { a: (m.a & v), flags: spec_zn(m.flags, m.a & v), ..m }),
        ReadOp::Ora => (CpuModel { a: (m.a | v), flags: spec_zn(m.flags, m.a | v), ..m }),
        ReadOp::Eor => (CpuModel { a: (m.a ^ v), flags: spec_zn(m.flags, m.a ^ v), ..m }),
        ReadOp::Lda => (CpuModel { a: v, flags: spec_zn(m.flags, v), ..m }),
        ReadOp::Ldx => (CpuModel { x: v, flags: spec_zn(m.flags, v), ..m }),
        ReadOp::Ldy => (CpuModel { y: v, flags: spec_zn(m.flags, v), ..m }),
        ReadOp::CmpA => spec_cmp(m, m.a, v),
        ReadOp::CmpX => spec_cmp(m, m.x, v),
        ReadOp::CmpY => spec_cmp(m, m.y, v),
        ReadOp::Bit => spec_bit(m, v),
        ReadOp::Sta => m,
        ReadOp::Stx => m,
        ReadOp::Sty => m,
        ReadOp::Nop => m,
    }
}

/// Whether applying `op` at `addr` is a legal bus access: stores need a
/// writable target, reads a mapped one, and a no-op touches nothing.
pub open spec fn access_ok(op: ReadOp, addr: u16) -> bool {
    match op {
        ReadOp::Sta => mem_writable(addr),
        ReadOp::Stx => mem_writable(addr),
        ReadOp::Sty => mem_writable(addr),
        ReadOp::Nop => true,
        _ => mem_mapped(addr),
    }
}

/// One operation applied at a resolved target address: stores write the
/// named register, everything else reads the operand there.
pub open spec fn spec_apply_addr(op: ReadOp, m: CpuModel, addr: u16) -> CpuModel {
    match op {
        ReadOp::Sta => m.with_byte(addr, m.a),
        ReadOp::Stx => m.with_byte(addr, m.x),
        ReadOp::Sty => m.with_byte(addr, m.y),
        ReadOp::Nop => m,
        _ => spec_apply_imm(op, m, m.byte(addr)),
    }
}

/// Core of add-with-carry.
pub fn adc_core(cpu: &mut Cpu, imm: u8)
    requires
        old(cpu).wf(),
    ensures
        final(cpu).wf(),
        final(cpu).model() == spec_adc(old(cpu).model(), imm),
{
    let a = cpu.a;
    let carry_in: u16 = if cpu.flags.carry {
        1
    } else {
        0
    };
    let sum: u16 = a as u16 + imm as u16 + carry_in;
    let result: u8 = (sum % 256) as u8;
    cpu.flags.overflow = ((a ^ result) & (imm ^ result) & 0x80) != 0;
    cpu.flags.carry = sum > 0xFF;
    cpu.flags.zero = result == 0;
    cpu.flags.negative = (result & 0x80) != 0;
    cpu.a = result;
}

/// Core of subtract-with-borrow.
pub fn sbc_core(cpu: &mut Cpu, imm: u8)
    requires
        old(cpu).wf(),
    ensures
        final(cpu).wf(),
        final(cpu).model() == spec_sbc(old(cpu).model(), imm),
{
    let a = cpu.a;
    let borrow: u8 = if cpu.flags.carry {
        0
    } else {
        1
    };
    let val = a.wrapping_sub(imm).wrapping_sub(borrow);
    let res: i32 = (a as i32) - (imm as i32) - (borrow as i32);
    cpu.flags.overflow = ((a ^ val) & (a ^ imm) & 0x80) != 0;
    cpu.flags.carry = res >= 0;
    cpu.flags.zero = val == 0;
    cpu.flags.negative = (val & 0x80) != 0;
    cpu.a = val;
}

/// Bit test against the byte at `addr`.
pub fn bit(cpu: &mut Cpu, addr: u16)
    requires
        old(cpu).wf(),
        mem_mapped(addr),
    ensures
        final(cpu).wf(),
        final(cpu).model() == spec_bit(old(cpu).model(), old(cpu).model().byte(addr)),
{
    let imm = cpu.mem.get(addr);
    let fval = cpu.a & imm;
    cpu.flags.zero = fval == 0;
    cpu.flags.overflow = (imm & 0x40) != 0;
    cpu.flags.negative = (imm & 0x80) != 0;
}

/// Loads a value into the accumulator, updating zero and negative.
pub fn load_a(cpu: &mut Cpu, v: u8)
    requires
        old(cpu).wf(),
    ensures
        final(cpu).wf(),
        final(cpu).model() == (CpuModel {
            a: v,
            flags: spec_zn(old(cpu).flags, v),
            ..old(cpu).model()
        }),
{
    cpu.a = v;
    cpu.flags.zero = v == 0;
    cpu.flags.negative = (v & 0x80) != 0;
}

/// Loads a value into the X index register, updating zero and negative.
pub fn load_x(cpu: &mut Cpu, v: u8)
    requires
        old(cpu).wf(),
    ensures
        final(cpu).wf(),
        final(cpu).model() == (CpuModel {
            x: v,
            flags: spec_zn(old(cpu).flags, v),
            ..old(cpu).model()
        }),
{
    cpu.x = v;
    cpu.flags.zero = v == 0;
    cpu.flags.negative = (v & 0x80) != 0;
}

/// Loads a value into the Y index register, updating zero and negative.
pub fn load_y(cpu: &mut Cpu, v: u8)
    requires
        old(cpu).wf(),
    ensures
        final(cpu).wf(),
        final(cpu).model() == (CpuModel {
            y: v,
            flags: spec_zn(old(cpu).flags, v),
            ..old(cpu).model()
        }),
{
    cpu.y = v;
    cpu.flags.zero = v == 0;
    cpu.flags.negative = (v & 0x80) != 0;
}

/// Core of the three compare instructions, over the compared register's
/// value.
pub fn cmp_core(cpu: &mut Cpu, reg: u8, imm: u8)
    requires
        old(cpu).wf(),
    ensures
        final(cpu).wf(),
        final(cpu).model() == spec_cmp(old(cpu).model(), reg, imm),
{
    cpu.flags.carry = reg >= imm;
    cpu.flags.zero = reg == imm;
    cpu.flags.negative = (reg.wrapping_sub(imm) & 0x80) != 0;
}

/// Core of the bit test, over an operand byte already in hand.
pub fn bit_core(cpu: &mut Cpu, imm: u8)
    requires
        old(cpu).wf(),
    ensures
        final(cpu).wf(),
        final(cpu).model() == spec_bit(old(cpu).model(), imm),
{
    let fval = cpu.a & imm;
    cpu.flags.zero = fval == 0;
    cpu.flags.overflow = (imm & 0x40) != 0;
    cpu.flags.negative = (imm & 0x80) != 0;
}

/// Applies an operation to an operand byte already in hand.
pub fn apply_imm(cpu: &mut Cpu, op: ReadOp, imm: u8)
    requires
        old(cpu).wf(),
    ensures
        final(cpu).wf(),
        final(cpu).model() == spec_apply_imm(op, old(cpu).model(), imm),
{
    match op {
        ReadOp::Adc => adc_core(cpu, imm),
        ReadOp::Sbc => sbc_core(cpu, imm),
        ReadOp::And => {
            let v = cpu.a & imm;
            load_a(cpu, v);
        },
        ReadOp::Ora => {
            let v = cpu.a | imm;
            load_a(cpu, v);
        },
        ReadOp::Eor => {
            let v = cpu.a ^ imm;
            load_a(cpu, v);
        },
        ReadOp::Lda => load_a(cpu, imm),
        ReadOp::Ldx => load_x(cpu, imm),
        ReadOp::Ldy => load_y(cpu, imm),
        ReadOp::CmpA => {
            let reg = cpu.a;
            cmp_core(cpu, reg, imm);
        },
        ReadOp::CmpX => {
            let reg = cpu.x;
            cmp_core(cpu, reg, imm);
        },
        ReadOp::CmpY => {
            let reg = cpu.y;
            cmp_core(cpu, reg, imm);
        },
        ReadOp::Bit => bit_core(cpu, imm),
        ReadOp::Sta => {},
        ReadOp::Stx => {},
        ReadOp::Sty => {},
        ReadOp::Nop => {},
    }
}

/// Applies an operation at a resolved target address, testing the access
/// first; returns false — leaving the state unchanged — exactly when the
/// access would trap.
pub fn apply_addr(cpu: &mut Cpu, op: ReadOp, addr: u16) -> (ok: bool)
    requires
        old(cpu).wf(),
    ensures
        final(cpu).wf(),
        ok == access_ok(op, addr),
        ok ==> final(cpu).model() == spec_apply_addr(op, old(cpu).model(), addr),
        !ok ==> final(cpu).model() == old(cpu).model(),
{
    match op {
        ReadOp::Sta => {
            if is_writable(addr) {
                let v = cpu.a;
                cpu.mem.set(addr, v);
                true
            } else {
                false
            }
        },
        ReadOp::Stx => {
            if is_writable(addr) {
                let v = cpu.x;
                cpu.mem.set(addr, v);
                true
            } else {
                false
            }
        },
        ReadOp::Sty => {
            if is_writable(addr) {
                let v = cpu.y;
                cpu.mem.set(addr, v);
                true
            } else {
                false
            }
        },
        ReadOp::Nop => true,
        _ => {
            if is_mapped(addr) {
                let v = cpu.mem.get(addr);
                apply_imm(cpu, op, v);
                true
            } else {
                false
            }
        },
    }
}

} // verus!
