//! Cycle-count and addressing laws of the engine, stated against the
//! `remaining` and `outcome` functions that `run_handler` ties to real
//! executed cycles.
//!
//! Counts here are in `decode` cycles; the opcode fetch that precedes an
//! instruction adds one more bus cycle, so a machine whose `remaining` is
//! `n` makes an instruction of `n + 1` cycles.

use vstd::prelude::*;
use crate::engine::addressing::{index_val, AbsoluteReg, Index, IndirectY};
use crate::engine::alu::ReadOp;
use crate::engine::control::{branch_crosses, branch_flag_val, branch_target, jmp_ind_target,
    Branch, BranchFlag};
use crate::engine::cpu::{spec_mk_addr, CpuModel};
use crate::engine::exec::spec_dispatch;
use crate::engine::opcode::OpCode;
use crate::engine::rmw::{RmwAbsoluteX, RmwOp};

verus! {

/// Adding an operand with carry and then subtracting the same operand
/// restores the accumulator, when the borrow convention mirrors the carry
/// convention: a subtract that starts with carry set (no borrow) undoes an
/// add that started with carry clear, and the other way round.
///
/// Feeding the add's carry-out into the subtract instead does not restore
/// the accumulator in general.
pub proof fn law_adc_sbc_inverse(a: u8, b: u8, c: bool)
    ensures
        crate::engine::alu::sbc_result(crate::engine::alu::adc_result(a, b, c), b, !c) == a,
{
}

/// An absolute indexed read takes three decode cycles, plus one exactly
/// when adding the index to the low address byte wraps past 0xFF; a store
/// always takes the worst-case four.
pub proof fn law_indexed_read_extra_cycle(op: ReadOp, reg: Index, store: bool, m: CpuModel)
    ensures
        ({
            let machine = AbsoluteReg { op, reg, store, low: 0, high: 0, carry: false, state: 0 };
            let wraps = m.pc_byte() + index_val(m, reg) > 255;
            machine.remaining(m) == if store || wraps {
                4nat
            } else {
                3nat
            }
        }),
{
}

/// A post-indexed indirect read takes four decode cycles, plus one exactly
/// when adding Y to the low byte of the base address wraps past 0xFF; a
/// store always takes five.
pub proof fn law_post_indexed_extra_cycle(op: ReadOp, store: bool, m: CpuModel)
    ensures
        ({
            let machine = IndirectY { op, store, low: 0, high: 0, carry: false, addr: 0, state: 0 };
            let wraps = m.byte(m.pc_byte() as u16) + m.y > 255;
            machine.remaining(m) == if store || wraps {
                5nat
            } else {
                4nat
            }
        }),
{
}

/// An absolute indexed read-modify-write always takes six decode cycles,
/// whether or not the index addition wrapped.
pub proof fn law_rmw_indexed_fixed_cycles(op: RmwOp, m: CpuModel)
    ensures
        ({
            let machine = RmwAbsoluteX {
                op,
                low: 0,
                high: 0,
                carry: false,
                state: 0,
                imm: 0,
                addr: 0,
            };
            machine.remaining(m) == 6nat
        }),
{
}

/// Branch cost, for every flag/condition pairing: one decode cycle when
/// not taken, two when taken within the page, three when the target lies
/// in another page — that is, 2, 3 and 4 bus cycles with the opcode fetch.
pub proof fn law_branch_cycles(flag: BranchFlag, expected: bool, m: CpuModel)
    ensures
        ({
            let machine = Branch { flag, expected, imm: 0, state: 0 };
            let taken = branch_flag_val(m.flags, flag) == expected;
            let crosses = branch_crosses(m.after_fetch().pc, m.pc_byte());
            machine.remaining(m) == if !taken {
                1nat
            } else if crosses {
                3nat
            } else {
                2nat
            }
        }),
{
}

/// The branch page-crossing test compares only bit 8 of the program
/// counter, yet it decides exactly whether the high byte changed: a branch
/// moves the program counter by at most 128 bytes, so the high byte moves
/// by at most one step (with wraparound), and any such step flips bit 8.
pub proof fn law_branch_cross_is_page_change(pc: u16, off: u8)
    ensures
        branch_crosses(pc, off) <==> (pc >> 8) != (branch_target(pc, off) >> 8),
{
    let t = branch_target(pc, off);
    assert((((pc >> 8) & 1) != ((t >> 8) & 1)) <==> (pc >> 8) != (t >> 8)) by (bit_vector)
        requires
            t == branch_target(pc, off),
            off < 128 ==> t == (if pc + off > 0xFFFF {
                (pc + off - 0x10000) as u16
            } else {
                (pc + off) as u16
            }),
            off >= 128 ==> t == (if pc + off > 0xFFFF {
                ((pc + off - 0x10000) + 0x10000 - 256) as u16
            } else if pc + off < 256 {
                ((pc + off) + 0x10000 - 256) as u16
            } else {
                ((pc + off) - 256) as u16
            }),
    ;
}

/// The indirect-jump quirk: a pointer whose low byte is 0xFF has its high
/// byte read from the start of the same page, never from the next page.
pub proof fn law_jmp_indirect_page_wrap(m: CpuModel, page: u8)
    ensures
        jmp_ind_target(m, 0xFF, page) == spec_mk_addr(
            m.byte(spec_mk_addr(0xFF, page)),
            m.byte(spec_mk_addr(0x00, page)),
        ),
{
}

/// The extra-cycle rules hold of the dispatch table's own entries, one
/// representative opcode per family: the absolute-indexed accumulator load
/// pays one cycle exactly on a low-byte wrap, the post-indexed load
/// likewise, while the indexed stores and the indexed read-modify-write
/// always pay the worst case. `remaining` counts decode cycles; the
/// opcode fetch adds one more.
pub proof fn law_dispatch_indexed_cycles(m: CpuModel)
    ensures
        (spec_dispatch(0xBD) matches Some(h) && h.remaining(m) == (if m.pc_byte() + m.x > 255 {
            4nat
        } else {
            3nat
        })),
        (spec_dispatch(0x99) matches Some(h) && h.remaining(m) == 4nat),
        (spec_dispatch(0xB1) matches Some(h) && h.remaining(m) == (if m.byte(m.pc_byte() as u16)
            + m.y > 255 {
            5nat
        } else {
            4nat
        })),
        (spec_dispatch(0x91) matches Some(h) && h.remaining(m) == 5nat),
        (spec_dispatch(0xFE) matches Some(h) && h.remaining(m) == 6nat),
{
    reveal(spec_dispatch);
}


} // verus!
