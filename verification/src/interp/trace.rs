//! The disassembly-style trace renderer: one line per instruction with the
//! raw bytes, the decoded operand, and the pre-execution register
//! snapshot, in the fixed-column format used for golden-log comparison.
//!
//! Rendering only observes the CPU; it never changes it.

use vstd::prelude::*;
use vstd::string::StringExecFns;
use crate::interp::cpu::{spec_absolute_addr, AddressingMode, Cpu, ICpu};
use crate::interp::opcodes::{opcode_info, spec_mnemonic, spec_opcode_known, spec_opcode_len,
    spec_opcode_mode};

verus! {

/// The character for one hex digit, upper case.
pub open spec fn spec_hex_digit(d: int) -> char {
    if d == 0 {
        '0'
    } else if d == 1 {
        '1'
    } else if d == 2 {
        '2'
    } else if d == 3 {
        '3'
    } else if d == 4 {
        '4'
    } else if d == 5 {
        '5'
    } else if d == 6 {
        '6'
    } else if d == 7 {
        '7'
    } else if d == 8 {
        '8'
    } else if d == 9 {
        '9'
    } else if d == 10 {
        'A'
    } else if d == 11 {
        'B'
    } else if d == 12 {
        'C'
    } else if d == 13 {
        'D'
    } else if d == 14 {
        'E'
    } else {
        'F'
    }
}

/// Two hex digits of a byte.
pub open spec fn spec_hex2(v: u8) -> Seq<char> {
    seq![spec_hex_digit(v as int / 16), spec_hex_digit(v as int % 16)]
}

/// Four hex digits of a 16-bit value.
pub open spec fn spec_hex4(v: u16) -> Seq<char> {
    spec_hex2((v / 256) as u8) + spec_hex2((v % 256) as u8)
}

/// `n` spaces.
pub open spec fn spec_spaces(n: nat) -> Seq<char>
    decreases n,
{
    if n == 0 {
        Seq::empty()
    } else {
        spec_spaces((n - 1) as nat).push(' ')
    }
}

/// A 64-bit value in hex with at least four digits and no leading zeros
/// beyond that, as the branch-target column prints it. Only values below
/// `0x100000` or with the top bits all set arise there.
pub open spec fn spec_hex_min4(v: u64) -> Seq<char> {
    if v < 0x10000 {
        spec_hex4(v as u16)
    } else if v < 0x100000 {
        seq![spec_hex_digit((v / 0x10000) as int)] + spec_hex4((v % 0x10000) as u16)
    } else {
        spec_hex2((v / 0x100000000000000) as u8) + spec_hex2(((v / 0x1000000000000) % 256) as u8)
            + spec_hex2(((v / 0x10000000000) % 256) as u8) + spec_hex2(
            ((v / 0x100000000) % 256) as u8,
        ) + spec_hex2(((v / 0x1000000) % 256) as u8) + spec_hex2(((v / 0x10000) % 256) as u8)
            + spec_hex2(((v / 0x100) % 256) as u8) + spec_hex2((v % 256) as u8)
    }
}

/// The value the relative-branch column shows: the landing address
/// computed in 64-bit arithmetic, so an underflow shows up as a very
/// large hex number.
pub open spec fn spec_branch_display(pc: u16, off: u8) -> u64 {
    ((pc + 2) as u64).wrapping_add(
        if off < 128 {
            off as u64
        } else {
            ((off as u64) + 0xFFFF_FFFF_FFFF_FF00) as u64
        },
    )
}

/// One upper-case hex digit.
fn hex_digit_str(d: u8) -> (r: &'static str)
    requires
        d < 16,
    ensures
        r@ == seq![spec_hex_digit(d as int)],
        r@.len() == 1,
{
    match d {
        0 => {
            proof {
                reveal_strlit("0");
            }
            "0"
        },
        1 => {
            proof {
                reveal_strlit("1");
            }
            "1"
        },
        2 => {
            proof {
                reveal_strlit("2");
            }
            "2"
        },
        3 => {
            proof {
                reveal_strlit("3");
            }
            "3"
        },
        4 => {
            proof {
                reveal_strlit("4");
            }
            "4"
        },
        5 => {
            proof {
                reveal_strlit("5");
            }
            "5"
        },
        6 => {
            proof {
                reveal_strlit("6");
            }
            "6"
        },
        7 => {
            proof {
                reveal_strlit("7");
            }
            "7"
        },
        8 => {
            proof {
                reveal_strlit("8");
            }
            "8"
        },
        9 => {
            proof {
                reveal_strlit("9");
            }
            "9"
        },
        10 => {
            proof {
                reveal_strlit("A");
            }
            "A"
        },
        11 => {
            proof {
                reveal_strlit("B");
            }
            "B"
        },
        12 => {
            proof {
                reveal_strlit("C");
            }
            "C"
        },
        13 => {
            proof {
                reveal_strlit("D");
            }
            "D"
        },
        14 => {
            proof {
                reveal_strlit("E");
            }
            "E"
        },
        _ => {
            proof {
                reveal_strlit("F");
            }
            "F"
        },
    }
}

/// Appends a piece whose character count is known, keeping the running
/// count in step with the string.
fn push_piece(out: &mut String, n: &mut usize, piece: &str, plen: usize)
    requires
        *old(n) == old(out)@.len(),
        plen == piece@.len(),
        *old(n) + plen <= 0xFFFF,
    ensures
        final(out)@ == old(out)@ + piece@,
        *final(n) == *old(n) + plen,
        *final(n) == final(out)@.len(),
{
    out.append(piece);
    *n = *n + plen;
}

/// Appends two hex digits of a byte.
fn push_hex2(out: &mut String, n: &mut usize, v: u8)
    requires
        *old(n) == old(out)@.len(),
        *old(n) + 2 <= 0xFFFF,
    ensures
        final(out)@ == old(out)@ + spec_hex2(v),
        *final(n) == *old(n) + 2,
        *final(n) == final(out)@.len(),
{
    let ghost start = out@;
    push_piece(out, n, hex_digit_str(v / 16), 1);
    push_piece(out, n, hex_digit_str(v % 16), 1);
    proof {
        assert(out@ =~= start + spec_hex2(v));
    }
}

/// Appends four hex digits of a 16-bit value.
fn push_hex4(out: &mut String, n: &mut usize, v: u16)
    requires
        *old(n) == old(out)@.len(),
        *old(n) + 4 <= 0xFFFF,
    ensures
        final(out)@ == old(out)@ + spec_hex4(v),
        *final(n) == *old(n) + 4,
        *final(n) == final(out)@.len(),
{
    let ghost start = out@;
    push_hex2(out, n, (v / 256) as u8);
    push_hex2(out, n, (v % 256) as u8);
    proof {
        assert(out@ =~= start + spec_hex4(v));
    }
}

/// Appends `k` spaces.
fn push_spaces(out: &mut String, n: &mut usize, k: usize)
    requires
        *old(n) == old(out)@.len(),
        *old(n) + k <= 0xFFFF,
    ensures
        final(out)@ == old(out)@ + spec_spaces(k as nat),
        *final(n) == *old(n) + k,
        *final(n) == final(out)@.len(),
{
    let ghost start = out@;
    let mut i: usize = 0;
    proof {
        assert(out@ =~= start + spec_spaces(0));
    }
    while i < k
        invariant
            i <= k,
            *old(n) + k <= 0xFFFF,
            *old(n) == start.len(),
            out@ == start + spec_spaces(i as nat),
            *n == *old(n) + i,
            *n == out@.len(),
        decreases k - i,
    {
        proof {
            reveal_strlit(" ");
        }
        push_piece(out, n, " ", 1);
        proof {
            assert(out@ =~= start + spec_spaces((i + 1) as nat));
        }
        i = i + 1;
    }
}

/// Appends a 64-bit value as the branch-target column prints it.
fn push_hex_min4(out: &mut String, n: &mut usize, v: u64)
    requires
        *old(n) == old(out)@.len(),
        *old(n) + 16 <= 0xFFFF,
    ensures
        final(out)@ == old(out)@ + spec_hex_min4(v),
        *final(n) == *old(n) + spec_hex_min4(v).len(),
        *final(n) == final(out)@.len(),
        spec_hex_min4(v).len() <= 16,
{
    let ghost start = out@;
    if v < 0x10000 {
        push_hex4(out, n, v as u16);
    } else if v < 0x100000 {
        push_piece(out, n, hex_digit_str((v / 0x10000) as u8), 1);
        push_hex4(out, n, (v % 0x10000) as u16);
        proof {
            assert(out@ =~= start + spec_hex_min4(v));
        }
    } else {
        push_hex2(out, n, (v / 0x100000000000000) as u8);
        push_hex2(out, n, ((v / 0x1000000000000) % 256) as u8);
        push_hex2(out, n, ((v / 0x10000000000) % 256) as u8);
        push_hex2(out, n, ((v / 0x100000000) % 256) as u8);
        push_hex2(out, n, ((v / 0x1000000) % 256) as u8);
        push_hex2(out, n, ((v / 0x10000) % 256) as u8);
        push_hex2(out, n, ((v / 0x100) % 256) as u8);
        push_hex2(out, n, (v % 256) as u8);
        proof {
            assert(out@ =~= start + spec_hex_min4(v));
        }
    }
}

/// The exact line `trace` renders: program counter, raw instruction
/// bytes, mnemonic, decoded operand column, then the register snapshot,
/// all in fixed columns.
pub open spec fn spec_trace(m: ICpu) -> Seq<char> {
    let dis = spec_trace_dis(m);
    let pad = if dis.len() < 47 {
        (47 - dis.len()) as nat
    } else {
        0nat
    };
    dis + spec_spaces(pad) + " A:"@ + spec_hex2(m.a) + " X:"@ + spec_hex2(m.x) + " Y:"@
        + spec_hex2(m.y) + " P:"@ + spec_hex2(m.ps.spec_to_byte()) + " SP:"@ + spec_hex2(m.sp)
}

/// The disassembly part of the line, before the column padding.
pub open spec fn spec_trace_dis(m: ICpu) -> Seq<char> {
    let code = m.byte(m.pc);
    let begin = m.pc;
    let oplen = spec_opcode_len(code);
    let mode = spec_opcode_mode(code);
    let b1 = m.byte((begin + 1) as u16);
    let b2 = m.byte((begin + 2) as u16);
    let ma = spec_absolute_addr(m, mode, (begin + 1) as u16);
    let stored = m.byte(ma);
    let s = spec_hex4(begin) + "  "@;
    if oplen == 1 {
        let s = s + spec_hex2(code) + spec_spaces(6) + "  "@ + spec_mnemonic(code);
        if code == 0x0A || code == 0x4A || code == 0x2A || code == 0x6A {
            s + " A"@
        } else {
            s
        }
    } else if oplen == 2 {
        let s = s + spec_hex2(code) + " "@ + spec_hex2(b1) + spec_spaces(3) + "  "@
            + spec_mnemonic(code);
        match mode {
            AddressingMode::Immediate => s + " "@ + "#$"@ + spec_hex2(b1),
            AddressingMode::ZeroPage => s + " "@ + "$"@ + spec_hex2(ma as u8) + " = "@
                + spec_hex2(stored),
            AddressingMode::ZeroPageX => s + " "@ + "$"@ + spec_hex2(b1) + ",X @ "@ + spec_hex2(
                ma as u8,
            ) + " = "@ + spec_hex2(stored),
            AddressingMode::ZeroPageY => s + " "@ + "$"@ + spec_hex2(b1) + ",Y @ "@ + spec_hex2(
                ma as u8,
            ) + " = "@ + spec_hex2(stored),
            AddressingMode::IndirectX => s + " "@ + "($"@ + spec_hex2(b1) + ",X) @ "@ + spec_hex2(
                b1.wrapping_add(m.x),
            ) + " = "@ + spec_hex4(ma) + " = "@ + spec_hex2(stored),
            AddressingMode::IndirectY => s + " "@ + "($"@ + spec_hex2(b1) + "),Y = "@ + spec_hex4(
                ma.wrapping_sub(m.y as u16),
            ) + " @ "@ + spec_hex4(ma) + " = "@ + spec_hex2(stored),
            AddressingMode::NoneAddressing => s + " "@ + "$"@ + spec_hex_min4(
                spec_branch_display(begin, b1),
            ),
            _ => s,
        }
    } else {
        let addr = crate::engine::cpu::spec_mk_addr(b1, b2);
        let s = s + spec_hex2(code) + " "@ + spec_hex2(b1) + " "@ + spec_hex2(b2) + "  "@
            + spec_mnemonic(code);
        match mode {
            AddressingMode::NoneAddressing => {
                if code == 0x6C {
                    let target = if addr & 0x00FF == 0x00FF {
                        crate::engine::cpu::spec_mk_addr(m.byte(addr), m.byte(addr & 0xFF00))
                    } else {
                        m.read16(addr)
                    };
                    s + " "@ + "($"@ + spec_hex4(addr) + ") = "@ + spec_hex4(target)
                } else {
                    s + " "@ + "$"@ + spec_hex4(addr)
                }
            },
            AddressingMode::Absolute => {
                if code != 0x20 {
                    s + " "@ + "$"@ + spec_hex4(ma) + " = "@ + spec_hex2(stored)
                } else {
                    s + " "@ + "$"@ + spec_hex4(ma)
                }
            },
            AddressingMode::AbsoluteX => s + " "@ + "$"@ + spec_hex4(addr) + ",X @ "@ + spec_hex4(
                ma,
            ) + " = "@ + spec_hex2(stored),
            AddressingMode::AbsoluteY => s + " "@ + "$"@ + spec_hex4(addr) + ",Y @ "@ + spec_hex4(
                ma,
            ) + " = "@ + spec_hex2(stored),
            _ => s,
        }
    }
}

/// Renders one disassembly line for the instruction at the program
/// counter, without touching the CPU.
#[verifier::rlimit(100)]
pub fn trace(cpu: &Cpu) -> (r: String)
    requires
        cpu.wf(),
        cpu.pc <= 0xFFFD,
        spec_opcode_known(cpu.model().byte(cpu.pc)),
    ensures
        r@ == spec_trace(cpu.model()),
{
    proof {
        reveal_strlit("  ");
        reveal_strlit(" ");
        reveal_strlit("#$");
        reveal_strlit("$");
        reveal_strlit(" = ");
        reveal_strlit(",X @ ");
        reveal_strlit(",Y @ ");
        reveal_strlit("($");
        reveal_strlit(",X) @ ");
        reveal_strlit("),Y = ");
        reveal_strlit(" @ ");
        reveal_strlit(") = ");
        reveal_strlit(" A");
        reveal_strlit(" A:");
        reveal_strlit(" X:");
        reveal_strlit(" Y:");
        reveal_strlit(" P:");
        reveal_strlit(" SP:");
    }
    let code = cpu.mem_read(cpu.pc);
    let ops = opcode_info(code).unwrap();
    let begin = cpu.pc;
    let b1 = cpu.mem_read(begin + 1);
    let b2 = cpu.mem_read(begin + 2);
    let (mem_addr, stored_value) = match ops.mode {
        AddressingMode::Immediate | AddressingMode::NoneAddressing => (0u16, 0u8),
        _ => {
            let a = cpu.get_absolute_address(&ops.mode, begin + 1);
            (a, cpu.mem_read(a))
        },
    };
    let ghost ma = spec_absolute_addr(cpu.model(), ops.mode, (begin + 1) as u16);
    let mut out = String::new();
    let mut n: usize = 0;
    push_hex4(&mut out, &mut n, begin);
    proof {
        assert(out@ =~= spec_hex4(begin));
    }
    push_piece(&mut out, &mut n, "  ", 2);
    if ops.len == 1 {
        push_hex2(&mut out, &mut n, code);
        push_spaces(&mut out, &mut n, 6);
        push_piece(&mut out, &mut n, "  ", 2);
        push_piece(&mut out, &mut n, ops.mnemonic, 3);
        if code == 0x0A || code == 0x4A || code == 0x2A || code == 0x6A {
            push_piece(&mut out, &mut n, " A", 2);
        }
    } else if ops.len == 2 {
        push_hex2(&mut out, &mut n, code);
        push_piece(&mut out, &mut n, " ", 1);
        push_hex2(&mut out, &mut n, b1);
        push_spaces(&mut out, &mut n, 3);
        push_piece(&mut out, &mut n, "  ", 2);
        push_piece(&mut out, &mut n, ops.mnemonic, 3);
        match ops.mode {
            AddressingMode::Immediate => {
                push_piece(&mut out, &mut n, " ", 1);
                push_piece(&mut out, &mut n, "#$", 2);
                push_hex2(&mut out, &mut n, b1);
            },
            AddressingMode::ZeroPage => {
                push_piece(&mut out, &mut n, " ", 1);
                push_piece(&mut out, &mut n, "$", 1);
                push_hex2(&mut out, &mut n, mem_addr as u8);
                push_piece(&mut out, &mut n, " = ", 3);
                push_hex2(&mut out, &mut n, stored_value);
            },
            AddressingMode::ZeroPageX => {
                push_piece(&mut out, &mut n, " ", 1);
                push_piece(&mut out, &mut n, "$", 1);
                push_hex2(&mut out, &mut n, b1);
                push_piece(&mut out, &mut n, ",X @ ", 5);
                push_hex2(&mut out, &mut n, mem_addr as u8);
                push_piece(&mut out, &mut n, " = ", 3);
                push_hex2(&mut out, &mut n, stored_value);
            },
            AddressingMode::ZeroPageY => {
                push_piece(&mut out, &mut n, " ", 1);
                push_piece(&mut out, &mut n, "$", 1);
                push_hex2(&mut out, &mut n, b1);
                push_piece(&mut out, &mut n, ",Y @ ", 5);
                push_hex2(&mut out, &mut n, mem_addr as u8);
                push_piece(&mut out, &mut n, " = ", 3);
                push_hex2(&mut out, &mut n, stored_value);
            },
            AddressingMode::IndirectX => {
                push_piece(&mut out, &mut n, " ", 1);
                push_piece(&mut out, &mut n, "($", 2);
                push_hex2(&mut out, &mut n, b1);
                push_piece(&mut out, &mut n, ",X) @ ", 6);
                push_hex2(&mut out, &mut n, b1.wrapping_add(cpu.x));
                push_piece(&mut out, &mut n, " = ", 3);
                push_hex4(&mut out, &mut n, mem_addr);
                push_piece(&mut out, &mut n, " = ", 3);
                push_hex2(&mut out, &mut n, stored_value);
            },
            AddressingMode::IndirectY => {
                push_piece(&mut out, &mut n, " ", 1);
                push_piece(&mut out, &mut n, "($", 2);
                push_hex2(&mut out, &mut n, b1);
                push_piece(&mut out, &mut n, "),Y = ", 6);
                push_hex4(&mut out, &mut n, mem_addr.wrapping_sub(cpu.y as u16));
                push_piece(&mut out, &mut n, " @ ", 3);
                push_hex4(&mut out, &mut n, mem_addr);
                push_piece(&mut out, &mut n, " = ", 3);
                push_hex2(&mut out, &mut n, stored_value);
            },
            AddressingMode::NoneAddressing => {
                push_piece(&mut out, &mut n, " ", 1);
                push_piece(&mut out, &mut n, "$", 1);
                let base: u64 = (begin as u64) + 2;
                let ext: u64 = if b1 < 128 {
                    b1 as u64
                } else {
                    (b1 as u64) + 0xFFFF_FFFF_FFFF_FF00
                };
                push_hex_min4(&mut out, &mut n, base.wrapping_add(ext));
            },
            _ => {},
        }
    } else {
        push_hex2(&mut out, &mut n, code);
        push_piece(&mut out, &mut n, " ", 1);
        push_hex2(&mut out, &mut n, b1);
        push_piece(&mut out, &mut n, " ", 1);
        push_hex2(&mut out, &mut n, b2);
        push_piece(&mut out, &mut n, "  ", 2);
        push_piece(&mut out, &mut n, ops.mnemonic, 3);
        let address = cpu.mem_read_u16(begin + 1);
        match ops.mode {
            AddressingMode::NoneAddressing => {
                if code == 0x6C {
                    let target: u16 = if address & 0x00FF == 0x00FF {
                        let lo = cpu.mem_read(address);
                        let hi = cpu.mem_read(address & 0xFF00);
                        (hi as u16) * 256 + (lo as u16)
                    } else {
                        cpu.mem_read_u16(address)
                    };
                    push_piece(&mut out, &mut n, " ", 1);
                    push_piece(&mut out, &mut n, "($", 2);
                    push_hex4(&mut out, &mut n, address);
                    push_piece(&mut out, &mut n, ") = ", 4);
                    push_hex4(&mut out, &mut n, target);
                } else {
                    push_piece(&mut out, &mut n, " ", 1);
                    push_piece(&mut out, &mut n, "$", 1);
                    push_hex4(&mut out, &mut n, address);
                }
            },
            AddressingMode::Absolute => {
                if code != 0x20 {
                    push_piece(&mut out, &mut n, " ", 1);
                    push_piece(&mut out, &mut n, "$", 1);
                    push_hex4(&mut out, &mut n, mem_addr);
                    push_piece(&mut out, &mut n, " = ", 3);
                    push_hex2(&mut out, &mut n, stored_value);
                } else {
                    push_piece(&mut out, &mut n, " ", 1);
                    push_piece(&mut out, &mut n, "$", 1);
                    push_hex4(&mut out, &mut n, mem_addr);
                }
            },
            AddressingMode::AbsoluteX => {
                push_piece(&mut out, &mut n, " ", 1);
                push_piece(&mut out, &mut n, "$", 1);
                push_hex4(&mut out, &mut n, address);
                push_piece(&mut out, &mut n, ",X @ ", 5);
                push_hex4(&mut out, &mut n, mem_addr);
                push_piece(&mut out, &mut n, " = ", 3);
                push_hex2(&mut out, &mut n, stored_value);
            },
            AddressingMode::AbsoluteY => {
                push_piece(&mut out, &mut n, " ", 1);
                push_piece(&mut out, &mut n, "$", 1);
                push_hex4(&mut out, &mut n, address);
                push_piece(&mut out, &mut n, ",Y @ ", 5);
                push_hex4(&mut out, &mut n, mem_addr);
                push_piece(&mut out, &mut n, " = ", 3);
                push_hex2(&mut out, &mut n, stored_value);
            },
            _ => {},
        }
    }
    proof {
        assert(out@ == spec_trace_dis(cpu.model()));
    }
    let pad: usize = if n < 47 {
        47 - n
    } else {
        0
    };
    push_spaces(&mut out, &mut n, pad);
    push_piece(&mut out, &mut n, " A:", 3);
    push_hex2(&mut out, &mut n, cpu.a);
    push_piece(&mut out, &mut n, " X:", 3);
    push_hex2(&mut out, &mut n, cpu.x);
    push_piece(&mut out, &mut n, " Y:", 3);
    push_hex2(&mut out, &mut n, cpu.y);
    push_piece(&mut out, &mut n, " P:", 3);
    let ps = cpu.ps.to_byte();
    push_hex2(&mut out, &mut n, ps);
    push_piece(&mut out, &mut n, " SP:", 4);
    push_hex2(&mut out, &mut n, cpu.sp);
    out
}


} // verus!
