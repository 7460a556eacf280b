//! The instruction-stepped CPU: a flat 64 KiB memory image, one method per
//! instruction, and the fetch-dispatch-execute loop.
//!
//! Contracts are stated over [`ICpu`], a ghost value holding the
//! registers, the status flags and the memory bytes. `spec_step` is the
//! mathematical meaning of executing one instruction; `run` loops it until
//! the halt opcode.

use vstd::prelude::*;
use crate::engine::alu::{adc_carry, adc_overflow, adc_result};
use crate::engine::control::branch_target;
use crate::engine::cpu::spec_mk_addr;
use crate::engine::rmw::{rmw_result, RmwOp};
use crate::interp::opcodes::{opcode_info, spec_opcode_known, spec_opcode_len, spec_opcode_mode};
use crate::interp::status::{Status, StatusFlag};

verus! {

/// How an instruction's operand address is computed.
#[derive(Clone, Copy, Debug)]
pub enum AddressingMode {
    Immediate,
    ZeroPage,
    ZeroPageX,
    ZeroPageY,
    Absolute,
    AbsoluteX,
    AbsoluteY,
    IndirectX,
    IndirectY,
    NoneAddressing,
}

/// The mathematical state of the interpreter.
pub ghost struct ICpu {
    pub a: u8,
    pub x: u8,
    pub y: u8,
    pub ps: Status,
    pub pc: u16,
    pub sp: u8,
    pub mem: Seq<u8>,
}

/// Zero and negative derived from a freshly written byte.
pub open spec fn zn_ps(ps: Status, v: u8) -> Status {
    Status { zero: v == 0, negative: (v & 0x80) != 0, ..ps }
}

impl ICpu {
    /// The byte at a bus address (every 16-bit address is backed).
    pub open spec fn byte(self, addr: u16) -> u8 {
        self.mem[addr as int]
    }

    /// A little-endian 16-bit read, the second byte wrapping at the end
    /// of the address space.
    pub open spec fn read16(self, pos: u16) -> u16 {
        spec_mk_addr(self.byte(pos), self.byte(pos.wrapping_add(1)))
    }

    /// The same state with one memory byte replaced.
    pub open spec fn write(self, addr: u16, v: u8) -> ICpu {
        ICpu { mem: self.mem.update(addr as int, v), ..self }
    }
}

/// The operand address a non-immediate mode resolves, reading its operand
/// bytes at `addr`. All low-byte index additions wrap at 8 bits; only the
/// absolute indexed modes carry into the high byte.
pub open spec fn spec_absolute_addr(m: ICpu, mode: AddressingMode, addr: u16) -> u16 {
    match mode {
        AddressingMode::ZeroPage => m.byte(addr) as u16,
        AddressingMode::Absolute => m.read16(addr),
        AddressingMode::ZeroPageX => m.byte(addr).wrapping_add(m.x) as u16,
        AddressingMode::ZeroPageY => m.byte(addr).wrapping_add(m.y) as u16,
        AddressingMode::AbsoluteX => m.read16(addr).wrapping_add(m.x as u16),
        AddressingMode::AbsoluteY => m.read16(addr).wrapping_add(m.y as u16),
        AddressingMode::IndirectX => {
            let p = m.byte(addr).wrapping_add(m.x);
            spec_mk_addr(m.byte(p as u16), m.byte(p.wrapping_add(1) as u16))
        },
        AddressingMode::IndirectY => {
            let b = m.byte(addr);
            spec_mk_addr(m.byte(b as u16), m.byte(b.wrapping_add(1) as u16)).wrapping_add(
                m.y as u16,
            )
        },
        AddressingMode::Immediate => addr,
        AddressingMode::NoneAddressing => addr,
    }
}

/// The operand address of the in-flight instruction: immediate operands
/// live at the program counter itself.
pub open spec fn spec_operand_addr(m: ICpu, mode: AddressingMode) -> u16 {
    match mode {
        AddressingMode::Immediate => m.pc,
        _ => spec_absolute_addr(m, mode, m.pc),
    }
}

/// The fixed stack page.
pub open spec fn spec_stack_addr(sp: u8) -> u16 {
    spec_mk_addr(sp, 1)
}

/// The state after pushing one byte.
pub open spec fn spec_push(m: ICpu, v: u8) -> ICpu {
    ICpu { sp: m.sp.wrapping_sub(1), ..m.write(spec_stack_addr(m.sp), v) }
}

/// The state and value after pulling one byte.
pub open spec fn spec_pop(m: ICpu) -> (ICpu, u8) {
    let sp = m.sp.wrapping_add(1);
    (ICpu { sp: sp, ..m }, m.byte(spec_stack_addr(sp)))
}

/// Add-with-carry into the accumulator: 9-bit intermediate, carry from
/// bit 8, signed overflow from the documented formula.
pub open spec fn spec_add_to_a(m: ICpu, v: u8) -> ICpu {
    let r = adc_result(m.a, v, m.ps.carry);
    ICpu {
        a: r,
        ps: Status {
            carry: adc_carry(m.a, v, m.ps.carry),
            overflow: adc_overflow(m.a, v, m.ps.carry),
            zero: r == 0,
            negative: (r & 0x80) != 0,
            ..m.ps
        },
        ..m
    }
}

impl ICpu {
    /// The value and flags a load leaves behind.
    pub open spec fn load_a(self, v: u8) -> ICpu {
        ICpu { a: v, ps: zn_ps(self.ps, v), ..self }
    }

    pub open spec fn load_x(self, v: u8) -> ICpu {
        ICpu { x: v, ps: zn_ps(self.ps, v), ..self }
    }

    pub open spec fn load_y(self, v: u8) -> ICpu {
        ICpu { y: v, ps: zn_ps(self.ps, v), ..self }
    }
}

/// One instruction's effect, operand resolution included, on a state
/// whose program counter already points past the opcode byte.
pub open spec fn spec_instr(m: ICpu, code: u8) -> ICpu {
    let mode = spec_opcode_mode(code);
    let addr = spec_operand_addr(m, mode);
    match code {
        // LDA
        0xA9 | 0xA5 | 0xB5 | 0xAD | 0xBD | 0xB9 | 0xA1 | 0xB1 => m.load_a(m.byte(addr)),
        // LDX
        0xA2 | 0xA6 | 0xB6 | 0xAE | 0xBE => m.load_x(m.byte(addr)),
        // LDY
        0xA0 | 0xA4 | 0xB4 | 0xAC | 0xBC => m.load_y(m.byte(addr)),
        // STA / STX / STY
        0x85 | 0x95 | 0x8D | 0x9D | 0x99 | 0x81 | 0x91 => m.write(addr, m.a),
        0x86 | 0x96 | 0x8E => m.write(addr, m.x),
        0x84 | 0x94 | 0x8C => m.write(addr, m.y),
        // AND / EOR / ORA
        0x29 | 0x25 | 0x35 | 0x2D | 0x3D | 0x39 | 0x21 | 0x31 => m.load_a(m.a & m.byte(addr)),
        0x49 | 0x45 | 0x55 | 0x4D | 0x5D | 0x59 | 0x41 | 0x51 => m.load_a(m.a ^ m.byte(addr)),
        0x09 | 0x05 | 0x15 | 0x0D | 0x1D | 0x19 | 0x01 | 0x11 => m.load_a(m.a | m.byte(addr)),
        // ASL
        0x0A => spec_shift_a(m, RmwOp::Asl),
        0x06 | 0x16 | 0x0E | 0x1E => spec_shift_mem(m, addr, RmwOp::Asl),
        // ROL
        0x2A => spec_shift_a(m, RmwOp::Rol),
        0x26 | 0x36 | 0x2E | 0x3E => spec_shift_mem(m, addr, RmwOp::Rol),
        // LSR
        0x4A => spec_shift_a(m, RmwOp::Lsr),
        0x46 | 0x56 | 0x4E | 0x5E => spec_shift_mem(m, addr, RmwOp::Lsr),
        // ROR
        0x6A => spec_shift_a(m, RmwOp::Ror),
        0x66 | 0x76 | 0x6E | 0x7E => spec_shift_mem(m, addr, RmwOp::Ror),
        // BIT
        0x24 | 0x2C => {
            let v = m.byte(addr);
            ICpu {
                ps: Status {
                    zero: (m.a & v) == 0,
                    overflow: (v & 0x40) != 0,
                    negative: (v & 0x80) != 0,
                    ..m.ps
                },
                ..m
            }
        },
        // flag set / clear
        0x18 => (ICpu { ps: (Status { carry: false, ..m.ps }), ..m }),
        0xD8 => (ICpu { ps: (Status { decimal: false, ..m.ps }), ..m }),
        0x58 => (ICpu { ps: (Status { interrupt: false, ..m.ps }), ..m }),
        0xB8 => (ICpu { ps: (Status { overflow: false, ..m.ps }), ..m }),
        0x38 => (ICpu { ps: (Status { carry: true, ..m.ps }), ..m }),
        0xF8 => (ICpu { ps: (Status { decimal: true, ..m.ps }), ..m }),
        0x78 => (ICpu { ps: (Status { interrupt: true, ..m.ps }), ..m }),
        // transfers
        0xAA => m.load_x(m.a),
        0xA8 => m.load_y(m.a),
        0xBA => m.load_x(m.sp),
        0x8A => m.load_a(m.x),
        0x9A => (ICpu { sp: m.x, ..m }),
        0x98 => m.load_a(m.y),
        // NOP
        0xEA => m,
        // ADC / SBC
        0x69 | 0x65 | 0x75 | 0x6D | 0x7D | 0x79 | 0x61 | 0x71 => spec_add_to_a(m, m.byte(addr)),
        0xE9 | 0xE5 | 0xF5 | 0xED | 0xFD | 0xF9 | 0xE1 | 0xF1 => spec_add_to_a(
            m,
            (255 - m.byte(addr)) as u8,
        ),
        // stack
        0x48 => spec_push(m, m.a),
        0x08 => spec_push(m, m.ps.spec_to_byte() | 0x30),
        0x68 => {
            let (m1, v) = spec_pop(m);
            m1.load_a(v)
        },
        0x28 => {
            let (m1, v) = spec_pop(m);
            ICpu { ps: Status::spec_from_byte(v), ..m1 }
        },
        // branches
        0x90 => spec_branch(m, !m.ps.carry),
        0xB0 => spec_branch(m, m.ps.carry),
        0xF0 => spec_branch(m, m.ps.zero),
        0x30 => spec_branch(m, m.ps.negative),
        0xD0 => spec_branch(m, !m.ps.zero),
        0x10 => spec_branch(m, !m.ps.negative),
        0x50 => spec_branch(m, !m.ps.overflow),
        0x70 => spec_branch(m, m.ps.overflow),
        // compares
        0xC9 | 0xC5 | 0xD5 | 0xCD | 0xDD | 0xD9 | 0xC1 | 0xD1 => spec_cmp(m, m.a, m.byte(addr)),
        0xE0 | 0xE4 | 0xEC => spec_cmp(m, m.x, m.byte(addr)),
        0xC0 | 0xC4 | 0xCC => spec_cmp(m, m.y, m.byte(addr)),
        // DEC / INC in memory
        0xC6 | 0xD6 | 0xCE | 0xDE => {
            let v = m.byte(addr).wrapping_sub(1);
            ICpu { ps: zn_ps(m.ps, v), ..m.write(addr, v) }
        },
        0xE6 | 0xF6 | 0xEE | 0xFE => {
            let v = m.byte(addr).wrapping_add(1);
            ICpu { ps: zn_ps(m.ps, v), ..m.write(addr, v) }
        },
        // register increment / decrement
        0xCA => m.load_x(m.x.wrapping_sub(1)),
        0x88 => m.load_y(m.y.wrapping_sub(1)),
        0xE8 => m.load_x(m.x.wrapping_add(1)),
        0xC8 => m.load_y(m.y.wrapping_add(1)),
        // JMP
        0x4C => (ICpu { pc: m.read16(m.pc), ..m }),
        0x6C => (ICpu { pc: spec_jmp_indirect_target(m), ..m }),
        // JSR / RTI / RTS — the jump target is read after the pushes, so a
        // stack that overlaps the instruction stream is followed faithfully
        0x20 => {
            let ret = m.pc.wrapping_add(1);
            let m1 = spec_push(spec_push(m, (ret / 256) as u8), (ret % 256) as u8);
            ICpu { pc: m1.read16(m1.pc), ..m1 }
        },
        0x40 => {
            let (m1, p) = spec_pop(m);
            let (m2, lo) = spec_pop(m1);
            let (m3, hi) = spec_pop(m2);
            ICpu { ps: Status::spec_from_byte(p), pc: spec_mk_addr(lo, hi), ..m3 }
        },
        0x60 => {
            let (m1, lo) = spec_pop(m);
            let (m2, hi) = spec_pop(m1);
            ICpu { pc: spec_mk_addr(lo, hi).wrapping_add(1), ..m2 }
        },
        _ => m,
    }
}

/// A shift or rotate applied to the accumulator.
pub open spec fn spec_shift_a(m: ICpu, op: RmwOp) -> ICpu {
    let r = rmw_result(op, m.ps.carry, m.a);
    let c = match op {
        RmwOp::Asl => (m.a & 0x80) != 0,
        RmwOp::Rol => (m.a & 0x80) != 0,
        _ => (m.a & 0x01) != 0,
    };
    ICpu { a: r, ps: (Status { carry: c, zero: r == 0, negative: (r & 0x80) != 0, ..m.ps }), ..m }
}

/// A shift or rotate applied in memory (no dummy write at this level:
/// the interpreter is instruction-stepped, not cycle-stepped).
pub open spec fn spec_shift_mem(m: ICpu, addr: u16, op: RmwOp) -> ICpu {
    let d = m.byte(addr);
    let r = rmw_result(op, m.ps.carry, d);
    let c = match op {
        RmwOp::Asl => (d & 0x80) != 0,
        RmwOp::Rol => (d & 0x80) != 0,
        _ => (d & 0x01) != 0,
    };
    ICpu {
        ps: (Status { carry: c, zero: r == 0, negative: (r & 0x80) != 0, ..m.ps }),
        ..m.write(addr, r)
    }
}

/// Compare: carry is set exactly when register >= operand (unsigned);
/// zero and negative come from the wrapped difference.
pub open spec fn spec_cmp(m: ICpu, reference: u8, v: u8) -> ICpu {
    ICpu {
        ps: (Status { carry: reference >= v, ..zn_ps(m.ps, reference.wrapping_sub(v)) }),
        ..m
    }
}

/// A conditional branch: when taken, the signed offset at `pc` is added
/// to the address after the operand.
pub open spec fn spec_branch(m: ICpu, condition: bool) -> ICpu {
    if condition {
        ICpu { pc: branch_target(m.pc.wrapping_add(1), m.byte(m.pc)), ..m }
    } else {
        m
    }
}

/// Where an indirect jump lands, reproducing the hardware bug: when the
/// pointer's low byte is `$FF`, the high byte is read from the start of
/// the same page.
pub open spec fn spec_jmp_indirect_target(m: ICpu) -> u16 {
    let ptr = m.read16(m.pc);
    if ptr & 0x00FF == 0x00FF {
        spec_mk_addr(m.byte(ptr), m.byte(ptr & 0xFF00))
    } else {
        m.read16(ptr)
    }
}

/// Execution has reached a stop: the program counter is at the last byte
/// of the address space, or the next opcode is the halt opcode `$00`, or
/// it is unknown.
pub open spec fn spec_halted(m: ICpu) -> bool {
    m.pc == 0xFFFF || m.byte(m.pc) == 0 || !spec_opcode_known(m.byte(m.pc))
}

/// The single bookkeeping action of a halting fetch: the halting byte is
/// consumed, so the program counter moves one past it — except at the very
/// end of the address space, where nothing can be fetched and the state is
/// left untouched.
pub open spec fn spec_halt_step(m: ICpu) -> ICpu {
    if m.pc == 0xFFFF {
        m
    } else {
        ICpu { pc: (m.pc + 1) as u16, ..m }
    }
}

/// Execution has come to rest: the program counter sits one past a byte
/// that halts execution, or at the very end of the address space.
pub open spec fn spec_stopped(m: ICpu) -> bool {
    m.pc == 0xFFFF || (m.pc >= 1 && spec_halted(ICpu { pc: (m.pc - 1) as u16, ..m }))
}

/// What the run loop leaves behind after `n` instruction steps, none of
/// them halted: either step `n` halted and its byte was consumed, or the
/// astronomically large step budget ran out.
pub open spec fn spec_run_outcome(m0: ICpu, m1: ICpu, n: nat) -> bool {
    &&& (forall|k: nat| k < n ==> !spec_halted(run_n(m0, k)))
    &&& ((spec_halted(run_n(m0, n)) && m1 == spec_halt_step(run_n(m0, n))) || (n
        == 0xFFFF_FFFF_FFFF_FFFF && m1 == run_n(m0, n)))
}

/// One full fetch-dispatch-execute step on a non-halted state: the opcode
/// is consumed, the instruction applied, and — unless the instruction
/// itself moved the program counter — the counter advances over the
/// operand bytes.
pub open spec fn spec_step(m: ICpu) -> ICpu {
    let code = m.byte(m.pc);
    let m1 = ICpu { pc: (m.pc + 1) as u16, ..m };
    let m2 = spec_instr(m1, code);
    if m2.pc == m1.pc {
        ICpu { pc: m2.pc.wrapping_add(spec_opcode_len(code).wrapping_sub(1) as u16), ..m2 }
    } else {
        m2
    }
}

/// `n` steps from `m`.
pub open spec fn run_n(m: ICpu, n: nat) -> ICpu
    decreases n,
{
    if n == 0 {
        m
    } else {
        spec_step(run_n(m, (n - 1) as nat))
    }
}

pub struct Cpu {
    pub a: u8,
    pub x: u8,
    pub y: u8,
    pub ps: Status,
    pub pc: u16,
    pub sp: u8,
    pub memory: Vec<u8>,
}

impl Cpu {
    /// The memory bytes.
    pub open spec fn mem(self) -> Seq<u8> {
        self.memory@
    }

    /// Every 16-bit address is backed.
    pub open spec fn wf(self) -> bool {
        self.mem().len() == 0x10000
    }

    /// The ghost model of this state.
    pub open spec fn model(self) -> ICpu {
        ICpu {
            a: self.a,
            x: self.x,
            y: self.y,
            ps: self.ps,
            pc: self.pc,
            sp: self.sp,
            mem: self.mem(),
        }
    }

    /// A fresh CPU: registers clear, stack pointer at `$FD`, memory zeroed.
    pub fn new() -> (r: Cpu)
        ensures
            r.wf(),
            r.model() == (ICpu {
                a: 0,
                x: 0,
                y: 0,
                ps: Status::spec_power_on(),
                pc: 0,
                sp: 0xFD,
                mem: Seq::new(0x10000, |i: int| 0u8),
            }),
    {
        let mut memory: Vec<u8> = Vec::new();
        let mut i: usize = 0;
        while i < 0x10000
            invariant
                i <= 0x10000,
                memory@ == Seq::new(i as nat, |j: int| 0u8),
            decreases 0x10000 - i,
        {
            memory.push(0);
            proof {
                assert(memory@ =~= Seq::new((i + 1) as nat, |j: int| 0u8));
            }
            i = i + 1;
        }
        Cpu { a: 0, x: 0, y: 0, ps: Status::new(), pc: 0, sp: 0xFD, memory }
    }

    /// Reads one byte.
    pub fn mem_read(&self, addr: u16) -> (r: u8)
        requires
            self.wf(),
        ensures
            r == self.model().byte(addr),
    {
        self.memory[addr as usize]
    }

    /// Reads a little-endian 16-bit value, the second byte wrapping at the
    /// end of the address space.
    pub fn mem_read_u16(&self, pos: u16) -> (r: u16)
        requires
            self.wf(),
        ensures
            r == self.model().read16(pos),
    {
        let low = self.mem_read(pos);
        let high = self.mem_read(pos.wrapping_add(1));
        (high as u16) * 256 + (low as u16)
    }

    /// Writes one byte.
    pub fn mem_write(&mut self, addr: u16, data: u8)
        requires
            old(self).wf(),
        ensures
            final(self).wf(),
            final(self).model() == old(self).model().write(addr, data),
    {
        self.memory.set(addr as usize, data);
    }

    /// Writes a little-endian 16-bit value.
    pub fn mem_write_u16(&mut self, pos: u16, data: u16)
        requires
            old(self).wf(),
        ensures
            final(self).wf(),
            final(self).model() == old(self).model().write(pos, (data % 256) as u8).write(
                pos.wrapping_add(1),
                (data / 256) as u8,
            ),
    {
        let high: u8 = (data / 256) as u8;
        let low: u8 = (data % 256) as u8;
        self.mem_write(pos, low);
        self.mem_write(pos.wrapping_add(1), high);
    }

    /// Clears the registers, restores the flags from zero, and loads the
    /// program counter from the reset vector at `$FFFC`.
    pub fn reset(&mut self)
        requires
            old(self).wf(),
        ensures
            final(self).wf(),
            final(self).model() == (ICpu {
                a: 0,
                x: 0,
                y: 0,
                ps: Status::spec_from_byte(0),
                pc: old(self).model().read16(0xFFFC),
                ..old(self).model()
            }),
    {
        self.a = 0;
        self.x = 0;
        self.y = 0;
        self.ps = Status::from_byte(0);
        self.pc = self.mem_read_u16(0xFFFC);
    }

    /// Copies the program to `$8000` and points the reset vector there.
    pub fn load(&mut self, program: Vec<u8>)
        requires
            old(self).wf(),
            program@.len() <= 0x8000,
        ensures
            final(self).wf(),
            final(self).model() == (ICpu {
                mem: spec_loaded(old(self).model().mem, program@),
                ..old(self).model()
            }),
    {
        let ghost mem0 = self.model().mem;
        let n = program.len();
        let mut i: usize = 0;
        proof {
            assert(self.model().mem =~= Seq::new(
                0x10000,
                |j: int|
                    if 0x8000 <= j && j < 0x8000 + i {
                        program@[j - 0x8000]
                    } else {
                        mem0[j]
                    },
            ));
        }
        while i < n
            invariant
                self.wf(),
                i <= n,
                n == program@.len(),
                n <= 0x8000,
                self.model() == (ICpu {
                    mem: Seq::new(
                        0x10000,
                        |j: int|
                            if 0x8000 <= j && j < 0x8000 + i {
                                program@[j - 0x8000]
                            } else {
                                mem0[j]
                            },
                    ),
                    ..old(self).model()
                }),
            decreases n - i,
        {
            let v = program[i];
            self.mem_write(0x8000 + (i as u16), v);
            proof {
                assert(self.model().mem =~= Seq::new(
                    0x10000,
                    |j: int|
                        if 0x8000 <= j && j < 0x8000 + (i + 1) {
                            program@[j - 0x8000]
                        } else {
                            mem0[j]
                        },
                ));
            }
            i = i + 1;
        }
        self.mem_write_u16(0xFFFC, 0x8000);
        proof {
            assert(self.model().mem =~= spec_loaded(mem0, program@));
        }
    }

    /// Loads the program, resets, and runs it to the halt opcode: the
    /// final state is the first halted iterate of `spec_step` from the
    /// freshly booted state, halting byte consumed.
    pub fn load_and_run(&mut self, program: Vec<u8>)
        requires
            old(self).wf(),
            program@.len() <= 0x8000,
        ensures
            final(self).wf(),
            exists|n: nat|
                spec_run_outcome(spec_boot(old(self).model(), program@), final(self).model(), n),
    {
        self.load(program);
        self.reset();
        proof {
            assert(self.model() == spec_boot(old(self).model(), program@));
        }
        self.run()
    }

    /// Sets zero and negative from a result byte.
    pub fn update_zero_and_negative(&mut self, result: u8)
        ensures
            *final(self) == (Cpu { ps: zn_ps(old(self).ps, result), ..*old(self) }),
    {
        self.ps.set(StatusFlag::Zero, result == 0);
        self.ps.set(StatusFlag::Negative, (result & 0x80) != 0)
    }

    /// Resolves a non-immediate addressing mode, reading the operand bytes
    /// at `addr`.
    pub fn get_absolute_address(&self, mode: &AddressingMode, addr: u16) -> (r: u16)
        requires
            self.wf(),
            !(mode matches AddressingMode::NoneAddressing),
            !(mode matches AddressingMode::Immediate),
        ensures
            r == spec_absolute_addr(self.model(), *mode, addr),
    {
        match mode {
            AddressingMode::ZeroPage => self.mem_read(addr) as u16,
            AddressingMode::Absolute => self.mem_read_u16(addr),
            AddressingMode::ZeroPageX => {
                let pos = self.mem_read(addr);
                pos.wrapping_add(self.x) as u16
            },
            AddressingMode::ZeroPageY => {
                let pos = self.mem_read(addr);
                pos.wrapping_add(self.y) as u16
            },
            AddressingMode::AbsoluteX => {
                let base = self.mem_read_u16(addr);
                base.wrapping_add(self.x as u16)
            },
            AddressingMode::AbsoluteY => {
                let base = self.mem_read_u16(addr);
                base.wrapping_add(self.y as u16)
            },
            AddressingMode::IndirectX => {
                let base = self.mem_read(addr);
                let ptr: u8 = base.wrapping_add(self.x);
                let low = self.mem_read(ptr as u16);
                let high = self.mem_read(ptr.wrapping_add(1) as u16);
                (high as u16) * 256 + (low as u16)
            },
            AddressingMode::IndirectY => {
                let base = self.mem_read(addr);
                let low = self.mem_read(base as u16);
                let high = self.mem_read(base.wrapping_add(1) as u16);
                let deref_base = (high as u16) * 256 + (low as u16);
                deref_base.wrapping_add(self.y as u16)
            },
            AddressingMode::Immediate => addr,
            AddressingMode::NoneAddressing => addr,
        }
    }

    /// The operand address of the in-flight instruction.
    pub fn get_operand_address(&self, mode: &AddressingMode) -> (r: u16)
        requires
            self.wf(),
            !(mode matches AddressingMode::NoneAddressing),
        ensures
            r == spec_operand_addr(self.model(), *mode),
    {
        match mode {
            AddressingMode::Immediate => self.pc,
            _ => self.get_absolute_address(mode, self.pc),
        }
    }
}

/// The memory image after `load`: the program at `$8000`, the reset
/// vector pointing there, everything else untouched.
pub open spec fn spec_loaded(mem: Seq<u8>, prog: Seq<u8>) -> Seq<u8> {
    Seq::new(
        0x10000,
        |i: int|
            if i == 0xFFFC {
                0x00
            } else if i == 0xFFFD {
                0x80
            } else if 0x8000 <= i && i < 0x8000 + prog.len() {
                prog[i - 0x8000]
            } else {
                mem[i]
            },
    )
}

/// The state `load_and_run` starts executing from.
pub open spec fn spec_boot(m: ICpu, prog: Seq<u8>) -> ICpu {
    let loaded = ICpu { mem: spec_loaded(m.mem, prog), ..m };
    ICpu {
        a: 0,
        x: 0,
        y: 0,
        ps: Status::spec_from_byte(0),
        pc: loaded.read16(0xFFFC),
        ..loaded
    }
}

impl Cpu {
    /// Load accumulator.
    pub fn lda(&mut self, mode: &AddressingMode)
        requires
            old(self).wf(),
            !(mode matches AddressingMode::NoneAddressing),
        ensures
            final(self).wf(),
            final(self).model() == old(self).model().load_a(
                old(self).model().byte(spec_operand_addr(old(self).model(), *mode)),
            ),
    {
        let addr = self.get_operand_address(mode);
        let value = self.mem_read(addr);
        self.a = value;
        self.update_zero_and_negative(value);
    }

    /// Load X.
    pub fn ldx(&mut self, mode: &AddressingMode)
        requires
            old(self).wf(),
            !(mode matches AddressingMode::NoneAddressing),
        ensures
            final(self).wf(),
            final(self).model() == old(self).model().load_x(
                old(self).model().byte(spec_operand_addr(old(self).model(), *mode)),
            ),
    {
        let addr = self.get_operand_address(mode);
        let value = self.mem_read(addr);
        self.x = value;
        self.update_zero_and_negative(value);
    }

    /// Load Y.
    pub fn ldy(&mut self, mode: &AddressingMode)
        requires
            old(self).wf(),
            !(mode matches AddressingMode::NoneAddressing),
        ensures
            final(self).wf(),
            final(self).model() == old(self).model().load_y(
                old(self).model().byte(spec_operand_addr(old(self).model(), *mode)),
            ),
    {
        let addr = self.get_operand_address(mode);
        let value = self.mem_read(addr);
        self.y = value;
        self.update_zero_and_negative(value);
    }

    /// Store accumulator; no flag effects.
    pub fn sta(&mut self, mode: &AddressingMode)
        requires
            old(self).wf(),
            !(mode matches AddressingMode::NoneAddressing),
        ensures
            final(self).wf(),
            final(self).model() == old(self).model().write(
                spec_operand_addr(old(self).model(), *mode),
                old(self).a,
            ),
    {
        let addr = self.get_operand_address(mode);
        let v = self.a;
        self.mem_write(addr, v);
    }

    /// Store X; no flag effects.
    pub fn stx(&mut self, mode: &AddressingMode)
        requires
            old(self).wf(),
            !(mode matches AddressingMode::NoneAddressing),
        ensures
            final(self).wf(),
            final(self).model() == old(self).model().write(
                spec_operand_addr(old(self).model(), *mode),
                old(self).x,
            ),
    {
        let addr = self.get_operand_address(mode);
        let v = self.x;
        self.mem_write(addr, v);
    }

    /// Store Y; no flag effects.
    pub fn sty(&mut self, mode: &AddressingMode)
        requires
            old(self).wf(),
            !(mode matches AddressingMode::NoneAddressing),
        ensures
            final(self).wf(),
            final(self).model() == old(self).model().write(
                spec_operand_addr(old(self).model(), *mode),
                old(self).y,
            ),
    {
        let addr = self.get_operand_address(mode);
        let v = self.y;
        self.mem_write(addr, v);
    }

    /// Transfer accumulator to X.
    pub fn tax(&mut self)
        requires
            old(self).wf(),
        ensures
            final(self).wf(),
            final(self).model() == old(self).model().load_x(old(self).a),
    {
        self.x = self.a;
        let v = self.x;
        self.update_zero_and_negative(v);
    }

    /// Transfer accumulator to Y.
    pub fn tay(&mut self)
        requires
            old(self).wf(),
        ensures
            final(self).wf(),
            final(self).model() == old(self).model().load_y(old(self).a),
    {
        self.y = self.a;
        let v = self.y;
        self.update_zero_and_negative(v);
    }

    /// Transfer stack pointer to X.
    pub fn tsx(&mut self)
        requires
            old(self).wf(),
        ensures
            final(self).wf(),
            final(self).model() == old(self).model().load_x(old(self).sp),
    {
        self.x = self.sp;
        let v = self.x;
        self.update_zero_and_negative(v);
    }

    /// Transfer X to accumulator.
    pub fn txa(&mut self)
        requires
            old(self).wf(),
        ensures
            final(self).wf(),
            final(self).model() == old(self).model().load_a(old(self).x),
    {
        self.a = self.x;
        let v = self.a;
        self.update_zero_and_negative(v);
    }

    /// Transfer X to stack pointer; no flag effects.
    pub fn txs(&mut self)
        requires
            old(self).wf(),
        ensures
            final(self).wf(),
            final(self).model() == (ICpu { sp: old(self).x, ..old(self).model() }),
    {
        self.sp = self.x;
    }

    /// Transfer Y to accumulator.
    pub fn tya(&mut self)
        requires
            old(self).wf(),
        ensures
            final(self).wf(),
            final(self).model() == old(self).model().load_a(old(self).y),
    {
        self.a = self.y;
        let v = self.a;
        self.update_zero_and_negative(v);
    }

    /// Bitwise AND into the accumulator.
    pub fn and(&mut self, mode: &AddressingMode)
        requires
            old(self).wf(),
            !(mode matches AddressingMode::NoneAddressing),
        ensures
            final(self).wf(),
            final(self).model() == old(self).model().load_a(
                old(self).a & old(self).model().byte(spec_operand_addr(old(self).model(), *mode)),
            ),
    {
        let addr = self.get_operand_address(mode);
        let value = self.mem_read(addr);
        self.a = self.a & value;
        let v = self.a;
        self.update_zero_and_negative(v);
    }

    /// Bitwise exclusive-or into the accumulator.
    pub fn eor(&mut self, mode: &AddressingMode)
        requires
            old(self).wf(),
            !(mode matches AddressingMode::NoneAddressing),
        ensures
            final(self).wf(),
            final(self).model() == old(self).model().load_a(
                old(self).a ^ old(self).model().byte(spec_operand_addr(old(self).model(), *mode)),
            ),
    {
        let addr = self.get_operand_address(mode);
        let value = self.mem_read(addr);
        self.a = self.a ^ value;
        let v = self.a;
        self.update_zero_and_negative(v);
    }

    /// Bitwise OR into the accumulator.
    pub fn ora(&mut self, mode: &AddressingMode)
        requires
            old(self).wf(),
            !(mode matches AddressingMode::NoneAddressing),
        ensures
            final(self).wf(),
            final(self).model() == old(self).model().load_a(
                old(self).a | old(self).model().byte(spec_operand_addr(old(self).model(), *mode)),
            ),
    {
        let addr = self.get_operand_address(mode);
        let value = self.mem_read(addr);
        self.a = self.a | value;
        let v = self.a;
        self.update_zero_and_negative(v);
    }

    /// Arithmetic shift left on the accumulator.
    pub fn asl_a(&mut self)
        requires
            old(self).wf(),
        ensures
            final(self).wf(),
            final(self).model() == spec_shift_a(old(self).model(), RmwOp::Asl),
    {
        let data = self.a;
        self.ps.set(StatusFlag::Carry, (data & 0x80) != 0);
        let res = data << 1u8;
        self.a = res;
        self.update_zero_and_negative(res);
    }

    /// Arithmetic shift left in memory.
    #[verifier::rlimit(50)]
    pub fn asl(&mut self, mode: &AddressingMode)
        requires
            old(self).wf(),
            !(mode matches AddressingMode::NoneAddressing),
        ensures
            final(self).wf(),
            final(self).model() == spec_shift_mem(
                old(self).model(),
                spec_operand_addr(old(self).model(), *mode),
                RmwOp::Asl,
            ),
    {
        let addr = self.get_operand_address(mode);
        let data = self.mem_read(addr);
        self.ps.set(StatusFlag::Carry, (data & 0x80) != 0);
        let res = data << 1u8;
        self.mem_write(addr, res);
        self.update_zero_and_negative(res);
    }

    /// Logical shift right on the accumulator.
    pub fn lsr_a(&mut self)
        requires
            old(self).wf(),
        ensures
            final(self).wf(),
            final(self).model() == spec_shift_a(old(self).model(), RmwOp::Lsr),
    {
        let data = self.a;
        self.ps.set(StatusFlag::Carry, (data & 0x01) != 0);
        let res = data >> 1u8;
        self.a = res;
        self.update_zero_and_negative(res);
    }

    /// Logical shift right in memory.
    #[verifier::rlimit(50)]
    pub fn lsr(&mut self, mode: &AddressingMode)
        requires
            old(self).wf(),
            !(mode matches AddressingMode::NoneAddressing),
        ensures
            final(self).wf(),
            final(self).model() == spec_shift_mem(
                old(self).model(),
                spec_operand_addr(old(self).model(), *mode),
                RmwOp::Lsr,
            ),
    {
        let addr = self.get_operand_address(mode);
        let data = self.mem_read(addr);
        self.ps.set(StatusFlag::Carry, (data & 0x01) != 0);
        let res = data >> 1u8;
        self.mem_write(addr, res);
        self.update_zero_and_negative(res);
    }

    /// Rotate left on the accumulator: the old carry enters bit 0.
    pub fn rol_a(&mut self)
        requires
            old(self).wf(),
        ensures
            final(self).wf(),
            final(self).model() == spec_shift_a(old(self).model(), RmwOp::Rol),
    {
        let data = self.a;
        let carry: u8 = if self.ps.carry {
            1
        } else {
            0
        };
        self.ps.set(StatusFlag::Carry, (data & 0x80) != 0);
        let res = (data << 1u8) | carry;
        self.a = res;
        self.update_zero_and_negative(res);
    }

    /// Rotate left in memory.
    #[verifier::rlimit(50)]
    pub fn rol(&mut self, mode: &AddressingMode)
        requires
            old(self).wf(),
            !(mode matches AddressingMode::NoneAddressing),
        ensures
            final(self).wf(),
            final(self).model() == spec_shift_mem(
                old(self).model(),
                spec_operand_addr(old(self).model(), *mode),
                RmwOp::Rol,
            ),
    {
        let addr = self.get_operand_address(mode);
        let data = self.mem_read(addr);
        let carry: u8 = if self.ps.carry {
            1
        } else {
            0
        };
        self.ps.set(StatusFlag::Carry, (data & 0x80) != 0);
        let res = (data << 1u8) | carry;
        self.mem_write(addr, res);
        self.update_zero_and_negative(res);
    }

    /// Rotate right on the accumulator: the old carry enters bit 7.
    pub fn ror_a(&mut self)
        requires
            old(self).wf(),
        ensures
            final(self).wf(),
            final(self).model() == spec_shift_a(old(self).model(), RmwOp::Ror),
    {
        let data = self.a;
        let carry: u8 = if self.ps.carry {
            0x80
        } else {
            0
        };
        self.ps.set(StatusFlag::Carry, (data & 0x01) != 0);
        let res = (data >> 1u8) | carry;
        self.a = res;
        self.update_zero_and_negative(res);
    }

    /// Rotate right in memory.
    #[verifier::rlimit(50)]
    pub fn ror(&mut self, mode: &AddressingMode)
        requires
            old(self).wf(),
            !(mode matches AddressingMode::NoneAddressing),
        ensures
            final(self).wf(),
            final(self).model() == spec_shift_mem(
                old(self).model(),
                spec_operand_addr(old(self).model(), *mode),
                RmwOp::Ror,
            ),
    {
        let addr = self.get_operand_address(mode);
        let data = self.mem_read(addr);
        let carry: u8 = if self.ps.carry {
            0x80
        } else {
            0
        };
        self.ps.set(StatusFlag::Carry, (data & 0x01) != 0);
        let res = (data >> 1u8) | carry;
        self.mem_write(addr, res);
        self.update_zero_and_negative(res);
    }

    /// Bit test: zero from the AND, overflow and negative copied from the
    /// operand's bits 6 and 7.
    pub fn bit(&mut self, mode: &AddressingMode)
        requires
            old(self).wf(),
            !(mode matches AddressingMode::NoneAddressing),
        ensures
            final(self).wf(),
            ({
                let m = old(self).model();
                let v = m.byte(spec_operand_addr(m, *mode));
                final(self).model() == (ICpu {
                    ps: (Status {
                        zero: (m.a & v) == 0,
                        overflow: (v & 0x40) != 0,
                        negative: (v & 0x80) != 0,
                        ..m.ps
                    }),
                    ..m
                })
            }),
    {
        let addr = self.get_operand_address(mode);
        let data = self.mem_read(addr);
        let res = self.a & data;
        self.ps.set(StatusFlag::Zero, res == 0);
        self.ps.set(StatusFlag::Overflow, (data & 0x40) != 0);
        self.ps.set(StatusFlag::Negative, (data & 0x80) != 0);
    }

    /// Sets one status flag.
    pub fn set_flag(&mut self, flag: StatusFlag, state: bool)
        ensures
            *final(self) == (Cpu { ps: old(self).ps.spec_set(flag, state), ..*old(self) }),
    {
        self.ps.set(flag, state)
    }

    /// No operation.
    pub fn nop(&self) {
    }

    /// Add-with-carry into the accumulator; decimal mode is ignored on
    /// this CPU variant.
    pub fn add_to_a(&mut self, data: u8)
        requires
            old(self).wf(),
        ensures
            final(self).wf(),
            final(self).model() == spec_add_to_a(old(self).model(), data),
    {
        let a = self.a;
        let carry_in: u16 = if self.ps.carry {
            1
        } else {
            0
        };
        let sum: u16 = a as u16 + data as u16 + carry_in;
        let carry = sum > 0xFF;
        self.ps.set(StatusFlag::Carry, carry);
        let result: u8 = (sum % 256) as u8;
        let overflow: bool = ((a ^ result) & (data ^ result) & 0x80) != 0;
        self.ps.set(StatusFlag::Overflow, overflow);
        self.a = result;
        self.update_zero_and_negative(result);
    }

    /// Subtract-with-borrow: adds the one's complement of the operand.
    pub fn sbc(&mut self, mode: &AddressingMode)
        requires
            old(self).wf(),
            !(mode matches AddressingMode::NoneAddressing),
        ensures
            final(self).wf(),
            final(self).model() == spec_add_to_a(
                old(self).model(),
                (255 - old(self).model().byte(spec_operand_addr(old(self).model(), *mode))) as u8,
            ),
    {
        let addr = self.get_operand_address(mode);
        let data = self.mem_read(addr);
        self.add_to_a(255 - data);
    }

    /// Add-with-carry from an operand.
    pub fn adc(&mut self, mode: &AddressingMode)
        requires
            old(self).wf(),
            !(mode matches AddressingMode::NoneAddressing),
        ensures
            final(self).wf(),
            final(self).model() == spec_add_to_a(
                old(self).model(),
                old(self).model().byte(spec_operand_addr(old(self).model(), *mode)),
            ),
    {
        let addr = self.get_operand_address(mode);
        let value = self.mem_read(addr);
        self.add_to_a(value);
    }

    /// Pulls one byte off the stack.
    pub fn stack_pop(&mut self) -> (r: u8)
        requires
            old(self).wf(),
        ensures
            final(self).wf(),
            final(self).model() == spec_pop(old(self).model()).0,
            r == spec_pop(old(self).model()).1,
    {
        self.sp = self.sp.wrapping_add(1);
        self.mem_read(0x0100 + self.sp as u16)
    }

    /// Pushes one byte onto the stack.
    pub fn stack_push(&mut self, data: u8)
        requires
            old(self).wf(),
        ensures
            final(self).wf(),
            final(self).model() == spec_push(old(self).model(), data),
    {
        let addr = 0x0100 + self.sp as u16;
        self.mem_write(addr, data);
        self.sp = self.sp.wrapping_sub(1)
    }

    /// Pushes a 16-bit value, high byte first.
    pub fn stack_push_u16(&mut self, data: u16)
        requires
            old(self).wf(),
        ensures
            final(self).wf(),
            final(self).model() == spec_push(
                spec_push(old(self).model(), (data / 256) as u8),
                (data % 256) as u8,
            ),
    {
        let high: u8 = (data / 256) as u8;
        let low: u8 = (data % 256) as u8;
        self.stack_push(high);
        self.stack_push(low);
    }

    /// Pulls a 16-bit value, low byte first.
    pub fn stack_pop_u16(&mut self) -> (r: u16)
        requires
            old(self).wf(),
        ensures
            final(self).wf(),
            final(self).model() == spec_pop(spec_pop(old(self).model()).0).0,
            r == spec_mk_addr(
                spec_pop(old(self).model()).1,
                spec_pop(spec_pop(old(self).model()).0).1,
            ),
    {
        let low = self.stack_pop();
        let high = self.stack_pop();
        (high as u16) * 256 + (low as u16)
    }

    /// Push accumulator.
    pub fn pha(&mut self)
        requires
            old(self).wf(),
        ensures
            final(self).wf(),
            final(self).model() == spec_push(old(self).model(), old(self).a),
    {
        let v = self.a;
        self.stack_push(v)
    }

    /// Push processor status with bits 4 and 5 forced high.
    pub fn php(&mut self)
        requires
            old(self).wf(),
        ensures
            final(self).wf(),
            final(self).model() == spec_push(
                old(self).model(),
                old(self).ps.spec_to_byte() | 0x30,
            ),
    {
        let ps: u8 = self.ps.to_byte();
        let v = ps | 0x30;
        self.stack_push(v)
    }

    /// Pull accumulator, updating zero and negative.
    pub fn pla(&mut self)
        requires
            old(self).wf(),
        ensures
            final(self).wf(),
            ({
                let (m1, v) = spec_pop(old(self).model());
                final(self).model() == m1.load_a(v)
            }),
    {
        let v = self.stack_pop();
        self.a = v;
        self.update_zero_and_negative(v);
    }

    /// Pull processor status through the packed-byte restore rule.
    pub fn plp(&mut self)
        requires
            old(self).wf(),
        ensures
            final(self).wf(),
            ({
                let (m1, v) = spec_pop(old(self).model());
                final(self).model() == (ICpu { ps: Status::spec_from_byte(v), ..m1 })
            }),
    {
        let data = self.stack_pop();
        self.ps = Status::from_byte(data);
    }

    /// A conditional branch: when the condition holds, the signed offset
    /// at `pc` is added to the address after the operand byte.
    pub fn branch(&mut self, condition: bool)
        requires
            old(self).wf(),
        ensures
            final(self).wf(),
            final(self).model() == spec_branch(old(self).model(), condition),
    {
        if condition {
            let off = self.mem_read(self.pc);
            let base = self.pc.wrapping_add(1);
            let jump_addr: u16 = if off < 128 {
                base.wrapping_add(off as u16)
            } else {
                base.wrapping_add(off as u16).wrapping_sub(256)
            };
            self.pc = jump_addr;
        }
    }

    /// Absolute jump.
    pub fn jmp_abs(&mut self)
        requires
            old(self).wf(),
        ensures
            final(self).wf(),
            final(self).model() == (ICpu {
                pc: old(self).model().read16(old(self).pc),
                ..old(self).model()
            }),
    {
        let addr = self.mem_read_u16(self.pc);
        self.pc = addr;
    }

    /// Indirect jump, with the page-boundary quirk on pointers ending in
    /// `$FF`.
    pub fn jmp_indirect(&mut self)
        requires
            old(self).wf(),
        ensures
            final(self).wf(),
            final(self).model() == (ICpu {
                pc: spec_jmp_indirect_target(old(self).model()),
                ..old(self).model()
            }),
    {
        let addr = self.mem_read_u16(self.pc);
        let indirect_ref: u16 = if addr & 0x00FF == 0x00FF {
            let low = self.mem_read(addr);
            let high = self.mem_read(addr & 0xFF00);
            (high as u16) * 256 + (low as u16)
        } else {
            self.mem_read_u16(addr)
        };
        self.pc = indirect_ref;
    }

    /// Jump to subroutine: pushes the address of this instruction's last
    /// byte, then jumps to the target read after the pushes.
    pub fn jsr(&mut self)
        requires
            old(self).wf(),
        ensures
            final(self).wf(),
            ({
                let m = old(self).model();
                let ret = m.pc.wrapping_add(1);
                let m1 = spec_push(spec_push(m, (ret / 256) as u8), (ret % 256) as u8);
                final(self).model() == (ICpu { pc: m1.read16(m1.pc), ..m1 })
            }),
    {
        let ret = self.pc.wrapping_add(1);
        self.stack_push_u16(ret);
        let addr = self.mem_read_u16(self.pc);
        self.pc = addr;
    }

    /// Return from interrupt: pulls the flags, then the program counter.
    pub fn rti(&mut self)
        requires
            old(self).wf(),
        ensures
            final(self).wf(),
            ({
                let (m1, p) = spec_pop(old(self).model());
                let (m2, lo) = spec_pop(m1);
                let (m3, hi) = spec_pop(m2);
                final(self).model() == (ICpu {
                    ps: Status::spec_from_byte(p),
                    pc: spec_mk_addr(lo, hi),
                    ..m3
                })
            }),
    {
        let data = self.stack_pop();
        self.ps = Status::from_byte(data);
        self.pc = self.stack_pop_u16();
    }

    /// Return from subroutine: pulls the address and adds one.
    pub fn rts(&mut self)
        requires
            old(self).wf(),
        ensures
            final(self).wf(),
            ({
                let (m1, lo) = spec_pop(old(self).model());
                let (m2, hi) = spec_pop(m1);
                final(self).model() == (ICpu {
                    pc: spec_mk_addr(lo, hi).wrapping_add(1),
                    ..m2
                })
            }),
    {
        let addr = self.stack_pop_u16();
        self.pc = addr.wrapping_add(1);
    }

    /// Software interrupt: pushes the program counter and the flags (with
    /// the break bit set in the pushed byte) and jumps through the IRQ
    /// vector read after the pushes.
    pub fn brk(&mut self)
        requires
            old(self).wf(),
        ensures
            final(self).wf(),
            ({
                let m = old(self).model();
                let m1 = spec_push(spec_push(m, (m.pc / 256) as u8), (m.pc % 256) as u8);
                let m2 = spec_push(m1, (Status { break0: true, ..m.ps }).spec_to_byte());
                final(self).model() == (ICpu { pc: m2.read16(0xFFFE), ..m2 })
            }),
    {
        let pc = self.pc;
        self.stack_push_u16(pc);
        let mut ps = self.ps;
        ps.set(StatusFlag::Break0, true);
        let data: u8 = ps.to_byte();
        self.stack_push(data);
        self.pc = self.mem_read_u16(0xFFFE)
    }

    /// Compare a register value against the operand.
    pub fn cmp(&mut self, mode: &AddressingMode, reference: u8)
        requires
            old(self).wf(),
            !(mode matches AddressingMode::NoneAddressing),
        ensures
            final(self).wf(),
            final(self).model() == spec_cmp(
                old(self).model(),
                reference,
                old(self).model().byte(spec_operand_addr(old(self).model(), *mode)),
            ),
    {
        let addr = self.get_operand_address(mode);
        let data = self.mem_read(addr);
        self.ps.set(StatusFlag::Carry, reference >= data);
        self.update_zero_and_negative(reference.wrapping_sub(data))
    }

    /// Decrement in memory.
    pub fn dec(&mut self, mode: &AddressingMode)
        requires
            old(self).wf(),
            !(mode matches AddressingMode::NoneAddressing),
        ensures
            final(self).wf(),
            ({
                let m = old(self).model();
                let addr = spec_operand_addr(m, *mode);
                let v = m.byte(addr).wrapping_sub(1);
                final(self).model() == (ICpu { ps: zn_ps(m.ps, v), ..m.write(addr, v) })
            }),
    {
        let addr = self.get_operand_address(mode);
        let data = self.mem_read(addr).wrapping_sub(1);
        self.update_zero_and_negative(data);
        self.mem_write(addr, data);
    }

    /// Decrement X.
    pub fn dex(&mut self)
        requires
            old(self).wf(),
        ensures
            final(self).wf(),
            final(self).model() == old(self).model().load_x(old(self).x.wrapping_sub(1)),
    {
        self.x = self.x.wrapping_sub(1);
        let v = self.x;
        self.update_zero_and_negative(v);
    }

    /// Decrement Y.
    pub fn dey(&mut self)
        requires
            old(self).wf(),
        ensures
            final(self).wf(),
            final(self).model() == old(self).model().load_y(old(self).y.wrapping_sub(1)),
    {
        self.y = self.y.wrapping_sub(1);
        let v = self.y;
        self.update_zero_and_negative(v);
    }

    /// Increment in memory.
    pub fn inc(&mut self, mode: &AddressingMode)
        requires
            old(self).wf(),
            !(mode matches AddressingMode::NoneAddressing),
        ensures
            final(self).wf(),
            ({
                let m = old(self).model();
                let addr = spec_operand_addr(m, *mode);
                let v = m.byte(addr).wrapping_add(1);
                final(self).model() == (ICpu { ps: zn_ps(m.ps, v), ..m.write(addr, v) })
            }),
    {
        let addr = self.get_operand_address(mode);
        let data = self.mem_read(addr).wrapping_add(1);
        self.update_zero_and_negative(data);
        self.mem_write(addr, data);
    }

    /// Increment X.
    pub fn inx(&mut self)
        requires
            old(self).wf(),
        ensures
            final(self).wf(),
            final(self).model() == old(self).model().load_x(old(self).x.wrapping_add(1)),
    {
        self.x = self.x.wrapping_add(1);
        let v = self.x;
        self.update_zero_and_negative(v);
    }

    /// Increment Y.
    pub fn iny(&mut self)
        requires
            old(self).wf(),
        ensures
            final(self).wf(),
            final(self).model() == old(self).model().load_y(old(self).y.wrapping_add(1)),
    {
        self.y = self.y.wrapping_add(1);
        let v = self.y;
        self.update_zero_and_negative(v);
    }
}

/// What a driver may hang into the execution loop: it is handed the CPU
/// before every instruction fetch and may read or write it at will. A
/// hook that declares itself `passive` promises to hand the CPU back
/// exactly as it found it, and the run loop then behaves exactly as with
/// no hook at all.
pub trait CpuHook {
    /// True of a hook that only observes the CPU; unless a hook says
    /// otherwise, it is not assumed to.
    open spec fn passive(&self) -> bool {
        false
    }

    fn call(&mut self, cpu: &mut Cpu)
        requires
            old(cpu).wf(),
        ensures
            final(cpu).wf(),
            old(self).passive() ==> (*final(cpu) == *old(cpu) && final(self).passive()),
    ;
}

/// A hook that counts how many times the loop came around.
pub struct StepCounter {
    pub steps: u64,
}

impl CpuHook for StepCounter {
    open spec fn passive(&self) -> bool {
        true
    }

    fn call(&mut self, _cpu: &mut Cpu) {
        self.steps = self.steps.wrapping_add(1);
    }
}

/// The do-nothing hook: `run` is `run_with_callback` with this hook.
pub struct NullHook {}

impl CpuHook for NullHook {
    open spec fn passive(&self) -> bool {
        true
    }

    fn call(&mut self, _cpu: &mut Cpu) {
    }
}

impl Cpu {
    /// Executes one instruction, or reports that execution has halted on
    /// the halt opcode, an unknown opcode, or a program counter at the
    /// very end of the address space. A halting byte is consumed — the
    /// program counter ends one past it — and everything else is left
    /// untouched; at the very end of the address space nothing can be
    /// fetched and the state does not change at all.
    #[verifier::rlimit(100)]
    pub fn step(&mut self) -> (more: bool)
        requires
            old(self).wf(),
        ensures
            final(self).wf(),
            spec_halted(old(self).model()) ==> (!more && final(self).model() == spec_halt_step(
                old(self).model(),
            )),
            !spec_halted(old(self).model()) ==> (more && final(self).model() == spec_step(
                old(self).model(),
            )),
    {
        if self.pc == 0xFFFF {
            return false;
        }
        let code = self.mem_read(self.pc);
        let info = match opcode_info(code) {
            Some(i) => i,
            None => {
                self.pc = self.pc + 1;
                return false;
            },
        };
        if code == 0x00 {
            self.pc = self.pc + 1;
            return false;
        }
        self.pc = self.pc + 1;
        let pc_snapshot = self.pc;
        self.execute_instr(code, &info.mode);
        if pc_snapshot == self.pc {
            let adv = info.len.wrapping_sub(1);
            self.pc = self.pc.wrapping_add(adv as u16);
        }
        true
    }

    /// Dispatches one already-fetched instruction to its handler method.
    fn execute_instr(&mut self, code: u8, mode: &AddressingMode)
        requires
            old(self).wf(),
            spec_opcode_known(code),
            code != 0x00,
            *mode == spec_opcode_mode(code),
        ensures
            final(self).wf(),
            final(self).model() == spec_instr(old(self).model(), code),
    {
        match code {
            0xA9 | 0xA5 | 0xB5 | 0xAD | 0xBD | 0xB9 | 0xA1 | 0xB1 | 0xA2 | 0xA6 | 0xB6 | 0xAE
            | 0xBE | 0xA0 | 0xA4 | 0xB4 | 0xAC | 0xBC | 0x85 | 0x95 | 0x8D | 0x9D | 0x99 | 0x81
            | 0x91 | 0x86 | 0x96 | 0x8E | 0x84 | 0x94 | 0x8C => self.execute_load_store(
                code,
                mode,
            ),
            0x29 | 0x25 | 0x35 | 0x2D | 0x3D | 0x39 | 0x21 | 0x31 | 0x49 | 0x45 | 0x55 | 0x4D
            | 0x5D | 0x59 | 0x41 | 0x51 | 0x09 | 0x05 | 0x15 | 0x0D | 0x1D | 0x19 | 0x01 | 0x11
            | 0x0A | 0x06 | 0x16 | 0x0E | 0x1E | 0x2A | 0x26 | 0x36 | 0x2E | 0x3E | 0x4A | 0x46
            | 0x56 | 0x4E | 0x5E | 0x6A | 0x66 | 0x76 | 0x6E | 0x7E | 0x24 | 0x2C => self
                .execute_logic_shift(code, mode),
            0x18 | 0xD8 | 0x58 | 0xB8 | 0x38 | 0xF8 | 0x78 | 0xAA | 0xA8 | 0xBA | 0x8A | 0x9A
            | 0x98 | 0xEA | 0xCA | 0x88 | 0xE8 | 0xC8 => self.execute_register(code),
            0x69 | 0x65 | 0x75 | 0x6D | 0x7D | 0x79 | 0x61 | 0x71 | 0xE9 | 0xE5 | 0xF5 | 0xED
            | 0xFD | 0xF9 | 0xE1 | 0xF1 | 0xC9 | 0xC5 | 0xD5 | 0xCD | 0xDD | 0xD9 | 0xC1 | 0xD1
            | 0xE0 | 0xE4 | 0xEC | 0xC0 | 0xC4 | 0xCC | 0xC6 | 0xD6 | 0xCE | 0xDE | 0xE6 | 0xF6
            | 0xEE | 0xFE => self.execute_arith(code, mode),
            _ => self.execute_control(code),
        }
    }

    /// Loads and stores.
    #[verifier::rlimit(100)]
    fn execute_load_store(&mut self, code: u8, mode: &AddressingMode)
        requires
            old(self).wf(),
            *mode == spec_opcode_mode(code),
            code == 0xA9 || code == 0xA5 || code == 0xB5 || code == 0xAD || code == 0xBD || code
                == 0xB9 || code == 0xA1 || code == 0xB1 || code == 0xA2 || code == 0xA6 || code
                == 0xB6 || code == 0xAE || code == 0xBE || code == 0xA0 || code == 0xA4 || code
                == 0xB4 || code == 0xAC || code == 0xBC || code == 0x85 || code == 0x95 || code
                == 0x8D || code == 0x9D || code == 0x99 || code == 0x81 || code == 0x91 || code
                == 0x86 || code == 0x96 || code == 0x8E || code == 0x84 || code == 0x94 || code
                == 0x8C,
        ensures
            final(self).wf(),
            final(self).model() == spec_instr(old(self).model(), code),
    {
        match code {
            // LDA
            0xA9 | 0xA5 | 0xB5 | 0xAD | 0xBD | 0xB9 | 0xA1 | 0xB1 => self.lda(mode),
            // LDX
            0xA2 | 0xA6 | 0xB6 | 0xAE | 0xBE => self.ldx(mode),
            // LDY
            0xA0 | 0xA4 | 0xB4 | 0xAC | 0xBC => self.ldy(mode),
            // STA
            0x85 | 0x95 | 0x8D | 0x9D | 0x99 | 0x81 | 0x91 => self.sta(mode),
            // STX
            0x86 | 0x96 | 0x8E => self.stx(mode),
            // STY
            _ => self.sty(mode),
        }
    }

    /// Bitwise logic, shifts, rotates and the bit test.
    #[verifier::rlimit(100)]
    fn execute_logic_shift(&mut self, code: u8, mode: &AddressingMode)
        requires
            old(self).wf(),
            *mode == spec_opcode_mode(code),
            code == 0x29 || code == 0x25 || code == 0x35 || code == 0x2D || code == 0x3D || code
                == 0x39 || code == 0x21 || code == 0x31 || code == 0x49 || code == 0x45 || code
                == 0x55 || code == 0x4D || code == 0x5D || code == 0x59 || code == 0x41 || code
                == 0x51 || code == 0x09 || code == 0x05 || code == 0x15 || code == 0x0D || code
                == 0x1D || code == 0x19 || code == 0x01 || code == 0x11 || code == 0x0A || code
                == 0x06 || code == 0x16 || code == 0x0E || code == 0x1E || code == 0x2A || code
                == 0x26 || code == 0x36 || code == 0x2E || code == 0x3E || code == 0x4A || code
                == 0x46 || code == 0x56 || code == 0x4E || code == 0x5E || code == 0x6A || code
                == 0x66 || code == 0x76 || code == 0x6E || code == 0x7E || code == 0x24 || code
                == 0x2C,
        ensures
            final(self).wf(),
            final(self).model() == spec_instr(old(self).model(), code),
    {
        match code {
            // AND
            0x29 | 0x25 | 0x35 | 0x2D | 0x3D | 0x39 | 0x21 | 0x31 => self.and(mode),
            // EOR
            0x49 | 0x45 | 0x55 | 0x4D | 0x5D | 0x59 | 0x41 | 0x51 => self.eor(mode),
            // ORA
            0x09 | 0x05 | 0x15 | 0x0D | 0x1D | 0x19 | 0x01 | 0x11 => self.ora(mode),
            // ASL
            0x0A => self.asl_a(),
            0x06 | 0x16 | 0x0E | 0x1E => self.asl(mode),
            // ROL
            0x2A => self.rol_a(),
            0x26 | 0x36 | 0x2E | 0x3E => self.rol(mode),
            // LSR
            0x4A => self.lsr_a(),
            0x46 | 0x56 | 0x4E | 0x5E => self.lsr(mode),
            // ROR
            0x6A => self.ror_a(),
            0x66 | 0x76 | 0x6E | 0x7E => self.ror(mode),
            // BIT
            _ => self.bit(mode),
        }
    }

    /// Flag sets and clears, register transfers, register increments and
    /// decrements, and NOP.
    #[verifier::rlimit(100)]
    fn execute_register(&mut self, code: u8)
        requires
            old(self).wf(),
            code == 0x18 || code == 0xD8 || code == 0x58 || code == 0xB8 || code == 0x38 || code
                == 0xF8 || code == 0x78 || code == 0xAA || code == 0xA8 || code == 0xBA || code
                == 0x8A || code == 0x9A || code == 0x98 || code == 0xEA || code == 0xCA || code
                == 0x88 || code == 0xE8 || code == 0xC8,
        ensures
            final(self).wf(),
            final(self).model() == spec_instr(old(self).model(), code),
    {
        match code {
            // CLC
            0x18 => self.set_flag(StatusFlag::Carry, false),
            // CLD
            0xD8 => self.set_flag(StatusFlag::Decimal, false),
            // CLI
            0x58 => self.set_flag(StatusFlag::Interrupt, false),
            // CLV
            0xB8 => self.set_flag(StatusFlag::Overflow, false),
            // SEC
            0x38 => self.set_flag(StatusFlag::Carry, true),
            // SED
            0xF8 => self.set_flag(StatusFlag::Decimal, true),
            // SEI
            0x78 => self.set_flag(StatusFlag::Interrupt, true),
            // TAX
            0xAA => self.tax(),
            // TAY
            0xA8 => self.tay(),
            // TSX
            0xBA => self.tsx(),
            // TXA
            0x8A => self.txa(),
            // TXS
            0x9A => self.txs(),
            // TYA
            0x98 => self.tya(),
            // NOP
            0xEA => self.nop(),
            // DEX
            0xCA => self.dex(),
            // DEY
            0x88 => self.dey(),
            // INX
            0xE8 => self.inx(),
            // INY
            _ => self.iny(),
        }
    }

    /// Add, subtract, compares, and memory increment and decrement.
    #[verifier::rlimit(100)]
    fn execute_arith(&mut self, code: u8, mode: &AddressingMode)
        requires
            old(self).wf(),
            *mode == spec_opcode_mode(code),
            code == 0x69 || code == 0x65 || code == 0x75 || code == 0x6D || code == 0x7D || code
                == 0x79 || code == 0x61 || code == 0x71 || code == 0xE9 || code == 0xE5 || code
                == 0xF5 || code == 0xED || code == 0xFD || code == 0xF9 || code == 0xE1 || code
                == 0xF1 || code == 0xC9 || code == 0xC5 || code == 0xD5 || code == 0xCD || code
                == 0xDD || code == 0xD9 || code == 0xC1 || code == 0xD1 || code == 0xE0 || code
                == 0xE4 || code == 0xEC || code == 0xC0 || code == 0xC4 || code == 0xCC || code
                == 0xC6 || code == 0xD6 || code == 0xCE || code == 0xDE || code == 0xE6 || code
                == 0xF6 || code == 0xEE || code == 0xFE,
        ensures
            final(self).wf(),
            final(self).model() == spec_instr(old(self).model(), code),
    {
        match code {
            // ADC
            0x69 | 0x65 | 0x75 | 0x6D | 0x7D | 0x79 | 0x61 | 0x71 => self.adc(mode),
            // SBC
            0xE9 | 0xE5 | 0xF5 | 0xED | 0xFD | 0xF9 | 0xE1 | 0xF1 => self.sbc(mode),
            // CMP
            0xC9 | 0xC5 | 0xD5 | 0xCD | 0xDD | 0xD9 | 0xC1 | 0xD1 => {
                let r = self.a;
                self.cmp(mode, r);
            },
            // CPX
            0xE0 | 0xE4 | 0xEC => {
                let r = self.x;
                self.cmp(mode, r);
            },
            // CPY
            0xC0 | 0xC4 | 0xCC => {
                let r = self.y;
                self.cmp(mode, r);
            },
            // DEC
            0xC6 | 0xD6 | 0xCE | 0xDE => self.dec(mode),
            // INC
            _ => self.inc(mode),
        }
    }

    /// Branches, jumps, subroutine call and returns, and the stack
    /// push/pull instructions.
    #[verifier::rlimit(100)]
    fn execute_control(&mut self, code: u8)
        requires
            old(self).wf(),
            spec_opcode_known(code),
            code == 0x48 || code == 0x08 || code == 0x68 || code == 0x28 || code == 0x90 || code
                == 0xB0 || code == 0xF0 || code == 0x30 || code == 0xD0 || code == 0x10 || code
                == 0x50 || code == 0x70 || code == 0x4C || code == 0x6C || code == 0x20 || code
                == 0x40 || code == 0x60,
        ensures
            final(self).wf(),
            final(self).model() == spec_instr(old(self).model(), code),
    {
        match code {
            // PHA
            0x48 => self.pha(),
            // PHP
            0x08 => self.php(),
            // PLA
            0x68 => self.pla(),
            // PLP
            0x28 => self.plp(),
            // BCC
            0x90 => {
                let c = !self.ps.carry;
                self.branch(c);
            },
            // BCS
            0xB0 => {
                let c = self.ps.carry;
                self.branch(c);
            },
            // BEQ
            0xF0 => {
                let c = self.ps.zero;
                self.branch(c);
            },
            // BMI
            0x30 => {
                let c = self.ps.negative;
                self.branch(c);
            },
            // BNE
            0xD0 => {
                let c = !self.ps.zero;
                self.branch(c);
            },
            // BPL
            0x10 => {
                let c = !self.ps.negative;
                self.branch(c);
            },
            // BVC
            0x50 => {
                let c = !self.ps.overflow;
                self.branch(c);
            },
            // BVS
            0x70 => {
                let c = self.ps.overflow;
                self.branch(c);
            },
            // JMP
            0x4C => self.jmp_abs(),
            0x6C => self.jmp_indirect(),
            // JSR
            0x20 => self.jsr(),
            // RTI
            0x40 => self.rti(),
            // RTS
            _ => self.rts(),
        }
    }

    /// Runs instructions until execution halts: the final state is the
    /// first halted iterate of `spec_step` with the halting byte consumed
    /// — the program counter rests one past it — unless the astronomically
    /// large step budget ran out. This is exactly `run_with_callback` with
    /// the do-nothing hook.
    pub fn run(&mut self)
        requires
            old(self).wf(),
        ensures
            final(self).wf(),
            exists|n: nat| spec_run_outcome(old(self).model(), final(self).model(), n),
    {
        let mut callback = NullHook {  };
        let _halted = self.run_with_callback(&mut callback);
    }

    /// Runs instructions until execution halts, handing the CPU to the
    /// hook before every fetch — including the halting fetch. The hook may
    /// mutate the CPU freely, so in general only well-formedness and the
    /// resting point are promised: a set flag means the loop stopped
    /// because a fetch read a halting byte, now consumed, with the program
    /// counter one past it. A passive hook leaves the run loop's exact
    /// behaviour intact: the final state is the first halted iterate of
    /// `spec_step`, halting byte consumed, unless the astronomically large
    /// step budget ran out.
    #[verifier::loop_isolation(false)]
    pub fn run_with_callback<H: CpuHook>(&mut self, callback: &mut H) -> (halted: bool)
        requires
            old(self).wf(),
        ensures
            final(self).wf(),
            halted ==> spec_stopped(final(self).model()),
            old(callback).passive() ==> exists|n: nat|
                spec_run_outcome(old(self).model(), final(self).model(), n) && (halted
                    ==> spec_halted(run_n(old(self).model(), n))),
    {
        let ghost m0 = self.model();
        let ghost passive0 = callback.passive();
        let mut fuel: u64 = 0xFFFF_FFFF_FFFF_FFFF;
        loop
            invariant
                self.wf(),
                passive0 ==> callback.passive(),
                passive0 ==> self.model() == run_n(m0, (0xFFFF_FFFF_FFFF_FFFF - fuel) as nat),
                passive0 ==> forall|k: nat|
                    k < (0xFFFF_FFFF_FFFF_FFFF - fuel) as nat ==> !spec_halted(run_n(m0, k)),
            decreases fuel,
        {
            let ghost n = (0xFFFF_FFFF_FFFF_FFFFnat - fuel) as nat;
            callback.call(self);
            if fuel == 0 {
                proof {
                    if passive0 {
                        assert(spec_run_outcome(m0, self.model(), n));
                    }
                }
                return false;
            }
            let ghost prev = self.model();
            let more = self.step();
            if !more {
                proof {
                    assert(spec_stopped(self.model()));
                    if passive0 {
                        assert(spec_run_outcome(m0, self.model(), n));
                    }
                }
                return true;
            }
            fuel = fuel - 1;
            proof {
                if passive0 {
                    assert(self.model() == run_n(m0, n + 1));
                    assert forall|k: nat| k < n + 1 implies !spec_halted(run_n(m0, k)) by {
                        if k == n {
                            assert(run_n(m0, k) == prev);
                        }
                    }
                }
            }
        }
    }
}

/// Stack discipline: pushing two bytes and then pulling twice restores the
/// stack pointer and returns the bytes in reverse push order, wraparound
/// included.
pub proof fn law_stack_round_trip(m: ICpu, b1: u8, b2: u8)
    requires
        m.mem.len() == 0x10000,
    ensures
        ({
            let m1 = spec_push(spec_push(m, b1), b2);
            let (m2, v2) = spec_pop(m1);
            let (m3, v3) = spec_pop(m2);
            &&& v2 == b2
            &&& v3 == b1
            &&& m3.sp == m.sp
            &&& m3.pc == m.pc
            &&& m3.a == m.a
            &&& m3.x == m.x
            &&& m3.y == m.y
            &&& m3.ps == m.ps
        }),
{
    let sp0 = m.sp;
    let sp1 = sp0.wrapping_sub(1);
    assert(sp1.wrapping_add(1) == sp0);
    assert(sp1 != sp0);
    assert(spec_stack_addr(sp1) != spec_stack_addr(sp0));
    let m1 = spec_push(spec_push(m, b1), b2);
    assert(m1.sp == sp1.wrapping_sub(1));
    assert(m1.sp.wrapping_add(1) == sp1);
    assert(m1.byte(spec_stack_addr(sp1)) == b2);
    let (m2, v2) = spec_pop(m1);
    assert(m2.sp.wrapping_add(1) == sp0);
    assert(m2.byte(spec_stack_addr(sp0)) == b1);
}


} // verus!
