//! The minimal instruction loop: a CPU with accumulator and X register
//! only, covering load-immediate, transfer, increment and the halt opcode.
//! Kept as the simplest model of the fetch-dispatch-execute cycle.

use vstd::prelude::*;

verus! {

#[derive(Clone, Copy)]
pub struct Status {
    pub carry: bool,
    pub zero: bool,
    pub interrupt: bool,
    pub decimal: bool,
    pub break_: bool,
    pub overflow: bool,
    pub negative: bool,
}

pub enum StatusFlag {
    Carry,
    Zero,
    Interrupt,
    Decimal,
    Break,
    Overflow,
    Negative,
}

impl Status {
    /// All flags clear.
    pub open spec fn spec_clear() -> Status {
        Status {
            carry: false,
            zero: false,
            interrupt: false,
            decimal: false,
            break_: false,
            overflow: false,
            negative: false,
        }
    }

    /// The flags a restored byte produces: each flag from its documented
    /// bit position.
    pub open spec fn spec_from_byte(val: u8) -> Status {
        Status {
            carry: (val & 0x01) != 0,
            zero: (val & 0x02) != 0,
            interrupt: (val & 0x04) != 0,
            decimal: (val & 0x08) != 0,
            break_: (val & 0x10) != 0,
            overflow: (val & 0x40) != 0,
            negative: (val & 0x80) != 0,
        }
    }

    /// The state a status flag update produces.
    pub open spec fn spec_set(self, flag: StatusFlag, val: bool) -> Status {
        match flag {
            StatusFlag::Carry => Status { carry: val, ..self },
            StatusFlag::Zero => Status { zero: val, ..self },
            StatusFlag::Interrupt => Status { interrupt: val, ..self },
            StatusFlag::Decimal => Status { decimal: val, ..self },
            StatusFlag::Break => Status { break_: val, ..self },
            StatusFlag::Overflow => Status { overflow: val, ..self },
            StatusFlag::Negative => Status { negative: val, ..self },
        }
    }

    pub fn new() -> (r: Status)
        ensures
            r == Status::spec_clear(),
    {
        Status {
            carry: false,
            zero: false,
            interrupt: false,
            decimal: false,
            break_: false,
            overflow: false,
            negative: false,
        }
    }

    /// Flips exactly one flag bit.
    pub fn set(&mut self, flag: StatusFlag, val: bool)
        ensures
            *final(self) == old(self).spec_set(flag, val),
    {
        match flag {
            StatusFlag::Carry => self.carry = val,
            StatusFlag::Zero => self.zero = val,
            StatusFlag::Interrupt => self.interrupt = val,
            StatusFlag::Decimal => self.decimal = val,
            StatusFlag::Break => self.break_ = val,
            StatusFlag::Overflow => self.overflow = val,
            StatusFlag::Negative => self.negative = val,
        }
    }

    /// Restores the flags from a status byte.
    pub fn from_byte(val: u8) -> (r: Status)
        ensures
            r == Status::spec_from_byte(val),
    {
        Status {
            carry: (val & 0x01) != 0,
            zero: (val & 0x02) != 0,
            interrupt: (val & 0x04) != 0,
            decimal: (val & 0x08) != 0,
            break_: (val & 0x10) != 0,
            overflow: (val & 0x40) != 0,
            negative: (val & 0x80) != 0,
        }
    }
}

pub struct Cpu {
    pub a: u8,
    pub x: u8,
    pub ps: Status,
    pub pc: u16,
    pub memory: Vec<u8>,
}

/// The mathematical state of the minimal CPU.
pub ghost struct BCpu {
    pub a: u8,
    pub x: u8,
    pub ps: Status,
    pub pc: u16,
    pub mem: Seq<u8>,
}

/// Zero and negative derived from a result byte.
pub open spec fn bzn(ps: Status, v: u8) -> Status {
    Status { zero: v == 0, negative: (v & 0x80) != 0, ..ps }
}

impl BCpu {
    pub open spec fn byte(self, addr: u16) -> u8 {
        self.mem[addr as int]
    }
}

/// Execution has stopped: the program counter cannot be fetched from, the
/// next opcode is the halt opcode, or it is not one of the three
/// instructions this CPU knows.
pub open spec fn bspec_halted(m: BCpu) -> bool {
    let code = m.byte(m.pc);
    m.pc >= 0xFFFE || (code != 0xA9 && code != 0xAA && code != 0xE8)
}

/// One fetch-dispatch-execute step on a non-halted state.
pub open spec fn bspec_step(m: BCpu) -> BCpu {
    let code = m.byte(m.pc);
    if code == 0xA9 {
        let v = m.byte((m.pc + 1) as u16);
        BCpu { a: v, ps: bzn(m.ps, v), pc: (m.pc + 2) as u16, ..m }
    } else if code == 0xAA {
        BCpu { x: m.a, ps: bzn(m.ps, m.a), pc: (m.pc + 1) as u16, ..m }
    } else {
        let v = m.x.wrapping_add(1);
        BCpu { x: v, ps: bzn(m.ps, v), pc: (m.pc + 1) as u16, ..m }
    }
}

/// The single bookkeeping action of a halting fetch: the halting byte is
/// consumed, so the program counter moves one past it — except close to
/// the end of the address space, where nothing more can be fetched and
/// the state is left untouched.
pub open spec fn bspec_halt_step(m: BCpu) -> BCpu {
    if m.pc >= 0xFFFE {
        m
    } else {
        BCpu { pc: (m.pc + 1) as u16, ..m }
    }
}

/// What the run loop leaves behind after `n` instruction steps, none of
/// them halted: either step `n` halted and its byte was consumed, or the
/// astronomically large step budget ran out.
pub open spec fn bspec_run_outcome(m0: BCpu, m1: BCpu, n: nat) -> bool {
    &&& (forall|k: nat| k < n ==> !bspec_halted(brun_n(m0, k)))
    &&& ((bspec_halted(brun_n(m0, n)) && m1 == bspec_halt_step(brun_n(m0, n))) || (n
        == 0xFFFF_FFFF_FFFF_FFFF && m1 == brun_n(m0, n)))
}

/// `n` steps from `m`.
pub open spec fn brun_n(m: BCpu, n: nat) -> BCpu
    decreases n,
{
    if n == 0 {
        m
    } else {
        bspec_step(brun_n(m, (n - 1) as nat))
    }
}

/// The state `load_and_run` starts executing from.
pub open spec fn bspec_boot(m: BCpu, prog: Seq<u8>) -> BCpu {
    let loaded = BCpu { mem: bspec_loaded(m.mem, prog), ..m };
    BCpu {
        a: 0,
        x: 0,
        ps: Status::spec_from_byte(0),
        pc: (loaded.byte(0xFFFC) + loaded.byte(0xFFFD) * 256) as u16,
        ..loaded
    }
}

/// The memory image after `load`, with the reset vector set.
pub open spec fn bspec_loaded(mem: Seq<u8>, prog: Seq<u8>) -> Seq<u8> {
    Seq::new(
        0x10000,
        |i: int|
            if i == 0xFFFC {
                0x00
            } else if i == 0xFFFD {
                0x80
            } else if 0x8000 <= i && i < 0x8000 + prog.len() {
                prog[i - 0x8000]
            } else {
                mem[i]
            },
    )
}

impl Cpu {
    /// Every 16-bit address is backed.
    pub open spec fn wf(self) -> bool {
        self.memory@.len() == 0x10000
    }

    /// The ghost model of this state.
    pub open spec fn model(self) -> BCpu {
        BCpu { a: self.a, x: self.x, ps: self.ps, pc: self.pc, mem: self.memory@ }
    }

    /// A fresh CPU: registers and memory zeroed.
    pub fn new() -> (r: Cpu)
        ensures
            r.wf(),
            r.model() == (BCpu {
                a: 0,
                x: 0,
                ps: Status::spec_clear(),
                pc: 0,
                mem: Seq::new(0x10000, |i: int| 0u8),
            }),
    {
        let mut memory: Vec<u8> = Vec::new();
        let mut i: usize = 0;
        while i < 0x10000
            invariant
                i <= 0x10000,
                memory@ == Seq::new(i as nat, |j: int| 0u8),
            decreases 0x10000 - i,
        {
            memory.push(0);
            proof {
                assert(memory@ =~= Seq::new((i + 1) as nat, |j: int| 0u8));
            }
            i = i + 1;
        }
        Cpu { a: 0, x: 0, ps: Status::new(), pc: 0, memory }
    }

    /// Reads one byte.
    pub fn mem_read(&self, addr: u16) -> (r: u8)
        requires
            self.wf(),
        ensures
            r == self.model().byte(addr),
    {
        self.memory[addr as usize]
    }

    /// Reads a little-endian 16-bit value.
    pub fn mem_read_u16(&self, pos: u16) -> (r: u16)
        requires
            self.wf(),
            pos < 0xFFFF,
        ensures
            r == self.model().byte(pos) + self.model().byte((pos + 1) as u16) * 256,
    {
        let low = self.mem_read(pos) as u16;
        let high = self.mem_read(pos + 1) as u16;
        high * 256 + low
    }

    /// Writes one byte.
    pub fn mem_write(&mut self, addr: u16, data: u8)
        requires
            old(self).wf(),
        ensures
            final(self).wf(),
            final(self).model() == (BCpu {
                mem: old(self).model().mem.update(addr as int, data),
                ..old(self).model()
            }),
    {
        self.memory.set(addr as usize, data);
    }

    /// Writes a little-endian 16-bit value.
    pub fn mem_write_u16(&mut self, pos: u16, data: u16)
        requires
            old(self).wf(),
            pos < 0xFFFF,
        ensures
            final(self).wf(),
            final(self).model() == (BCpu {
                mem: old(self).model().mem.update(pos as int, (data % 256) as u8).update(
                    pos + 1,
                    (data / 256) as u8,
                ),
                ..old(self).model()
            }),
    {
        let high: u8 = (data / 256) as u8;
        let low: u8 = (data % 256) as u8;
        self.mem_write(pos, low);
        self.mem_write(pos + 1, high);
    }

    /// Clears the registers, restores the flags from zero, and loads the
    /// program counter from the reset vector.
    pub fn reset(&mut self)
        requires
            old(self).wf(),
        ensures
            final(self).wf(),
            final(self).model() == (BCpu {
                a: 0,
                x: 0,
                ps: Status::spec_from_byte(0),
                pc: (old(self).model().byte(0xFFFC) + old(self).model().byte(0xFFFD)
                    * 256) as u16,
                ..old(self).model()
            }),
    {
        self.a = 0;
        self.x = 0;
        self.ps = Status::from_byte(0);
        self.pc = self.mem_read_u16(0xFFFC);
    }

    /// Copies the program to `$8000` and points the reset vector there.
    pub fn load(&mut self, program: Vec<u8>)
        requires
            old(self).wf(),
            program@.len() <= 0x8000,
        ensures
            final(self).wf(),
            final(self).model() == (BCpu {
                mem: bspec_loaded(old(self).model().mem, program@),
                ..old(self).model()
            }),
    {
        let ghost mem0 = self.model().mem;
        let n = program.len();
        let mut i: usize = 0;
        proof {
            assert(self.model().mem =~= Seq::new(
                0x10000,
                |j: int|
                    if 0x8000 <= j && j < 0x8000 + i {
                        program@[j - 0x8000]
                    } else {
                        mem0[j]
                    },
            ));
        }
        while i < n
            invariant
                self.wf(),
                i <= n,
                n == program@.len(),
                n <= 0x8000,
                self.model() == (BCpu {
                    mem: Seq::new(
                        0x10000,
                        |j: int|
                            if 0x8000 <= j && j < 0x8000 + i {
                                program@[j - 0x8000]
                            } else {
                                mem0[j]
                            },
                    ),
                    ..old(self).model()
                }),
            decreases n - i,
        {
            let v = program[i];
            self.mem_write(0x8000 + (i as u16), v);
            proof {
                assert(self.model().mem =~= Seq::new(
                    0x10000,
                    |j: int|
                        if 0x8000 <= j && j < 0x8000 + (i + 1) {
                            program@[j - 0x8000]
                        } else {
                            mem0[j]
                        },
                ));
            }
            i = i + 1;
        }
        self.mem_write_u16(0xFFFC, 0x8000);
        proof {
            assert(self.model().mem =~= bspec_loaded(mem0, program@));
        }
    }

    /// Sets zero and negative from a result byte.
    pub fn update_zero_and_negative(&mut self, result: u8)
        ensures
            *final(self) == (Cpu { ps: bzn(old(self).ps, result), ..*old(self) }),
    {
        self.ps.set(StatusFlag::Zero, result == 0);
        self.ps.set(StatusFlag::Negative, (result & 0x80) != 0)
    }

    /// Load accumulator from an immediate value.
    pub fn lda(&mut self, value: u8)
        ensures
            *final(self) == (Cpu { a: value, ps: bzn(old(self).ps, value), ..*old(self) }),
    {
        self.a = value;
        let v = self.a;
        self.update_zero_and_negative(v);
    }

    /// Transfer accumulator to X.
    pub fn tax(&mut self)
        ensures
            *final(self) == (Cpu { x: old(self).a, ps: bzn(old(self).ps, old(self).a), ..*old(
                self,
            ) }),
    {
        self.x = self.a;
        let v = self.x;
        self.update_zero_and_negative(v);
    }

    /// Increment X with 8-bit wraparound.
    pub fn inx(&mut self)
        ensures
            *final(self) == (Cpu {
                x: old(self).x.wrapping_add(1),
                ps: bzn(old(self).ps, old(self).x.wrapping_add(1)),
                ..*old(self)
            }),
    {
        self.x = self.x.wrapping_add(1);
        let v = self.x;
        self.update_zero_and_negative(v);
    }

    /// Executes one instruction, or reports that execution has halted on
    /// the halt opcode or an unknown one: the halting byte is then
    /// consumed — the program counter ends one past it — and everything
    /// else stays untouched.
    pub fn step(&mut self) -> (more: bool)
        requires
            old(self).wf(),
        ensures
            final(self).wf(),
            bspec_halted(old(self).model()) ==> (!more && final(self).model() == bspec_halt_step(
                old(self).model(),
            )),
            !bspec_halted(old(self).model()) ==> (more && final(self).model() == bspec_step(
                old(self).model(),
            )),
    {
        if self.pc >= 0xFFFE {
            return false;
        }
        let opcode = self.mem_read(self.pc);
        match opcode {
            0xA9 => {
                self.pc = self.pc + 1;
                let a = self.mem_read(self.pc);
                self.pc = self.pc + 1;
                self.lda(a);
                true
            },
            0xAA => {
                self.pc = self.pc + 1;
                self.tax();
                true
            },
            0xE8 => {
                self.pc = self.pc + 1;
                self.inx();
                true
            },
            _ => {
                self.pc = self.pc + 1;
                false
            },
        }
    }

    /// Runs instructions until the halt opcode or an unknown one: the
    /// final state is the first halted iterate of `bspec_step` with the
    /// halting byte consumed — the program counter rests one past it —
    /// unless the astronomically large step budget ran out.
    #[verifier::loop_isolation(false)]
    pub fn run(&mut self)
        requires
            old(self).wf(),
        ensures
            final(self).wf(),
            exists|n: nat| bspec_run_outcome(old(self).model(), final(self).model(), n),
    {
        let ghost m0 = self.model();
        let mut fuel: u64 = 0xFFFF_FFFF_FFFF_FFFF;
        loop
            invariant
                self.wf(),
                self.model() == brun_n(m0, (0xFFFF_FFFF_FFFF_FFFF - fuel) as nat),
                forall|k: nat|
                    k < (0xFFFF_FFFF_FFFF_FFFF - fuel) as nat ==> !bspec_halted(brun_n(m0, k)),
            decreases fuel,
        {
            let ghost prev = self.model();
            let ghost n = (0xFFFF_FFFF_FFFF_FFFFnat - fuel) as nat;
            if fuel == 0 {
                proof {
                    assert(bspec_run_outcome(m0, self.model(), n));
                }
                return;
            }
            let more = self.step();
            if !more {
                proof {
                    assert(bspec_run_outcome(m0, self.model(), n));
                }
                return;
            }
            fuel = fuel - 1;
            proof {
                assert(self.model() == brun_n(m0, n + 1));
                assert forall|k: nat| k < n + 1 implies !bspec_halted(brun_n(m0, k)) by {
                    if k == n {
                        assert(brun_n(m0, k) == prev);
                    }
                }
            }
        }
    }

    /// Loads the program, resets, and runs it to the halt opcode: the
    /// final state is the first halted iterate of `bspec_step` from the
    /// freshly booted state, halting byte consumed.
    pub fn load_and_run(&mut self, program: Vec<u8>)
        requires
            old(self).wf(),
            program@.len() <= 0x8000,
        ensures
            final(self).wf(),
            exists|n: nat|
                bspec_run_outcome(bspec_boot(old(self).model(), program@), final(self).model(), n),
    {
        self.load(program);
        self.reset();
        proof {
            assert(self.model() == bspec_boot(old(self).model(), program@));
        }
        self.run()
    }
}

} // verus!
