//! The cycle-stepped executor: the opcode dispatch table and the
//! one-cycle-per-call execution loop around the instruction machines.

use vstd::prelude::*;
use crate::engine::addressing::{Absolute, AbsoluteReg, Imm, Index, IndirectX, IndirectY, ZeroPage,
    ZeroPageReg};
use crate::engine::alu::ReadOp;
use crate::engine::control::{Branch, BranchFlag, Jmp, JmpInd, Jsr, Rti, Rts};
use crate::engine::cpu::{Cpu, CpuModel};
use crate::engine::implied::{AslA, BitAbs, Decr, FlagKind, FlagOp, Incr, LsrA, Nop, RolA, RorA,
    Transfer, TReg, TSX, TXS};
use crate::engine::opcode::{OpCode, Step};
use crate::engine::rmw::{RmwAbsolute, RmwAbsoluteX, RmwOp, RmwZeroPage, RmwZeroPageX};
use crate::engine::stack_ops::{Pha, Php, Pla, Plp};

verus! {

/// One in-flight instruction, whichever state machine it is.
pub enum Handler {
    Imm(Imm),
    ZeroPage(ZeroPage),
    ZeroPageReg(ZeroPageReg),
    Absolute(Absolute),
    AbsoluteReg(AbsoluteReg),
    IndirectX(IndirectX),
    IndirectY(IndirectY),
    RmwZeroPage(RmwZeroPage),
    RmwZeroPageX(RmwZeroPageX),
    RmwAbsolute(RmwAbsolute),
    RmwAbsoluteX(RmwAbsoluteX),
    Branch(Branch),
    FlagOp(FlagOp),
    Transfer(Transfer),
    Tsx(TSX),
    Txs(TXS),
    Incr(Incr),
    Decr(Decr),
    LsrA(LsrA),
    AslA(AslA),
    RorA(RorA),
    RolA(RolA),
    Nop(Nop),
    BitAbs(BitAbs),
    Php(Php),
    Pha(Pha),
    Pla(Pla),
    Plp(Plp),
    Jmp(Jmp),
    JmpInd(JmpInd),
    Jsr(Jsr),
    Rts(Rts),
    Rti(Rti),
}

impl OpCode for Handler {
    open spec fn inv(&self) -> bool {
        match self {
            Handler::Imm(x) => x.inv(),
            Handler::ZeroPage(x) => x.inv(),
            Handler::ZeroPageReg(x) => x.inv(),
            Handler::Absolute(x) => x.inv(),
            Handler::AbsoluteReg(x) => x.inv(),
            Handler::IndirectX(x) => x.inv(),
            Handler::IndirectY(x) => x.inv(),
            Handler::RmwZeroPage(x) => x.inv(),
            Handler::RmwZeroPageX(x) => x.inv(),
            Handler::RmwAbsolute(x) => x.inv(),
            Handler::RmwAbsoluteX(x) => x.inv(),
            Handler::Branch(x) => x.inv(),
            Handler::FlagOp(x) => x.inv(),
            Handler::Transfer(x) => x.inv(),
            Handler::Tsx(x) => x.inv(),
            Handler::Txs(x) => x.inv(),
            Handler::Incr(x) => x.inv(),
            Handler::Decr(x) => x.inv(),
            Handler::LsrA(x) => x.inv(),
            Handler::AslA(x) => x.inv(),
            Handler::RorA(x) => x.inv(),
            Handler::RolA(x) => x.inv(),
            Handler::Nop(x) => x.inv(),
            Handler::BitAbs(x) => x.inv(),
            Handler::Php(x) => x.inv(),
            Handler::Pha(x) => x.inv(),
            Handler::Pla(x) => x.inv(),
            Handler::Plp(x) => x.inv(),
            Handler::Jmp(x) => x.inv(),
            Handler::JmpInd(x) => x.inv(),
            Handler::Jsr(x) => x.inv(),
            Handler::Rts(x) => x.inv(),
            Handler::Rti(x) => x.inv(),
        }
    }

    open spec fn ok(&self, m: CpuModel) -> bool {
        match self {
            Handler::Imm(x) => x.ok(m),
            Handler::ZeroPage(x) => x.ok(m),
            Handler::ZeroPageReg(x) => x.ok(m),
            Handler::Absolute(x) => x.ok(m),
            Handler::AbsoluteReg(x) => x.ok(m),
            Handler::IndirectX(x) => x.ok(m),
            Handler::IndirectY(x) => x.ok(m),
            Handler::RmwZeroPage(x) => x.ok(m),
            Handler::RmwZeroPageX(x) => x.ok(m),
            Handler::RmwAbsolute(x) => x.ok(m),
            Handler::RmwAbsoluteX(x) => x.ok(m),
            Handler::Branch(x) => x.ok(m),
            Handler::FlagOp(x) => x.ok(m),
            Handler::Transfer(x) => x.ok(m),
            Handler::Tsx(x) => x.ok(m),
            Handler::Txs(x) => x.ok(m),
            Handler::Incr(x) => x.ok(m),
            Handler::Decr(x) => x.ok(m),
            Handler::LsrA(x) => x.ok(m),
            Handler::AslA(x) => x.ok(m),
            Handler::RorA(x) => x.ok(m),
            Handler::RolA(x) => x.ok(m),
            Handler::Nop(x) => x.ok(m),
            Handler::BitAbs(x) => x.ok(m),
            Handler::Php(x) => x.ok(m),
            Handler::Pha(x) => x.ok(m),
            Handler::Pla(x) => x.ok(m),
            Handler::Plp(x) => x.ok(m),
            Handler::Jmp(x) => x.ok(m),
            Handler::JmpInd(x) => x.ok(m),
            Handler::Jsr(x) => x.ok(m),
            Handler::Rts(x) => x.ok(m),
            Handler::Rti(x) => x.ok(m),
        }
    }

    open spec fn remaining(&self, m: CpuModel) -> nat {
        match self {
            Handler::Imm(x) => x.remaining(m),
            Handler::ZeroPage(x) => x.remaining(m),
            Handler::ZeroPageReg(x) => x.remaining(m),
            Handler::Absolute(x) => x.remaining(m),
            Handler::AbsoluteReg(x) => x.remaining(m),
            Handler::IndirectX(x) => x.remaining(m),
            Handler::IndirectY(x) => x.remaining(m),
            Handler::RmwZeroPage(x) => x.remaining(m),
            Handler::RmwZeroPageX(x) => x.remaining(m),
            Handler::RmwAbsolute(x) => x.remaining(m),
            Handler::RmwAbsoluteX(x) => x.remaining(m),
            Handler::Branch(x) => x.remaining(m),
            Handler::FlagOp(x) => x.remaining(m),
            Handler::Transfer(x) => x.remaining(m),
            Handler::Tsx(x) => x.remaining(m),
            Handler::Txs(x) => x.remaining(m),
            Handler::Incr(x) => x.remaining(m),
            Handler::Decr(x) => x.remaining(m),
            Handler::LsrA(x) => x.remaining(m),
            Handler::AslA(x) => x.remaining(m),
            Handler::RorA(x) => x.remaining(m),
            Handler::RolA(x) => x.remaining(m),
            Handler::Nop(x) => x.remaining(m),
            Handler::BitAbs(x) => x.remaining(m),
            Handler::Php(x) => x.remaining(m),
            Handler::Pha(x) => x.remaining(m),
            Handler::Pla(x) => x.remaining(m),
            Handler::Plp(x) => x.remaining(m),
            Handler::Jmp(x) => x.remaining(m),
            Handler::JmpInd(x) => x.remaining(m),
            Handler::Jsr(x) => x.remaining(m),
            Handler::Rts(x) => x.remaining(m),
            Handler::Rti(x) => x.remaining(m),
        }
    }

    open spec fn outcome(&self, m: CpuModel) -> CpuModel {
        match self {
            Handler::Imm(x) => x.outcome(m),
            Handler::ZeroPage(x) => x.outcome(m),
            Handler::ZeroPageReg(x) => x.outcome(m),
            Handler::Absolute(x) => x.outcome(m),
            Handler::AbsoluteReg(x) => x.outcome(m),
            Handler::IndirectX(x) => x.outcome(m),
            Handler::IndirectY(x) => x.outcome(m),
            Handler::RmwZeroPage(x) => x.outcome(m),
            Handler::RmwZeroPageX(x) => x.outcome(m),
            Handler::RmwAbsolute(x) => x.outcome(m),
            Handler::RmwAbsoluteX(x) => x.outcome(m),
            Handler::Branch(x) => x.outcome(m),
            Handler::FlagOp(x) => x.outcome(m),
            Handler::Transfer(x) => x.outcome(m),
            Handler::Tsx(x) => x.outcome(m),
            Handler::Txs(x) => x.outcome(m),
            Handler::Incr(x) => x.outcome(m),
            Handler::Decr(x) => x.outcome(m),
            Handler::LsrA(x) => x.outcome(m),
            Handler::AslA(x) => x.outcome(m),
            Handler::RorA(x) => x.outcome(m),
            Handler::RolA(x) => x.outcome(m),
            Handler::Nop(x) => x.outcome(m),
            Handler::BitAbs(x) => x.outcome(m),
            Handler::Php(x) => x.outcome(m),
            Handler::Pha(x) => x.outcome(m),
            Handler::Pla(x) => x.outcome(m),
            Handler::Plp(x) => x.outcome(m),
            Handler::Jmp(x) => x.outcome(m),
            Handler::JmpInd(x) => x.outcome(m),
            Handler::Jsr(x) => x.outcome(m),
            Handler::Rts(x) => x.outcome(m),
            Handler::Rti(x) => x.outcome(m),
        }
    }

    fn new() -> (r: Handler) {
        Handler::Nop(Nop {  })
    }

    fn decode(&mut self, cpu: &mut Cpu) -> (r: Step) {
        match self {
            Handler::Imm(x) => x.decode(cpu),
            Handler::ZeroPage(x) => x.decode(cpu),
            Handler::ZeroPageReg(x) => x.decode(cpu),
            Handler::Absolute(x) => x.decode(cpu),
            Handler::AbsoluteReg(x) => x.decode(cpu),
            Handler::IndirectX(x) => x.decode(cpu),
            Handler::IndirectY(x) => x.decode(cpu),
            Handler::RmwZeroPage(x) => x.decode(cpu),
            Handler::RmwZeroPageX(x) => x.decode(cpu),
            Handler::RmwAbsolute(x) => x.decode(cpu),
            Handler::RmwAbsoluteX(x) => x.decode(cpu),
            Handler::Branch(x) => x.decode(cpu),
            Handler::FlagOp(x) => x.decode(cpu),
            Handler::Transfer(x) => x.decode(cpu),
            Handler::Tsx(x) => x.decode(cpu),
            Handler::Txs(x) => x.decode(cpu),
            Handler::Incr(x) => x.decode(cpu),
            Handler::Decr(x) => x.decode(cpu),
            Handler::LsrA(x) => x.decode(cpu),
            Handler::AslA(x) => x.decode(cpu),
            Handler::RorA(x) => x.decode(cpu),
            Handler::RolA(x) => x.decode(cpu),
            Handler::Nop(x) => x.decode(cpu),
            Handler::BitAbs(x) => x.decode(cpu),
            Handler::Php(x) => x.decode(cpu),
            Handler::Pha(x) => x.decode(cpu),
            Handler::Pla(x) => x.decode(cpu),
            Handler::Plp(x) => x.decode(cpu),
            Handler::Jmp(x) => x.decode(cpu),
            Handler::JmpInd(x) => x.decode(cpu),
            Handler::Jsr(x) => x.decode(cpu),
            Handler::Rts(x) => x.decode(cpu),
            Handler::Rti(x) => x.decode(cpu),
        }
    }
}

/// The opcode descriptor table: which instruction machine, with which
/// operation and index register, each opcode byte starts. Unlisted bytes
/// are unknown opcodes.
#[verifier::opaque]
pub open spec fn spec_dispatch(op: u8) -> Option<Handler> {
    match op {
        0x01 => Some(Handler::IndirectX(IndirectX { op: ReadOp::Ora, low: 0, high: 0, addr: 0, state: 0 })),
        0x04 => Some(Handler::ZeroPage(ZeroPage { op: ReadOp::Nop, addr: 0, state: 0 })),
        0x05 => Some(Handler::ZeroPage(ZeroPage { op: ReadOp::Ora, addr: 0, state: 0 })),
        0x06 => Some(Handler::RmwZeroPage(RmwZeroPage { op: RmwOp::Asl, addr: 0, data: 0, state: 0 })),
        0x08 => Some(Handler::Php(Php { state: 0 })),
        0x09 => Some(Handler::Imm(Imm { op: ReadOp::Ora })),
        0x0A => Some(Handler::AslA(AslA {  })),
        0x0C => Some(Handler::Absolute(Absolute { op: ReadOp::Nop, low: 0, high: 0, state: 0 })),
        0x0D => Some(Handler::Absolute(Absolute { op: ReadOp::Ora, low: 0, high: 0, state: 0 })),
        0x0E => Some(Handler::RmwAbsolute(RmwAbsolute { op: RmwOp::Asl, low: 0, high: 0, addr: 0, data: 0, state: 0 })),
        0x10 => Some(Handler::Branch(Branch { flag: BranchFlag::Negative, expected: false, imm: 0, state: 0 })),
        0x11 => Some(Handler::IndirectY(IndirectY { op: ReadOp::Ora, store: false, low: 0, high: 0, carry: false, addr: 0, state: 0 })),
        0x14 => Some(Handler::ZeroPageReg(ZeroPageReg { op: ReadOp::Nop, reg: Index::X, addr: 0, state: 0 })),
        0x15 => Some(Handler::ZeroPageReg(ZeroPageReg { op: ReadOp::Ora, reg: Index::X, addr: 0, state: 0 })),
        0x16 => Some(Handler::RmwZeroPageX(RmwZeroPageX { op: RmwOp::Asl, addr: 0, imm: 0, state: 0 })),
        0x18 => Some(Handler::FlagOp(FlagOp { which: FlagKind::Carry, val: false })),
        0x19 => Some(Handler::AbsoluteReg(AbsoluteReg { op: ReadOp::Ora, reg: Index::Y, store: false, low: 0, high: 0, carry: false, state: 0 })),
        0x1A => Some(Handler::Nop(Nop {  })),
        0x1C => Some(Handler::AbsoluteReg(AbsoluteReg { op: ReadOp::Nop, reg: Index::X, store: false, low: 0, high: 0, carry: false, state: 0 })),
        0x1D => Some(Handler::AbsoluteReg(AbsoluteReg { op: ReadOp::Ora, reg: Index::X, store: false, low: 0, high: 0, carry: false, state: 0 })),
        0x1E => Some(Handler::RmwAbsoluteX(RmwAbsoluteX { op: RmwOp::Asl, low: 0, high: 0, carry: false, state: 0, imm: 0, addr: 0 })),
        0x20 => Some(Handler::Jsr(Jsr { low: 0, high: 0, state: 0 })),
        0x21 => Some(Handler::IndirectX(IndirectX { op: ReadOp::And, low: 0, high: 0, addr: 0, state: 0 })),
        0x24 => Some(Handler::ZeroPage(ZeroPage { op: ReadOp::Bit, addr: 0, state: 0 })),
        0x25 => Some(Handler::ZeroPage(ZeroPage { op: ReadOp::And, addr: 0, state: 0 })),
        0x26 => Some(Handler::RmwZeroPage(RmwZeroPage { op: RmwOp::Rol, addr: 0, data: 0, state: 0 })),
        0x28 => Some(Handler::Plp(Plp { state: 0 })),
        0x29 => Some(Handler::Imm(Imm { op: ReadOp::And })),
        0x2A => Some(Handler::RolA(RolA {  })),
        0x2C => Some(Handler::BitAbs(BitAbs { low: 0, high: 0, imm: 0, state: 0 })),
        0x2D => Some(Handler::Absolute(Absolute { op: ReadOp::And, low: 0, high: 0, state: 0 })),
        0x2E => Some(Handler::RmwAbsolute(RmwAbsolute { op: RmwOp::Rol, low: 0, high: 0, addr: 0, data: 0, state: 0 })),
        0x30 => Some(Handler::Branch(Branch { flag: BranchFlag::Negative, expected: true, imm: 0, state: 0 })),
        0x31 => Some(Handler::IndirectY(IndirectY { op: ReadOp::And, store: false, low: 0, high: 0, carry: false, addr: 0, state: 0 })),
        0x34 => Some(Handler::ZeroPageReg(ZeroPageReg { op: ReadOp::Nop, reg: Index::X, addr: 0, state: 0 })),
        0x35 => Some(Handler::ZeroPageReg(ZeroPageReg { op: ReadOp::And, reg: Index::X, addr: 0, state: 0 })),
        0x36 => Some(Handler::RmwZeroPageX(RmwZeroPageX { op: RmwOp::Rol, addr: 0, imm: 0, state: 0 })),
        0x38 => Some(Handler::FlagOp(FlagOp { which: FlagKind::Carry, val: true })),
        0x39 => Some(Handler::AbsoluteReg(AbsoluteReg { op: ReadOp::And, reg: Index::Y, store: false, low: 0, high: 0, carry: false, state: 0 })),
        0x3A => Some(Handler::Nop(Nop {  })),
        0x3C => Some(Handler::AbsoluteReg(AbsoluteReg { op: ReadOp::Nop, reg: Index::X, store: false, low: 0, high: 0, carry: false, state: 0 })),
        0x3D => Some(Handler::AbsoluteReg(AbsoluteReg { op: ReadOp::And, reg: Index::X, store: false, low: 0, high: 0, carry: false, state: 0 })),
        0x3E => Some(Handler::RmwAbsoluteX(RmwAbsoluteX { op: RmwOp::Rol, low: 0, high: 0, carry: false, state: 0, imm: 0, addr: 0 })),
        0x40 => Some(Handler::Rti(Rti { state: 0, low: 0, high: 0 })),
        0x41 => Some(Handler::IndirectX(IndirectX { op: ReadOp::Eor, low: 0, high: 0, addr: 0, state: 0 })),
        0x44 => Some(Handler::ZeroPage(ZeroPage { op: ReadOp::Nop, addr: 0, state: 0 })),
        0x45 => Some(Handler::ZeroPage(ZeroPage { op: ReadOp::Eor, addr: 0, state: 0 })),
        0x46 => Some(Handler::RmwZeroPage(RmwZeroPage { op: RmwOp::Lsr, addr: 0, data: 0, state: 0 })),
        0x48 => Some(Handler::Pha(Pha { state: 0 })),
        0x49 => Some(Handler::Imm(Imm { op: ReadOp::Eor })),
        0x4A => Some(Handler::LsrA(LsrA {  })),
        0x4C => Some(Handler::Jmp(Jmp { low: 0, high: 0, state: 0 })),
        0x4D => Some(Handler::Absolute(Absolute { op: ReadOp::Eor, low: 0, high: 0, state: 0 })),
        0x4E => Some(Handler::RmwAbsolute(RmwAbsolute { op: RmwOp::Lsr, low: 0, high: 0, addr: 0, data: 0, state: 0 })),
        0x50 => Some(Handler::Branch(Branch { flag: BranchFlag::Overflow, expected: false, imm: 0, state: 0 })),
        0x51 => Some(Handler::IndirectY(IndirectY { op: ReadOp::Eor, store: false, low: 0, high: 0, carry: false, addr: 0, state: 0 })),
        0x54 => Some(Handler::ZeroPageReg(ZeroPageReg { op: ReadOp::Nop, reg: Index::X, addr: 0, state: 0 })),
        0x55 => Some(Handler::ZeroPageReg(ZeroPageReg { op: ReadOp::Eor, reg: Index::X, addr: 0, state: 0 })),
        0x56 => Some(Handler::RmwZeroPageX(RmwZeroPageX { op: RmwOp::Lsr, addr: 0, imm: 0, state: 0 })),
        0x58 => Some(Handler::FlagOp(FlagOp { which: FlagKind::IntDisable, val: false })),
        0x59 => Some(Handler::AbsoluteReg(AbsoluteReg { op: ReadOp::Eor, reg: Index::Y, store: false, low: 0, high: 0, carry: false, state: 0 })),
        0x5A => Some(Handler::Nop(Nop {  })),
        0x5C => Some(Handler::AbsoluteReg(AbsoluteReg { op: ReadOp::Nop, reg: Index::X, store: false, low: 0, high: 0, carry: false, state: 0 })),
        0x5D => Some(Handler::AbsoluteReg(AbsoluteReg { op: ReadOp::Eor, reg: Index::X, store: false, low: 0, high: 0, carry: false, state: 0 })),
        0x5E => Some(Handler::RmwAbsoluteX(RmwAbsoluteX { op: RmwOp::Lsr, low: 0, high: 0, carry: false, state: 0, imm: 0, addr: 0 })),
        0x60 => Some(Handler::Rts(Rts { state: 0, low: 0, high: 0 })),
        0x61 => Some(Handler::IndirectX(IndirectX { op: ReadOp::Adc, low: 0, high: 0, addr: 0, state: 0 })),
        0x64 => Some(Handler::ZeroPage(ZeroPage { op: ReadOp::Nop, addr: 0, state: 0 })),
        0x65 => Some(Handler::ZeroPage(ZeroPage { op: ReadOp::Adc, addr: 0, state: 0 })),
        0x66 => Some(Handler::RmwZeroPage(RmwZeroPage { op: RmwOp::Ror, addr: 0, data: 0, state: 0 })),
        0x68 => Some(Handler::Pla(Pla { state: 0 })),
        0x69 => Some(Handler::Imm(Imm { op: ReadOp::Adc })),
        0x6A => Some(Handler::RorA(RorA {  })),
        0x6C => Some(Handler::JmpInd(JmpInd { low: 0, high: 0, pcl: 0, state: 0 })),
        0x6D => Some(Handler::Absolute(Absolute { op: ReadOp::Adc, low: 0, high: 0, state: 0 })),
        0x6E => Some(Handler::RmwAbsolute(RmwAbsolute { op: RmwOp::Ror, low: 0, high: 0, addr: 0, data: 0, state: 0 })),
        0x70 => Some(Handler::Branch(Branch { flag: BranchFlag::Overflow, expected: true, imm: 0, state: 0 })),
        0x71 => Some(Handler::IndirectY(IndirectY { op: ReadOp::Adc, store: false, low: 0, high: 0, carry: false, addr: 0, state: 0 })),
        0x74 => Some(Handler::ZeroPageReg(ZeroPageReg { op: ReadOp::Nop, reg: Index::X, addr: 0, state: 0 })),
        0x75 => Some(Handler::ZeroPageReg(ZeroPageReg { op: ReadOp::Adc, reg: Index::X, addr: 0, state: 0 })),
        0x76 => Some(Handler::RmwZeroPageX(RmwZeroPageX { op: RmwOp::Ror, addr: 0, imm: 0, state: 0 })),
        0x78 => Some(Handler::FlagOp(FlagOp { which: FlagKind::IntDisable, val: true })),
        0x79 => Some(Handler::AbsoluteReg(AbsoluteReg { op: ReadOp::Adc, reg: Index::Y, store: false, low: 0, high: 0, carry: false, state: 0 })),
        0x7A => Some(Handler::Nop(Nop {  })),
        0x7C => Some(Handler::AbsoluteReg(AbsoluteReg { op: ReadOp::Nop, reg: Index::X, store: false, low: 0, high: 0, carry: false, state: 0 })),
        0x7D => Some(Handler::AbsoluteReg(AbsoluteReg { op: ReadOp::Adc, reg: Index::X, store: false, low: 0, high: 0, carry: false, state: 0 })),
        0x7E => Some(Handler::RmwAbsoluteX(RmwAbsoluteX { op: RmwOp::Ror, low: 0, high: 0, carry: false, state: 0, imm: 0, addr: 0 })),
        0x80 => Some(Handler::Imm(Imm { op: ReadOp::Nop })),
        0x81 => Some(Handler::IndirectX(IndirectX { op: ReadOp::Sta, low: 0, high: 0, addr: 0, state: 0 })),
        0x84 => Some(Handler::ZeroPage(ZeroPage { op: ReadOp::Sty, addr: 0, state: 0 })),
        0x85 => Some(Handler::ZeroPage(ZeroPage { op: ReadOp::Sta, addr: 0, state: 0 })),
        0x86 => Some(Handler::ZeroPage(ZeroPage { op: ReadOp::Stx, addr: 0, state: 0 })),
        0x88 => Some(Handler::Decr(Decr { reg: Index::Y })),
        0x8A => Some(Handler::Transfer(Transfer { from: TReg::X, to: TReg::A })),
        0x8C => Some(Handler::Absolute(Absolute { op: ReadOp::Sty, low: 0, high: 0, state: 0 })),
        0x8D => Some(Handler::Absolute(Absolute { op: ReadOp::Sta, low: 0, high: 0, state: 0 })),
        0x8E => Some(Handler::Absolute(Absolute { op: ReadOp::Stx, low: 0, high: 0, state: 0 })),
        0x90 => Some(Handler::Branch(Branch { flag: BranchFlag::Carry, expected: false, imm: 0, state: 0 })),
        0x91 => Some(Handler::IndirectY(IndirectY { op: ReadOp::Sta, store: true, low: 0, high: 0, carry: false, addr: 0, state: 0 })),
        0x94 => Some(Handler::ZeroPageReg(ZeroPageReg { op: ReadOp::Sty, reg: Index::X, addr: 0, state: 0 })),
        0x95 => Some(Handler::ZeroPageReg(ZeroPageReg { op: ReadOp::Sta, reg: Index::X, addr: 0, state: 0 })),
        0x96 => Some(Handler::ZeroPageReg(ZeroPageReg { op: ReadOp::Stx, reg: Index::Y, addr: 0, state: 0 })),
        0x98 => Some(Handler::Transfer(Transfer { from: TReg::Y, to: TReg::A })),
        0x99 => Some(Handler::AbsoluteReg(AbsoluteReg { op: ReadOp::Sta, reg: Index::Y, store: true, low: 0, high: 0, carry: false, state: 0 })),
        0x9A => Some(Handler::Txs(TXS {  })),
        0x9D => Some(Handler::AbsoluteReg(AbsoluteReg { op: ReadOp::Sta, reg: Index::X, store: true, low: 0, high: 0, carry: false, state: 0 })),
        0xA0 => Some(Handler::Imm(Imm { op: ReadOp::Ldy })),
        0xA1 => Some(Handler::IndirectX(IndirectX { op: ReadOp::Lda, low: 0, high: 0, addr: 0, state: 0 })),
        0xA2 => Some(Handler::Imm(Imm { op: ReadOp::Ldx })),
        0xA4 => Some(Handler::ZeroPage(ZeroPage { op: ReadOp::Ldy, addr: 0, state: 0 })),
        0xA5 => Some(Handler::ZeroPage(ZeroPage { op: ReadOp::Lda, addr: 0, state: 0 })),
        0xA6 => Some(Handler::ZeroPage(ZeroPage { op: ReadOp::Ldx, addr: 0, state: 0 })),
        0xA8 => Some(Handler::Transfer(Transfer { from: TReg::A, to: TReg::Y })),
        0xA9 => Some(Handler::Imm(Imm { op: ReadOp::Lda })),
        0xAA => Some(Handler::Transfer(Transfer { from: TReg::A, to: TReg::X })),
        0xAC => Some(Handler::Absolute(Absolute { op: ReadOp::Ldy, low: 0, high: 0, state: 0 })),
        0xAD => Some(Handler::Absolute(Absolute { op: ReadOp::Lda, low: 0, high: 0, state: 0 })),
        0xAE => Some(Handler::Absolute(Absolute { op: ReadOp::Ldx, low: 0, high: 0, state: 0 })),
        0xB0 => Some(Handler::Branch(Branch { flag: BranchFlag::Carry, expected: true, imm: 0, state: 0 })),
        0xB1 => Some(Handler::IndirectY(IndirectY { op: ReadOp::Lda, store: false, low: 0, high: 0, carry: false, addr: 0, state: 0 })),
        0xB4 => Some(Handler::ZeroPageReg(ZeroPageReg { op: ReadOp::Ldy, reg: Index::X, addr: 0, state: 0 })),
        0xB5 => Some(Handler::ZeroPageReg(ZeroPageReg { op: ReadOp::Lda, reg: Index::X, addr: 0, state: 0 })),
        0xB6 => Some(Handler::ZeroPageReg(ZeroPageReg { op: ReadOp::Ldx, reg: Index::Y, addr: 0, state: 0 })),
        0xB8 => Some(Handler::FlagOp(FlagOp { which: FlagKind::Overflow, val: false })),
        0xB9 => Some(Handler::AbsoluteReg(AbsoluteReg { op: ReadOp::Lda, reg: Index::Y, store: false, low: 0, high: 0, carry: false, state: 0 })),
        0xBA => Some(Handler::Tsx(TSX {  })),
        0xBC => Some(Handler::AbsoluteReg(AbsoluteReg { op: ReadOp::Ldy, reg: Index::X, store: false, low: 0, high: 0, carry: false, state: 0 })),
        0xBD => Some(Handler::AbsoluteReg(AbsoluteReg { op: ReadOp::Lda, reg: Index::X, store: false, low: 0, high: 0, carry: false, state: 0 })),
        0xBE => Some(Handler::AbsoluteReg(AbsoluteReg { op: ReadOp::Ldx, reg: Index::Y, store: false, low: 0, high: 0, carry: false, state: 0 })),
        0xC0 => Some(Handler::Imm(Imm { op: ReadOp::CmpY })),
        0xC1 => Some(Handler::IndirectX(IndirectX { op: ReadOp::CmpA, low: 0, high: 0, addr: 0, state: 0 })),
        0xC4 => Some(Handler::ZeroPage(ZeroPage { op: ReadOp::CmpY, addr: 0, state: 0 })),
        0xC5 => Some(Handler::ZeroPage(ZeroPage { op: ReadOp::CmpA, addr: 0, state: 0 })),
        0xC6 => Some(Handler::RmwZeroPage(RmwZeroPage { op: RmwOp::Dec, addr: 0, data: 0, state: 0 })),
        0xC8 => Some(Handler::Incr(Incr { reg: Index::Y })),
        0xC9 => Some(Handler::Imm(Imm { op: ReadOp::CmpA })),
        0xCA => Some(Handler::Decr(Decr { reg: Index::X })),
        0xCC => Some(Handler::Absolute(Absolute { op: ReadOp::CmpY, low: 0, high: 0, state: 0 })),
        0xCD => Some(Handler::Absolute(Absolute { op: ReadOp::CmpA, low: 0, high: 0, state: 0 })),
        0xCE => Some(Handler::RmwAbsolute(RmwAbsolute { op: RmwOp::Dec, low: 0, high: 0, addr: 0, data: 0, state: 0 })),
        0xD0 => Some(Handler::Branch(Branch { flag: BranchFlag::Zero, expected: false, imm: 0, state: 0 })),
        0xD1 => Some(Handler::IndirectY(IndirectY { op: ReadOp::CmpA, store: false, low: 0, high: 0, carry: false, addr: 0, state: 0 })),
        0xD4 => Some(Handler::ZeroPageReg(ZeroPageReg { op: ReadOp::Nop, reg: Index::X, addr: 0, state: 0 })),
        0xD5 => Some(Handler::ZeroPageReg(ZeroPageReg { op: ReadOp::CmpA, reg: Index::X, addr: 0, state: 0 })),
        0xD6 => Some(Handler::RmwZeroPageX(RmwZeroPageX { op: RmwOp::Dec, addr: 0, imm: 0, state: 0 })),
        0xD8 => Some(Handler::FlagOp(FlagOp { which: FlagKind::DecimalMode, val: false })),
        0xD9 => Some(Handler::AbsoluteReg(AbsoluteReg { op: ReadOp::CmpA, reg: Index::Y, store: false, low: 0, high: 0, carry: false, state: 0 })),
        0xDA => Some(Handler::Nop(Nop {  })),
        0xDC => Some(Handler::AbsoluteReg(AbsoluteReg { op: ReadOp::Nop, reg: Index::X, store: false, low: 0, high: 0, carry: false, state: 0 })),
        0xDD => Some(Handler::AbsoluteReg(AbsoluteReg { op: ReadOp::CmpA, reg: Index::X, store: false, low: 0, high: 0, carry: false, state: 0 })),
        0xDE => Some(Handler::RmwAbsoluteX(RmwAbsoluteX { op: RmwOp::Dec, low: 0, high: 0, carry: false, state: 0, imm: 0, addr: 0 })),
        0xE0 => Some(Handler::Imm(Imm { op: ReadOp::CmpX })),
        0xE1 => Some(Handler::IndirectX(IndirectX { op: ReadOp::Sbc, low: 0, high: 0, addr: 0, state: 0 })),
        0xE4 => Some(Handler::ZeroPage(ZeroPage { op: ReadOp::CmpX, addr: 0, state: 0 })),
        0xE5 => Some(Handler::ZeroPage(ZeroPage { op: ReadOp::Sbc, addr: 0, state: 0 })),
        0xE6 => Some(Handler::RmwZeroPage(RmwZeroPage { op: RmwOp::Inc, addr: 0, data: 0, state: 0 })),
        0xE8 => Some(Handler::Incr(Incr { reg: Index::X })),
        0xE9 => Some(Handler::Imm(Imm { op: ReadOp::Sbc })),
        0xEA => Some(Handler::Nop(Nop {  })),
        0xEC => Some(Handler::Absolute(Absolute { op: ReadOp::CmpX, low: 0, high: 0, state: 0 })),
        0xED => Some(Handler::Absolute(Absolute { op: ReadOp::Sbc, low: 0, high: 0, state: 0 })),
        0xEE => Some(Handler::RmwAbsolute(RmwAbsolute { op: RmwOp::Inc, low: 0, high: 0, addr: 0, data: 0, state: 0 })),
        0xF0 => Some(Handler::Branch(Branch { flag: BranchFlag::Zero, expected: true, imm: 0, state: 0 })),
        0xF1 => Some(Handler::IndirectY(IndirectY { op: ReadOp::Sbc, store: false, low: 0, high: 0, carry: false, addr: 0, state: 0 })),
        0xF4 => Some(Handler::ZeroPageReg(ZeroPageReg { op: ReadOp::Nop, reg: Index::X, addr: 0, state: 0 })),
        0xF5 => Some(Handler::ZeroPageReg(ZeroPageReg { op: ReadOp::Sbc, reg: Index::X, addr: 0, state: 0 })),
        0xF6 => Some(Handler::RmwZeroPageX(RmwZeroPageX { op: RmwOp::Inc, addr: 0, imm: 0, state: 0 })),
        0xF8 => Some(Handler::FlagOp(FlagOp { which: FlagKind::DecimalMode, val: true })),
        0xF9 => Some(Handler::AbsoluteReg(AbsoluteReg { op: ReadOp::Sbc, reg: Index::Y, store: false, low: 0, high: 0, carry: false, state: 0 })),
        0xFA => Some(Handler::Nop(Nop {  })),
        0xFC => Some(Handler::AbsoluteReg(AbsoluteReg { op: ReadOp::Nop, reg: Index::X, store: false, low: 0, high: 0, carry: false, state: 0 })),
        0xFD => Some(Handler::AbsoluteReg(AbsoluteReg { op: ReadOp::Sbc, reg: Index::X, store: false, low: 0, high: 0, carry: false, state: 0 })),
        0xFE => Some(Handler::RmwAbsoluteX(RmwAbsoluteX { op: RmwOp::Inc, low: 0, high: 0, carry: false, state: 0, imm: 0, addr: 0 })),
        _ => None,
    }
}

/// Builds the fresh instruction machine for an opcode byte.
#[verifier::rlimit(60)]
pub fn dispatch(op: u8) -> (r: Option<Handler>)
    ensures
        r == spec_dispatch(op),
        (match r {
            Some(h) => h.inv(),
            None => true,
        }),
{
    proof {
        reveal(spec_dispatch);
    }
    match op {
        0x01 => Some(Handler::IndirectX(IndirectX { op: ReadOp::Ora, low: 0, high: 0, addr: 0, state: 0 })),
        0x04 => Some(Handler::ZeroPage(ZeroPage { op: ReadOp::Nop, addr: 0, state: 0 })),
        0x05 => Some(Handler::ZeroPage(ZeroPage { op: ReadOp::Ora, addr: 0, state: 0 })),
        0x06 => Some(Handler::RmwZeroPage(RmwZeroPage { op: RmwOp::Asl, addr: 0, data: 0, state: 0 })),
        0x08 => Some(Handler::Php(Php { state: 0 })),
        0x09 => Some(Handler::Imm(Imm { op: ReadOp::Ora })),
        0x0A => Some(Handler::AslA(AslA {  })),
        0x0C => Some(Handler::Absolute(Absolute { op: ReadOp::Nop, low: 0, high: 0, state: 0 })),
        0x0D => Some(Handler::Absolute(Absolute { op: ReadOp::Ora, low: 0, high: 0, state: 0 })),
        0x0E => Some(Handler::RmwAbsolute(RmwAbsolute { op: RmwOp::Asl, low: 0, high: 0, addr: 0, data: 0, state: 0 })),
        0x10 => Some(Handler::Branch(Branch { flag: BranchFlag::Negative, expected: false, imm: 0, state: 0 })),
        0x11 => Some(Handler::IndirectY(IndirectY { op: ReadOp::Ora, store: false, low: 0, high: 0, carry: false, addr: 0, state: 0 })),
        0x14 => Some(Handler::ZeroPageReg(ZeroPageReg { op: ReadOp::Nop, reg: Index::X, addr: 0, state: 0 })),
        0x15 => Some(Handler::ZeroPageReg(ZeroPageReg { op: ReadOp::Ora, reg: Index::X, addr: 0, state: 0 })),
        0x16 => Some(Handler::RmwZeroPageX(RmwZeroPageX { op: RmwOp::Asl, addr: 0, imm: 0, state: 0 })),
        0x18 => Some(Handler::FlagOp(FlagOp { which: FlagKind::Carry, val: false })),
        0x19 => Some(Handler::AbsoluteReg(AbsoluteReg { op: ReadOp::Ora, reg: Index::Y, store: false, low: 0, high: 0, carry: false, state: 0 })),
        0x1A => Some(Handler::Nop(Nop {  })),
        0x1C => Some(Handler::AbsoluteReg(AbsoluteReg { op: ReadOp::Nop, reg: Index::X, store: false, low: 0, high: 0, carry: false, state: 0 })),
        0x1D => Some(Handler::AbsoluteReg(AbsoluteReg { op: ReadOp::Ora, reg: Index::X, store: false, low: 0, high: 0, carry: false, state: 0 })),
        0x1E => Some(Handler::RmwAbsoluteX(RmwAbsoluteX { op: RmwOp::Asl, low: 0, high: 0, carry: false, state: 0, imm: 0, addr: 0 })),
        0x20 => Some(Handler::Jsr(Jsr { low: 0, high: 0, state: 0 })),
        0x21 => Some(Handler::IndirectX(IndirectX { op: ReadOp::And, low: 0, high: 0, addr: 0, state: 0 })),
        0x24 => Some(Handler::ZeroPage(ZeroPage { op: ReadOp::Bit, addr: 0, state: 0 })),
        0x25 => Some(Handler::ZeroPage(ZeroPage { op: ReadOp::And, addr: 0, state: 0 })),
        0x26 => Some(Handler::RmwZeroPage(RmwZeroPage { op: RmwOp::Rol, addr: 0, data: 0, state: 0 })),
        0x28 => Some(Handler::Plp(Plp { state: 0 })),
        0x29 => Some(Handler::Imm(Imm { op: ReadOp::And })),
        0x2A => Some(Handler::RolA(RolA {  })),
        0x2C => Some(Handler::BitAbs(BitAbs { low: 0, high: 0, imm: 0, state: 0 })),
        0x2D => Some(Handler::Absolute(Absolute { op: ReadOp::And, low: 0, high: 0, state: 0 })),
        0x2E => Some(Handler::RmwAbsolute(RmwAbsolute { op: RmwOp::Rol, low: 0, high: 0, addr: 0, data: 0, state: 0 })),
        0x30 => Some(Handler::Branch(Branch { flag: BranchFlag::Negative, expected: true, imm: 0, state: 0 })),
        0x31 => Some(Handler::IndirectY(IndirectY { op: ReadOp::And, store: false, low: 0, high: 0, carry: false, addr: 0, state: 0 })),
        0x34 => Some(Handler::ZeroPageReg(ZeroPageReg { op: ReadOp::Nop, reg: Index::X, addr: 0, state: 0 })),
        0x35 => Some(Handler::ZeroPageReg(ZeroPageReg { op: ReadOp::And, reg: Index::X, addr: 0, state: 0 })),
        0x36 => Some(Handler::RmwZeroPageX(RmwZeroPageX { op: RmwOp::Rol, addr: 0, imm: 0, state: 0 })),
        0x38 => Some(Handler::FlagOp(FlagOp { which: FlagKind::Carry, val: true })),
        0x39 => Some(Handler::AbsoluteReg(AbsoluteReg { op: ReadOp::And, reg: Index::Y, store: false, low: 0, high: 0, carry: false, state: 0 })),
        0x3A => Some(Handler::Nop(Nop {  })),
        0x3C => Some(Handler::AbsoluteReg(AbsoluteReg { op: ReadOp::Nop, reg: Index::X, store: false, low: 0, high: 0, carry: false, state: 0 })),
        0x3D => Some(Handler::AbsoluteReg(AbsoluteReg { op: ReadOp::And, reg: Index::X, store: false, low: 0, high: 0, carry: false, state: 0 })),
        0x3E => Some(Handler::RmwAbsoluteX(RmwAbsoluteX { op: RmwOp::Rol, low: 0, high: 0, carry: false, state: 0, imm: 0, addr: 0 })),
        0x40 => Some(Handler::Rti(Rti { state: 0, low: 0, high: 0 })),
        0x41 => Some(Handler::IndirectX(IndirectX { op: ReadOp::Eor, low: 0, high: 0, addr: 0, state: 0 })),
        0x44 => Some(Handler::ZeroPage(ZeroPage { op: ReadOp::Nop, addr: 0, state: 0 })),
        0x45 => Some(Handler::ZeroPage(ZeroPage { op: ReadOp::Eor, addr: 0, state: 0 })),
        0x46 => Some(Handler::RmwZeroPage(RmwZeroPage { op: RmwOp::Lsr, addr: 0, data: 0, state: 0 })),
        0x48 => Some(Handler::Pha(Pha { state: 0 })),
        0x49 => Some(Handler::Imm(Imm { op: ReadOp::Eor })),
        0x4A => Some(Handler::LsrA(LsrA {  })),
        0x4C => Some(Handler::Jmp(Jmp { low: 0, high: 0, state: 0 })),
        0x4D => Some(Handler::Absolute(Absolute { op: ReadOp::Eor, low: 0, high: 0, state: 0 })),
        0x4E => Some(Handler::RmwAbsolute(RmwAbsolute { op: RmwOp::Lsr, low: 0, high: 0, addr: 0, data: 0, state: 0 })),
        0x50 => Some(Handler::Branch(Branch { flag: BranchFlag::Overflow, expected: false, imm: 0, state: 0 })),
        0x51 => Some(Handler::IndirectY(IndirectY { op: ReadOp::Eor, store: false, low: 0, high: 0, carry: false, addr: 0, state: 0 })),
        0x54 => Some(Handler::ZeroPageReg(ZeroPageReg { op: ReadOp::Nop, reg: Index::X, addr: 0, state: 0 })),
        0x55 => Some(Handler::ZeroPageReg(ZeroPageReg { op: ReadOp::Eor, reg: Index::X, addr: 0, state: 0 })),
        0x56 => Some(Handler::RmwZeroPageX(RmwZeroPageX { op: RmwOp::Lsr, addr: 0, imm: 0, state: 0 })),
        0x58 => Some(Handler::FlagOp(FlagOp { which: FlagKind::IntDisable, val: false })),
        0x59 => Some(Handler::AbsoluteReg(AbsoluteReg { op: ReadOp::Eor, reg: Index::Y, store: false, low: 0, high: 0, carry: false, state: 0 })),
        0x5A => Some(Handler::Nop(Nop {  })),
        0x5C => Some(Handler::AbsoluteReg(AbsoluteReg { op: ReadOp::Nop, reg: Index::X, store: false, low: 0, high: 0, carry: false, state: 0 })),
        0x5D => Some(Handler::AbsoluteReg(AbsoluteReg { op: ReadOp::Eor, reg: Index::X, store: false, low: 0, high: 0, carry: false, state: 0 })),
        0x5E => Some(Handler::RmwAbsoluteX(RmwAbsoluteX { op: RmwOp::Lsr, low: 0, high: 0, carry: false, state: 0, imm: 0, addr: 0 })),
        0x60 => Some(Handler::Rts(Rts { state: 0, low: 0, high: 0 })),
        0x61 => Some(Handler::IndirectX(IndirectX { op: ReadOp::Adc, low: 0, high: 0, addr: 0, state: 0 })),
        0x64 => Some(Handler::ZeroPage(ZeroPage { op: ReadOp::Nop, addr: 0, state: 0 })),
        0x65 => Some(Handler::ZeroPage(ZeroPage { op: ReadOp::Adc, addr: 0, state: 0 })),
        0x66 => Some(Handler::RmwZeroPage(RmwZeroPage { op: RmwOp::Ror, addr: 0, data: 0, state: 0 })),
        0x68 => Some(Handler::Pla(Pla { state: 0 })),
        0x69 => Some(Handler::Imm(Imm { op: ReadOp::Adc })),
        0x6A => Some(Handler::RorA(RorA {  })),
        0x6C => Some(Handler::JmpInd(JmpInd { low: 0, high: 0, pcl: 0, state: 0 })),
        0x6D => Some(Handler::Absolute(Absolute { op: ReadOp::Adc, low: 0, high: 0, state: 0 })),
        0x6E => Some(Handler::RmwAbsolute(RmwAbsolute { op: RmwOp::Ror, low: 0, high: 0, addr: 0, data: 0, state: 0 })),
        0x70 => Some(Handler::Branch(Branch { flag: BranchFlag::Overflow, expected: true, imm: 0, state: 0 })),
        0x71 => Some(Handler::IndirectY(IndirectY { op: ReadOp::Adc, store: false, low: 0, high: 0, carry: false, addr: 0, state: 0 })),
        0x74 => Some(Handler::ZeroPageReg(ZeroPageReg { op: ReadOp::Nop, reg: Index::X, addr: 0, state: 0 })),
        0x75 => Some(Handler::ZeroPageReg(ZeroPageReg { op: ReadOp::Adc, reg: Index::X, addr: 0, state: 0 })),
        0x76 => Some(Handler::RmwZeroPageX(RmwZeroPageX { op: RmwOp::Ror, addr: 0, imm: 0, state: 0 })),
        0x78 => Some(Handler::FlagOp(FlagOp { which: FlagKind::IntDisable, val: true })),
        0x79 => Some(Handler::AbsoluteReg(AbsoluteReg { op: ReadOp::Adc, reg: Index::Y, store: false, low: 0, high: 0, carry: false, state: 0 })),
        0x7A => Some(Handler::Nop(Nop {  })),
        0x7C => Some(Handler::AbsoluteReg(AbsoluteReg { op: ReadOp::Nop, reg: Index::X, store: false, low: 0, high: 0, carry: false, state: 0 })),
        0x7D => Some(Handler::AbsoluteReg(AbsoluteReg { op: ReadOp::Adc, reg: Index::X, store: false, low: 0, high: 0, carry: false, state: 0 })),
        0x7E => Some(Handler::RmwAbsoluteX(RmwAbsoluteX { op: RmwOp::Ror, low: 0, high: 0, carry: false, state: 0, imm: 0, addr: 0 })),
        0x80 => Some(Handler::Imm(Imm { op: ReadOp::Nop })),
        0x81 => Some(Handler::IndirectX(IndirectX { op: ReadOp::Sta, low: 0, high: 0, addr: 0, state: 0 })),
        0x84 => Some(Handler::ZeroPage(ZeroPage { op: ReadOp::Sty, addr: 0, state: 0 })),
        0x85 => Some(Handler::ZeroPage(ZeroPage { op: ReadOp::Sta, addr: 0, state: 0 })),
        0x86 => Some(Handler::ZeroPage(ZeroPage { op: ReadOp::Stx, addr: 0, state: 0 })),
        0x88 => Some(Handler::Decr(Decr { reg: Index::Y })),
        0x8A => Some(Handler::Transfer(Transfer { from: TReg::X, to: TReg::A })),
        0x8C => Some(Handler::Absolute(Absolute { op: ReadOp::Sty, low: 0, high: 0, state: 0 })),
        0x8D => Some(Handler::Absolute(Absolute { op: ReadOp::Sta, low: 0, high: 0, state: 0 })),
        0x8E => Some(Handler::Absolute(Absolute { op: ReadOp::Stx, low: 0, high: 0, state: 0 })),
        0x90 => Some(Handler::Branch(Branch { flag: BranchFlag::Carry, expected: false, imm: 0, state: 0 })),
        0x91 => Some(Handler::IndirectY(IndirectY { op: ReadOp::Sta, store: true, low: 0, high: 0, carry: false, addr: 0, state: 0 })),
        0x94 => Some(Handler::ZeroPageReg(ZeroPageReg { op: ReadOp::Sty, reg: Index::X, addr: 0, state: 0 })),
        0x95 => Some(Handler::ZeroPageReg(ZeroPageReg { op: ReadOp::Sta, reg: Index::X, addr: 0, state: 0 })),
        0x96 => Some(Handler::ZeroPageReg(ZeroPageReg { op: ReadOp::Stx, reg: Index::Y, addr: 0, state: 0 })),
        0x98 => Some(Handler::Transfer(Transfer { from: TReg::Y, to: TReg::A })),
        0x99 => Some(Handler::AbsoluteReg(AbsoluteReg { op: ReadOp::Sta, reg: Index::Y, store: true, low: 0, high: 0, carry: false, state: 0 })),
        0x9A => Some(Handler::Txs(TXS {  })),
        0x9D => Some(Handler::AbsoluteReg(AbsoluteReg { op: ReadOp::Sta, reg: Index::X, store: true, low: 0, high: 0, carry: false, state: 0 })),
        0xA0 => Some(Handler::Imm(Imm { op: ReadOp::Ldy })),
        0xA1 => Some(Handler::IndirectX(IndirectX { op: ReadOp::Lda, low: 0, high: 0, addr: 0, state: 0 })),
        0xA2 => Some(Handler::Imm(Imm { op: ReadOp::Ldx })),
        0xA4 => Some(Handler::ZeroPage(ZeroPage { op: ReadOp::Ldy, addr: 0, state: 0 })),
        0xA5 => Some(Handler::ZeroPage(ZeroPage { op: ReadOp::Lda, addr: 0, state: 0 })),
        0xA6 => Some(Handler::ZeroPage(ZeroPage { op: ReadOp::Ldx, addr: 0, state: 0 })),
        0xA8 => Some(Handler::Transfer(Transfer { from: TReg::A, to: TReg::Y })),
        0xA9 => Some(Handler::Imm(Imm { op: ReadOp::Lda })),
        0xAA => Some(Handler::Transfer(Transfer { from: TReg::A, to: TReg::X })),
        0xAC => Some(Handler::Absolute(Absolute { op: ReadOp::Ldy, low: 0, high: 0, state: 0 })),
        0xAD => Some(Handler::Absolute(Absolute { op: ReadOp::Lda, low: 0, high: 0, state: 0 })),
        0xAE => Some(Handler::Absolute(Absolute { op: ReadOp::Ldx, low: 0, high: 0, state: 0 })),
        0xB0 => Some(Handler::Branch(Branch { flag: BranchFlag::Carry, expected: true, imm: 0, state: 0 })),
        0xB1 => Some(Handler::IndirectY(IndirectY { op: ReadOp::Lda, store: false, low: 0, high: 0, carry: false, addr: 0, state: 0 })),
        0xB4 => Some(Handler::ZeroPageReg(ZeroPageReg { op: ReadOp::Ldy, reg: Index::X, addr: 0, state: 0 })),
        0xB5 => Some(Handler::ZeroPageReg(ZeroPageReg { op: ReadOp::Lda, reg: Index::X, addr: 0, state: 0 })),
        0xB6 => Some(Handler::ZeroPageReg(ZeroPageReg { op: ReadOp::Ldx, reg: Index::Y, addr: 0, state: 0 })),
        0xB8 => Some(Handler::FlagOp(FlagOp { which: FlagKind::Overflow, val: false })),
        0xB9 => Some(Handler::AbsoluteReg(AbsoluteReg { op: ReadOp::Lda, reg: Index::Y, store: false, low: 0, high: 0, carry: false, state: 0 })),
        0xBA => Some(Handler::Tsx(TSX {  })),
        0xBC => Some(Handler::AbsoluteReg(AbsoluteReg { op: ReadOp::Ldy, reg: Index::X, store: false, low: 0, high: 0, carry: false, state: 0 })),
        0xBD => Some(Handler::AbsoluteReg(AbsoluteReg { op: ReadOp::Lda, reg: Index::X, store: false, low: 0, high: 0, carry: false, state: 0 })),
        0xBE => Some(Handler::AbsoluteReg(AbsoluteReg { op: ReadOp::Ldx, reg: Index::Y, store: false, low: 0, high: 0, carry: false, state: 0 })),
        0xC0 => Some(Handler::Imm(Imm { op: ReadOp::CmpY })),
        0xC1 => Some(Handler::IndirectX(IndirectX { op: ReadOp::CmpA, low: 0, high: 0, addr: 0, state: 0 })),
        0xC4 => Some(Handler::ZeroPage(ZeroPage { op: ReadOp::CmpY, addr: 0, state: 0 })),
        0xC5 => Some(Handler::ZeroPage(ZeroPage { op: ReadOp::CmpA, addr: 0, state: 0 })),
        0xC6 => Some(Handler::RmwZeroPage(RmwZeroPage { op: RmwOp::Dec, addr: 0, data: 0, state: 0 })),
        0xC8 => Some(Handler::Incr(Incr { reg: Index::Y })),
        0xC9 => Some(Handler::Imm(Imm { op: ReadOp::CmpA })),
        0xCA => Some(Handler::Decr(Decr { reg: Index::X })),
        0xCC => Some(Handler::Absolute(Absolute { op: ReadOp::CmpY, low: 0, high: 0, state: 0 })),
        0xCD => Some(Handler::Absolute(Absolute { op: ReadOp::CmpA, low: 0, high: 0, state: 0 })),
        0xCE => Some(Handler::RmwAbsolute(RmwAbsolute { op: RmwOp::Dec, low: 0, high: 0, addr: 0, data: 0, state: 0 })),
        0xD0 => Some(Handler::Branch(Branch { flag: BranchFlag::Zero, expected: false, imm: 0, state: 0 })),
        0xD1 => Some(Handler::IndirectY(IndirectY { op: ReadOp::CmpA, store: false, low: 0, high: 0, carry: false, addr: 0, state: 0 })),
        0xD4 => Some(Handler::ZeroPageReg(ZeroPageReg { op: ReadOp::Nop, reg: Index::X, addr: 0, state: 0 })),
        0xD5 => Some(Handler::ZeroPageReg(ZeroPageReg { op: ReadOp::CmpA, reg: Index::X, addr: 0, state: 0 })),
        0xD6 => Some(Handler::RmwZeroPageX(RmwZeroPageX { op: RmwOp::Dec, addr: 0, imm: 0, state: 0 })),
        0xD8 => Some(Handler::FlagOp(FlagOp { which: FlagKind::DecimalMode, val: false })),
        0xD9 => Some(Handler::AbsoluteReg(AbsoluteReg { op: ReadOp::CmpA, reg: Index::Y, store: false, low: 0, high: 0, carry: false, state: 0 })),
        0xDA => Some(Handler::Nop(Nop {  })),
        0xDC => Some(Handler::AbsoluteReg(AbsoluteReg { op: ReadOp::Nop, reg: Index::X, store: false, low: 0, high: 0, carry: false, state: 0 })),
        0xDD => Some(Handler::AbsoluteReg(AbsoluteReg { op: ReadOp::CmpA, reg: Index::X, store: false, low: 0, high: 0, carry: false, state: 0 })),
        0xDE => Some(Handler::RmwAbsoluteX(RmwAbsoluteX { op: RmwOp::Dec, low: 0, high: 0, carry: false, state: 0, imm: 0, addr: 0 })),
        0xE0 => Some(Handler::Imm(Imm { op: ReadOp::CmpX })),
        0xE1 => Some(Handler::IndirectX(IndirectX { op: ReadOp::Sbc, low: 0, high: 0, addr: 0, state: 0 })),
        0xE4 => Some(Handler::ZeroPage(ZeroPage { op: ReadOp::CmpX, addr: 0, state: 0 })),
        0xE5 => Some(Handler::ZeroPage(ZeroPage { op: ReadOp::Sbc, addr: 0, state: 0 })),
        0xE6 => Some(Handler::RmwZeroPage(RmwZeroPage { op: RmwOp::Inc, addr: 0, data: 0, state: 0 })),
        0xE8 => Some(Handler::Incr(Incr { reg: Index::X })),
        0xE9 => Some(Handler::Imm(Imm { op: ReadOp::Sbc })),
        0xEA => Some(Handler::Nop(Nop {  })),
        0xEC => Some(Handler::Absolute(Absolute { op: ReadOp::CmpX, low: 0, high: 0, state: 0 })),
        0xED => Some(Handler::Absolute(Absolute { op: ReadOp::Sbc, low: 0, high: 0, state: 0 })),
        0xEE => Some(Handler::RmwAbsolute(RmwAbsolute { op: RmwOp::Inc, low: 0, high: 0, addr: 0, data: 0, state: 0 })),
        0xF0 => Some(Handler::Branch(Branch { flag: BranchFlag::Zero, expected: true, imm: 0, state: 0 })),
        0xF1 => Some(Handler::IndirectY(IndirectY { op: ReadOp::Sbc, store: false, low: 0, high: 0, carry: false, addr: 0, state: 0 })),
        0xF4 => Some(Handler::ZeroPageReg(ZeroPageReg { op: ReadOp::Nop, reg: Index::X, addr: 0, state: 0 })),
        0xF5 => Some(Handler::ZeroPageReg(ZeroPageReg { op: ReadOp::Sbc, reg: Index::X, addr: 0, state: 0 })),
        0xF6 => Some(Handler::RmwZeroPageX(RmwZeroPageX { op: RmwOp::Inc, addr: 0, imm: 0, state: 0 })),
        0xF8 => Some(Handler::FlagOp(FlagOp { which: FlagKind::DecimalMode, val: true })),
        0xF9 => Some(Handler::AbsoluteReg(AbsoluteReg { op: ReadOp::Sbc, reg: Index::Y, store: false, low: 0, high: 0, carry: false, state: 0 })),
        0xFA => Some(Handler::Nop(Nop {  })),
        0xFC => Some(Handler::AbsoluteReg(AbsoluteReg { op: ReadOp::Nop, reg: Index::X, store: false, low: 0, high: 0, carry: false, state: 0 })),
        0xFD => Some(Handler::AbsoluteReg(AbsoluteReg { op: ReadOp::Sbc, reg: Index::X, store: false, low: 0, high: 0, carry: false, state: 0 })),
        0xFE => Some(Handler::RmwAbsoluteX(RmwAbsoluteX { op: RmwOp::Inc, low: 0, high: 0, carry: false, state: 0, imm: 0, addr: 0 })),
        _ => None,
    }
}

/// The executor's control state: fetching an opcode, processing one, or
/// stopped for good (unknown opcode or illegal bus access).
#[derive(Clone, Copy, Debug, PartialEq, Eq, Structural)]
pub enum State {
    FetchOpcode,
    Processing,
    Done,
}

/// Drives execution by exactly one hardware clock cycle and counts it.
///
/// In `FetchOpcode` it reads the byte at `pc`, resolves it to a fresh
/// instruction machine and moves to `Processing`; an unknown opcode, or a
/// program counter that cannot be fetched from, ends in the terminal
/// `Done`. In `Processing` it runs one cycle of the current machine;
/// completion returns to `FetchOpcode`, an illegal bus access ends in
/// `Done`. `Done` is terminal.
#[verifier::rlimit(60)]
pub fn cycle(cpu: &mut Cpu, opcode: &mut Handler, state: State, nr: &mut u64) -> (next: State)
    requires
        old(cpu).wf(),
        old(opcode).inv(),
    ensures
        final(cpu).wf(),
        final(opcode).inv(),
        *final(nr) == old(nr).wrapping_add(1),
        (state == State::FetchOpcode && old(cpu).model().can_fetch() && spec_dispatch(
            old(cpu).model().pc_byte(),
        ) is Some) ==> (next == State::Processing && final(cpu).model() == old(
            cpu,
        ).model().after_fetch() && Some(*final(opcode)) == spec_dispatch(
            old(cpu).model().pc_byte(),
        )),
        (state == State::FetchOpcode && old(cpu).model().can_fetch() && spec_dispatch(
            old(cpu).model().pc_byte(),
        ) is None) ==> (next == State::Done && final(cpu).model() == old(
            cpu,
        ).model().after_fetch() && *final(opcode) == *old(opcode)),
        (state == State::FetchOpcode && !old(cpu).model().can_fetch()) ==> (next == State::Done
            && final(cpu).model() == old(cpu).model() && *final(opcode) == *old(opcode)),
        (state == State::Processing && old(opcode).ok(old(cpu).model())) ==> match next {
            State::FetchOpcode => final(cpu).model() == old(opcode).outcome(old(cpu).model())
                && old(opcode).remaining(old(cpu).model()) == 1,
            State::Processing => final(opcode).ok(final(cpu).model()) && final(opcode).outcome(
                final(cpu).model(),
            ) == old(opcode).outcome(old(cpu).model()) && final(opcode).remaining(
                final(cpu).model(),
            ) + 1 == old(opcode).remaining(old(cpu).model()),
            State::Done => false,
        },
        (state == State::Processing && !old(opcode).ok(old(cpu).model())) ==> next
            != State::FetchOpcode,
        state == State::Done ==> (next == State::Done && final(cpu).model() == old(cpu).model()
            && *final(opcode) == *old(opcode)),
{
    *nr = nr.wrapping_add(1);
    match state {
        State::FetchOpcode => {
            if !cpu.fetch_ok() {
                return State::Done;
            }
            let op = cpu.read_from_pc();
            match dispatch(op) {
                Some(h) => {
                    *opcode = h;
                    State::Processing
                },
                None => State::Done,
            }
        },
        State::Processing => {
            match opcode.decode(cpu) {
                Step::Done => State::FetchOpcode,
                Step::Busy => State::Processing,
                Step::Fault => State::Done,
            }
        },
        State::Done => state,
    }
}

/// Runs one instruction machine to completion, one bus cycle per loop
/// turn, and returns how many cycles it took: exactly what the machine's
/// `remaining` promised at the start.
#[verifier::loop_isolation(false)]
pub fn run_handler<T: OpCode>(cpu: &mut Cpu, h: &mut T) -> (cycles: u64)
    requires
        old(cpu).wf(),
        old(h).inv(),
        old(h).ok(old(cpu).model()),
        old(h).remaining(old(cpu).model()) <= 0xFFFF_FFFF,
    ensures
        final(cpu).wf(),
        final(cpu).model() == old(h).outcome(old(cpu).model()),
        cycles == old(h).remaining(old(cpu).model()),
{
    let ghost m0 = old(cpu).model();
    let ghost h0 = *old(h);
    let mut cycles: u64 = 0;
    loop
        invariant
            cpu.wf(),
            h.inv(),
            h.ok(cpu.model()),
            h.outcome(cpu.model()) == h0.outcome(m0),
            cycles + h.remaining(cpu.model()) == h0.remaining(m0),
            h0.remaining(m0) <= 0xFFFF_FFFF,
        decreases h.remaining(cpu.model()),
    {
        match h.decode(cpu) {
            Step::Done => {
                return cycles + 1;
            },
            Step::Busy => {
                cycles = cycles + 1;
            },
            Step::Fault => {
                proof {
                    assert(false);
                }
            },
        }
    }
}


} // verus!
