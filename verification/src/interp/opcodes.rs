//! The opcode descriptor table: the static mapping from an opcode byte to
//! its mnemonic, instruction length, documented cycle count and addressing
//! mode. Immutable for the life of the process; bytes not listed are
//! unknown opcodes.

use vstd::prelude::*;
use crate::interp::cpu::AddressingMode;

verus! {

/// One opcode descriptor.
pub struct OpCode {
    pub code: u8,
    pub mnemonic: &'static str,
    pub len: u8,
    pub cycles: u8,
    pub mode: AddressingMode,
}

/// Whether the byte is a known opcode.
pub open spec fn spec_opcode_known(code: u8) -> bool {
    match code {
        0x00 | 0x01 | 0x05 | 0x06 | 0x08 | 0x09 | 0x0A | 0x0D | 0x0E | 0x10 | 0x11 | 0x15 | 0x16 | 0x18 | 0x19 | 0x1D | 0x1E | 0x20 | 0x21 | 0x24 | 0x25 | 0x26 | 0x28 | 0x29 | 0x2A | 0x2C | 0x2D | 0x2E | 0x30 | 0x31 | 0x35 | 0x36 | 0x38 | 0x39 | 0x3D | 0x3E | 0x40 | 0x41 | 0x45 | 0x46 | 0x48 | 0x49 | 0x4A | 0x4C | 0x4D | 0x4E | 0x50 | 0x51 | 0x55 | 0x56 | 0x58 | 0x59 | 0x5D | 0x5E | 0x60 | 0x61 | 0x65 | 0x66 | 0x68 | 0x69 | 0x6A | 0x6C | 0x6D | 0x6E | 0x70 | 0x71 | 0x75 | 0x76 | 0x78 | 0x79 | 0x7D | 0x7E | 0x81 | 0x84 | 0x85 | 0x86 | 0x88 | 0x8A | 0x8C | 0x8D | 0x8E | 0x90 | 0x91 | 0x94 | 0x95 | 0x96 | 0x98 | 0x99 | 0x9A | 0x9D | 0xA0 | 0xA1 | 0xA2 | 0xA4 | 0xA5 | 0xA6 | 0xA8 | 0xA9 | 0xAA | 0xAC | 0xAD | 0xAE | 0xB0 | 0xB1 | 0xB4 | 0xB5 | 0xB6 | 0xB8 | 0xB9 | 0xBA | 0xBC | 0xBD | 0xBE | 0xC0 | 0xC1 | 0xC4 | 0xC5 | 0xC6 | 0xC8 | 0xC9 | 0xCA | 0xCC | 0xCD | 0xCE | 0xD0 | 0xD1 | 0xD5 | 0xD6 | 0xD8 | 0xD9 | 0xDD | 0xDE | 0xE0 | 0xE1 | 0xE4 | 0xE5 | 0xE6 | 0xE8 | 0xE9 | 0xEA | 0xEC | 0xED | 0xEE | 0xF0 | 0xF1 | 0xF5 | 0xF6 | 0xF8 | 0xF9 | 0xFD | 0xFE => true,
        _ => false,
    }
}

/// The instruction length in bytes, opcode included.
pub open spec fn spec_opcode_len(code: u8) -> u8 {
    match code {
        0x00 => 1,
        0x01 => 2,
        0x05 => 2,
        0x06 => 2,
        0x08 => 1,
        0x09 => 2,
        0x0A => 1,
        0x0D => 3,
        0x0E => 3,
        0x10 => 2,
        0x11 => 2,
        0x15 => 2,
        0x16 => 2,
        0x18 => 1,
        0x19 => 3,
        0x1D => 3,
        0x1E => 3,
        0x20 => 3,
        0x21 => 2,
        0x24 => 2,
        0x25 => 2,
        0x26 => 2,
        0x28 => 1,
        0x29 => 2,
        0x2A => 1,
        0x2C => 3,
        0x2D => 3,
        0x2E => 3,
        0x30 => 2,
        0x31 => 2,
        0x35 => 2,
        0x36 => 2,
        0x38 => 1,
        0x39 => 3,
        0x3D => 3,
        0x3E => 3,
        0x40 => 1,
        0x41 => 2,
        0x45 => 2,
        0x46 => 2,
        0x48 => 1,
        0x49 => 2,
        0x4A => 1,
        0x4C => 3,
        0x4D => 3,
        0x4E => 3,
        0x50 => 2,
        0x51 => 2,
        0x55 => 2,
        0x56 => 2,
        0x58 => 1,
        0x59 => 3,
        0x5D => 3,
        0x5E => 3,
        0x60 => 1,
        0x61 => 2,
        0x65 => 2,
        0x66 => 2,
        0x68 => 1,
        0x69 => 2,
        0x6A => 1,
        0x6C => 3,
        0x6D => 3,
        0x6E => 3,
        0x70 => 2,
        0x71 => 2,
        0x75 => 2,
        0x76 => 2,
        0x78 => 1,
        0x79 => 3,
        0x7D => 3,
        0x7E => 3,
        0x81 => 2,
        0x84 => 2,
        0x85 => 2,
        0x86 => 2,
        0x88 => 1,
        0x8A => 1,
        0x8C => 3,
        0x8D => 3,
        0x8E => 3,
        0x90 => 2,
        0x91 => 2,
        0x94 => 2,
        0x95 => 2,
        0x96 => 2,
        0x98 => 1,
        0x99 => 3,
        0x9A => 1,
        0x9D => 3,
        0xA0 => 2,
        0xA1 => 2,
        0xA2 => 2,
        0xA4 => 2,
        0xA5 => 2,
        0xA6 => 2,
        0xA8 => 1,
        0xA9 => 2,
        0xAA => 1,
        0xAC => 3,
        0xAD => 3,
        0xAE => 3,
        0xB0 => 2,
        0xB1 => 2,
        0xB4 => 2,
        0xB5 => 2,
        0xB6 => 2,
        0xB8 => 1,
        0xB9 => 3,
        0xBA => 1,
        0xBC => 3,
        0xBD => 3,
        0xBE => 3,
        0xC0 => 2,
        0xC1 => 2,
        0xC4 => 2,
        0xC5 => 2,
        0xC6 => 2,
        0xC8 => 1,
        0xC9 => 2,
        0xCA => 1,
        0xCC => 3,
        0xCD => 3,
        0xCE => 3,
        0xD0 => 2,
        0xD1 => 2,
        0xD5 => 2,
        0xD6 => 2,
        0xD8 => 1,
        0xD9 => 3,
        0xDD => 3,
        0xDE => 3,
        0xE0 => 2,
        0xE1 => 2,
        0xE4 => 2,
        0xE5 => 2,
        0xE6 => 2,
        0xE8 => 1,
        0xE9 => 2,
        0xEA => 1,
        0xEC => 3,
        0xED => 3,
        0xEE => 3,
        0xF0 => 2,
        0xF1 => 2,
        0xF5 => 2,
        0xF6 => 2,
        0xF8 => 1,
        0xF9 => 3,
        0xFD => 3,
        0xFE => 3,
        _ => 1,
    }
}

/// The documented base cycle count.
pub open spec fn spec_opcode_cycles(code: u8) -> u8 {
    match code {
        0x00 => 7,
        0x01 => 6,
        0x05 => 3,
        0x06 => 5,
        0x08 => 3,
        0x09 => 2,
        0x0A => 2,
        0x0D => 4,
        0x0E => 6,
        0x10 => 2,
        0x11 => 5,
        0x15 => 4,
        0x16 => 6,
        0x18 => 2,
        0x19 => 4,
        0x1D => 4,
        0x1E => 7,
        0x20 => 6,
        0x21 => 6,
        0x24 => 3,
        0x25 => 3,
        0x26 => 5,
        0x28 => 4,
        0x29 => 2,
        0x2A => 2,
        0x2C => 4,
        0x2D => 4,
        0x2E => 6,
        0x30 => 2,
        0x31 => 5,
        0x35 => 4,
        0x36 => 6,
        0x38 => 2,
        0x39 => 4,
        0x3D => 4,
        0x3E => 7,
        0x40 => 6,
        0x41 => 6,
        0x45 => 3,
        0x46 => 5,
        0x48 => 3,
        0x49 => 2,
        0x4A => 2,
        0x4C => 3,
        0x4D => 4,
        0x4E => 6,
        0x50 => 2,
        0x51 => 5,
        0x55 => 4,
        0x56 => 6,
        0x58 => 2,
        0x59 => 4,
        0x5D => 4,
        0x5E => 7,
        0x60 => 6,
        0x61 => 6,
        0x65 => 3,
        0x66 => 5,
        0x68 => 4,
        0x69 => 2,
        0x6A => 2,
        0x6C => 5,
        0x6D => 4,
        0x6E => 6,
        0x70 => 2,
        0x71 => 5,
        0x75 => 4,
        0x76 => 6,
        0x78 => 2,
        0x79 => 4,
        0x7D => 4,
        0x7E => 7,
        0x81 => 6,
        0x84 => 3,
        0x85 => 3,
        0x86 => 3,
        0x88 => 2,
        0x8A => 2,
        0x8C => 4,
        0x8D => 4,
        0x8E => 4,
        0x90 => 2,
        0x91 => 6,
        0x94 => 4,
        0x95 => 4,
        0x96 => 4,
        0x98 => 2,
        0x99 => 5,
        0x9A => 2,
        0x9D => 5,
        0xA0 => 2,
        0xA1 => 6,
        0xA2 => 2,
        0xA4 => 3,
        0xA5 => 3,
        0xA6 => 3,
        0xA8 => 2,
        0xA9 => 2,
        0xAA => 2,
        0xAC => 4,
        0xAD => 4,
        0xAE => 4,
        0xB0 => 2,
        0xB1 => 5,
        0xB4 => 4,
        0xB5 => 4,
        0xB6 => 4,
        0xB8 => 2,
        0xB9 => 4,
        0xBA => 2,
        0xBC => 4,
        0xBD => 4,
        0xBE => 4,
        0xC0 => 2,
        0xC1 => 6,
        0xC4 => 3,
        0xC5 => 3,
        0xC6 => 5,
        0xC8 => 2,
        0xC9 => 2,
        0xCA => 2,
        0xCC => 4,
        0xCD => 4,
        0xCE => 6,
        0xD0 => 2,
        0xD1 => 5,
        0xD5 => 4,
        0xD6 => 6,
        0xD8 => 2,
        0xD9 => 4,
        0xDD => 4,
        0xDE => 7,
        0xE0 => 2,
        0xE1 => 6,
        0xE4 => 3,
        0xE5 => 3,
        0xE6 => 5,
        0xE8 => 2,
        0xE9 => 2,
        0xEA => 2,
        0xEC => 4,
        0xED => 4,
        0xEE => 6,
        0xF0 => 2,
        0xF1 => 5,
        0xF5 => 4,
        0xF6 => 6,
        0xF8 => 2,
        0xF9 => 4,
        0xFD => 4,
        0xFE => 7,
        _ => 1,
    }
}

/// The addressing mode.
pub open spec fn spec_opcode_mode(code: u8) -> AddressingMode {
    match code {
        0x00 => AddressingMode::NoneAddressing,
        0x01 => AddressingMode::IndirectX,
        0x05 => AddressingMode::ZeroPage,
        0x06 => AddressingMode::ZeroPage,
        0x08 => AddressingMode::NoneAddressing,
        0x09 => AddressingMode::Immediate,
        0x0A => AddressingMode::NoneAddressing,
        0x0D => AddressingMode::Absolute,
        0x0E => AddressingMode::Absolute,
        0x10 => AddressingMode::NoneAddressing,
        0x11 => AddressingMode::IndirectY,
        0x15 => AddressingMode::ZeroPageX,
        0x16 => AddressingMode::ZeroPageX,
        0x18 => AddressingMode::NoneAddressing,
        0x19 => AddressingMode::AbsoluteY,
        0x1D => AddressingMode::AbsoluteX,
        0x1E => AddressingMode::AbsoluteX,
        0x20 => AddressingMode::Absolute,
        0x21 => AddressingMode::IndirectX,
        0x24 => AddressingMode::ZeroPage,
        0x25 => AddressingMode::ZeroPage,
        0x26 => AddressingMode::ZeroPage,
        0x28 => AddressingMode::NoneAddressing,
        0x29 => AddressingMode::Immediate,
        0x2A => AddressingMode::NoneAddressing,
        0x2C => AddressingMode::Absolute,
        0x2D => AddressingMode::Absolute,
        0x2E => AddressingMode::Absolute,
        0x30 => AddressingMode::NoneAddressing,
        0x31 => AddressingMode::IndirectY,
        0x35 => AddressingMode::ZeroPageX,
        0x36 => AddressingMode::ZeroPageX,
        0x38 => AddressingMode::NoneAddressing,
        0x39 => AddressingMode::AbsoluteY,
        0x3D => AddressingMode::AbsoluteX,
        0x3E => AddressingMode::AbsoluteX,
        0x40 => AddressingMode::NoneAddressing,
        0x41 => AddressingMode::IndirectX,
        0x45 => AddressingMode::ZeroPage,
        0x46 => AddressingMode::ZeroPage,
        0x48 => AddressingMode::NoneAddressing,
        0x49 => AddressingMode::Immediate,
        0x4A => AddressingMode::NoneAddressing,
        0x4C => AddressingMode::NoneAddressing,
        0x4D => AddressingMode::Absolute,
        0x4E => AddressingMode::Absolute,
        0x50 => AddressingMode::NoneAddressing,
        0x51 => AddressingMode::IndirectY,
        0x55 => AddressingMode::ZeroPageX,
        0x56 => AddressingMode::ZeroPageX,
        0x58 => AddressingMode::NoneAddressing,
        0x59 => AddressingMode::AbsoluteY,
        0x5D => AddressingMode::AbsoluteX,
        0x5E => AddressingMode::AbsoluteX,
        0x60 => AddressingMode::NoneAddressing,
        0x61 => AddressingMode::IndirectX,
        0x65 => AddressingMode::ZeroPage,
        0x66 => AddressingMode::ZeroPage,
        0x68 => AddressingMode::NoneAddressing,
        0x69 => AddressingMode::Immediate,
        0x6A => AddressingMode::NoneAddressing,
        0x6C => AddressingMode::NoneAddressing,
        0x6D => AddressingMode::Absolute,
        0x6E => AddressingMode::Absolute,
        0x70 => AddressingMode::NoneAddressing,
        0x71 => AddressingMode::IndirectY,
        0x75 => AddressingMode::ZeroPageX,
        0x76 => AddressingMode::ZeroPageX,
        0x78 => AddressingMode::NoneAddressing,
        0x79 => AddressingMode::AbsoluteY,
        0x7D => AddressingMode::AbsoluteX,
        0x7E => AddressingMode::AbsoluteX,
        0x81 => AddressingMode::IndirectX,
        0x84 => AddressingMode::ZeroPage,
        0x85 => AddressingMode::ZeroPage,
        0x86 => AddressingMode::ZeroPage,
        0x88 => AddressingMode::NoneAddressing,
        0x8A => AddressingMode::NoneAddressing,
        0x8C => AddressingMode::Absolute,
        0x8D => AddressingMode::Absolute,
        0x8E => AddressingMode::Absolute,
        0x90 => AddressingMode::NoneAddressing,
        0x91 => AddressingMode::IndirectY,
        0x94 => AddressingMode::ZeroPageX,
        0x95 => AddressingMode::ZeroPageX,
        0x96 => AddressingMode::ZeroPageY,
        0x98 => AddressingMode::NoneAddressing,
        0x99 => AddressingMode::AbsoluteY,
        0x9A => AddressingMode::NoneAddressing,
        0x9D => AddressingMode::AbsoluteX,
        0xA0 => AddressingMode::Immediate,
        0xA1 => AddressingMode::IndirectX,
        0xA2 => AddressingMode::Immediate,
        0xA4 => AddressingMode::ZeroPage,
        0xA5 => AddressingMode::ZeroPage,
        0xA6 => AddressingMode::ZeroPage,
        0xA8 => AddressingMode::NoneAddressing,
        0xA9 => AddressingMode::Immediate,
        0xAA => AddressingMode::NoneAddressing,
        0xAC => AddressingMode::Absolute,
        0xAD => AddressingMode::Absolute,
        0xAE => AddressingMode::Absolute,
        0xB0 => AddressingMode::NoneAddressing,
        0xB1 => AddressingMode::IndirectY,
        0xB4 => AddressingMode::ZeroPageX,
        0xB5 => AddressingMode::ZeroPageX,
        0xB6 => AddressingMode::ZeroPageY,
        0xB8 => AddressingMode::NoneAddressing,
        0xB9 => AddressingMode::AbsoluteY,
        0xBA => AddressingMode::NoneAddressing,
        0xBC => AddressingMode::AbsoluteX,
        0xBD => AddressingMode::AbsoluteX,
        0xBE => AddressingMode::AbsoluteY,
        0xC0 => AddressingMode::Immediate,
        0xC1 => AddressingMode::IndirectX,
        0xC4 => AddressingMode::ZeroPage,
        0xC5 => AddressingMode::ZeroPage,
        0xC6 => AddressingMode::ZeroPage,
        0xC8 => AddressingMode::NoneAddressing,
        0xC9 => AddressingMode::Immediate,
        0xCA => AddressingMode::NoneAddressing,
        0xCC => AddressingMode::Absolute,
        0xCD => AddressingMode::Absolute,
        0xCE => AddressingMode::Absolute,
        0xD0 => AddressingMode::NoneAddressing,
        0xD1 => AddressingMode::IndirectY,
        0xD5 => AddressingMode::ZeroPageX,
        0xD6 => AddressingMode::ZeroPageX,
        0xD8 => AddressingMode::NoneAddressing,
        0xD9 => AddressingMode::AbsoluteY,
        0xDD => AddressingMode::AbsoluteX,
        0xDE => AddressingMode::AbsoluteX,
        0xE0 => AddressingMode::Immediate,
        0xE1 => AddressingMode::IndirectX,
        0xE4 => AddressingMode::ZeroPage,
        0xE5 => AddressingMode::ZeroPage,
        0xE6 => AddressingMode::ZeroPage,
        0xE8 => AddressingMode::NoneAddressing,
        0xE9 => AddressingMode::Immediate,
        0xEA => AddressingMode::NoneAddressing,
        0xEC => AddressingMode::Absolute,
        0xED => AddressingMode::Absolute,
        0xEE => AddressingMode::Absolute,
        0xF0 => AddressingMode::NoneAddressing,
        0xF1 => AddressingMode::IndirectY,
        0xF5 => AddressingMode::ZeroPageX,
        0xF6 => AddressingMode::ZeroPageX,
        0xF8 => AddressingMode::NoneAddressing,
        0xF9 => AddressingMode::AbsoluteY,
        0xFD => AddressingMode::AbsoluteX,
        0xFE => AddressingMode::AbsoluteX,
        _ => AddressingMode::NoneAddressing,
    }
}

/// The three-letter mnemonic.
pub open spec fn spec_mnemonic(code: u8) -> Seq<char> {
    match code {
        0x00 => "BRK"@,
        0x01 => "ORA"@,
        0x05 => "ORA"@,
        0x06 => "ASL"@,
        0x08 => "PHP"@,
        0x09 => "ORA"@,
        0x0A => "ASL"@,
        0x0D => "ORA"@,
        0x0E => "ASL"@,
        0x10 => "BPL"@,
        0x11 => "ORA"@,
        0x15 => "ORA"@,
        0x16 => "ASL"@,
        0x18 => "CLC"@,
        0x19 => "ORA"@,
        0x1D => "ORA"@,
        0x1E => "ASL"@,
        0x20 => "JSR"@,
        0x21 => "AND"@,
        0x24 => "BIT"@,
        0x25 => "AND"@,
        0x26 => "ROL"@,
        0x28 => "PLP"@,
        0x29 => "AND"@,
        0x2A => "ROL"@,
        0x2C => "BIT"@,
        0x2D => "AND"@,
        0x2E => "ROL"@,
        0x30 => "BMI"@,
        0x31 => "AND"@,
        0x35 => "AND"@,
        0x36 => "ROL"@,
        0x38 => "SEC"@,
        0x39 => "AND"@,
        0x3D => "AND"@,
        0x3E => "ROL"@,
        0x40 => "RTI"@,
        0x41 => "EOR"@,
        0x45 => "EOR"@,
        0x46 => "LSR"@,
        0x48 => "PHA"@,
        0x49 => "EOR"@,
        0x4A => "LSR"@,
        0x4C => "JMP"@,
        0x4D => "EOR"@,
        0x4E => "LSR"@,
        0x50 => "BVC"@,
        0x51 => "EOR"@,
        0x55 => "EOR"@,
        0x56 => "LSR"@,
        0x58 => "CLI"@,
        0x59 => "EOR"@,
        0x5D => "EOR"@,
        0x5E => "LSR"@,
        0x60 => "RTS"@,
        0x61 => "ADC"@,
        0x65 => "ADC"@,
        0x66 => "ROR"@,
        0x68 => "PLA"@,
        0x69 => "ADC"@,
        0x6A => "ROR"@,
        0x6C => "JMP"@,
        0x6D => "ADC"@,
        0x6E => "ROR"@,
        0x70 => "BVS"@,
        0x71 => "ADC"@,
        0x75 => "ADC"@,
        0x76 => "ROR"@,
        0x78 => "SEI"@,
        0x79 => "ADC"@,
        0x7D => "ADC"@,
        0x7E => "ROR"@,
        0x81 => "STA"@,
        0x84 => "STY"@,
        0x85 => "STA"@,
        0x86 => "STX"@,
        0x88 => "DEY"@,
        0x8A => "TXA"@,
        0x8C => "STY"@,
        0x8D => "STA"@,
        0x8E => "STX"@,
        0x90 => "BCC"@,
        0x91 => "STA"@,
        0x94 => "STY"@,
        0x95 => "STA"@,
        0x96 => "STX"@,
        0x98 => "TYA"@,
        0x99 => "STA"@,
        0x9A => "TXS"@,
        0x9D => "STA"@,
        0xA0 => "LDY"@,
        0xA1 => "LDA"@,
        0xA2 => "LDX"@,
        0xA4 => "LDY"@,
        0xA5 => "LDA"@,
        0xA6 => "LDX"@,
        0xA8 => "TAY"@,
        0xA9 => "LDA"@,
        0xAA => "TAX"@,
        0xAC => "LDY"@,
        0xAD => "LDA"@,
        0xAE => "LDX"@,
        0xB0 => "BCS"@,
        0xB1 => "LDA"@,
        0xB4 => "LDY"@,
        0xB5 => "LDA"@,
        0xB6 => "LDX"@,
        0xB8 => "CLV"@,
        0xB9 => "LDA"@,
        0xBA => "TSX"@,
        0xBC => "LDY"@,
        0xBD => "LDA"@,
        0xBE => "LDX"@,
        0xC0 => "CPY"@,
        0xC1 => "CMP"@,
        0xC4 => "CPY"@,
        0xC5 => "CMP"@,
        0xC6 => "DEC"@,
        0xC8 => "INY"@,
        0xC9 => "CMP"@,
        0xCA => "DEX"@,
        0xCC => "CPY"@,
        0xCD => "CMP"@,
        0xCE => "DEC"@,
        0xD0 => "BNE"@,
        0xD1 => "CMP"@,
        0xD5 => "CMP"@,
        0xD6 => "DEC"@,
        0xD8 => "CLD"@,
        0xD9 => "CMP"@,
        0xDD => "CMP"@,
        0xDE => "DEC"@,
        0xE0 => "CPX"@,
        0xE1 => "SBC"@,
        0xE4 => "CPX"@,
        0xE5 => "SBC"@,
        0xE6 => "INC"@,
        0xE8 => "INX"@,
        0xE9 => "SBC"@,
        0xEA => "NOP"@,
        0xEC => "CPX"@,
        0xED => "SBC"@,
        0xEE => "INC"@,
        0xF0 => "BEQ"@,
        0xF1 => "SBC"@,
        0xF5 => "SBC"@,
        0xF6 => "INC"@,
        0xF8 => "SED"@,
        0xF9 => "SBC"@,
        0xFD => "SBC"@,
        0xFE => "INC"@,
        _ => ""@,
    }
}

/// Looks an opcode byte up in the descriptor table.
#[verifier::rlimit(100)]
pub fn opcode_info(code: u8) -> (r: Option<OpCode>)
    ensures
        (r is Some) == spec_opcode_known(code),
        (match r {
            Some(o) => o.code == code && o.len == spec_opcode_len(code) && o.cycles
                == spec_opcode_cycles(code) && o.mode == spec_opcode_mode(code) && o.mnemonic@
                == spec_mnemonic(code) && o.mnemonic@.len() == 3,
            None => true,
        }),
{
    proof {
        reveal_strlit("ADC");
        reveal_strlit("AND");
        reveal_strlit("ASL");
        reveal_strlit("BCC");
        reveal_strlit("BCS");
        reveal_strlit("BEQ");
        reveal_strlit("BIT");
        reveal_strlit("BMI");
        reveal_strlit("BNE");
        reveal_strlit("BPL");
        reveal_strlit("BRK");
        reveal_strlit("BVC");
        reveal_strlit("BVS");
        reveal_strlit("CLC");
        reveal_strlit("CLD");
        reveal_strlit("CLI");
        reveal_strlit("CLV");
        reveal_strlit("CMP");
        reveal_strlit("CPX");
        reveal_strlit("CPY");
        reveal_strlit("DEC");
        reveal_strlit("DEX");
        reveal_strlit("DEY");
        reveal_strlit("EOR");
        reveal_strlit("INC");
        reveal_strlit("INX");
        reveal_strlit("INY");
        reveal_strlit("JMP");
        reveal_strlit("JSR");
        reveal_strlit("LDA");
        reveal_strlit("LDX");
        reveal_strlit("LDY");
        reveal_strlit("LSR");
        reveal_strlit("NOP");
        reveal_strlit("ORA");
        reveal_strlit("PHA");
        reveal_strlit("PHP");
        reveal_strlit("PLA");
        reveal_strlit("PLP");
        reveal_strlit("ROL");
        reveal_strlit("ROR");
        reveal_strlit("RTI");
        reveal_strlit("RTS");
        reveal_strlit("SBC");
        reveal_strlit("SEC");
        reveal_strlit("SED");
        reveal_strlit("SEI");
        reveal_strlit("STA");
        reveal_strlit("STX");
        reveal_strlit("STY");
        reveal_strlit("TAX");
        reveal_strlit("TAY");
        reveal_strlit("TSX");
        reveal_strlit("TXA");
        reveal_strlit("TXS");
        reveal_strlit("TYA");
    }
    match code {
        0x00 => Some(OpCode { code: 0x00, mnemonic: "BRK", len: 1, cycles: 7, mode: AddressingMode::NoneAddressing }),
        0x01 => Some(OpCode { code: 0x01, mnemonic: "ORA", len: 2, cycles: 6, mode: AddressingMode::IndirectX }),
        0x05 => Some(OpCode { code: 0x05, mnemonic: "ORA", len: 2, cycles: 3, mode: AddressingMode::ZeroPage }),
        0x06 => Some(OpCode { code: 0x06, mnemonic: "ASL", len: 2, cycles: 5, mode: AddressingMode::ZeroPage }),
        0x08 => Some(OpCode { code: 0x08, mnemonic: "PHP", len: 1, cycles: 3, mode: AddressingMode::NoneAddressing }),
        0x09 => Some(OpCode { code: 0x09, mnemonic: "ORA", len: 2, cycles: 2, mode: AddressingMode::Immediate }),
        0x0A => Some(OpCode { code: 0x0A, mnemonic: "ASL", len: 1, cycles: 2, mode: AddressingMode::NoneAddressing }),
        0x0D => Some(OpCode { code: 0x0D, mnemonic: "ORA", len: 3, cycles: 4, mode: AddressingMode::Absolute }),
        0x0E => Some(OpCode { code: 0x0E, mnemonic: "ASL", len: 3, cycles: 6, mode: AddressingMode::Absolute }),
        0x10 => Some(OpCode { code: 0x10, mnemonic: "BPL", len: 2, cycles: 2, mode: AddressingMode::NoneAddressing }),
        0x11 => Some(OpCode { code: 0x11, mnemonic: "ORA", len: 2, cycles: 5, mode: AddressingMode::IndirectY }),
        0x15 => Some(OpCode { code: 0x15, mnemonic: "ORA", len: 2, cycles: 4, mode: AddressingMode::ZeroPageX }),
        0x16 => Some(OpCode { code: 0x16, mnemonic: "ASL", len: 2, cycles: 6, mode: AddressingMode::ZeroPageX }),
        0x18 => Some(OpCode { code: 0x18, mnemonic: "CLC", len: 1, cycles: 2, mode: AddressingMode::NoneAddressing }),
        0x19 => Some(OpCode { code: 0x19, mnemonic: "ORA", len: 3, cycles: 4, mode: AddressingMode::AbsoluteY }),
        0x1D => Some(OpCode { code: 0x1D, mnemonic: "ORA", len: 3, cycles: 4, mode: AddressingMode::AbsoluteX }),
        0x1E => Some(OpCode { code: 0x1E, mnemonic: "ASL", len: 3, cycles: 7, mode: AddressingMode::AbsoluteX }),
        0x20 => Some(OpCode { code: 0x20, mnemonic: "JSR", len: 3, cycles: 6, mode: AddressingMode::Absolute }),
        0x21 => Some(OpCode { code: 0x21, mnemonic: "AND", len: 2, cycles: 6, mode: AddressingMode::IndirectX }),
        0x24 => Some(OpCode { code: 0x24, mnemonic: "BIT", len: 2, cycles: 3, mode: AddressingMode::ZeroPage }),
        0x25 => Some(OpCode { code: 0x25, mnemonic: "AND", len: 2, cycles: 3, mode: AddressingMode::ZeroPage }),
        0x26 => Some(OpCode { code: 0x26, mnemonic: "ROL", len: 2, cycles: 5, mode: AddressingMode::ZeroPage }),
        0x28 => Some(OpCode { code: 0x28, mnemonic: "PLP", len: 1, cycles: 4, mode: AddressingMode::NoneAddressing }),
        0x29 => Some(OpCode { code: 0x29, mnemonic: "AND", len: 2, cycles: 2, mode: AddressingMode::Immediate }),
        0x2A => Some(OpCode { code: 0x2A, mnemonic: "ROL", len: 1, cycles: 2, mode: AddressingMode::NoneAddressing }),
        0x2C => Some(OpCode { code: 0x2C, mnemonic: "BIT", len: 3, cycles: 4, mode: AddressingMode::Absolute }),
        0x2D => Some(OpCode { code: 0x2D, mnemonic: "AND", len: 3, cycles: 4, mode: AddressingMode::Absolute }),
        0x2E => Some(OpCode { code: 0x2E, mnemonic: "ROL", len: 3, cycles: 6, mode: AddressingMode::Absolute }),
        0x30 => Some(OpCode { code: 0x30, mnemonic: "BMI", len: 2, cycles: 2, mode: AddressingMode::NoneAddressing }),
        0x31 => Some(OpCode { code: 0x31, mnemonic: "AND", len: 2, cycles: 5, mode: AddressingMode::IndirectY }),
        0x35 => Some(OpCode { code: 0x35, mnemonic: "AND", len: 2, cycles: 4, mode: AddressingMode::ZeroPageX }),
        0x36 => Some(OpCode { code: 0x36, mnemonic: "ROL", len: 2, cycles: 6, mode: AddressingMode::ZeroPageX }),
        0x38 => Some(OpCode { code: 0x38, mnemonic: "SEC", len: 1, cycles: 2, mode: AddressingMode::NoneAddressing }),
        0x39 => Some(OpCode { code: 0x39, mnemonic: "AND", len: 3, cycles: 4, mode: AddressingMode::AbsoluteY }),
        0x3D => Some(OpCode { code: 0x3D, mnemonic: "AND", len: 3, cycles: 4, mode: AddressingMode::AbsoluteX }),
        0x3E => Some(OpCode { code: 0x3E, mnemonic: "ROL", len: 3, cycles: 7, mode: AddressingMode::AbsoluteX }),
        0x40 => Some(OpCode { code: 0x40, mnemonic: "RTI", len: 1, cycles: 6, mode: AddressingMode::NoneAddressing }),
        0x41 => Some(OpCode { code: 0x41, mnemonic: "EOR", len: 2, cycles: 6, mode: AddressingMode::IndirectX }),
        0x45 => Some(OpCode { code: 0x45, mnemonic: "EOR", len: 2, cycles: 3, mode: AddressingMode::ZeroPage }),
        0x46 => Some(OpCode { code: 0x46, mnemonic: "LSR", len: 2, cycles: 5, mode: AddressingMode::ZeroPage }),
        0x48 => Some(OpCode { code: 0x48, mnemonic: "PHA", len: 1, cycles: 3, mode: AddressingMode::NoneAddressing }),
        0x49 => Some(OpCode { code: 0x49, mnemonic: "EOR", len: 2, cycles: 2, mode: AddressingMode::Immediate }),
        0x4A => Some(OpCode { code: 0x4A, mnemonic: "LSR", len: 1, cycles: 2, mode: AddressingMode::NoneAddressing }),
        0x4C => Some(OpCode { code: 0x4C, mnemonic: "JMP", len: 3, cycles: 3, mode: AddressingMode::NoneAddressing }),
        0x4D => Some(OpCode { code: 0x4D, mnemonic: "EOR", len: 3, cycles: 4, mode: AddressingMode::Absolute }),
        0x4E => Some(OpCode { code: 0x4E, mnemonic: "LSR", len: 3, cycles: 6, mode: AddressingMode::Absolute }),
        0x50 => Some(OpCode { code: 0x50, mnemonic: "BVC", len: 2, cycles: 2, mode: AddressingMode::NoneAddressing }),
        0x51 => Some(OpCode { code: 0x51, mnemonic: "EOR", len: 2, cycles: 5, mode: AddressingMode::IndirectY }),
        0x55 => Some(OpCode { code: 0x55, mnemonic: "EOR", len: 2, cycles: 4, mode: AddressingMode::ZeroPageX }),
        0x56 => Some(OpCode { code: 0x56, mnemonic: "LSR", len: 2, cycles: 6, mode: AddressingMode::ZeroPageX }),
        0x58 => Some(OpCode { code: 0x58, mnemonic: "CLI", len: 1, cycles: 2, mode: AddressingMode::NoneAddressing }),
        0x59 => Some(OpCode { code: 0x59, mnemonic: "EOR", len: 3, cycles: 4, mode: AddressingMode::AbsoluteY }),
        0x5D => Some(OpCode { code: 0x5D, mnemonic: "EOR", len: 3, cycles: 4, mode: AddressingMode::AbsoluteX }),
        0x5E => Some(OpCode { code: 0x5E, mnemonic: "LSR", len: 3, cycles: 7, mode: AddressingMode::AbsoluteX }),
        0x60 => Some(OpCode { code: 0x60, mnemonic: "RTS", len: 1, cycles: 6, mode: AddressingMode::NoneAddressing }),
        0x61 => Some(OpCode { code: 0x61, mnemonic: "ADC", len: 2, cycles: 6, mode: AddressingMode::IndirectX }),
        0x65 => Some(OpCode { code: 0x65, mnemonic: "ADC", len: 2, cycles: 3, mode: AddressingMode::ZeroPage }),
        0x66 => Some(OpCode { code: 0x66, mnemonic: "ROR", len: 2, cycles: 5, mode: AddressingMode::ZeroPage }),
        0x68 => Some(OpCode { code: 0x68, mnemonic: "PLA", len: 1, cycles: 4, mode: AddressingMode::NoneAddressing }),
        0x69 => Some(OpCode { code: 0x69, mnemonic: "ADC", len: 2, cycles: 2, mode: AddressingMode::Immediate }),
        0x6A => Some(OpCode { code: 0x6A, mnemonic: "ROR", len: 1, cycles: 2, mode: AddressingMode::NoneAddressing }),
        0x6C => Some(OpCode { code: 0x6C, mnemonic: "JMP", len: 3, cycles: 5, mode: AddressingMode::NoneAddressing }),
        0x6D => Some(OpCode { code: 0x6D, mnemonic: "ADC", len: 3, cycles: 4, mode: AddressingMode::Absolute }),
        0x6E => Some(OpCode { code: 0x6E, mnemonic: "ROR", len: 3, cycles: 6, mode: AddressingMode::Absolute }),
        0x70 => Some(OpCode { code: 0x70, mnemonic: "BVS", len: 2, cycles: 2, mode: AddressingMode::NoneAddressing }),
        0x71 => Some(OpCode { code: 0x71, mnemonic: "ADC", len: 2, cycles: 5, mode: AddressingMode::IndirectY }),
        0x75 => Some(OpCode { code: 0x75, mnemonic: "ADC", len: 2, cycles: 4, mode: AddressingMode::ZeroPageX }),
        0x76 => Some(OpCode { code: 0x76, mnemonic: "ROR", len: 2, cycles: 6, mode: AddressingMode::ZeroPageX }),
        0x78 => Some(OpCode { code: 0x78, mnemonic: "SEI", len: 1, cycles: 2, mode: AddressingMode::NoneAddressing }),
        0x79 => Some(OpCode { code: 0x79, mnemonic: "ADC", len: 3, cycles: 4, mode: AddressingMode::AbsoluteY }),
        0x7D => Some(OpCode { code: 0x7D, mnemonic: "ADC", len: 3, cycles: 4, mode: AddressingMode::AbsoluteX }),
        0x7E => Some(OpCode { code: 0x7E, mnemonic: "ROR", len: 3, cycles: 7, mode: AddressingMode::AbsoluteX }),
        0x81 => Some(OpCode { code: 0x81, mnemonic: "STA", len: 2, cycles: 6, mode: AddressingMode::IndirectX }),
        0x84 => Some(OpCode { code: 0x84, mnemonic: "STY", len: 2, cycles: 3, mode: AddressingMode::ZeroPage }),
        0x85 => Some(OpCode { code: 0x85, mnemonic: "STA", len: 2, cycles: 3, mode: AddressingMode::ZeroPage }),
        0x86 => Some(OpCode { code: 0x86, mnemonic: "STX", len: 2, cycles: 3, mode: AddressingMode::ZeroPage }),
        0x88 => Some(OpCode { code: 0x88, mnemonic: "DEY", len: 1, cycles: 2, mode: AddressingMode::NoneAddressing }),
        0x8A => Some(OpCode { code: 0x8A, mnemonic: "TXA", len: 1, cycles: 2, mode: AddressingMode::NoneAddressing }),
        0x8C => Some(OpCode { code: 0x8C, mnemonic: "STY", len: 3, cycles: 4, mode: AddressingMode::Absolute }),
        0x8D => Some(OpCode { code: 0x8D, mnemonic: "STA", len: 3, cycles: 4, mode: AddressingMode::Absolute }),
        0x8E => Some(OpCode { code: 0x8E, mnemonic: "STX", len: 3, cycles: 4, mode: AddressingMode::Absolute }),
        0x90 => Some(OpCode { code: 0x90, mnemonic: "BCC", len: 2, cycles: 2, mode: AddressingMode::NoneAddressing }),
        0x91 => Some(OpCode { code: 0x91, mnemonic: "STA", len: 2, cycles: 6, mode: AddressingMode::IndirectY }),
        0x94 => Some(OpCode { code: 0x94, mnemonic: "STY", len: 2, cycles: 4, mode: AddressingMode::ZeroPageX }),
        0x95 => Some(OpCode { code: 0x95, mnemonic: "STA", len: 2, cycles: 4, mode: AddressingMode::ZeroPageX }),
        0x96 => Some(OpCode { code: 0x96, mnemonic: "STX", len: 2, cycles: 4, mode: AddressingMode::ZeroPageY }),
        0x98 => Some(OpCode { code: 0x98, mnemonic: "TYA", len: 1, cycles: 2, mode: AddressingMode::NoneAddressing }),
        0x99 => Some(OpCode { code: 0x99, mnemonic: "STA", len: 3, cycles: 5, mode: AddressingMode::AbsoluteY }),
        0x9A => Some(OpCode { code: 0x9A, mnemonic: "TXS", len: 1, cycles: 2, mode: AddressingMode::NoneAddressing }),
        0x9D => Some(OpCode { code: 0x9D, mnemonic: "STA", len: 3, cycles: 5, mode: AddressingMode::AbsoluteX }),
        0xA0 => Some(OpCode { code: 0xA0, mnemonic: "LDY", len: 2, cycles: 2, mode: AddressingMode::Immediate }),
        0xA1 => Some(OpCode { code: 0xA1, mnemonic: "LDA", len: 2, cycles: 6, mode: AddressingMode::IndirectX }),
        0xA2 => Some(OpCode { code: 0xA2, mnemonic: "LDX", len: 2, cycles: 2, mode: AddressingMode::Immediate }),
        0xA4 => Some(OpCode { code: 0xA4, mnemonic: "LDY", len: 2, cycles: 3, mode: AddressingMode::ZeroPage }),
        0xA5 => Some(OpCode { code: 0xA5, mnemonic: "LDA", len: 2, cycles: 3, mode: AddressingMode::ZeroPage }),
        0xA6 => Some(OpCode { code: 0xA6, mnemonic: "LDX", len: 2, cycles: 3, mode: AddressingMode::ZeroPage }),
        0xA8 => Some(OpCode { code: 0xA8, mnemonic: "TAY", len: 1, cycles: 2, mode: AddressingMode::NoneAddressing }),
        0xA9 => Some(OpCode { code: 0xA9, mnemonic: "LDA", len: 2, cycles: 2, mode: AddressingMode::Immediate }),
        0xAA => Some(OpCode { code: 0xAA, mnemonic: "TAX", len: 1, cycles: 2, mode: AddressingMode::NoneAddressing }),
        0xAC => Some(OpCode { code: 0xAC, mnemonic: "LDY", len: 3, cycles: 4, mode: AddressingMode::Absolute }),
        0xAD => Some(OpCode { code: 0xAD, mnemonic: "LDA", len: 3, cycles: 4, mode: AddressingMode::Absolute }),
        0xAE => Some(OpCode { code: 0xAE, mnemonic: "LDX", len: 3, cycles: 4, mode: AddressingMode::Absolute }),
        0xB0 => Some(OpCode { code: 0xB0, mnemonic: "BCS", len: 2, cycles: 2, mode: AddressingMode::NoneAddressing }),
        0xB1 => Some(OpCode { code: 0xB1, mnemonic: "LDA", len: 2, cycles: 5, mode: AddressingMode::IndirectY }),
        0xB4 => Some(OpCode { code: 0xB4, mnemonic: "LDY", len: 2, cycles: 4, mode: AddressingMode::ZeroPageX }),
        0xB5 => Some(OpCode { code: 0xB5, mnemonic: "LDA", len: 2, cycles: 4, mode: AddressingMode::ZeroPageX }),
        0xB6 => Some(OpCode { code: 0xB6, mnemonic: "LDX", len: 2, cycles: 4, mode: AddressingMode::ZeroPageY }),
        0xB8 => Some(OpCode { code: 0xB8, mnemonic: "CLV", len: 1, cycles: 2, mode: AddressingMode::NoneAddressing }),
        0xB9 => Some(OpCode { code: 0xB9, mnemonic: "LDA", len: 3, cycles: 4, mode: AddressingMode::AbsoluteY }),
        0xBA => Some(OpCode { code: 0xBA, mnemonic: "TSX", len: 1, cycles: 2, mode: AddressingMode::NoneAddressing }),
        0xBC => Some(OpCode { code: 0xBC, mnemonic: "LDY", len: 3, cycles: 4, mode: AddressingMode::AbsoluteX }),
        0xBD => Some(OpCode { code: 0xBD, mnemonic: "LDA", len: 3, cycles: 4, mode: AddressingMode::AbsoluteX }),
        0xBE => Some(OpCode { code: 0xBE, mnemonic: "LDX", len: 3, cycles: 4, mode: AddressingMode::AbsoluteY }),
        0xC0 => Some(OpCode { code: 0xC0, mnemonic: "CPY", len: 2, cycles: 2, mode: AddressingMode::Immediate }),
        0xC1 => Some(OpCode { code: 0xC1, mnemonic: "CMP", len: 2, cycles: 6, mode: AddressingMode::IndirectX }),
        0xC4 => Some(OpCode { code: 0xC4, mnemonic: "CPY", len: 2, cycles: 3, mode: AddressingMode::ZeroPage }),
        0xC5 => Some(OpCode { code: 0xC5, mnemonic: "CMP", len: 2, cycles: 3, mode: AddressingMode::ZeroPage }),
        0xC6 => Some(OpCode { code: 0xC6, mnemonic: "DEC", len: 2, cycles: 5, mode: AddressingMode::ZeroPage }),
        0xC8 => Some(OpCode { code: 0xC8, mnemonic: "INY", len: 1, cycles: 2, mode: AddressingMode::NoneAddressing }),
        0xC9 => Some(OpCode { code: 0xC9, mnemonic: "CMP", len: 2, cycles: 2, mode: AddressingMode::Immediate }),
        0xCA => Some(OpCode { code: 0xCA, mnemonic: "DEX", len: 1, cycles: 2, mode: AddressingMode::NoneAddressing }),
        0xCC => Some(OpCode { code: 0xCC, mnemonic: "CPY", len: 3, cycles: 4, mode: AddressingMode::Absolute }),
        0xCD => Some(OpCode { code: 0xCD, mnemonic: "CMP", len: 3, cycles: 4, mode: AddressingMode::Absolute }),
        0xCE => Some(OpCode { code: 0xCE, mnemonic: "DEC", len: 3, cycles: 6, mode: AddressingMode::Absolute }),
        0xD0 => Some(OpCode { code: 0xD0, mnemonic: "BNE", len: 2, cycles: 2, mode: AddressingMode::NoneAddressing }),
        0xD1 => Some(OpCode { code: 0xD1, mnemonic: "CMP", len: 2, cycles: 5, mode: AddressingMode::IndirectY }),
        0xD5 => Some(OpCode { code: 0xD5, mnemonic: "CMP", len: 2, cycles: 4, mode: AddressingMode::ZeroPageX }),
        0xD6 => Some(OpCode { code: 0xD6, mnemonic: "DEC", len: 2, cycles: 6, mode: AddressingMode::ZeroPageX }),
        0xD8 => Some(OpCode { code: 0xD8, mnemonic: "CLD", len: 1, cycles: 2, mode: AddressingMode::NoneAddressing }),
        0xD9 => Some(OpCode { code: 0xD9, mnemonic: "CMP", len: 3, cycles: 4, mode: AddressingMode::AbsoluteY }),
        0xDD => Some(OpCode { code: 0xDD, mnemonic: "CMP", len: 3, cycles: 4, mode: AddressingMode::AbsoluteX }),
        0xDE => Some(OpCode { code: 0xDE, mnemonic: "DEC", len: 3, cycles: 7, mode: AddressingMode::AbsoluteX }),
        0xE0 => Some(OpCode { code: 0xE0, mnemonic: "CPX", len: 2, cycles: 2, mode: AddressingMode::Immediate }),
        0xE1 => Some(OpCode { code: 0xE1, mnemonic: "SBC", len: 2, cycles: 6, mode: AddressingMode::IndirectX }),
        0xE4 => Some(OpCode { code: 0xE4, mnemonic: "CPX", len: 2, cycles: 3, mode: AddressingMode::ZeroPage }),
        0xE5 => Some(OpCode { code: 0xE5, mnemonic: "SBC", len: 2, cycles: 3, mode: AddressingMode::ZeroPage }),
        0xE6 => Some(OpCode { code: 0xE6, mnemonic: "INC", len: 2, cycles: 5, mode: AddressingMode::ZeroPage }),
        0xE8 => Some(OpCode { code: 0xE8, mnemonic: "INX", len: 1, cycles: 2, mode: AddressingMode::NoneAddressing }),
        0xE9 => Some(OpCode { code: 0xE9, mnemonic: "SBC", len: 2, cycles: 2, mode: AddressingMode::Immediate }),
        0xEA => Some(OpCode { code: 0xEA, mnemonic: "NOP", len: 1, cycles: 2, mode: AddressingMode::NoneAddressing }),
        0xEC => Some(OpCode { code: 0xEC, mnemonic: "CPX", len: 3, cycles: 4, mode: AddressingMode::Absolute }),
        0xED => Some(OpCode { code: 0xED, mnemonic: "SBC", len: 3, cycles: 4, mode: AddressingMode::Absolute }),
        0xEE => Some(OpCode { code: 0xEE, mnemonic: "INC", len: 3, cycles: 6, mode: AddressingMode::Absolute }),
        0xF0 => Some(OpCode { code: 0xF0, mnemonic: "BEQ", len: 2, cycles: 2, mode: AddressingMode::NoneAddressing }),
        0xF1 => Some(OpCode { code: 0xF1, mnemonic: "SBC", len: 2, cycles: 5, mode: AddressingMode::IndirectY }),
        0xF5 => Some(OpCode { code: 0xF5, mnemonic: "SBC", len: 2, cycles: 4, mode: AddressingMode::ZeroPageX }),
        0xF6 => Some(OpCode { code: 0xF6, mnemonic: "INC", len: 2, cycles: 6, mode: AddressingMode::ZeroPageX }),
        0xF8 => Some(OpCode { code: 0xF8, mnemonic: "SED", len: 1, cycles: 2, mode: AddressingMode::NoneAddressing }),
        0xF9 => Some(OpCode { code: 0xF9, mnemonic: "SBC", len: 3, cycles: 4, mode: AddressingMode::AbsoluteY }),
        0xFD => Some(OpCode { code: 0xFD, mnemonic: "SBC", len: 3, cycles: 4, mode: AddressingMode::AbsoluteX }),
        0xFE => Some(OpCode { code: 0xFE, mnemonic: "INC", len: 3, cycles: 7, mode: AddressingMode::AbsoluteX }),
        _ => None,
    }
}

} // verus!
