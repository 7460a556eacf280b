//! The status-register models, the header parser, and interpreter
//! programs covering arithmetic, the stack, compares, and the
//! indirect-jump quirk.

use mos6502::basic;
use mos6502::flags::CpuFlags;
use mos6502::ines;
use mos6502::interp::cpu::Cpu;
use mos6502::interp::status::Status;
use mos6502::interp::trace::trace;

#[test]
fn flags_power_on_packs_to_24() {
    let f = CpuFlags::new();
    assert_eq!(f.to_p(), 0x24);
}

#[test]
fn flags_update_ignores_break_bits() {
    let mut f = CpuFlags::new();
    f.update(0xFF);
    assert!(f.carry && f.zero && f.int_disable && f.decimal_mode && f.overflow && f.negative);
    assert!(!f.b4);
    assert!(f.b5);
    f.update(0x00);
    assert!(!f.carry && !f.zero && !f.int_disable && !f.decimal_mode && !f.overflow && !f.negative);
    assert!(!f.b4);
    assert!(f.b5);
}

#[test]
fn flags_pack_unpack_round_trip() {
    let mut f = CpuFlags::new();
    f.carry = true;
    f.negative = true;
    f.b4 = true;
    let packed = f.to_p();
    assert_eq!(packed, 0xB5);
    let mut g = CpuFlags::new();
    g.update(packed);
    assert!(g.carry && g.negative && g.int_disable);
    assert!(!g.zero && !g.decimal_mode && !g.overflow);
}

#[test]
fn status_power_on_packs_to_24() {
    let s = Status::new();
    assert_eq!(s.to_byte(), 0x24);
}

#[test]
fn status_restore_fixes_break_bits() {
    let s = Status::from_byte(0xFF);
    assert!(s.carry && s.zero && s.interrupt && s.decimal && s.overflow && s.negative);
    assert!(!s.break0);
    assert!(s.break1);
    assert_eq!(s.to_byte(), 0xEF);
}

#[test]
fn basic_status_restore_reads_all_bits() {
    let s = basic::Status::from_byte(0x53);
    assert!(s.carry && s.zero && s.break_ && s.overflow);
    assert!(!s.interrupt && !s.decimal && !s.negative);
}

#[test]
fn ines_header_parses_fields() {
    let mut bytes = vec![0x4E, 0x45, 0x53, 0x1A, 0x02, 0x01, 0x31, 0x40];
    bytes.resize(16, 0);
    let header = ines::new(&bytes).unwrap();
    assert_eq!(header.prg_rom_size, 2 * 16 * 1024);
    assert_eq!(header.chr_rom_size, 8 * 1024);
    assert_eq!(header.mapper, 0x43);
    assert!(matches!(header.mirroring, ines::Mirroring::Vertical));
    assert!(!header.has_battery);
    assert!(!header.has_trainer);
}

#[test]
fn ines_header_rejects_bad_images() {
    // too short
    assert!(ines::new(&vec![0x4E, 0x45, 0x53, 0x1A]).is_none());
    // wrong magic
    let mut bytes = vec![0x4E, 0x45, 0x54, 0x1A, 0x01, 0x01, 0x00, 0x00];
    bytes.resize(16, 0);
    assert!(ines::new(&bytes).is_none());
    // second-generation layout
    let mut bytes = vec![0x4E, 0x45, 0x53, 0x1A, 0x01, 0x01, 0x00, 0x10];
    bytes.resize(16, 0);
    assert!(ines::new(&bytes).is_none());
}

#[test]
fn interp_stack_two_pushes_pull_in_reverse() {
    // LDA #$11 ; PHA ; LDA #$22 ; PHA ; PLA ; TAX ; PLA
    let mut cpu = Cpu::new();
    cpu.load_and_run(vec![0xA9, 0x11, 0x48, 0xA9, 0x22, 0x48, 0x68, 0xAA, 0x68, 0x00]);
    assert_eq!(cpu.x, 0x22);
    assert_eq!(cpu.a, 0x11);
    assert_eq!(cpu.sp, 0xFD);
}

#[test]
fn interp_adc_signed_overflow() {
    let mut cpu = Cpu::new();
    cpu.load_and_run(vec![0xA9, 0x50, 0x69, 0x50, 0x00]);
    assert_eq!(cpu.a, 0xA0);
    assert!(cpu.ps.overflow);
    assert!(cpu.ps.negative);
    assert!(!cpu.ps.carry);
}

#[test]
fn interp_adc_then_sbc_restores_accumulator() {
    // carry clear: ADC #$2A ; SEC ; SBC #$2A
    let mut cpu = Cpu::new();
    cpu.load_and_run(vec![0xA9, 0x17, 0x69, 0x2A, 0x38, 0xE9, 0x2A, 0x00]);
    assert_eq!(cpu.a, 0x17);
}

#[test]
fn interp_sbc_with_borrow() {
    // SEC ; LDA #$50 ; SBC #$F0: borrows, carry ends clear
    let mut cpu = Cpu::new();
    cpu.load_and_run(vec![0x38, 0xA9, 0x50, 0xE9, 0xF0, 0x00]);
    assert_eq!(cpu.a, 0x60);
    assert!(!cpu.ps.carry);
}

#[test]
fn interp_cmp_carry_iff_not_below() {
    // SEC ; LDA #$10 ; CMP #$80: register below operand clears carry
    let mut cpu = Cpu::new();
    cpu.load_and_run(vec![0x38, 0xA9, 0x10, 0xC9, 0x80, 0x00]);
    assert!(!cpu.ps.carry);
    assert!(!cpu.ps.zero);
    assert!(cpu.ps.negative);
    // LDA #$80 ; CMP #$10: register above sets it
    let mut cpu = Cpu::new();
    cpu.load_and_run(vec![0xA9, 0x80, 0xC9, 0x10, 0x00]);
    assert!(cpu.ps.carry);
    assert!(!cpu.ps.zero);
    // equal operands: carry and zero both set
    let mut cpu = Cpu::new();
    cpu.load_and_run(vec![0xA9, 0x42, 0xC9, 0x42, 0x00]);
    assert!(cpu.ps.carry);
    assert!(cpu.ps.zero);
    assert!(!cpu.ps.negative);
}

#[test]
fn interp_bit_copies_operand_bits() {
    // operand $C0 at $10: zero from the AND, overflow and negative from
    // the operand itself
    let mut cpu = Cpu::new();
    cpu.mem_write(0x10, 0xC0);
    cpu.load_and_run(vec![0xA9, 0x01, 0x24, 0x10, 0x00]);
    assert!(cpu.ps.zero);
    assert!(cpu.ps.overflow);
    assert!(cpu.ps.negative);
}

#[test]
fn interp_jmp_indirect_wraps_inside_the_page() {
    let mut cpu = Cpu::new();
    cpu.mem_write(0x02FF, 0x05);
    cpu.mem_write(0x0200, 0x80);
    cpu.mem_write(0x0300, 0x77);
    cpu.load_and_run(vec![0x6C, 0xFF, 0x02, 0x00, 0x00, 0x00]);
    // the run loop consumed the halt opcode at the jump target
    assert_eq!(cpu.pc, 0x8006);
}

#[test]
fn interp_asl_shifts_into_carry() {
    let mut cpu = Cpu::new();
    cpu.load_and_run(vec![0xA9, 0x81, 0x0A, 0x00]);
    assert_eq!(cpu.a, 0x02);
    assert!(cpu.ps.carry);
    assert!(!cpu.ps.negative);
}

#[test]
fn interp_ror_feeds_carry_into_bit_seven() {
    // SEC ; LDA #$02 ; ROR A
    let mut cpu = Cpu::new();
    cpu.load_and_run(vec![0x38, 0xA9, 0x02, 0x6A, 0x00]);
    assert_eq!(cpu.a, 0x81);
    assert!(!cpu.ps.carry);
    assert!(cpu.ps.negative);
}

#[test]
fn interp_sta_indexed_writes_through() {
    // LDX #$05 ; LDA #$77 ; STA $10,X
    let mut cpu = Cpu::new();
    cpu.load_and_run(vec![0xA2, 0x05, 0xA9, 0x77, 0x95, 0x10, 0x00]);
    assert_eq!(cpu.mem_read(0x15), 0x77);
}

#[test]
fn trace_renders_a_relative_branch() {
    let mut cpu = Cpu::new();
    cpu.mem_write(100, 0xD0);
    cpu.mem_write(101, 0xFB);
    cpu.pc = 0x64;
    let line = trace(&cpu);
    assert_eq!(
        "0064  D0 FB     BNE $0061                       A:00 X:00 Y:00 P:24 SP:FD",
        line
    );
}

#[test]
fn trace_renders_accumulator_shift() {
    let mut cpu = Cpu::new();
    cpu.mem_write(100, 0x4A);
    cpu.pc = 0x64;
    cpu.a = 0x81;
    let line = trace(&cpu);
    assert_eq!(
        "0064  4A        LSR A                           A:81 X:00 Y:00 P:24 SP:FD",
        line
    );
}

#[test]
fn interp_unknown_opcode_halts() {
    let mut cpu = Cpu::new();
    cpu.load_and_run(vec![0xA9, 0x33, 0x02, 0xE8, 0x00]);
    // execution stops on the unknown byte, consuming it; the increment
    // never runs
    assert_eq!(cpu.a, 0x33);
    assert_eq!(cpu.x, 0x00);
    assert_eq!(cpu.pc, 0x8003);
}
