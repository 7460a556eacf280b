//! The minimal interpreter: load-immediate, transfer and increment
//! programs, checking registers and flags after the run.

use mos6502::basic::Cpu;

#[test]
fn cpu_test_0xa9_lda_imm() {
    let mut cpu = Cpu::new();
    cpu.load_and_run(vec![0xa9, 0x05, 0x00]);
    assert_eq!(cpu.a, 0x05);
    assert!(cpu.ps.zero == false);
    assert!(cpu.ps.negative == false);
}

#[test]
fn cpu_test_0xa9_lda_zero_flag() {
    let mut cpu = Cpu::new();
    cpu.load_and_run(vec![0xa9, 0x00, 0x00]);
    assert_eq!(cpu.a, 0x00);
    assert!(cpu.ps.zero == true);
    assert!(cpu.ps.negative == false);
}

#[test]
fn cpu_test_0xa9_lda_neg_flag() {
    let mut cpu = Cpu::new();
    cpu.load_and_run(vec![0xa9, 0xf0, 0x00]);
    assert_eq!(cpu.a, 0xf0);
    assert!(cpu.ps.zero == false);
    assert!(cpu.ps.negative == true);
}

#[test]
fn cpu_test_0xaa_tax() {
    let mut cpu = Cpu::new();
    cpu.load_and_run(vec![0xa9, 0x0b, 0xaa, 0x00]);
    assert_eq!(cpu.a, 0x0b);
    assert_eq!(cpu.x, 0x0b);
    assert!(cpu.ps.zero == false);
    assert!(cpu.ps.negative == false);
}

#[test]
fn cpu_test_0xaa_tax_zero_flag() {
    let mut cpu = Cpu::new();
    cpu.x = 0x0b;
    cpu.load_and_run(vec![0xaa, 0x00]);
    assert_eq!(cpu.x, 0x00);
    assert!(cpu.ps.zero == true);
    assert!(cpu.ps.negative == false);
}

#[test]
fn cpu_test_0xaa_tax_negative_flag() {
    let mut cpu = Cpu::new();
    cpu.load_and_run(vec![0xa9, 0xf0, 0xaa, 0x00]);
    assert_eq!(cpu.x, 0xf0);
    assert!(cpu.ps.zero == false);
    assert!(cpu.ps.negative == true);
}

#[test]
fn cpu_test_0xe8_inx() {
    let mut cpu = Cpu::new();
    cpu.load_and_run(vec![0xa9, 0x0a, 0xaa, 0xe8, 0x00]);
    assert_eq!(cpu.x, 0x0b);
    assert!(cpu.ps.zero == false);
    assert!(cpu.ps.negative == false);
}

#[test]
fn cpu_test_0xe8_inx_zero_flag() {
    let mut cpu = Cpu::new();
    cpu.load_and_run(vec![0xa9, 0xff, 0xaa, 0xe8, 0x00]);
    assert_eq!(cpu.x, 0x00);
    assert!(cpu.ps.zero == true);
    assert!(cpu.ps.negative == false);
}

#[test]
fn cpu_test_0xe8_inx_negative_flag() {
    let mut cpu = Cpu::new();
    cpu.load_and_run(vec![0xa9, 0xf0, 0xaa, 0xe8, 0x00]);
    assert_eq!(cpu.x, 0xf1);
    assert!(cpu.ps.zero == false);
    assert!(cpu.ps.negative == true);
}

#[test]
fn cpu_test_5_ops_working_together() {
    let mut cpu = Cpu::new();
    cpu.load_and_run(vec![0xa9, 0xc0, 0xaa, 0xe8, 0x00]);

    assert_eq!(cpu.x, 0xc1)
}

#[test]
fn cpu_test_inx_overflow() {
    let mut cpu = Cpu::new();
    cpu.load_and_run(vec![0xa9, 0xff, 0xaa, 0xe8, 0xe8, 0x00]);

    assert_eq!(cpu.x, 1)
}
