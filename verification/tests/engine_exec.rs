//! The cycle-stepped engine: per-instruction cycle counts, the indexed
//! page-crossing rules, the indirect-jump quirk, and the ALU and stack
//! behavior, driven one bus cycle at a time through the executor.

use mos6502::engine::cpu as ecpu;
use mos6502::engine::exec::{cycle, Handler, State};
use mos6502::engine::opcode::OpCode;
use mos6502::memory::Memory;

fn make_cpu(program: &[u8]) -> ecpu::Cpu {
    let mut rom = vec![0u8; 0x4000];
    let mut i = 0;
    while i < program.len() {
        rom[i] = program[i];
        i += 1;
    }
    ecpu::new(Memory::new(rom))
}

fn one_instruction(cpu: &mut ecpu::Cpu, h: &mut Handler) -> u64 {
    let mut nr: u64 = 0;
    let mut state = cycle(cpu, h, State::FetchOpcode, &mut nr);
    loop {
        match state {
            State::Processing => state = cycle(cpu, h, state, &mut nr),
            State::FetchOpcode => return nr,
            State::Done => panic!("execution stopped"),
        }
    }
}

#[test]
fn engine_immediate_takes_two_cycles() {
    let mut cpu = make_cpu(&[0xA9, 0x42]);
    let mut h = Handler::new();
    let cycles = one_instruction(&mut cpu, &mut h);
    assert_eq!(cycles, 2);
    assert_eq!(cpu.a, 0x42);
    assert!(!cpu.flags.zero);
    assert!(!cpu.flags.negative);
}

#[test]
fn engine_absolute_x_read_page_cross_pays_extra_cycle() {
    // LDX #$20 ; LDA $80F0,X  (f0 + 20 wraps the low byte)
    let mut cpu = make_cpu(&[0xA2, 0x20, 0xBD, 0xF0, 0x80]);
    let mut h = Handler::new();
    assert_eq!(one_instruction(&mut cpu, &mut h), 2);
    assert_eq!(one_instruction(&mut cpu, &mut h), 5);
}

#[test]
fn engine_absolute_x_read_no_cross_four_cycles() {
    // LDX #$20 ; LDA $8000,X
    let mut cpu = make_cpu(&[0xA2, 0x20, 0xBD, 0x00, 0x80]);
    let mut h = Handler::new();
    assert_eq!(one_instruction(&mut cpu, &mut h), 2);
    assert_eq!(one_instruction(&mut cpu, &mut h), 4);
}

#[test]
fn engine_store_absolute_x_always_five_cycles() {
    // LDX #$01 ; STA $0100,X — no page crossing, still the full count
    let mut cpu = make_cpu(&[0xA2, 0x01, 0x9D, 0x00, 0x01]);
    let mut h = Handler::new();
    assert_eq!(one_instruction(&mut cpu, &mut h), 2);
    assert_eq!(one_instruction(&mut cpu, &mut h), 5);
}

#[test]
fn engine_indirect_y_read_page_cross_pays_extra_cycle() {
    // base $01F0 at zero page $10, Y = $20 crosses; Y = $01 does not
    let mut cpu = make_cpu(&[0xA0, 0x20, 0xB1, 0x10]);
    cpu.mem.set(0x0010, 0xF0);
    cpu.mem.set(0x0011, 0x01);
    let mut h = Handler::new();
    assert_eq!(one_instruction(&mut cpu, &mut h), 2);
    assert_eq!(one_instruction(&mut cpu, &mut h), 6);

    let mut cpu = make_cpu(&[0xA0, 0x01, 0xB1, 0x10]);
    cpu.mem.set(0x0010, 0xF0);
    cpu.mem.set(0x0011, 0x01);
    let mut h = Handler::new();
    assert_eq!(one_instruction(&mut cpu, &mut h), 2);
    assert_eq!(one_instruction(&mut cpu, &mut h), 5);
}

#[test]
fn engine_rmw_absolute_x_always_seven_cycles() {
    // LDX #$FF ; INC $0010,X — page crossing changes nothing
    let mut cpu = make_cpu(&[0xA2, 0xFF, 0xFE, 0x10, 0x00]);
    let mut h = Handler::new();
    assert_eq!(one_instruction(&mut cpu, &mut h), 2);
    assert_eq!(one_instruction(&mut cpu, &mut h), 7);
    assert_eq!(cpu.mem.get(0x010F), 1);
}

#[test]
fn engine_branch_costs_two_three_four() {
    // carry set: BCC not taken (2), BCS taken in page (3)
    let mut cpu = make_cpu(&[0x38, 0x90, 0x02, 0xB0, 0x00]);
    let mut h = Handler::new();
    assert_eq!(one_instruction(&mut cpu, &mut h), 2);
    assert_eq!(one_instruction(&mut cpu, &mut h), 2);
    assert_eq!(one_instruction(&mut cpu, &mut h), 3);

    // a taken branch whose target sits in the next page costs 4:
    // JMP $C0FB ; SEC ; BCS +2 lands at $C100
    let mut program = vec![0u8; 0x100];
    program[0] = 0x4C;
    program[1] = 0xFB;
    program[2] = 0xC0;
    program[0xFB] = 0x38;
    program[0xFC] = 0xB0;
    program[0xFD] = 0x02;
    let mut cpu = make_cpu(&program);
    let mut h = Handler::new();
    assert_eq!(one_instruction(&mut cpu, &mut h), 3);
    assert_eq!(one_instruction(&mut cpu, &mut h), 2);
    assert_eq!(one_instruction(&mut cpu, &mut h), 4);
    assert_eq!(cpu.pc, 0xC100);
}

#[test]
fn engine_jmp_indirect_wraps_inside_the_page() {
    // pointer $02FF: low from $02FF, high from $0200 — never $0300
    let mut cpu = make_cpu(&[0x6C, 0xFF, 0x02]);
    cpu.mem.set(0x02FF, 0x34);
    cpu.mem.set(0x0200, 0x12);
    cpu.mem.set(0x0300, 0x77);
    let mut h = Handler::new();
    assert_eq!(one_instruction(&mut cpu, &mut h), 5);
    assert_eq!(cpu.pc, 0x1234);
}

#[test]
fn engine_jsr_rts_round_trip() {
    // JSR $C005 ; LDA #$07 at the return point ; RTS at $C005
    let mut cpu = make_cpu(&[0x20, 0x05, 0xC0, 0xA9, 0x07, 0x60]);
    let mut h = Handler::new();
    assert_eq!(one_instruction(&mut cpu, &mut h), 6);
    assert_eq!(cpu.pc, 0xC005);
    assert_eq!(one_instruction(&mut cpu, &mut h), 6);
    assert_eq!(cpu.pc, 0xC003);
    assert_eq!(one_instruction(&mut cpu, &mut h), 2);
    assert_eq!(cpu.a, 0x07);
    assert_eq!(cpu.sp, 0xFD);
}

#[test]
fn engine_adc_then_sbc_restores_accumulator() {
    // carry clear: ADC #$2A ; SEC ; SBC #$2A
    let mut cpu = make_cpu(&[0x69, 0x2A, 0x38, 0xE9, 0x2A]);
    let mut h = Handler::new();
    one_instruction(&mut cpu, &mut h);
    assert_eq!(cpu.a, 0x2A);
    one_instruction(&mut cpu, &mut h);
    one_instruction(&mut cpu, &mut h);
    assert_eq!(cpu.a, 0x00);
    assert!(cpu.flags.zero);
}

#[test]
fn engine_adc_signed_overflow_flag() {
    // 0x50 + 0x50 overflows the signed range
    let mut cpu = make_cpu(&[0x09, 0x50, 0x69, 0x50]);
    let mut h = Handler::new();
    one_instruction(&mut cpu, &mut h);
    one_instruction(&mut cpu, &mut h);
    assert_eq!(cpu.a, 0xA0);
    assert!(cpu.flags.overflow);
    assert!(cpu.flags.negative);
    assert!(!cpu.flags.carry);
}

#[test]
fn engine_rmw_zero_page_dummy_write_count() {
    // INC $10 twice: 5 cycles each, value climbs
    let mut cpu = make_cpu(&[0xE6, 0x10, 0xE6, 0x10]);
    let mut h = Handler::new();
    assert_eq!(one_instruction(&mut cpu, &mut h), 5);
    assert_eq!(one_instruction(&mut cpu, &mut h), 5);
    assert_eq!(cpu.mem.get(0x0010), 2);
}

#[test]
fn engine_stack_two_pushes_pull_in_reverse() {
    // ORA #$11 ; PHA ; EOR #$33 ; PHA ; PLA ; PLA
    let mut cpu = make_cpu(&[0x09, 0x11, 0x48, 0x49, 0x33, 0x48, 0x68, 0x68]);
    let mut h = Handler::new();
    one_instruction(&mut cpu, &mut h);
    assert_eq!(one_instruction(&mut cpu, &mut h), 3);
    one_instruction(&mut cpu, &mut h);
    assert_eq!(cpu.a, 0x22);
    one_instruction(&mut cpu, &mut h);
    assert_eq!(one_instruction(&mut cpu, &mut h), 4);
    assert_eq!(cpu.a, 0x22);
    one_instruction(&mut cpu, &mut h);
    assert_eq!(cpu.a, 0x11);
    assert_eq!(cpu.sp, 0xFD);
}

#[test]
fn engine_php_plp_round_trip() {
    // SEC ; PHP ; CLC ; PLP restores carry
    let mut cpu = make_cpu(&[0x38, 0x08, 0x18, 0x28]);
    let mut h = Handler::new();
    one_instruction(&mut cpu, &mut h);
    assert_eq!(one_instruction(&mut cpu, &mut h), 3);
    one_instruction(&mut cpu, &mut h);
    assert!(!cpu.flags.carry);
    assert_eq!(one_instruction(&mut cpu, &mut h), 4);
    assert!(cpu.flags.carry);
    assert_eq!(cpu.sp, 0xFD);
}

#[test]
fn engine_unknown_opcode_is_terminal() {
    let mut cpu = make_cpu(&[0x02]);
    let mut h = Handler::new();
    let mut nr: u64 = 0;
    let state = cycle(&mut cpu, &mut h, State::FetchOpcode, &mut nr);
    assert!(matches!(state, State::Done));
    let state = cycle(&mut cpu, &mut h, state, &mut nr);
    assert!(matches!(state, State::Done));
}

#[test]
fn engine_write_to_rom_is_terminal() {
    // STA $8000 targets the read-only window
    let mut cpu = make_cpu(&[0x8D, 0x00, 0x80]);
    let mut h = Handler::new();
    let mut nr: u64 = 0;
    let mut state = cycle(&mut cpu, &mut h, State::FetchOpcode, &mut nr);
    loop {
        match state {
            State::Processing => state = cycle(&mut cpu, &mut h, state, &mut nr),
            State::FetchOpcode => panic!("the store should have trapped"),
            State::Done => break,
        }
    }
}
