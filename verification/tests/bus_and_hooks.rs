//! The cartridge bus, the single-instruction runner, and the step-counting
//! hook.

use mos6502::engine::cpu as ecpu;
use mos6502::engine::exec::{dispatch, run_handler};
use mos6502::interp::bus::{Bus, Rom};
use mos6502::interp::cpu::{Cpu, StepCounter};
use mos6502::memory::Memory;

#[test]
fn bus_mirrors_ram_below_2000() {
    let rom = Rom { prg_rom: vec![0u8; 0x4000], mapper: 0 };
    let mut bus = Bus::new(rom);
    bus.mem_write(0x0005, 0xAB);
    assert_eq!(bus.mem_read(0x0005), 0xAB);
    // the same cell through each mirror
    assert_eq!(bus.mem_read(0x0805), 0xAB);
    assert_eq!(bus.mem_read(0x1005), 0xAB);
    assert_eq!(bus.mem_read(0x1805), 0xAB);
}

#[test]
fn bus_mirrors_small_prg_rom() {
    let mut prg = vec![0u8; 0x4000];
    prg[0x0010] = 0x42;
    let bus = Bus::new(Rom { prg_rom: prg, mapper: 0 });
    assert_eq!(bus.mem_read(0x8010), 0x42);
    // a 16 KiB image appears again in the upper half of the window
    assert_eq!(bus.mem_read(0xC010), 0x42);
}

#[test]
fn run_handler_reports_the_cycle_count() {
    // LDA $80F0,X with X = $20: four decode cycles after the fetch
    let mut rom = vec![0u8; 0x4000];
    rom[0] = 0xF0;
    rom[1] = 0x80;
    let mut cpu = ecpu::new(Memory::new(rom));
    cpu.x = 0x20;
    let code = 0xBD;
    let mut h = dispatch(code).unwrap();
    let cycles = run_handler(&mut cpu, &mut h);
    assert_eq!(cycles, 4);
    assert_eq!(cpu.pc, 0xC002);
}

#[test]
fn step_counter_counts_loop_turns() {
    // three instructions plus the halting fetch
    let mut cpu = Cpu::new();
    cpu.load(vec![0xA9, 0x01, 0xAA, 0xE8, 0x00]);
    cpu.reset();
    let mut counter = StepCounter { steps: 0 };
    let halted = cpu.run_with_callback(&mut counter);
    assert!(halted);
    assert_eq!(counter.steps, 4);
    assert_eq!(cpu.x, 0x02);
}
