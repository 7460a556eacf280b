//! The disassembly trace renderer, against golden lines.

use mos6502::interp::cpu::{Cpu, CpuHook};
use mos6502::interp::trace::trace;

struct TraceCollector {
    lines: Vec<String>,
}

impl CpuHook for TraceCollector {
    fn call(&mut self, cpu: &mut Cpu) {
        self.lines.push(trace(cpu));
    }
}

#[test]
fn test_format_trace() {
    let mut cpu = Cpu::new();
    cpu.mem_write(100, 0xa2);
    cpu.mem_write(101, 0x01);
    cpu.mem_write(102, 0xca);
    cpu.mem_write(103, 0x88);
    cpu.mem_write(104, 0x00);
    cpu.pc = 0x64;
    cpu.a = 1;
    cpu.x = 2;
    cpu.y = 3;
    let mut collector = TraceCollector { lines: Vec::new() };
    let halted = cpu.run_with_callback(&mut collector);
    assert!(halted);
    let result = collector.lines;
    assert_eq!(
        "0064  A2 01     LDX #$01                        A:01 X:02 Y:03 P:24 SP:FD",
        result[0]
    );
    assert_eq!(
        "0066  CA        DEX                             A:01 X:01 Y:03 P:24 SP:FD",
        result[1]
    );
    assert_eq!(
        "0067  88        DEY                             A:01 X:00 Y:03 P:26 SP:FD",
        result[2]
    );
}

#[test]
fn test_format_mem_access() {
    let mut cpu = Cpu::new();
    // ORA ($33), Y
    cpu.mem_write(100, 0x11);
    cpu.mem_write(101, 0x33);

    //data
    cpu.mem_write(0x33, 00);
    cpu.mem_write(0x34, 04);

    //target cell
    cpu.mem_write(0x400, 0xAA);

    cpu.pc = 0x64;
    cpu.y = 0;
    let mut collector = TraceCollector { lines: Vec::new() };
    cpu.run_with_callback(&mut collector);
    let result = collector.lines;
    assert_eq!(
        "0064  11 33     ORA ($33),Y = 0400 @ 0400 = AA  A:00 X:00 Y:00 P:24 SP:FD",
        result[0]
    );
}
