//! The memory bus of the cartridge-driven configuration: 2 KiB of mirrored
//! internal RAM plus the program ROM of a mapper-0 cartridge.
//!
//! PPU registers are not implemented, and the cartridge ROM window is
//! read-only; accesses there are outside the contracts, as they trap on
//! the real machine. The otherwise-unmapped I/O window reads as zero and
//! ignores writes.

use vstd::prelude::*;

verus! {

/// A mapper-0 cartridge image: program ROM plus the mapper identifier.
pub struct Rom {
    pub prg_rom: Vec<u8>,
    pub mapper: u8,
}

pub struct Bus {
    pub cpu_vram: Vec<u8>,
    pub rom: Rom,
}

/// The index into program ROM that a bus address reaches: a 16 KiB image
/// is mirrored across the 32 KiB window.
pub open spec fn spec_prg_index(prg_len: int, addr: u16) -> int
    recommends
        addr >= 0x8000,
{
    let off = addr - 0x8000;
    if prg_len == 0x4000 && off >= 0x4000 {
        off % 0x4000
    } else {
        off
    }
}

impl Bus {
    /// The RAM bytes.
    pub open spec fn vram(self) -> Seq<u8> {
        self.cpu_vram@
    }

    /// The backing stores have their fixed sizes: 2 KiB of RAM and either
    /// a 16 KiB or a 32 KiB program ROM.
    pub open spec fn wf(self) -> bool {
        self.vram().len() == 2048 && (self.rom.prg_rom@.len() == 0x4000 || self.rom.prg_rom@.len()
            == 0x8000)
    }

    /// A bus over the given cartridge, with zeroed RAM.
    pub fn new(rom: Rom) -> (r: Bus)
        ensures
            r.vram() == Seq::new(2048, |i: int| 0u8),
            r.rom == rom,
    {
        let mut cpu_vram: Vec<u8> = Vec::new();
        let mut i: usize = 0;
        while i < 2048
            invariant
                i <= 2048,
                cpu_vram@ == Seq::new(i as nat, |j: int| 0u8),
            decreases 2048 - i,
        {
            cpu_vram.push(0);
            proof {
                assert(cpu_vram@ =~= Seq::new((i + 1) as nat, |j: int| 0u8));
            }
            i = i + 1;
        }
        Bus { cpu_vram, rom }
    }

    /// Reads the cartridge window, mirroring a 16 KiB image.
    pub fn read_prg_rom(&self, addr: u16) -> (r: u8)
        requires
            self.wf(),
            addr >= 0x8000,
        ensures
            r == self.rom.prg_rom@[spec_prg_index(self.rom.prg_rom@.len() as int, addr)],
    {
        let mut pr_addr: usize = (addr as usize) - 0x8000;
        if self.rom.prg_rom.len() == 0x4000 && pr_addr >= 0x4000 {
            pr_addr = pr_addr % 0x4000;
        }
        self.rom.prg_rom[pr_addr]
    }

    /// Reads the bus: RAM mirrored below `$2000`, cartridge ROM from
    /// `$8000`, zero in the unimplemented I/O window.
    pub fn mem_read(&self, addr: u16) -> (r: u8)
        requires
            self.wf(),
            !(0x2000 <= addr && addr <= 0x3FFF),
        ensures
            addr < 0x2000 ==> r == self.vram()[(addr & 0x7FF) as int],
            addr >= 0x8000 ==> r == self.rom.prg_rom@[spec_prg_index(
                self.rom.prg_rom@.len() as int,
                addr,
            )],
            (0x4000 <= addr && addr < 0x8000) ==> r == 0,
    {
        if addr < 0x2000 {
            let mirror_down_addr = addr & 0x7FF;
            assert(addr & 0x7FF < 2048) by (bit_vector);
            self.cpu_vram[mirror_down_addr as usize]
        } else if addr >= 0x8000 {
            self.read_prg_rom(addr)
        } else {
            0
        }
    }

    /// Writes the bus: RAM mirrored below `$2000`; the unimplemented I/O
    /// window ignores writes. The cartridge window is read-only and not in
    /// the contract.
    pub fn mem_write(&mut self, addr: u16, data: u8)
        requires
            old(self).wf(),
            !(0x2000 <= addr && addr <= 0x3FFF),
            addr < 0x8000,
        ensures
            final(self).wf(),
            final(self).rom == old(self).rom,
            addr < 0x2000 ==> final(self).vram() == old(self).vram().update(
                (addr & 0x7FF) as int,
                data,
            ),
            addr >= 0x2000 ==> final(self).vram() == old(self).vram(),
    {
        if addr < 0x2000 {
            let mirror_down_addr = addr & 0x7FF;
            assert(addr & 0x7FF < 2048) by (bit_vector);
            self.cpu_vram.set(mirror_down_addr as usize, data);
        }
    }
}

} // verus!
