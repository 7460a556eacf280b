//! Byte-addressable memory of the cycle-stepped engine, with the fixed
//! NROM-128 address map.
//!
//! The map, by 16-bit bus address:
//! - `$0000-$1FFF`: internal RAM, folded onto a 2 KiB backing window;
//! - `$2000-$3FFF`: PPU registers — not mapped here;
//! - `$4000-$401F`: APU and I/O registers — not mapped here;
//! - `$4020-$5FFF`: mapper dead zone — not mapped here;
//! - `$6000-$7FFF`: PRG RAM, writable;
//! - `$8000-$BFFF`: PRG ROM, read-only;
//! - `$C000-$FFFF`: mirror of the PRG ROM window, read-only.
//!
//! An access to an unmapped address, or a write to a read-only address, is
//! fatal on the real machine; here such an access is outside the contracts
//! of `get` and `set`, and the callers test for it first.

use vstd::prelude::*;

verus! {

pub struct Memory {
    data: Vec<u8>,
}

/// Whether the address is backed at all (readable).
pub open spec fn mem_mapped(addr: u16) -> bool {
    addr < 0x2000 || addr >= 0x6000
}

/// Whether the address is backed and writable.
pub open spec fn mem_writable(addr: u16) -> bool {
    addr < 0x2000 || (0x6000 <= addr && addr < 0x8000)
}

/// The index into the backing store that a mapped bus address reaches.
pub open spec fn spec_get_addr(addr: u16) -> int
    recommends
        mem_mapped(addr),
{
    if addr < 0x2000 {
        let local = (addr % 0x1000) as int;
        if local > 0x800 {
            local - 0x800
        } else {
            local
        }
    } else if addr >= 0xC000 {
        addr - 0x4000
    } else {
        addr as int
    }
}

/// Translates a mapped bus address to (backing index, writable).
pub fn get_addr(addr: u16) -> (r: (usize, bool))
    requires
        mem_mapped(addr),
    ensures
        r.0 as int == spec_get_addr(addr),
        r.1 == mem_writable(addr),
{
    if addr < 0x2000 {
        let mut local: usize = (addr as usize) % 0x1000;
        if local > 0x800 {
            local = local - 0x800;
        }
        return (local, true);
    }
    if addr < 0x8000 {
        return (addr as usize, true);
    }
    if addr >= 0xC000 {
        return ((addr as usize) - 0x4000, false);
    }
    (addr as usize, false)
}

/// Runtime test matching `mem_mapped`.
pub fn is_mapped(addr: u16) -> (r: bool)
    ensures
        r == mem_mapped(addr),
{
    addr < 0x2000 || addr >= 0x6000
}

/// Runtime test matching `mem_writable`.
pub fn is_writable(addr: u16) -> (r: bool)
    ensures
        r == mem_writable(addr),
{
    addr < 0x2000 || (0x6000 <= addr && addr < 0x8000)
}

impl View for Memory {
    type V = Seq<u8>;

    closed spec fn view(&self) -> Seq<u8> {
        self.data@
    }
}

impl Memory {
    /// The backing store covers every mapped index.
    pub open spec fn wf(self) -> bool {
        self@.len() >= 0xC000
    }

    /// The byte a read of `addr` returns.
    pub open spec fn byte_at(self, addr: u16) -> u8
        recommends
            self.wf(),
            mem_mapped(addr),
    {
        self@[spec_get_addr(addr)]
    }

    /// Builds the memory image: 32 KiB of zeroed RAM followed by the ROM
    /// bytes at `$8000`.
    pub fn new(rom: Vec<u8>) -> (r: Memory)
        requires
            0x4000 <= rom@.len() <= 0x8000,
        ensures
            r.wf(),
            r@ == Seq::new(0x8000, |i: int| 0u8) + rom@,
    {
        let rom_len = rom.len();
        let mut raw_data: Vec<u8> = Vec::new();
        let mut i: usize = 0;
        while i < 0x8000
            invariant
                i <= 0x8000,
                raw_data@ == Seq::new(i as nat, |j: int| 0u8),
            decreases 0x8000 - i,
        {
            raw_data.push(0);
            proof {
                assert(raw_data@ =~= Seq::new((i + 1) as nat, |j: int| 0u8));
            }
            i = i + 1;
        }
        let mut k: usize = 0;
        while k < rom_len
            invariant
                k <= rom_len,
                rom_len == rom@.len(),
                rom@.len() <= 0x8000,
                raw_data@ == Seq::new(0x8000, |j: int| 0u8) + rom@.take(k as int),
            decreases rom_len - k,
        {
            raw_data.push(rom[k]);
            proof {
                assert(raw_data@ =~= Seq::new(0x8000, |j: int| 0u8) + rom@.take(k + 1));
            }
            k = k + 1;
        }
        proof {
            assert(raw_data@ =~= Seq::new(0x8000, |j: int| 0u8) + rom@);
        }
        Memory { data: raw_data }
    }

    /// Reads the byte behind a mapped address.
    pub fn get(&self, addr: u16) -> (r: u8)
        requires
            self.wf(),
            mem_mapped(addr),
        ensures
            r == self.byte_at(addr),
    {
        let real_addr = get_addr(addr);
        self.data[real_addr.0]
    }

    /// Writes the byte behind a mapped, writable address.
    pub fn set(&mut self, addr: u16, val: u8)
        requires
            old(self).wf(),
            mem_mapped(addr),
            mem_writable(addr),
        ensures
            final(self).wf(),
            final(self)@ == old(self)@.update(spec_get_addr(addr), val),
    {
        let (pos, _rw) = get_addr(addr);
        self.data.set(pos, val);
    }
}

} // verus!
