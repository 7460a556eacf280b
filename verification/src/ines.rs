//! The iNES cartridge-header parser: sixteen bytes giving the ROM sizes,
//! the name-table mirroring, and the mapper number.
//!
//! The parser rejects images that are too short, lack the magic tag, or
//! use the second-generation header layout.

use vstd::prelude::*;

verus! {

pub enum Mirroring {
    Horizontal,
    Vertical,
}

pub enum TvSystem {
    Ntsc,
    Pal,
}

pub struct Header {
    pub prg_rom_size: usize,
    pub chr_rom_size: usize,
    pub mirroring: Mirroring,
    pub has_battery: bool,
    pub has_trainer: bool,
    pub ignore_mirroring: bool,
    pub mapper: usize,
    pub vs_unisystem: bool,
    pub play_choice_10: bool,
    pub prg_ram_size: usize,
    pub tv_system: TvSystem,
    pub prg_ram: bool,
    pub bus_conflicts: bool,
}

/// Whether the bytes begin with a parseable first-generation header:
/// long enough, the magic tag, and not the second-generation layout.
pub open spec fn spec_ines_valid(b: Seq<u8>) -> bool {
    b.len() >= 16 && b[0] == 0x4E && b[1] == 0x45 && b[2] == 0x53 && b[3] == 0x1A && ((b[7] >> 3)
        & 0x3) != 2
}

/// The header a valid image parses to.
pub open spec fn spec_ines_header(b: Seq<u8>) -> Header {
    Header {
        prg_rom_size: (b[4] * 16 * 1024) as usize,
        chr_rom_size: (b[5] * 8 * 1024) as usize,
        mirroring: if (b[6] & 0x1) != 0 {
            Mirroring::Vertical
        } else {
            Mirroring::Horizontal
        },
        has_battery: (b[6] & 0x2) != 0,
        has_trainer: (b[6] & 0x4) != 0,
        ignore_mirroring: (b[6] & 0x8) != 0,
        mapper: (((b[6] >> 4) & 0xF) | (((b[7] >> 4) & 0xF) << 4)) as usize,
        vs_unisystem: (b[7] & 0x1) != 0,
        play_choice_10: (b[7] & 0x2) != 0,
        prg_ram_size: 0,
        tv_system: TvSystem::Ntsc,
        prg_ram: false,
        bus_conflicts: false,
    }
}

/// Parses an iNES header from the start of the image: the header exactly
/// when the image is valid, nothing otherwise.
pub fn new(bytes: &Vec<u8>) -> (r: Option<Header>)
    ensures
        (r is Some) == spec_ines_valid(bytes@),
        (match r {
            Some(h) => h == spec_ines_header(bytes@),
            None => true,
        }),
{
    if bytes.len() < 16 {
        return None;
    }
    if bytes[0] != 0x4E || bytes[1] != 0x45 || bytes[2] != 0x53 || bytes[3] != 0x1A {
        return None;
    }
    let prg_rom_size = (bytes[4] as usize) * 16 * 1024;
    let chr_rom_size = (bytes[5] as usize) * 8 * 1024;
    let b6 = bytes[6];
    let mirroring = if (b6 & 0x1) != 0 {
        Mirroring::Vertical
    } else {
        Mirroring::Horizontal
    };
    let has_battery = (b6 & 0x2) != 0;
    let has_trainer = (b6 & 0x4) != 0;
    let ignore_mirroring = (b6 & 0x8) != 0;
    let mapper_low = (b6 >> 4u8) & 0xF;
    let b7 = bytes[7];
    let vs_unisystem = (b7 & 0x1) != 0;
    let play_choice_10 = (b7 & 0x2) != 0;
    let nes2 = (b7 >> 3u8) & 0x3;
    if nes2 == 2 {
        return None;
    }
    let mapper_high = (b7 >> 4u8) & 0xF;
    let mapper = (mapper_low | (mapper_high << 4u8)) as usize;
    proof {
        assert(bytes@[4] * 16 * 1024 <= 255 * 16 * 1024);
        assert(bytes@[5] * 8 * 1024 <= 255 * 8 * 1024);
    }
    let header = Header {
        prg_rom_size,
        chr_rom_size,
        mirroring,
        has_battery,
        has_trainer,
        ignore_mirroring,
        mapper,
        vs_unisystem,
        play_choice_10,
        prg_ram_size: 0,
        tv_system: TvSystem::Ntsc,
        prg_ram: false,
        bus_conflicts: false,
    };
    Some(header)
}

} // verus!
