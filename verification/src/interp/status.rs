//! The interpreter's status register: eight named flag bits with a
//! packed-byte view.
//!
//! `to_byte` packs all eight bits. `from_byte` restores the six
//! architectural flags from bits 0, 1, 2, 3, 6 and 7; the two break bits
//! are fixed instead of being read back — bit 5 always reads as one, bit 4
//! as zero — per the hardware convention for restored status bytes.

use vstd::prelude::*;

verus! {

#[derive(Clone, Copy)]
pub struct Status {
    pub carry: bool,
    pub zero: bool,
    pub interrupt: bool,
    pub decimal: bool,
    pub break0: bool,
    pub break1: bool,
    pub overflow: bool,
    pub negative: bool,
}

pub enum StatusFlag {
    Carry,
    Zero,
    Interrupt,
    Decimal,
    Break0,
    Break1,
    Overflow,
    Negative,
}

/// 1 when the flag is set, 0 when it is clear.
pub open spec fn status_bit(b: bool) -> u8 {
    if b {
        1
    } else {
        0
    }
}

impl Status {
    /// Power-on state: interrupt-disable and bit 5 set, all else clear
    /// (packed value `$24`).
    pub open spec fn spec_power_on() -> Status {
        Status {
            carry: false,
            zero: false,
            interrupt: true,
            decimal: false,
            break0: false,
            break1: true,
            overflow: false,
            negative: false,
        }
    }

    /// The packed status byte: each flag at its documented bit position.
    pub open spec fn spec_to_byte(self) -> u8 {
        (status_bit(self.carry) + status_bit(self.zero) * 2 + status_bit(self.interrupt) * 4
            + status_bit(self.decimal) * 8 + status_bit(self.break0) * 16 + status_bit(self.break1)
            * 32 + status_bit(self.overflow) * 64 + status_bit(self.negative) * 128) as u8
    }

    /// The flag set a restored byte produces: six flags from the byte,
    /// break bits fixed (bit 5 reads as one, bit 4 as zero).
    pub open spec fn spec_from_byte(val: u8) -> Status {
        Status {
            carry: (val & 0x01) != 0,
            zero: (val & 0x02) != 0,
            interrupt: (val & 0x04) != 0,
            decimal: (val & 0x08) != 0,
            break0: false,
            break1: true,
            overflow: (val & 0x40) != 0,
            negative: (val & 0x80) != 0,
        }
    }

    /// The state a status flag update produces.
    pub open spec fn spec_set(self, flag: StatusFlag, val: bool) -> Status {
        match flag {
            StatusFlag::Carry => Status { carry: val, ..self },
            StatusFlag::Zero => Status { zero: val, ..self },
            StatusFlag::Interrupt => Status { interrupt: val, ..self },
            StatusFlag::Decimal => Status { decimal: val, ..self },
            StatusFlag::Break0 => Status { break0: val, ..self },
            StatusFlag::Break1 => Status { break1: val, ..self },
            StatusFlag::Overflow => Status { overflow: val, ..self },
            StatusFlag::Negative => Status { negative: val, ..self },
        }
    }

    pub fn new() -> (r: Status)
        ensures
            r == Status::spec_power_on(),
    {
        Status {
            carry: false,
            zero: false,
            interrupt: true,
            decimal: false,
            break0: false,
            break1: true,
            overflow: false,
            negative: false,
        }
    }

    /// Flips exactly one flag bit.
    pub fn set(&mut self, flag: StatusFlag, val: bool)
        ensures
            *final(self) == old(self).spec_set(flag, val),
    {
        match flag {
            StatusFlag::Carry => self.carry = val,
            StatusFlag::Zero => self.zero = val,
            StatusFlag::Interrupt => self.interrupt = val,
            StatusFlag::Decimal => self.decimal = val,
            StatusFlag::Break0 => self.break0 = val,
            StatusFlag::Break1 => self.break1 = val,
            StatusFlag::Overflow => self.overflow = val,
            StatusFlag::Negative => self.negative = val,
        }
    }

    /// Packs all eight flags into a status byte.
    pub fn to_byte(&self) -> (r: u8)
        ensures
            r == self.spec_to_byte(),
    {
        let mut res: u8 = 0;
        if self.carry {
            res = res + 1;
        }
        if self.zero {
            res = res + 2;
        }
        if self.interrupt {
            res = res + 4;
        }
        if self.decimal {
            res = res + 8;
        }
        if self.break0 {
            res = res + 16;
        }
        if self.break1 {
            res = res + 32;
        }
        if self.overflow {
            res = res + 64;
        }
        if self.negative {
            res = res + 128;
        }
        res
    }

    /// Restores the flags from a status byte, fixing the break bits.
    pub fn from_byte(val: u8) -> (r: Status)
        ensures
            r == Status::spec_from_byte(val),
    {
        Status {
            carry: (val & 0x01) != 0,
            zero: (val & 0x02) != 0,
            interrupt: (val & 0x04) != 0,
            decimal: (val & 0x08) != 0,
            break0: false,
            break1: true,
            overflow: (val & 0x40) != 0,
            negative: (val & 0x80) != 0,
        }
    }

    /// The packed byte round-trips losslessly through `from_byte`, except
    /// that the break bits come back fixed: bit 5 as one, bit 4 as zero.
    pub proof fn lemma_byte_round_trip(self)
        ensures
            Status::spec_from_byte(self.spec_to_byte()) == (Status {
                break0: false,
                break1: true,
                ..self
            }),
    {
        crate::bits::lemma_pack_bits(
            status_bit(self.carry),
            status_bit(self.zero),
            status_bit(self.interrupt),
            status_bit(self.decimal),
            status_bit(self.break0),
            status_bit(self.break1),
            status_bit(self.overflow),
            status_bit(self.negative),
        );
    }
}

} // verus!
