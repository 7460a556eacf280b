//! Status register of the cycle-stepped engine: eight independent flag bits
//! with a packed-byte view.
//!
//! `to_p` packs all eight bits (carry at bit 0 up to negative at bit 7).
//! `update` restores carry, zero, interrupt-disable, decimal, overflow and
//! negative from a byte; bits 4 and 5 are deliberately not restored, per the
//! hardware convention for the two break bits.

use vstd::prelude::*;

verus! {

#[derive(Clone, Copy)]
pub struct CpuFlags {
    pub carry: bool,
    pub zero: bool,
    pub int_disable: bool,
    pub decimal_mode: bool,
    pub b4: bool,
    pub b5: bool,
    pub overflow: bool,
    pub negative: bool,
}

/// 1 when the flag is set, 0 when it is clear.
pub open spec fn flag_bit(b: bool) -> u8 {
    if b {
        1
    } else {
        0
    }
}

impl CpuFlags {
    /// The packed status byte: each flag at its documented bit position.
    pub open spec fn spec_to_p(self) -> u8 {
        (flag_bit(self.carry) + flag_bit(self.zero) * 2 + flag_bit(self.int_disable) * 4 + flag_bit(
            self.decimal_mode,
        ) * 8 + flag_bit(self.b4) * 16 + flag_bit(self.b5) * 32 + flag_bit(self.overflow) * 64
            + flag_bit(self.negative) * 128) as u8
    }

    /// The flag set decoded from a status byte, keeping the given break bits.
    pub open spec fn spec_from_byte(val: u8, b4: bool, b5: bool) -> CpuFlags {
        CpuFlags {
            carry: (val & 0x01) != 0,
            zero: (val & 0x02) != 0,
            int_disable: (val & 0x04) != 0,
            decimal_mode: (val & 0x08) != 0,
            b4: b4,
            b5: b5,
            overflow: (val & 0x40) != 0,
            negative: (val & 0x80) != 0,
        }
    }

    /// Power-on state: interrupt-disable and bit 5 set, all else clear.
    pub open spec fn spec_power_on() -> CpuFlags {
        CpuFlags {
            carry: false,
            zero: false,
            int_disable: true,
            decimal_mode: false,
            b4: false,
            b5: true,
            overflow: false,
            negative: false,
        }
    }

    /// Power-on state: interrupt-disable and bit 5 set, all else clear.
    pub fn new() -> (r: CpuFlags)
        ensures
            r == CpuFlags::spec_power_on(),
    {
        CpuFlags {
            carry: false,
            zero: false,
            int_disable: true,
            decimal_mode: false,
            b4: false,
            b5: true,
            overflow: false,
            negative: false,
        }
    }

    /// Overwrites the six architectural flags from `val`; bits 4 and 5 of
    /// `val` are ignored and the break bits keep their previous values.
    pub fn update(&mut self, val: u8)
        ensures
            *final(self) == CpuFlags::spec_from_byte(val, old(self).b4, old(self).b5),
    {
        self.carry = (val & 0x01) != 0;
        self.zero = (val & 0x02) != 0;
        self.int_disable = (val & 0x04) != 0;
        self.decimal_mode = (val & 0x08) != 0;
        self.overflow = (val & 0x40) != 0;
        self.negative = (val & 0x80) != 0;
    }

    /// Packs all eight flags into a status byte.
    pub fn to_p(&self) -> (r: u8)
        ensures
            r == self.spec_to_p(),
    {
        let mut ret: u8 = 0;
        if self.carry {
            ret = ret + 1;
        }
        if self.zero {
            ret = ret + 2;
        }
        if self.int_disable {
            ret = ret + 4;
        }
        if self.decimal_mode {
            ret = ret + 8;
        }
        if self.b4 {
            ret = ret + 16;
        }
        if self.b5 {
            ret = ret + 32;
        }
        if self.overflow {
            ret = ret + 64;
        }
        if self.negative {
            ret = ret + 128;
        }
        ret
    }

    /// The packed byte decodes back to the flags it was packed from: the six
    /// architectural flags round-trip, and the break bits of the result are
    /// the ones handed in, not the ones that were packed.
    pub proof fn lemma_to_p_round_trip(self, b4: bool, b5: bool)
        ensures
            CpuFlags::spec_from_byte(self.spec_to_p(), b4, b5) == (CpuFlags {
                b4: b4,
                b5: b5,
                ..self
            }),
    {
        crate::bits::lemma_pack_bits(
            flag_bit(self.carry),
            flag_bit(self.zero),
            flag_bit(self.int_disable),
            flag_bit(self.decimal_mode),
            flag_bit(self.b4),
            flag_bit(self.b5),
            flag_bit(self.overflow),
            flag_bit(self.negative),
        );
    }
}

} // verus!
