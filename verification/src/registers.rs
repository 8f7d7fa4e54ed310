use vstd::prelude::*;

use crate::flags::{byte_to_flags, flags_to_byte, FlagsRegister};

verus! {

/// The eight-bit registers of the CPU. B/C, D/E, H/L and A/F pair up into
/// sixteen-bit registers, the first of each pair holding the high byte.
#[derive(Clone, Copy, Debug, PartialEq, Eq, Structural)]
pub struct Registers {
    pub a: u8,
    pub b: u8,
    pub c: u8,
    pub d: u8,
    pub e: u8,
    pub f: FlagsRegister,
    pub h: u8,
    pub l: u8,
}

/// The sixteen-bit value of a high byte and a low byte.
pub open spec fn word(high: u8, low: u8) -> u16 {
    (high as int * 256 + low as int) as u16
}

/// The high byte of a sixteen-bit value.
pub open spec fn high_byte(v: u16) -> u8 {
    (v / 256) as u8
}

/// The low byte of a sixteen-bit value.
pub open spec fn low_byte(v: u16) -> u8 {
    (v % 256) as u8
}

pub proof fn lemma_word_parts(v: u16)
    ensures
        word(high_byte(v), low_byte(v)) == v,
{
}

pub proof fn lemma_split_word(v: u16)
    by (bit_vector)
    ensures
        ((v >> 8u16) & 0xFFu16) as u8 == v / 256,
        (v & 0xFFu16) as u8 == v % 256,
        ((v & 0xFF00u16) >> 8u16) as u8 == v / 256,
        (v >> 8u16) as u8 == v / 256,
{
}

pub proof fn lemma_join_word(high: u8, low: u8)
    by (bit_vector)
    ensures
        ((high as u16) << 8u16) | (low as u16) == (high as u16) * 256 + (low as u16),
{
}

impl Registers {
    pub open spec fn af(self) -> u16 {
        word(self.a, flags_to_byte(self.f))
    }

    pub open spec fn bc(self) -> u16 {
        word(self.b, self.c)
    }

    pub open spec fn de(self) -> u16 {
        word(self.d, self.e)
    }

    pub open spec fn hl(self) -> u16 {
        word(self.h, self.l)
    }

    pub open spec fn with_af(self, v: u16) -> Registers {
        Registers { a: high_byte(v), f: byte_to_flags(low_byte(v)), ..self }
    }

    pub open spec fn with_bc(self, v: u16) -> Registers {
        Registers { b: high_byte(v), c: low_byte(v), ..self }
    }

    pub open spec fn with_de(self, v: u16) -> Registers {
        Registers { d: high_byte(v), e: low_byte(v), ..self }
    }

    pub open spec fn with_hl(self, v: u16) -> Registers {
        Registers { h: high_byte(v), l: low_byte(v), ..self }
    }

    /// All registers and flags cleared.
    pub fn new() -> (r: Self)
        ensures
            r == (Registers {
                a: 0,
                b: 0,
                c: 0,
                d: 0,
                e: 0,
                f: FlagsRegister { zero: false, subtract: false, half_carry: false, carry: false },
                h: 0,
                l: 0,
            }),
    {
        Registers {
            a: 0,
            b: 0,
            c: 0,
            d: 0,
            e: 0,
            f: FlagsRegister { zero: false, subtract: false, half_carry: false, carry: false },
            h: 0,
            l: 0,
        }
    }

    pub fn get_af(&self) -> (r: u16)
        ensures
            r == self.af(),
    {
        let f: u8 = u8::from(self.f);
        proof {
            lemma_join_word(self.a, f);
        }
        ((self.a as u16) << 8) | f as u16
    }

    pub fn set_af(&mut self, val: u16)
        ensures
            *final(self) == old(self).with_af(val),
    {
        proof {
            lemma_split_word(val);
        }
        self.a = ((val >> 8) & 0xFF) as u8;
        self.f = FlagsRegister::from((val & 0xFF) as u8);
    }

    pub fn get_bc(&self) -> (r: u16)
        ensures
            r == self.bc(),
    {
        proof {
            lemma_join_word(self.b, self.c);
        }
        ((self.b as u16) << 8) | self.c as u16
    }

    pub fn set_bc(&mut self, val: u16)
        ensures
            *final(self) == old(self).with_bc(val),
    {
        proof {
            lemma_split_word(val);
        }
        self.b = ((val >> 8) & 0xFF) as u8;
        self.c = (val & 0xFF) as u8;
    }

    pub fn get_de(&self) -> (r: u16)
        ensures
            r == self.de(),
    {
        proof {
            lemma_join_word(self.d, self.e);
        }
        ((self.d as u16) << 8) | self.e as u16
    }

    pub fn set_de(&mut self, val: u16)
        ensures
            *final(self) == old(self).with_de(val),
    {
        proof {
            lemma_split_word(val);
        }
        self.d = ((val >> 8) & 0xFF) as u8;
        self.e = (val & 0xFF) as u8;
    }

    pub fn get_hl(&self) -> (r: u16)
        ensures
            r == self.hl(),
    {
        proof {
            lemma_join_word(self.h, self.l);
        }
        ((self.h as u16) << 8) | self.l as u16
    }

    pub fn set_hl(&mut self, val: u16)
        ensures
            *final(self) == old(self).with_hl(val),
    {
        proof {
            lemma_split_word(val);
        }
        self.h = ((val >> 8) & 0xFF) as u8;
        self.l = (val & 0xFF) as u8;
    }
}

/// Writing a register pair and reading it back gives the value written; for AF
/// the low nibble of F does not exist and reads back as zero.
pub proof fn lemma_pair_write_read(r: Registers, v: u16)
    ensures
        r.with_bc(v).bc() == v,
        r.with_de(v).de() == v,
        r.with_hl(v).hl() == v,
        r.with_af(v).af() == v - v % 16,
{
    crate::flags::lemma_byte_round_trip(low_byte(v));
}

/// Writing one register pair leaves the other pairs as they were.
pub proof fn lemma_pair_write_independent(r: Registers, v: u16)
    ensures
        r.with_bc(v).de() == r.de() && r.with_bc(v).hl() == r.hl() && r.with_bc(v).af() == r.af(),
        r.with_de(v).bc() == r.bc() && r.with_de(v).hl() == r.hl() && r.with_de(v).af() == r.af(),
        r.with_hl(v).bc() == r.bc() && r.with_hl(v).de() == r.de() && r.with_hl(v).af() == r.af(),
        r.with_af(v).bc() == r.bc() && r.with_af(v).de() == r.de() && r.with_af(v).hl() == r.hl(),
{
}

} // verus!
