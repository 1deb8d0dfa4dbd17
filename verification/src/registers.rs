//! The register file: eight 8-bit registers, the packed flag register, and
//! the composite 16-bit views AF, BC, DE and HL derived from 8-bit halves.

use vstd::prelude::*;

verus! {

/// The four condition flags. Packed into a byte they occupy the top nibble
/// at fixed positions: bit 7 zero, bit 6 subtract, bit 5 half-carry,
/// bit 4 carry; bits 3..0 of the packed byte are always zero.
#[derive(Clone, Copy, PartialEq, Eq, Structural, Debug)]
pub struct FlagRegister {
    pub zero: bool,
    pub subtract: bool,
    pub half_carry: bool,
    pub carry: bool,
}

/// The packed byte form of the four flags: each set flag contributes its
/// fixed power of two, so the low nibble is always zero.
pub open spec fn spec_flag_byte(f: FlagRegister) -> u8 {
    ((if f.zero {
        0x80u8
    } else {
        0u8
    }) + (if f.subtract {
        0x40u8
    } else {
        0u8
    }) + (if f.half_carry {
        0x20u8
    } else {
        0u8
    }) + (if f.carry {
        0x10u8
    } else {
        0u8
    })) as u8
}

/// The four flags read out of a byte: each flag is the bit at its fixed
/// position; the low nibble of the byte is ignored.
pub open spec fn spec_flags_of_byte(b: u8) -> FlagRegister {
    FlagRegister {
        zero: b / 0x80 % 2 == 1,
        subtract: b / 0x40 % 2 == 1,
        half_carry: b / 0x20 % 2 == 1,
        carry: b / 0x10 % 2 == 1,
    }
}

impl core::convert::From<FlagRegister> for u8 {
    /// Pack the four flags into their byte form.
    fn from(flag: FlagRegister) -> (r: u8) {
        let z: u8 = if flag.zero {
            0x80
        } else {
            0
        };
        let s: u8 = if flag.subtract {
            0x40
        } else {
            0
        };
        let h: u8 = if flag.half_carry {
            0x20
        } else {
            0
        };
        let c: u8 = if flag.carry {
            0x10
        } else {
            0
        };
        z + s + h + c
    }
}

impl vstd::std_specs::convert::FromSpecImpl<FlagRegister> for u8 {
    open spec fn obeys_from_spec() -> bool {
        true
    }

    open spec fn from_spec(flag: FlagRegister) -> u8 {
        spec_flag_byte(flag)
    }
}

impl core::convert::From<u8> for FlagRegister {
    /// Unpack a byte into the four flags, ignoring its low nibble.
    fn from(byte: u8) -> (r: FlagRegister) {
        FlagRegister {
            zero: byte / 0x80 % 2 == 1,
            subtract: byte / 0x40 % 2 == 1,
            half_carry: byte / 0x20 % 2 == 1,
            carry: byte / 0x10 % 2 == 1,
        }
    }
}

impl vstd::std_specs::convert::FromSpecImpl<u8> for FlagRegister {
    open spec fn obeys_from_spec() -> bool {
        true
    }

    open spec fn from_spec(byte: u8) -> FlagRegister {
        spec_flags_of_byte(byte)
    }
}

/// Packing the flags always leaves the low nibble of the byte zero.
pub proof fn lemma_flag_byte_low_nibble(f: FlagRegister)
    ensures
        spec_flag_byte(f) % 0x10 == 0,
{
}

/// Round trip one way: a flag set packed to a byte and unpacked again is
/// unchanged.
pub proof fn lemma_flags_round_trip(f: FlagRegister)
    ensures
        spec_flags_of_byte(spec_flag_byte(f)) == f,
{
}

/// Round trip the other way: a byte unpacked to flags and packed again keeps
/// exactly its top nibble, so `pack(unpack(b)) & 0xF0 == b & 0xF0`.
pub proof fn lemma_flag_byte_round_trip(b: u8)
    ensures
        spec_flag_byte(spec_flags_of_byte(b)) == b & 0xF0,
{
    assert(((if b / 0x80 % 2 == 1 {
        0x80u8
    } else {
        0u8
    }) + (if b / 0x40 % 2 == 1 {
        0x40u8
    } else {
        0u8
    }) + (if b / 0x20 % 2 == 1 {
        0x20u8
    } else {
        0u8
    }) + (if b / 0x10 % 2 == 1 {
        0x10u8
    } else {
        0u8
    })) as u8 == b & 0xF0) by (bit_vector);
}

/// A 16-bit word assembled from a high and a low byte.
pub open spec fn word_of(hi: u8, lo: u8) -> u16 {
    (hi * 0x100 + lo) as u16
}

/// The high byte of a 16-bit word.
pub open spec fn word_hi(x: u16) -> u8 {
    (x / 0x100) as u8
}

/// The low byte of a 16-bit word.
pub open spec fn word_lo(x: u16) -> u8 {
    (x % 0x100) as u8
}

/// The eight 8-bit registers. F is the flag register, kept as four booleans
/// and materialized as a byte only at the AF boundary.
#[derive(Clone, Copy, PartialEq, Eq, Structural, Debug)]
pub struct Registers {
    pub a: u8,
    pub b: u8,
    pub c: u8,
    pub d: u8,
    pub e: u8,
    pub f: FlagRegister,
    pub h: u8,
    pub l: u8,
}

impl Registers {
    /// AF read as a 16-bit view: A in the high byte, the packed flag byte in
    /// the low byte.
    pub fn get_af(&self) -> (r: u16)
        ensures
            r == word_of(self.a, spec_flag_byte(self.f)),
    {
        (self.a as u16) * 0x100 + (u8::from(self.f) as u16)
    }

    /// AF written from a 16-bit value: A takes the high byte; the flags are
    /// re-derived from the low byte, whose low nibble is discarded.
    pub fn set_af(&mut self, value: u16)
        ensures
            final(self).a == word_hi(value),
            final(self).f == spec_flags_of_byte(word_lo(value)),
            final(self).b == old(self).b,
            final(self).c == old(self).c,
            final(self).d == old(self).d,
            final(self).e == old(self).e,
            final(self).h == old(self).h,
            final(self).l == old(self).l,
    {
        self.a = (value / 0x100) as u8;
        self.f = FlagRegister::from((value % 0x100) as u8);
    }

    /// BC read as a 16-bit view.
    pub fn get_bc(&self) -> (r: u16)
        ensures
            r == word_of(self.b, self.c),
    {
        (self.b as u16) * 0x100 + (self.c as u16)
    }

    /// BC written from a 16-bit value, split into its two bytes.
    pub fn set_bc(&mut self, value: u16)
        ensures
            final(self).b == word_hi(value),
            final(self).c == word_lo(value),
            final(self).a == old(self).a,
            final(self).d == old(self).d,
            final(self).e == old(self).e,
            final(self).f == old(self).f,
            final(self).h == old(self).h,
            final(self).l == old(self).l,
    {
        self.b = (value / 0x100) as u8;
        self.c = (value % 0x100) as u8;
    }

    /// DE read as a 16-bit view.
    pub fn get_de(&self) -> (r: u16)
        ensures
            r == word_of(self.d, self.e),
    {
        (self.d as u16) * 0x100 + (self.e as u16)
    }

    /// DE written from a 16-bit value, split into its two bytes.
    pub fn set_de(&mut self, value: u16)
        ensures
            final(self).d == word_hi(value),
            final(self).e == word_lo(value),
            final(self).a == old(self).a,
            final(self).b == old(self).b,
            final(self).c == old(self).c,
            final(self).f == old(self).f,
            final(self).h == old(self).h,
            final(self).l == old(self).l,
    {
        self.d = (value / 0x100) as u8;
        self.e = (value % 0x100) as u8;
    }

    /// HL read as a 16-bit view.
    pub fn get_hl(&self) -> (r: u16)
        ensures
            r == word_of(self.h, self.l),
    {
        (self.h as u16) * 0x100 + (self.l as u16)
    }

    /// HL written from a 16-bit value, split into its two bytes.
    pub fn set_hl(&mut self, value: u16)
        ensures
            final(self).h == word_hi(value),
            final(self).l == word_lo(value),
            final(self).a == old(self).a,
            final(self).b == old(self).b,
            final(self).c == old(self).c,
            final(self).d == old(self).d,
            final(self).e == old(self).e,
            final(self).f == old(self).f,
    {
        self.h = (value / 0x100) as u8;
        self.l = (value % 0x100) as u8;
    }
}

/// Composite-register round trip: for every 16-bit value, writing it through
/// a split into high and low bytes and reading the two bytes back as a word
/// gives the value unchanged. This is the law behind BC, DE and HL, and
/// behind reassembling a pushed or fetched 16-bit word from its two bytes.
pub proof fn lemma_composite_round_trip(x: u16)
    ensures
        word_of(word_hi(x), word_lo(x)) == x,
{
}

/// AF round trip: the low nibble of the written value is forced to zero on
/// the way in, and everything else survives unchanged.
pub proof fn lemma_af_round_trip(x: u16)
    ensures
        word_of(word_hi(x), spec_flag_byte(spec_flags_of_byte(word_lo(x)))) == x & 0xFFF0,
{
    lemma_flag_byte_round_trip(word_lo(x));
    assert((x / 0x100) * 0x100 + (((x % 0x100) as u8) & 0xF0) == x & 0xFFF0) by (bit_vector);
}

} // verus!
