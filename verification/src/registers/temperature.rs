//! The ambient-temperature register and its bit-exact decoding.
//!
//! A temperature value is carried here in sixteenths of a degree Celsius:
//! every representable reading is a whole number of sixteenths at every
//! resolution, so the decode is exact integer arithmetic. One degree is 16
//! units; 25 degrees is 400.
//!
//! When the sign flag is set the decode recovers `256 - combo`, the positive
//! magnitude of the negative reading, and never negates it before adding the
//! fractional part. The decoded value is therefore never negative. This
//! mirrors the device-facing formula exactly, pending hardware test vectors;
//! it is deliberately not "corrected" here.

use crate::registers::register::{Register, RegisterPointer, RegisterShape};
use crate::registers::resolution::TempRes;
use vstd::prelude::*;

verus! {

/// The sign flag: bit 4 of the masked most significant byte.
pub const SIGN_BIT: u8 = 0x10;

/// The whole-degree part of a reading: the low five bits of the most
/// significant byte joined with the high nibble of the least significant
/// byte; if the sign flag is set, the flag is cleared and the magnitude
/// `256 - combo` is taken instead. Always in 0..=511.
pub open spec fn spec_decimal_part(msb: u8, lsb: u8) -> int {
    let hi = msb & 0x1F;
    if hi & SIGN_BIT == SIGN_BIT {
        256 - (((hi & 0x0F) as int) * 16 + (lsb as int) / 16)
    } else {
        (hi as int) * 16 + (lsb as int) / 16
    }
}

/// How many low bits of the fractional nibble a resolution leaves as
/// "don't care": `3 - code`, so the coarsest resolution discards three.
pub open spec fn spec_dont_care_shift(res: TempRes) -> u8 {
    match res {
        TempRes::Deg_0_5C => 3,
        TempRes::Deg_0_25C => 2,
        TempRes::Deg_0_125C => 1,
        TempRes::Deg_0_0625C => 0,
    }
}

/// The fractional part of a reading in sixteenths of a degree: the low
/// nibble of the least significant byte with its `3 - code` low "don't
/// care" bits cleared. Always in 0..=15.
pub open spec fn spec_fractional_sixteenths(lsb: u8, res: TempRes) -> u8 {
    ((lsb & 0x0F) >> spec_dont_care_shift(res)) << spec_dont_care_shift(res)
}

/// A full reading in sixteenths of a degree Celsius.
pub open spec fn spec_celsius_sixteenths(msb: u8, lsb: u8, res: TempRes) -> int {
    spec_decimal_part(msb, lsb) * 16 + spec_fractional_sixteenths(lsb, res)
}

/// The whole-degree part never leaves 0..=511: the sign-flag branch yields
/// a magnitude in 1..=256, the other at most `0x1F * 16 + 15`.
pub proof fn lemma_decimal_part_bounds(msb: u8, lsb: u8)
    ensures
        0 <= spec_decimal_part(msb, lsb) <= 511,
{
    assert(msb & 0x1F <= 0x1F && (msb & 0x1F) & 0x0F <= 0x0F) by (bit_vector);
    assert(0 <= (lsb as int) / 16 <= 15);
}

/// The fractional part never exceeds fifteen sixteenths, at any resolution.
pub proof fn lemma_fractional_bounds(lsb: u8, res: TempRes)
    ensures
        0 <= spec_fractional_sixteenths(lsb, res) <= 15,
{
    let s = spec_dont_care_shift(res);
    assert(s <= 3 ==> (((lsb & 0x0F) >> s) << s) <= 15) by (bit_vector);
}

/// Law: with the sign bit clear and an empty fractional nibble, the decode
/// is resolution-independent. The bytes `0x01`, `0x90` yield exactly 25
/// degrees — 400 sixteenths — at every resolution: the whole-degree part is
/// `0x19`, and a zero nibble stays zero under every "don't care" shift.
pub proof fn lemma_decode_sign_clear_round_trip(res: TempRes)
    ensures
        spec_celsius_sixteenths(0x01, 0x90, res) == 400,
{
    assert(0x01u8 & 0x1F == 0x01 && 0x01u8 & 0x10 != 0x10) by (bit_vector);
    assert(spec_decimal_part(0x01, 0x90) == 25);
    let s = spec_dont_care_shift(res);
    assert((((0x90u8 & 0x0F) >> s) << s) == 0) by (bit_vector);
}

/// Typed view of the two-byte ambient-temperature register.
#[derive(Clone, Copy, Debug)]
pub struct Temperature {
    pub reg: Register,
}

impl Temperature {
    /// A fresh ambient-temperature register with a zeroed buffer.
    pub fn new() -> (r: Self)
        ensures
            r.reg@ == (RegisterShape {
                ptr: RegisterPointer::TempAmbient,
                b0: 0u8,
                b1: 0u8,
                len: 2int,
            }),
    {
        Self { reg: Register::new(RegisterPointer::TempAmbient, 2) }
    }

    /// The raw thirteen-bit reading: the 16-bit reinterpretation of the
    /// buffer with the three flag bits masked off.
    pub fn get_raw_temp(&self) -> (r: u16)
        ensures
            r == (self.reg@.b0 + self.reg@.b1 * 256) as u16 & 0x1FFF,
    {
        self.reg.as_u16() & 0x1FFF
    }

    /// The whole-degree part of a reading, decoded from the two register
    /// bytes as in [`spec_decimal_part`].
    pub fn get_decimal_part(&self, msb: u8, lsb: u8) -> (r: i16)
        ensures
            r == spec_decimal_part(msb, lsb),
    {
        let hi = msb & 0x1F;
        if hi & SIGN_BIT == SIGN_BIT {
            let low = hi & 0x0F;
            let combo = ((low as i16) << 4u16) | ((lsb as i16) >> 4u16);
            proof {
                let h = hi;
                let l = lsb;
                assert((((h & 0x0F) as i16) << 4u16) | ((l as i16) >> 4u16) == ((h
                    & 0x0F) as int) * 16 + (l as int) / 16) by (bit_vector);
                assert(((h & 0x0F) as int) * 16 + (l as int) / 16 <= 255) by (bit_vector);
            }
            256 - combo
        } else {
            let r = ((hi as i16) << 4u16) | ((lsb as i16) >> 4u16);
            proof {
                let m = msb;
                let l = lsb;
                assert((((m & 0x1F) as i16) << 4u16) | ((l as i16) >> 4u16) == ((m
                    & 0x1F) as int) * 16 + (l as int) / 16) by (bit_vector);
            }
            r
        }
    }

    /// The fractional part of a reading in sixteenths of a degree, decoded
    /// from the least significant byte as in [`spec_fractional_sixteenths`].
    pub fn get_fractional_sixteenths(&self, lsb: u8, res: TempRes) -> (r: u8)
        ensures
            r == spec_fractional_sixteenths(lsb, res),
    {
        let code = res.as_u8();
        let shift = 3 - code;
        let nibble = (lsb & 0x0F) >> shift;
        nibble << shift
    }

    /// The full reading of this register in sixteenths of a degree Celsius,
    /// at the given resolution.
    pub fn get_celsius_sixteenths(&self, res: TempRes) -> (r: i16)
        ensures
            r == spec_celsius_sixteenths(self.reg@.b0, self.reg@.b1, res),
            0 <= r <= 8191,
    {
        let hi = self.reg.get_msb();
        let lo = self.reg.get_lsb();
        let part_dec = self.get_decimal_part(hi, lo);
        let part_frac = self.get_fractional_sixteenths(lo, res);
        proof {
            lemma_decimal_part_bounds(hi, lo);
            lemma_fractional_bounds(lo, res);
        }
        part_dec * 16 + part_frac as i16
    }
}

} // verus!
