//! One sampling result: a monotonic timestamp and the two decoded
//! temperatures, in sixteenths of a degree Celsius (see the temperature
//! register module for the unit).
//!
//! The serialized record is 16 bytes: the tick count as a little-endian
//! 64-bit integer, then each temperature as a little-endian IEEE 754
//! single-precision value. Every sixteenths value is exactly representable
//! in that format, so the encoding is exact integer bit manipulation, laid
//! down by [`spec_f32_bits_of_sixteenths`].

use vstd::prelude::*;

verus! {

/// The floor of the base-two logarithm: how often a positive number can be
/// halved before reaching one.
pub open spec fn spec_ilog2(m: int) -> int
    decreases m,
{
    if m <= 1 {
        0
    } else {
        1 + spec_ilog2(m / 2)
    }
}

/// The IEEE 754 single-precision bit pattern of `s / 16`, for any `s` that
/// fits a 16-bit signed integer. Zero encodes as all-zero bits; any other
/// value is sign-magnitude: the sign in bit 31, the biased exponent of
/// `m / 16` — `ilog2(m) - 4 + 127` — in bits 23..31, and the magnitude,
/// normalized to 24 bits with the leading bit dropped, in bits 0..23. Every
/// such value has at most 16 significant bits, so nothing is rounded.
pub open spec fn spec_f32_bits_of_sixteenths(s: int) -> u32
    recommends
        -0x8000 <= s <= 0x7FFF,
{
    if s == 0 {
        0u32
    } else {
        let sign: u32 = if s < 0 {
            0x8000_0000u32
        } else {
            0u32
        };
        let m = if s < 0 {
            -s
        } else {
            s
        };
        let e = spec_ilog2(m);
        sign | (((123 + e) as u32) << 23u32) | (((m as u32) << ((23 - e) as u32)) & 0x7F_FFFF)
    }
}

/// The `i`-th byte of a little-endian integer encoding.
pub open spec fn spec_le_byte(v: u64, i: int) -> u8 {
    (v >> (8 * i)) as u8
}

/// The 16-byte serialized record of a measurement: ticks as a little-endian
/// 64-bit integer, then the two temperatures as little-endian IEEE 754
/// single-precision values.
pub open spec fn spec_record_bytes(m: Measurement) -> Seq<u8> {
    let in_bits = spec_f32_bits_of_sixteenths(m.in_temp_sixteenths as int) as u64;
    let out_bits = spec_f32_bits_of_sixteenths(m.out_temp_sixteenths as int) as u64;
    Seq::new(
        16,
        |i: int|
            if i < 8 {
                spec_le_byte(m.timestamp_ticks, i)
            } else if i < 12 {
                spec_le_byte(in_bits, i - 8)
            } else {
                spec_le_byte(out_bits, i - 12)
            },
    )
}

/// An immutable, copyable sampling result, produced at most once per
/// sampling cycle and owned by the queue until dequeued.
#[derive(Clone, Copy, Debug, PartialEq, Eq, Structural)]
pub struct Measurement {
    /// Monotonic tick count at the moment the sample was taken.
    pub timestamp_ticks: u64,
    /// Inside temperature, in sixteenths of a degree Celsius.
    pub in_temp_sixteenths: i16,
    /// Outside temperature, in sixteenths of a degree Celsius.
    pub out_temp_sixteenths: i16,
}

impl Measurement {
    /// Serialize this measurement into its 16-byte record, as laid down by
    /// [`spec_record_bytes`]: little-endian ticks, then the two
    /// temperatures as little-endian IEEE 754 single-precision values.
    pub fn to_bytes(&self) -> (r: Vec<u8>)
        ensures
            r@ == spec_record_bytes(*self),
            r@.len() == 16,
    {
        let mut bytes: Vec<u8> = Vec::new();
        let t = self.timestamp_ticks;
        bytes.push(t as u8);
        bytes.push((t >> 8u32) as u8);
        bytes.push((t >> 16u32) as u8);
        bytes.push((t >> 24u32) as u8);
        bytes.push((t >> 32u32) as u8);
        bytes.push((t >> 40u32) as u8);
        bytes.push((t >> 48u32) as u8);
        bytes.push((t >> 56u32) as u8);
        let in_bits = f32_bits_of_sixteenths(self.in_temp_sixteenths) as u64;
        bytes.push(in_bits as u8);
        bytes.push((in_bits >> 8u32) as u8);
        bytes.push((in_bits >> 16u32) as u8);
        bytes.push((in_bits >> 24u32) as u8);
        let out_bits = f32_bits_of_sixteenths(self.out_temp_sixteenths) as u64;
        bytes.push(out_bits as u8);
        bytes.push((out_bits >> 8u32) as u8);
        bytes.push((out_bits >> 16u32) as u8);
        bytes.push((out_bits >> 24u32) as u8);
        proof {
            assert(t as u8 == spec_le_byte(t, 0) && in_bits as u8 == spec_le_byte(in_bits, 0)
                && out_bits as u8 == spec_le_byte(out_bits, 0)) by (bit_vector);
            assert(bytes@ =~= spec_record_bytes(*self));
        }
        bytes
    }
}

/// The IEEE 754 single-precision bit pattern of `s / 16`, computed by
/// normalizing the magnitude, exactly as laid down by
/// [`spec_f32_bits_of_sixteenths`].
pub fn f32_bits_of_sixteenths(s: i16) -> (r: u32)
    ensures
        r == spec_f32_bits_of_sixteenths(s as int),
{
    if s == 0 {
        return 0;
    }
    let sign: u32 = if s < 0 {
        0x8000_0000
    } else {
        0
    };
    let wide: i32 = s as i32;
    let m: u32 = if wide < 0 {
        (-wide) as u32
    } else {
        wide as u32
    };
    let mut x: u32 = m;
    let mut e: u32 = 0;
    proof {
        assert(m >> 0u32 == m) by (bit_vector);
    }
    while x > 1
        invariant
            1 <= m <= 0x8000,
            e <= 15,
            x == m >> e,
            x >= 1,
            spec_ilog2(m as int) == e + spec_ilog2(x as int),
        decreases x,
    {
        proof {
            assert(m <= 0x8000 && (m >> e) > 1 && e <= 15 ==> e <= 14) by (bit_vector);
            assert((m >> e) > 1 && e <= 14 ==> ((m >> e) / 2 == m >> (e + 1) && m >> (e + 1)
                >= 1)) by (bit_vector);
        }
        x = x / 2;
        e = e + 1;
    }
    let frac: u32 = (m << (23 - e)) & 0x7F_FFFF;
    let exp: u32 = (123 + e) << 23u32;
    sign | exp | frac
}

impl Default for Measurement {
    /// The zero measurement: tick zero, both temperatures zero degrees.
    fn default() -> (r: Self)
        ensures
            r.timestamp_ticks == 0,
            r.in_temp_sixteenths == 0,
            r.out_temp_sixteenths == 0,
    {
        Measurement { timestamp_ticks: 0, in_temp_sixteenths: 0, out_temp_sixteenths: 0 }
    }
}

} // verus!
