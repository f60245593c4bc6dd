//! Colors and the lightness arithmetic of the avatar background.
//!
//! A color is three 8-bit channels. Its lightness is the mean of the three
//! normalized channels, an exact rational with denominator 765 (= 3 * 255);
//! it is kept here as the integer numerator so that every step of the color
//! math is exact. The raw color derived from the hash is pulled toward the
//! middle of the lightness range, so that no avatar comes out near-black or
//! near-white.

use vstd::prelude::*;

use crate::hash::fnv1a;
use crate::hash::hash;
use vstd::string::StringSliceAdditionalSpecFns;

verus! {

/// An RGB color: three 8-bit channels.
#[derive(Clone, Copy, Debug, PartialEq, Eq, Structural)]
pub struct Color {
    /// The red channel.
    pub r: u8,
    /// The green channel.
    pub g: u8,
    /// The blue channel.
    pub b: u8,
}

/// The lightness of a color, scaled by 765: the exact value of the mean
/// `(r/255 + g/255 + b/255) / 3` is `lightness_num(c) / 765`.
pub open spec fn lightness_num(c: Color) -> int {
    c.r + c.g + c.b
}

/// Clamp `num / den` to [-1, 1] and scale its magnitude to a byte offset:
/// `floor(|clamped| * 255)`.
pub open spec fn lighten_offset(num: int, den: int) -> int
    recommends
        den > 0,
{
    let mag = if num < 0 {
        -num
    } else {
        num
    };
    let clamped = if mag > den {
        den
    } else {
        mag
    };
    clamped * 255 / den
}

/// Add `x` to a channel, saturating at 255.
pub open spec fn sat_add(channel: int, x: int) -> u8
    recommends
        0 <= channel <= 255,
        0 <= x <= 255,
{
    if channel + x > 255 {
        255u8
    } else {
        (channel + x) as u8
    }
}

/// Subtract `x` from a channel, saturating at 0.
pub open spec fn sat_sub(channel: int, x: int) -> u8
    recommends
        0 <= channel <= 255,
        0 <= x <= 255,
{
    if channel - x < 0 {
        0u8
    } else {
        (channel - x) as u8
    }
}

/// The color `c` lightened (or, for a negative amount, darkened) by the
/// rational amount `num / den`: every channel moves together by the byte
/// offset `lighten_offset(num, den)`, saturating at the ends of the range.
pub open spec fn lighten_spec(c: Color, num: int, den: int) -> Color
    recommends
        den > 0,
{
    let x = lighten_offset(num, den);
    if num >= 0 {
        Color { r: sat_add(c.r as int, x), g: sat_add(c.g as int, x), b: sat_add(c.b as int, x) }
    } else {
        Color { r: sat_sub(c.r as int, x), g: sat_sub(c.g as int, x), b: sat_sub(c.b as int, x) }
    }
}

/// The compression of a raw color toward the middle of the lightness range:
/// a dark color (lightness below 1/2) is lightened by `(1 - l) / 8`, any
/// other color is darkened by `l / 8`, where `l` is its lightness.
pub open spec fn compress_spec(c: Color) -> Color {
    let s = lightness_num(c);
    if 2 * s < 765 {
        lighten_spec(c, 765 - s, 6120)
    } else {
        lighten_spec(c, -s, 6120)
    }
}

/// The raw color carried by the bits of the FNV-1a hash of `bytes`: the low
/// 40 bits of the hash are discarded and the remaining 24 bits are read as
/// three little-endian bytes, red first.
pub open spec fn raw_color(bytes: Seq<u8>) -> Color {
    Color {
        r: ((fnv1a(bytes) >> 40) & 0xff) as u8,
        g: ((fnv1a(bytes) >> 48) & 0xff) as u8,
        b: ((fnv1a(bytes) >> 56) & 0xff) as u8,
    }
}

/// The final avatar background: the raw hash-derived color, compressed.
pub open spec fn background_color(bytes: Seq<u8>) -> Color {
    compress_spec(raw_color(bytes))
}

impl Color {
    /// Create a new color from individual channels.
    pub fn new(r: u8, g: u8, b: u8) -> (c: Self)
        ensures
            c == (Color { r, g, b }),
    {
        Self { r, g, b }
    }

    /// Compute the lightness of a color, scaled by 765: the exact lightness
    /// `(r/255 + g/255 + b/255) / 3` of the color is the returned value over
    /// 765. Pure black maps to 0 and pure white to 765.
    pub fn lightness(self) -> (l: u16)
        ensures
            l == lightness_num(self),
            0 <= l <= 765,
    {
        self.r as u16 + self.g as u16 + self.b as u16
    }

    /// Lighten a color by the rational amount `num / den`, clamped to the
    /// range -1..1: a non-negative amount moves every channel up by
    /// `floor(|clamped amount| * 255)` saturating at 255, a negative amount
    /// moves every channel down by the same offset saturating at 0.
    pub fn lighten(self, num: i32, den: i32) -> (c: Self)
        requires
            den > 0,
        ensures
            c == lighten_spec(self, num as int, den as int),
    {
        let mag: u64 = if num >= 0 {
            num as u64
        } else {
            (-(num as i64)) as u64
        };
        let d: u64 = den as u64;
        let clamped: u64 = if mag > d {
            d
        } else {
            mag
        };
        assert(clamped as int * 255 / d as int <= 255) by (nonlinear_arith)
            requires
                0 < d,
                clamped <= d,
        ;
        let x: u8 = (clamped * 255 / d) as u8;
        if num >= 0 {
            Self::new(
                saturating_add_u8(self.r, x),
                saturating_add_u8(self.g, x),
                saturating_add_u8(self.b, x),
            )
        } else {
            Self::new(
                saturating_sub_u8(self.r, x),
                saturating_sub_u8(self.g, x),
                saturating_sub_u8(self.b, x),
            )
        }
    }
}

/// Add two bytes, saturating at 255.
fn saturating_add_u8(a: u8, x: u8) -> (r: u8)
    ensures
        r == sat_add(a as int, x as int),
{
    if a > 255 - x {
        255
    } else {
        a + x
    }
}

/// Subtract a byte from another, saturating at 0.
fn saturating_sub_u8(a: u8, x: u8) -> (r: u8)
    ensures
        r == sat_sub(a as int, x as int),
{
    if a < x {
        0
    } else {
        a - x
    }
}

/// Generate a raw (uncompressed) color from an input string: drop the low
/// 40 bits of its hash and read the remaining 24 bits as little-endian
/// channel bytes, red first.
pub fn generate_color(input: &str) -> (c: Color)
    ensures
        c == raw_color(input.spec_bytes()),
{
    let h = hash(input);
    Color::new(((h >> 40) & 0xff) as u8, ((h >> 48) & 0xff) as u8, ((h >> 56) & 0xff) as u8)
}

/// Compress the range of a color towards the middle: lighten a dark color
/// by `(1 - l) / 8` and darken any other color by `l / 8`, where `l` is its
/// lightness.
pub fn compress_color(c: Color) -> (r: Color)
    ensures
        r == compress_spec(c),
{
    let s = c.lightness();
    if 2 * (s as u32) < 765 {
        c.lighten(765 - (s as i32), 6120)
    } else {
        c.lighten(-(s as i32), 6120)
    }
}

/// Lightening any color by the full amount 1 yields pure white, and
/// darkening any color by the full amount -1 yields pure black; in
/// particular both are no-ops on white and black respectively.
pub proof fn lemma_lighten_saturates(c: Color)
    ensures
        lighten_spec(c, 1, 1) == (Color { r: 255, g: 255, b: 255 }),
        lighten_spec(c, -1, 1) == (Color { r: 0, g: 0, b: 0 }),
{
}

} // verus!
