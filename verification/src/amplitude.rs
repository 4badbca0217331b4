//! Fixed-point amplitude model and the arithmetic behind the visual mappings.
//!
//! Amplitudes are carried as signed thousandths of full scale: -1000 stands
//! for -1.0, 1000 for 1.0. Decoded samples arrive as full-scale 32-bit
//! integers and are brought into this unit by `raw_to_milli`. The colour
//! channel maps below are the exact integer forms of `round((1 - v) * 127.5)`
//! and `round((v + 1) * 127.5)` for `v` in units of one thousandth, rounding
//! halves away from zero.

use vstd::prelude::*;

verus! {

/// An RGB colour with 8-bit channels.
#[derive(Clone, Copy, PartialEq, Eq, Structural, Debug)]
pub struct Rgb {
    pub red: u8,
    pub green: u8,
    pub blue: u8,
}

pub open spec fn rgb_black() -> Rgb {
    Rgb { red: 0, green: 0, blue: 0 }
}

/// Saturation of an amplitude to the nominal range [-1000, 1000].
pub open spec fn clamp_milli_spec(m: int) -> int {
    if m < -1000 {
        -1000
    } else if m > 1000 {
        1000
    } else {
        m
    }
}

/// Saturate an amplitude to the nominal [-1.0, 1.0] range.
pub fn clamp_milli(m: i32) -> (r: i32)
    ensures
        r == clamp_milli_spec(m as int),
{
    if m < -1000 {
        -1000
    } else if m > 1000 {
        1000
    } else {
        m
    }
}

/// The red channel: round((1 - v) * 127.5) over clamped thousandths.
pub open spec fn red_level_spec(m: int) -> int {
    ((1000 - clamp_milli_spec(m)) * 255 + 1000) / 2000
}

/// The blue channel: round((v + 1) * 127.5) over clamped thousandths.
pub open spec fn blue_level_spec(m: int) -> int {
    ((clamp_milli_spec(m) + 1000) * 255 + 1000) / 2000
}

/// The radius of the amplitude circle, in thousandths of a pixel:
/// (v + 1) * 100 over clamped thousandths, so 0 at -1.0 and 200 at 1.0.
pub open spec fn radius_milli_spec(m: int) -> int {
    (clamp_milli_spec(m) + 1000) * 100
}

/// Both colour channel maps stay within 8 bits for every amplitude.
pub proof fn lemma_levels_range(m: int)
    ensures
        0 <= red_level_spec(m) <= 255,
        0 <= blue_level_spec(m) <= 255,
{
    assert(-1000 <= clamp_milli_spec(m) <= 1000);
}

/// The colour of a present amplitude: red and blue interpolate the ends of
/// the range, green is the remainder to white.
pub open spec fn color_of_milli(m: int) -> Rgb {
    let r = red_level_spec(m);
    let b = blue_level_spec(m);
    let g = 255 - (if r >= b {
        r
    } else {
        b
    });
    Rgb { red: r as u8, green: g as u8, blue: b as u8 }
}

/// The circle colour of a present amplitude: red and blue as for
/// `color_of_milli`, green the unsigned difference of the two.
pub open spec fn circle_color_of_milli(m: int) -> Rgb {
    let r = red_level_spec(m);
    let b = blue_level_spec(m);
    let g = if r >= b {
        r - b
    } else {
        b - r
    };
    Rgb { red: r as u8, green: g as u8, blue: b as u8 }
}

/// Full-scale 32-bit samples convert to thousandths by scaling with
/// 1000 / 2^31 and rounding halves away from zero.
pub open spec fn milli_of_raw_spec(s: int) -> int {
    if s >= 0 {
        (s * 1000 + 1073741824) / 2147483648
    } else {
        -(((0 - s) * 1000 + 1073741824) / 2147483648)
    }
}

/// Convert a full-scale 32-bit sample to thousandths of full scale.
pub fn raw_to_milli(s: i32) -> (r: i32)
    ensures
        r == milli_of_raw_spec(s as int),
        -1000 <= r <= 1000,
{
    let v: i64 = s as i64;
    if v >= 0 {
        let q: i64 = (v * 1000 + 1073741824) / 2147483648;
        assert(0 <= q <= 1000);
        q as i32
    } else {
        let q: i64 = ((0 - v) * 1000 + 1073741824) / 2147483648;
        assert(0 <= q <= 1000);
        0 - (q as i32)
    }
}

/// On the nominal range the channel maps are exactly the linear forms of
/// round((1 - v) * 127.5) and round((v + 1) * 127.5), and green completes
/// the larger of the two to white.
pub proof fn lemma_color_formula(m: int)
    requires
        -1000 <= m <= 1000,
    ensures
        red_level_spec(m) == ((1000 - m) * 255 + 1000) / 2000,
        blue_level_spec(m) == ((m + 1000) * 255 + 1000) / 2000,
        color_of_milli(m).green as int == 255 - (if red_level_spec(m) >= blue_level_spec(m) {
            red_level_spec(m)
        } else {
            blue_level_spec(m)
        }),
{
    lemma_levels_range(m);
}

/// Mapping an amplitude and mapping its clamped value give the same visuals.
pub proof fn lemma_clamp_idempotent(m: int)
    ensures
        color_of_milli(m) == color_of_milli(clamp_milli_spec(m)),
        circle_color_of_milli(m) == circle_color_of_milli(clamp_milli_spec(m)),
        radius_milli_spec(m) == radius_milli_spec(clamp_milli_spec(m)),
{
    assert(clamp_milli_spec(clamp_milli_spec(m)) == clamp_milli_spec(m));
}

/// The circle radius never shrinks as the amplitude grows.
pub proof fn lemma_radius_monotone(m1: int, m2: int)
    requires
        m1 <= m2,
    ensures
        radius_milli_spec(m1) <= radius_milli_spec(m2),
{
    assert(clamp_milli_spec(m1) <= clamp_milli_spec(m2));
}

/// The radius spans [0, 200] thousandfold across the nominal range, with
/// the midpoint at 100.
pub proof fn lemma_radius_endpoints()
    ensures
        radius_milli_spec(-1000) == 0,
        radius_milli_spec(0) == 100000,
        radius_milli_spec(1000) == 200000,
{
}

} // verus!
