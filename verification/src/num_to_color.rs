//! The colour mapping read by the host each tick.

use vstd::prelude::*;

use crate::amplitude::Rgb;
use crate::amplitude::clamp_milli;
use crate::amplitude::color_of_milli;
use crate::amplitude::red_level_spec;
use crate::amplitude::blue_level_spec;
use crate::amplitude::lemma_levels_range;
use crate::amplitude::rgb_black;

verus! {

/// Map an optional amplitude (in thousandths of full scale) to a colour.
/// An absent sample is black; a present one is clamped to the nominal
/// range, red and blue interpolate its two ends, and green completes the
/// larger of the two to white.
pub fn number_to_color(value: Option<i32>) -> (c: Rgb)
    ensures
        value is None ==> c == rgb_black(),
        value matches Some(m) ==> c == color_of_milli(m as int),
{
    match value {
        None => Rgb { red: 0, green: 0, blue: 0 },
        Some(m) => {
            let cl = clamp_milli(m);
            let red: i32 = ((1000 - cl) * 255 + 1000) / 2000;
            let blue: i32 = ((cl + 1000) * 255 + 1000) / 2000;
            let mx: i32 = if red >= blue {
                red
            } else {
                blue
            };
            let green: i32 = 255 - mx;
            proof {
                lemma_levels_range(m as int);
                assert(red == red_level_spec(m as int));
                assert(blue == blue_level_spec(m as int));
            }
            Rgb { red: red as u8, green: green as u8, blue: blue as u8 }
        },
    }
}

} // verus!
