//! The radius-and-colour mapping read by the host each tick.

use vstd::prelude::*;

use crate::amplitude::Rgb;
use crate::amplitude::clamp_milli;
use crate::amplitude::circle_color_of_milli;
use crate::amplitude::radius_milli_spec;
use crate::amplitude::red_level_spec;
use crate::amplitude::blue_level_spec;
use crate::amplitude::lemma_levels_range;
use crate::amplitude::rgb_black;

verus! {

/// Map an optional amplitude (in thousandths of full scale) to a circle:
/// a radius in thousandths of a pixel together with a colour. An absent
/// sample gives a zero radius and black; a present one is clamped to the
/// nominal range, the radius grows linearly from 0 to 200, red and blue
/// interpolate the two ends of the range, and green is their unsigned
/// difference.
pub fn number_to_circle(value: Option<i32>) -> (rc: (u32, Rgb))
    ensures
        value is None ==> rc == (0u32, rgb_black()),
        value matches Some(m) ==> rc.0 == radius_milli_spec(m as int) && rc.1
            == circle_color_of_milli(m as int),
{
    match value {
        None => (0u32, Rgb { red: 0, green: 0, blue: 0 }),
        Some(m) => {
            let cl = clamp_milli(m);
            let red: i32 = ((1000 - cl) * 255 + 1000) / 2000;
            let blue: i32 = ((cl + 1000) * 255 + 1000) / 2000;
            let green: i32 = if red >= blue {
                red - blue
            } else {
                blue - red
            };
            let radius: i32 = (cl + 1000) * 100;
            proof {
                lemma_levels_range(m as int);
                assert(red == red_level_spec(m as int));
                assert(blue == blue_level_spec(m as int));
                assert(radius == radius_milli_spec(m as int));
            }
            (radius as u32, Rgb { red: red as u8, green: green as u8, blue: blue as u8 })
        },
    }
}

} // verus!
