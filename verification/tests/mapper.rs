//! The pure amplitude-to-visual mappings, checked on concrete values.

use audio_visualizer::amplitude::Rgb;
use audio_visualizer::amplitude::clamp_milli;
use audio_visualizer::amplitude::raw_to_milli;
use audio_visualizer::num_to_circle::number_to_circle;
use audio_visualizer::num_to_color::number_to_color;

fn rgb(red: u8, green: u8, blue: u8) -> Rgb {
    Rgb { red, green, blue }
}

#[test]
fn color_boundaries() {
    assert_eq!(number_to_color(Some(-1000)), rgb(255, 0, 0));
    assert_eq!(number_to_color(Some(1000)), rgb(0, 0, 255));
    assert_eq!(number_to_color(Some(0)), rgb(128, 127, 128));
}

#[test]
fn color_channel_formula() {
    // v = 0.5: red = round(0.5 * 127.5) = 64, blue = round(1.5 * 127.5) = 191,
    // green = 255 - max(64, 191) = 64.
    assert_eq!(number_to_color(Some(500)), rgb(64, 64, 191));
    // v = -0.5 mirrors it.
    assert_eq!(number_to_color(Some(-500)), rgb(191, 64, 64));
}

#[test]
fn color_clamps_out_of_range() {
    assert_eq!(number_to_color(Some(5000)), number_to_color(Some(1000)));
    assert_eq!(number_to_color(Some(-9000)), number_to_color(Some(-1000)));
    assert_eq!(number_to_color(Some(i32::MAX)), rgb(0, 0, 255));
    assert_eq!(number_to_color(Some(i32::MIN)), rgb(255, 0, 0));
}

#[test]
fn circle_clamps_out_of_range() {
    assert_eq!(number_to_circle(Some(5000)), number_to_circle(Some(1000)));
    assert_eq!(number_to_circle(Some(-9000)), number_to_circle(Some(-1000)));
}

#[test]
fn absent_sample_is_black() {
    assert_eq!(number_to_color(None), rgb(0, 0, 0));
    assert_eq!(number_to_circle(None), (0, rgb(0, 0, 0)));
}

#[test]
fn radius_endpoints_and_midpoint() {
    // Radii are in thousandths of a pixel: 0.0, 100.0 and 200.0 pixels.
    assert_eq!(number_to_circle(Some(-1000)).0, 0);
    assert_eq!(number_to_circle(Some(0)).0, 100_000);
    assert_eq!(number_to_circle(Some(1000)).0, 200_000);
}

#[test]
fn radius_monotone_on_samples() {
    let mut last = 0u32;
    let mut m: i32 = -1000;
    while m <= 1000 {
        let (r, _) = number_to_circle(Some(m));
        assert!(r >= last);
        last = r;
        m += 10;
    }
}

#[test]
fn circle_green_is_unsigned_difference() {
    // At v = -1: red = 255, blue = 0, so the circle's green is 255 where
    // the plain colour's green is 0.
    assert_eq!(number_to_circle(Some(-1000)).1, rgb(255, 255, 0));
    assert_eq!(number_to_color(Some(-1000)), rgb(255, 0, 0));
}

#[test]
fn clamp_saturates() {
    assert_eq!(clamp_milli(1500), 1000);
    assert_eq!(clamp_milli(-1500), -1000);
    assert_eq!(clamp_milli(999), 999);
}

#[test]
fn raw_to_milli_scales_full_range() {
    assert_eq!(raw_to_milli(0), 0);
    assert_eq!(raw_to_milli(i32::MAX), 1000);
    assert_eq!(raw_to_milli(i32::MIN), -1000);
    // Half scale, rounding the exact 500.5 away from zero.
    assert_eq!(raw_to_milli(1_073_741_824), 500);
    assert_eq!(raw_to_milli(-1_073_741_824), -500);
    // One 16-bit step above zero is far below half a thousandth.
    assert_eq!(raw_to_milli(1 << 16), 0);
}
