//! The colour classifier: is a sampled pixel the bright marker?

use crate::config::Config;
use vstd::prelude::*;

verus! {

/// A sampled colour: three channel intensities, each in `0..=255`.
#[derive(Clone, Copy, Debug, PartialEq, Eq, Structural)]
pub struct Rgb {
    pub r: u8,
    pub g: u8,
    pub b: u8,
}

/// The colour that a packed colour value `0x00bbggrr` holds: red in the
/// lowest byte, then green, then blue. The highest byte is not read.
pub open spec fn unpack(colorref: u32) -> Rgb {
    Rgb {
        r: (colorref % 256) as u8,
        g: ((colorref / 256) % 256) as u8,
        b: ((colorref / 65536) % 256) as u8,
    }
}

impl Rgb {
    /// Unpacks a colour value of the form `0x00bbggrr`.
    pub fn from_colorref(colorref: u32) -> (color: Rgb)
        ensures
            color == unpack(colorref),
    {
        assert(colorref & 0xFF == colorref % 256) by (bit_vector);
        assert((colorref >> 8) & 0xFF == (colorref / 256) % 256) by (bit_vector);
        assert((colorref >> 16) & 0xFF == (colorref / 65536) % 256) by (bit_vector);
        Rgb {
            r: (colorref & 0xFF) as u8,
            g: ((colorref >> 8) & 0xFF) as u8,
            b: ((colorref >> 16) & 0xFF) as u8,
        }
    }
}

/// The overall-brightness test: the channel sum exceeds three times the
/// brightness threshold.
pub open spec fn is_bright(brightness_thresh: int, r: int, g: int, b: int) -> bool {
    r + g + b > 3 * brightness_thresh
}

/// The near-white test: every channel reaches `255 - tolerance`.
pub open spec fn is_near_white(tolerance: int, r: int, g: int, b: int) -> bool {
    r >= 255 - tolerance && g >= 255 - tolerance && b >= 255 - tolerance
}

/// A colour is the active marker when it passes either test; each test alone
/// suffices.
pub open spec fn is_active(brightness_thresh: int, tolerance: int, r: int, g: int, b: int) -> bool {
    is_bright(brightness_thresh, r, g, b) || is_near_white(tolerance, r, g, b)
}

/// Classifies one colour against the thresholds of `cfg`: `true` for the
/// active marker.
pub fn is_white(cfg: &Config, r: i32, g: i32, b: i32) -> (active: bool)
    ensures
        active == is_active(
            cfg@.brightness_thresh as int,
            cfg@.tolerance as int,
            r as int,
            g as int,
            b as int,
        ),
        r + g + b > 3 * cfg@.brightness_thresh ==> active,
        r >= 255 - cfg@.tolerance && g >= 255 - cfg@.tolerance && b >= 255 - cfg@.tolerance
            ==> active,
        !(r + g + b > 3 * cfg@.brightness_thresh) && !(r >= 255 - cfg@.tolerance && g >= 255
            - cfg@.tolerance && b >= 255 - cfg@.tolerance) ==> !active,
{
    let sum: i64 = r as i64 + g as i64 + b as i64;
    if sum > cfg.brightness_thresh3() {
        return true;
    }
    let white_min: i64 = cfg.white_min();
    r as i64 >= white_min && g as i64 >= white_min && b as i64 >= white_min
}

} // verus!
