//! The WS2812 brightness indicator: mirrors the backlight brightness as a
//! grey level of up to 50% intensity.

use vstd::prelude::*;

use crate::protocol::MAX_BRIGHTNESS;

verus! {

/// 50% of `u8::MAX`.
pub const MAX_INTENSITY: u32 = 127;

/// Intensity of each of the red, green and blue components for a brightness
/// level: `level * MAX_INTENSITY / MAX_BRIGHTNESS`, truncated to a byte.
pub fn render(level: u16) -> (r: u8)
    ensures
        r == ((level as int * MAX_INTENSITY as int) / MAX_BRIGHTNESS as int) as u8,
        level <= MAX_BRIGHTNESS ==> r as int == (level as int * MAX_INTENSITY as int)
            / MAX_BRIGHTNESS as int && r <= MAX_INTENSITY,
{
    let scaled = (level as u32 * MAX_INTENSITY) / MAX_BRIGHTNESS as u32;
    proof {
        if level <= MAX_BRIGHTNESS {
            assert((level as int * 127) / 1023 <= 127) by (nonlinear_arith)
                requires
                    level <= 1023,
            ;
        }
    }
    #[verifier::truncate] (scaled as u8)
}

} // verus!
