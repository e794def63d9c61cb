//! PWM outputs: the counter wrap value that gives a frequency, and the
//! backlight duty cycle a brightness value drives.

use vstd::prelude::*;

use super::hid::MAX_BRIGHTNESS;

verus! {

/// Duty cycle for `brightness` on a PWM whose full scale is `max_duty`:
/// `brightness * max_duty / MAX_BRIGHTNESS`, rounded down and truncated to
/// 16 bits.
pub fn scale_to_duty(brightness: u16, max_duty: u16) -> (r: u16)
    ensures
        r == ((brightness as int * max_duty as int) / MAX_BRIGHTNESS as int) as u16,
        brightness <= MAX_BRIGHTNESS ==> r as int == (brightness as int * max_duty as int)
            / MAX_BRIGHTNESS as int && r <= max_duty,
{
    assert(brightness as int * max_duty as int <= 0xffff * 0xffff) by (nonlinear_arith)
        requires
            brightness <= 0xffff,
            max_duty <= 0xffff,
    ;
    let scaled = (brightness as u32 * max_duty as u32) / MAX_BRIGHTNESS as u32;
    proof {
        if brightness <= MAX_BRIGHTNESS {
            assert((brightness as int * max_duty as int) / 1023 <= max_duty as int) by (nonlinear_arith)
                requires
                    brightness <= 1023,
            ;
        }
    }
    #[verifier::truncate] (scaled as u16)
}

/// Backlight PWM frequency.
pub const BACKLIGHT_FREQUENCY_HZ: u32 = 13_000;

/// Fan PWM frequency (Intel 4-Wire PWM Fan spec, S2.1).
pub const FAN_PWM_FREQUENCY_HZ: u32 = 25_000;

/// Counter wrap value (`top`) of a PWM slice clocked at `clk_sys_hz` through
/// `divider` that runs at `frequency_hz`: one count less than the clock
/// cycles per period, the quotient taken to 16 bits.
pub fn pwm_top(clk_sys_hz: u32, frequency_hz: u32, divider: u8) -> (r: u16)
    requires
        frequency_hz * divider > 0,
        frequency_hz * divider <= u32::MAX,
        (clk_sys_hz as int / (frequency_hz as int * divider as int)) as u16 >= 1,
    ensures
        r == (clk_sys_hz as int / (frequency_hz as int * divider as int)) as u16 - 1,
{
    let per_period = clk_sys_hz / (frequency_hz * divider as u32);
    let top = #[verifier::truncate] (per_period as u16);
    top - 1
}

} // verus!
