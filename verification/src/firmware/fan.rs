//! The board fan: PWM duty for a commanded speed, and speed measured from
//! the tachometer's pulse counter.

use vstd::prelude::*;

use crate::fan_control::FanState;

verus! {

/// Rated speed of the fan (Delta BFB1012MD).
pub const MAX_RPM: u16 = 3200;

/// Speed the fan needs to start reliably.
pub const MIN_START_RPM: u16 = 600;

/// Tach reading below which a fan commanded on counts as not spinning;
/// comfortably below idle so an ordinary spin-up does not trip the fail-safe.
pub const MIN_PLAUSIBLE_RPM: u16 = 300;

/// How long the tach may stay implausibly low before the fan fails fully-on,
/// in ms: long enough to clear a normal spin-up.
pub const TACH_FAIL_TIMEOUT_MS: u64 = 3000;

/// Interval of the fan control loop, in ms.
pub const TICK_MS: u64 = 500;

/// PC-style fans emit two tach pulses per revolution (Intel 4-Wire PWM Fan
/// spec, S3).
pub const TACH_PULSES_PER_REV: u32 = 2;

/// The speed actually commanded for a requested one (at most `max_rpm`) and
/// the PWM duty that drives it, scaled against `max_duty`.
pub fn duty_for_rpm(rpm: u16, max_rpm: u16, max_duty: u16) -> (r: (u16, u16))
    requires
        max_rpm > 0,
    ensures
        r.0 == if rpm <= max_rpm {
            rpm
        } else {
            max_rpm
        },
        r.1 as int == (r.0 as int * max_duty as int) / max_rpm as int,
        r.1 <= max_duty,
{
    let rpm = if rpm <= max_rpm {
        rpm
    } else {
        max_rpm
    };
    assert(rpm as int * max_duty as int <= 0xffff * 0xffff) by (nonlinear_arith)
        requires
            rpm <= 0xffff,
            max_duty <= 0xffff,
    ;
    assert((rpm as int * max_duty as int) / max_rpm as int <= max_duty as int) by (nonlinear_arith)
        requires
            rpm <= max_rpm,
            max_rpm > 0,
    ;
    let duty = (rpm as u32 * max_duty as u32) / max_rpm as u32;
    (rpm, duty as u16)
}

/// Fan speed from two samples of the tach's free-running 16-bit pulse
/// counter taken `elapsed_ms` apart (at least 1ms is assumed): whole
/// revolutions since the last sample, per minute, capped at `u16::MAX`.
pub fn tach_rpm(counter: u16, last_counter: u16, elapsed_ms: u64) -> (r: u16)
    ensures
        ({
            let pulses: int = (counter as int - last_counter as int) % 0x10000;
            let ms: int = if elapsed_ms == 0 {
                1
            } else {
                elapsed_ms as int
            };
            let rpm: int = (pulses / TACH_PULSES_PER_REV as int) * 60_000 / ms;
            r == if rpm <= 0xffff {
                rpm
            } else {
                0xffff
            }
        }),
{
    let ms = if elapsed_ms == 0 {
        1
    } else {
        elapsed_ms
    };
    let pulses = counter.wrapping_sub(last_counter) as u32;
    let revolutions = pulses / TACH_PULSES_PER_REV;
    assert(revolutions as int * 60_000 <= 0xffff * 60_000) by (nonlinear_arith)
        requires
            revolutions <= 0xffff,
    ;
    let rpm = revolutions as u64 * 60_000 / ms;
    if rpm <= 0xffff {
        rpm as u16
    } else {
        0xffff
    }
}

/// Whether a control-loop tick is the one at which the controller latched
/// failed: the state is [`FanState::Failed`] and the previous tick's was not
/// (or there was none), so the failure is reported once.
pub fn newly_failed(last_state: Option<FanState>, state: FanState) -> (r: bool)
    ensures
        r == (state == FanState::Failed && last_state != Some(FanState::Failed)),
{
    match state {
        FanState::Failed => match last_state {
            Some(FanState::Failed) => false,
            _ => true,
        },
        FanState::Running(_) => false,
    }
}

} // verus!
