use std::time::Duration;

use cinemacontrol::fan_control::{FanState, TachFailSafe};

const TICK: Duration = Duration::from_millis(500);
const FAIL_TIMEOUT: Duration = Duration::from_secs(2);

fn controller() -> TachFailSafe {
    TachFailSafe::new(400, FAIL_TIMEOUT.as_nanos())
}

#[test]
fn does_not_fail_when_intentionally_stopped() {
    let mut c = controller();
    for _ in 0..10 {
        assert_eq!(c.stall_check(0, 0, TICK.as_nanos()), FanState::Running(0));
    }
}

#[test]
fn fails_fully_on_after_tach_silent_past_timeout() {
    let mut c = controller();
    let mut state = FanState::Running(0);
    for _ in 0..10 {
        state = c.stall_check(100, 0, TICK.as_nanos());
        if state == FanState::Failed {
            break;
        }
    }
    assert_eq!(state, FanState::Failed);
}

#[test]
fn does_not_fail_before_the_timeout_elapses() {
    let mut c = controller();
    assert_eq!(c.stall_check(100, 0, TICK.as_nanos()), FanState::Running(100));
}

#[test]
fn stall_timer_resets_once_tach_reads_plausible_again() {
    let mut c = controller();
    c.stall_check(100, 0, TICK.as_nanos());
    c.stall_check(100, 0, TICK.as_nanos());
    c.stall_check(100, 2000, TICK.as_nanos());
    let state = c.stall_check(100, 0, TICK.as_nanos());
    assert!(matches!(state, FanState::Running(_)));
}

#[test]
fn failed_state_latches_until_cleared() {
    let mut c = controller();
    let mut state = FanState::Running(0);
    for _ in 0..10 {
        state = c.stall_check(100, 0, TICK.as_nanos());
        if state == FanState::Failed {
            break;
        }
    }
    assert_eq!(state, FanState::Failed);
    assert_eq!(c.state(), FanState::Failed);
    assert!(c.is_failed());

    c.clear_fault();
    assert_eq!(c.state(), FanState::Running(0));
    assert!(matches!(c.stall_check(100, 2000, TICK.as_nanos()), FanState::Running(_)));
}

#[test]
fn latches_on_the_check_that_reaches_the_timeout() {
    let mut c = controller();
    for _ in 0..3 {
        assert_eq!(c.stall_check(50, 399, TICK.as_nanos()), FanState::Running(50));
    }
    assert_eq!(c.stall_check(50, 399, TICK.as_nanos()), FanState::Failed);
}

#[test]
fn fails_exactly_at_the_fourth_silent_tick() {
    // 4 ticks of 500ms reach the 2s timeout: the first three still report
    // the command, the fourth latches.
    let mut c = controller();
    for _ in 0..3 {
        assert_eq!(c.stall_check(100, 0, TICK.as_nanos()), FanState::Running(100));
    }
    assert_eq!(c.stall_check(100, 0, TICK.as_nanos()), FanState::Failed);
    assert_eq!(c.stalled_for_ns, 4 * TICK.as_nanos());
    assert!(c.is_failed());
}

#[test]
fn update_drives_fully_on_exactly_when_it_latches() {
    let mut c = controller();
    for _ in 0..3 {
        assert_eq!(c.after_reading(100, 0, TICK.as_nanos()), (FanState::Running(100), false));
    }
    assert_eq!(c.after_reading(100, 0, TICK.as_nanos()), (FanState::Failed, true));
    assert!(c.is_failed());
    c.clear_fault();
    assert_eq!(c.after_reading(60, 1500, TICK.as_nanos()), (FanState::Running(60), false));
}
