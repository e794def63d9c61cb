//! The tachometer fail-safe of the fan controller: while the fan is being
//! told to spin, the tach must confirm it is turning; if it stays silent for
//! longer than a timeout the controller latches fully-on.
//!
//! Durations are in nanoseconds, the exact resolution of
//! `core::time::Duration`.

use vstd::prelude::*;

verus! {

/// Largest duration `core::time::Duration` can hold, in nanoseconds.
pub const MAX_DURATION_NS: u128 = 18_446_744_073_709_551_615_999_999_999;

/// Current output of a fan controller: a PID-driven duty cycle, or the
/// fail-safe fully-on state.
#[derive(Debug, Clone, Copy, PartialEq, Eq, Structural)]
pub enum FanState {
    /// Running at `percent` (0..=100) of the fan's rated RPM.
    Running(u8),
    /// Latched fully-on after the tachometer failed to confirm rotation for
    /// longer than the timeout. Stays latched until cleared: a tach that
    /// starts reporting again could be a wiring glitch as easily as a real
    /// recovery, and running loud is a smaller problem than running too slow.
    Failed,
}

/// The tach fail-safe's state.
pub struct TachFailSafe {
    /// Tach reading below which, while a nonzero speed is commanded, the fan
    /// counts as not spinning.
    pub min_plausible_rpm: u16,
    /// How long that may persist before the fail-safe latches.
    pub tach_fail_timeout_ns: u128,
    /// How long it has persisted so far.
    pub stalled_for_ns: u128,
    pub state: FanState,
}

impl TachFailSafe {
    pub open spec fn valid(&self) -> bool {
        &&& self.tach_fail_timeout_ns <= MAX_DURATION_NS
        &&& self.stalled_for_ns <= MAX_DURATION_NS
    }

    pub fn new(min_plausible_rpm: u16, tach_fail_timeout_ns: u128) -> (r: Self)
        requires
            tach_fail_timeout_ns <= MAX_DURATION_NS,
        ensures
            r.valid(),
            r.min_plausible_rpm == min_plausible_rpm,
            r.tach_fail_timeout_ns == tach_fail_timeout_ns,
            r.stalled_for_ns == 0,
            r.state == FanState::Running(0),
    {
        TachFailSafe {
            min_plausible_rpm,
            tach_fail_timeout_ns,
            stalled_for_ns: 0,
            state: FanState::Running(0),
        }
    }

    pub fn state(&self) -> (r: FanState)
        ensures
            r == self.state,
    {
        self.state
    }

    /// Whether the fail-safe has latched. While it has, an update does
    /// nothing but report [`FanState::Failed`].
    pub fn is_failed(&self) -> (r: bool)
        ensures
            r == (self.state == FanState::Failed),
    {
        match self.state {
            FanState::Failed => true,
            FanState::Running(_) => false,
        }
    }

    /// Clears a latched failure and resets the stall timer.
    pub fn clear_fault(&mut self)
        requires
            old(self).valid(),
        ensures
            final(self).valid(),
            final(self).state == FanState::Running(0),
            final(self).stalled_for_ns == 0,
            final(self).min_plausible_rpm == old(self).min_plausible_rpm,
            final(self).tach_fail_timeout_ns == old(self).tach_fail_timeout_ns,
    {
        self.state = FanState::Running(0);
        self.stalled_for_ns = 0;
    }

    /// The decision an update takes once the commanded `percent` has been
    /// applied and the tach read back `rpm`, `dt_ns` after the previous
    /// update: the fail-safe check ([`TachFailSafe::stall_check`]), and
    /// whether the fan must now be driven fully on (it just latched failed).
    /// An update of a latched controller does no bus work and decides
    /// nothing ([`TachFailSafe::is_failed`]); see [`fan_update`].
    pub fn after_reading(&mut self, percent: u8, rpm: u16, dt_ns: u128) -> (r: (FanState, bool))
        requires
            old(self).valid(),
            old(self).state != FanState::Failed,
            is_stall(*old(self), percent, rpm) ==> old(self).stalled_for_ns + dt_ns
                <= MAX_DURATION_NS,
        ensures
            final(self).valid(),
            (*final(self), r.0, r.1) == fan_update(*old(self), percent, rpm, dt_ns),
    {
        let state = self.stall_check(percent, rpm, dt_ns);
        let drive_max = match state {
            FanState::Failed => true,
            FanState::Running(_) => false,
        };
        (state, drive_max)
    }

    /// Cross-checks a commanded duty cycle against a tach reading taken
    /// `dt_ns` after the previous check (see [`stall_step`]).
    pub fn stall_check(&mut self, percent: u8, rpm: u16, dt_ns: u128) -> (r: FanState)
        requires
            old(self).valid(),
            is_stall(*old(self), percent, rpm) ==> old(self).stalled_for_ns + dt_ns
                <= MAX_DURATION_NS,
        ensures
            final(self).valid(),
            *final(self) == stall_step(*old(self), percent, rpm, dt_ns),
            r == final(self).state,
    {
        if percent > 0 && rpm < self.min_plausible_rpm {
            self.stalled_for_ns = self.stalled_for_ns + dt_ns;
            if self.stalled_for_ns >= self.tach_fail_timeout_ns {
                self.state = FanState::Failed;
                return self.state;
            }
        } else {
            self.stalled_for_ns = 0;
        }
        self.state = FanState::Running(percent);
        self.state
    }
}

/// Whether a check counts as a stall: a nonzero command with a tach reading
/// below the plausible minimum.
pub open spec fn is_stall(s: TachFailSafe, percent: u8, rpm: u16) -> bool {
    percent > 0 && rpm < s.min_plausible_rpm
}

/// One fail-safe check of a commanded duty cycle against a tach reading
/// taken `dt` after the previous one. A stall extends the stall timer by
/// `dt` and latches [`FanState::Failed`] once the timer reaches the timeout;
/// anything else resets the timer and reports the command.
pub open spec fn stall_step(s: TachFailSafe, percent: u8, rpm: u16, dt: u128) -> TachFailSafe {
    let stalled: u128 = if is_stall(s, percent, rpm) {
        (s.stalled_for_ns + dt) as u128
    } else {
        0
    };
    let state = if is_stall(s, percent, rpm) && stalled >= s.tach_fail_timeout_ns {
        FanState::Failed
    } else {
        FanState::Running(percent)
    };
    TachFailSafe {
        min_plausible_rpm: s.min_plausible_rpm,
        tach_fail_timeout_ns: s.tach_fail_timeout_ns,
        stalled_for_ns: stalled,
        state: state,
    }
}

/// One update of the fan controller, given the duty cycle the PID loop
/// picked and the tach reading after applying it: the fail-safe's next
/// state, the state reported, and whether the fan is driven fully on. A
/// latched controller stays as it is and reports the latch; otherwise the
/// reading goes through [`stall_step`], and the fan is driven fully on
/// exactly when that latches.
pub open spec fn fan_update(s: TachFailSafe, percent: u8, rpm: u16, dt: u128) -> (
    TachFailSafe,
    FanState,
    bool,
) {
    if s.state == FanState::Failed {
        (s, FanState::Failed, false)
    } else {
        let t = stall_step(s, percent, rpm, dt);
        (t, t.state, t.state == FanState::Failed)
    }
}

/// A latched failure stays latched through any update until it is cleared,
/// and no later update drives the fan to full speed again (it already is).
pub proof fn lemma_failure_latches(s: TachFailSafe, percent: u8, rpm: u16, dt: u128)
    requires
        s.state == FanState::Failed,
    ensures
        fan_update(s, percent, rpm, dt) == (s, FanState::Failed, false),
{
}

/// `n` consecutive checks with the same command, reading and interval.
pub open spec fn stall_steps(s: TachFailSafe, percent: u8, rpm: u16, dt: u128, n: nat) -> TachFailSafe
    decreases n,
{
    if n == 0 {
        s
    } else {
        stall_step(stall_steps(s, percent, rpm, dt, (n - 1) as nat), percent, rpm, dt)
    }
}

/// What `n >= 1` identical stalled checks leave behind: the timer grown by
/// `n` intervals, and failure exactly when it has reached the timeout.
pub open spec fn stalled_after(s: TachFailSafe, percent: u8, t: TachFailSafe, n: nat, dt: u128) -> bool {
    &&& t.stalled_for_ns == s.stalled_for_ns + n * dt
    &&& (t.state == FanState::Failed) == (s.stalled_for_ns + n * dt >= s.tach_fail_timeout_ns)
    &&& t.state != FanState::Failed ==> t.state == FanState::Running(percent)
}

/// While the fan is commanded on and the tach stays silent, the stall timer
/// grows by the interval at every check, and the fail-safe reports failure
/// exactly from the first check at which the timer has reached the timeout.
/// Commanded off, or with a plausible reading, it never fails and the timer
/// stays at zero. The configuration is never touched.
pub proof fn lemma_stall_steps(s: TachFailSafe, percent: u8, rpm: u16, dt: u128, n: nat)
    requires
        n >= 1,
        is_stall(s, percent, rpm) ==> s.stalled_for_ns + n * dt <= MAX_DURATION_NS,
    ensures
        stall_steps(s, percent, rpm, dt, n).min_plausible_rpm == s.min_plausible_rpm,
        stall_steps(s, percent, rpm, dt, n).tach_fail_timeout_ns == s.tach_fail_timeout_ns,
        is_stall(s, percent, rpm) ==> stalled_after(
            s,
            percent,
            stall_steps(s, percent, rpm, dt, n),
            n,
            dt,
        ),
        !is_stall(s, percent, rpm) ==> stall_steps(s, percent, rpm, dt, n).stalled_for_ns == 0,
        !is_stall(s, percent, rpm) ==> stall_steps(s, percent, rpm, dt, n).state
            == FanState::Running(percent),
    decreases n,
{
    assert(n * dt == (n - 1) * dt + dt) by (nonlinear_arith)
        requires
            n >= 1,
    ;
    assert((n - 1) * dt >= 0) by (nonlinear_arith)
        requires
            n >= 1,
    ;
    reveal_with_fuel(stall_steps, 2);
    if n == 1 {
        assert(n * dt == dt) by (nonlinear_arith)
            requires
                n == 1,
        ;
    }
    if n > 1 {
        lemma_stall_steps(s, percent, rpm, dt, (n - 1) as nat);
    }
}

/// A check counts as a stall exactly when a nonzero duty cycle is commanded
/// and the tach reads below the plausible minimum, whatever the duty cycle:
/// then the stall timer grows by the interval, and the fail-safe latches
/// once it reaches the timeout. Otherwise (commanded off, or a plausible
/// reading) the timer restarts from zero and the command is reported. The
/// configuration is never touched.
pub proof fn lemma_stall_condition(s: TachFailSafe, percent: u8, rpm: u16, dt: u128)
    requires
        s.valid(),
        percent > 0 && rpm < s.min_plausible_rpm ==> s.stalled_for_ns + dt <= MAX_DURATION_NS,
    ensures
        ({
            let t = stall_step(s, percent, rpm, dt);
            &&& t.min_plausible_rpm == s.min_plausible_rpm
            &&& t.tach_fail_timeout_ns == s.tach_fail_timeout_ns
            &&& (percent > 0 && rpm < s.min_plausible_rpm) ==> t.stalled_for_ns == s.stalled_for_ns
                + dt && (t.state == FanState::Failed) == (s.stalled_for_ns + dt
                >= s.tach_fail_timeout_ns) && (t.state != FanState::Failed ==> t.state
                == FanState::Running(percent))
            &&& !(percent > 0 && rpm < s.min_plausible_rpm) ==> t.stalled_for_ns == 0 && t.state
                == FanState::Running(percent)
        }),
{
}

} // verus!
