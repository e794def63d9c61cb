//! PSU telemetry over SMBus: an INA219 (voltage/current/power) and an
//! EMC1403 (temperatures), each polled in cycles by its own task. This is
//! what a cycle decides: whether the sensor has to be set up again, what a
//! reading turns into, and whether it is worth publishing.

use vstd::prelude::*;

use crate::emc1403::{self, decic_from_eighths, ConversionRate};
use crate::ina219::{self, AdcSetting, BusVoltage, Configuration};
use crate::protocol::{PowerTelemetry, ThermalTelemetry};

verus! {

/// INA219 averaging used on both ADCs.
pub const INA219_PRECISION: AdcSetting = AdcSetting::Average128;

/// Shunt 2.5mOhm, Cal=0x4000, Power_LSB=20mW.
pub const INA219_CURRENT_LSB_MA: u32 = 1;

pub const INA219_CALIBRATION_RAW: u16 = 0x4000;

/// Slack added to a sensor's conversion period between polls, in ms.
pub const REFRESH_MARGIN_MS: u64 = 14;

/// Longest a poll cycle may take before it counts as failed, in ms.
pub const I2C_CYCLE_TIMEOUT_MS: u64 = 100;

/// Wait after power-up before the first poll, in seconds.
pub const STARTUP_DELAY_SECS: u64 = 2;

/// Conversion rate programmed into the EMC1403.
pub const EMC1403_RATE: ConversionRate = ConversionRate::PerSec4;

/// The configuration the INA219 is set up with: power-on defaults, with
/// [`INA219_PRECISION`] on both ADCs.
pub fn ina219_config() -> (r: Configuration)
    ensures
        r == (Configuration {
            bus_adc: AdcSetting::Average128,
            shunt_adc: AdcSetting::Average128,
            ..ina219::config::power_on_configuration()
        }),
{
    let mut config = Configuration::default();
    config.bus_adc = AdcSetting::Average128;
    config.shunt_adc = AdcSetting::Average128;
    config
}

/// Time between polls for a sensor whose conversion takes `conversion_us`:
/// that plus [`REFRESH_MARGIN_MS`], in microseconds.
pub fn refresh_interval_us(conversion_us: u32) -> (r: u64)
    ensures
        r == conversion_us as int + REFRESH_MARGIN_MS * 1000,
{
    conversion_us as u64 + REFRESH_MARGIN_MS * 1000
}

/// Why an INA219 cycle produced no reading.
#[derive(Debug, Clone, Copy, PartialEq, Eq)]
pub enum PowerRailError<E> {
    /// A bus transfer failed.
    Bus(E),
    /// The chip flagged a math overflow on the bus voltage reading.
    Overflow,
}

/// The bus voltage of a reading, or [`PowerRailError::Overflow`] when the
/// chip flagged the reading invalid.
pub fn check_bus_voltage<E>(voltage: BusVoltage) -> (r: Result<u16, PowerRailError<E>>)
    ensures
        voltage.overflow ==> r == Err::<u16, PowerRailError<E>>(PowerRailError::Overflow),
        !voltage.overflow ==> r == Ok::<u16, PowerRailError<E>>(voltage.millivolts),
{
    if voltage.overflow {
        Err(PowerRailError::Overflow)
    } else {
        Ok(voltage.millivolts)
    }
}

/// The telemetry a reading turns into; the current is reported in 16 bits
/// (truncated).
pub fn power_telemetry(voltage_mv: u16, current_ma: i32, power_mw: u32) -> (r: PowerTelemetry)
    ensures
        r == (PowerTelemetry { voltage_mv, current_ma: current_ma as i16, power_mw }),
{
    PowerTelemetry { voltage_mv, current_ma: #[verifier::truncate] (current_ma as i16), power_mw }
}

/// How an INA219 poll cycle ended.
#[derive(Debug, Clone, Copy, PartialEq, Eq, Structural)]
pub enum PowerCycle {
    Reading(PowerTelemetry),
    /// A bus transfer failed.
    BusError,
    /// The reading was flagged as overflowed.
    Overflow,
    /// The cycle did not finish in time.
    Timeout,
}

/// The INA219 task's state between cycles.
pub struct PowerRailMonitor {
    /// Configuration and Calibration have been written since the last sign
    /// that the chip may have reset.
    pub configured: bool,
    /// The last telemetry published.
    pub last_sent: PowerTelemetry,
}

impl PowerRailMonitor {
    pub fn new() -> (r: Self)
        ensures
            !r.configured,
            r.last_sent == (PowerTelemetry { voltage_mv: 0, current_ma: 0, power_mw: 0 }),
    {
        PowerRailMonitor { configured: false, last_sent: PowerTelemetry::default() }
    }

    /// Whether this cycle has to write Configuration and Calibration first.
    pub fn needs_configuration(&self) -> (r: bool)
        ensures
            r == !self.configured,
    {
        !self.configured
    }

    /// Records that Configuration and Calibration were written.
    pub fn mark_configured(&mut self)
        ensures
            final(self).configured,
            final(self).last_sent == old(self).last_sent,
    {
        self.configured = true;
    }

    /// Ends a cycle, returning the telemetry to publish, if any (see
    /// [`power_cycle_step`]).
    pub fn finish_cycle(&mut self, outcome: PowerCycle) -> (r: Option<PowerTelemetry>)
        ensures
            (*final(self), r) == power_cycle_step(*old(self), outcome),
    {
        match outcome {
            PowerCycle::Reading(t) => {
                if t != self.last_sent {
                    self.last_sent = t;
                    Some(t)
                } else {
                    None
                }
            },
            PowerCycle::Overflow => None,
            _ => {
                self.configured = false;
                None
            },
        }
    }
}

/// The end of an INA219 cycle: the monitor's next state and the telemetry to
/// publish. A reading is published only when it differs from the last one
/// published, and becomes the last one. A bus error or a timeout may mean
/// the PSU power-cycled and reset the chip, so the next cycle sets it up
/// again; an overflowed reading changes nothing.
pub open spec fn power_cycle_step(m: PowerRailMonitor, outcome: PowerCycle) -> (
    PowerRailMonitor,
    Option<PowerTelemetry>,
) {
    match outcome {
        PowerCycle::Reading(t) => (
            PowerRailMonitor { configured: m.configured, last_sent: t },
            if t != m.last_sent {
                Some(t)
            } else {
                None
            },
        ),
        PowerCycle::Overflow => (m, None),
        _ => (PowerRailMonitor { configured: false, last_sent: m.last_sent }, None),
    }
}

/// Publishing only on change: a reading that repeats the previous cycle's is
/// never published again, and a reading published once stays the last one
/// sent until a different reading arrives.
pub proof fn lemma_power_repeat_not_published(m: PowerRailMonitor, t: PowerTelemetry)
    ensures
        power_cycle_step(power_cycle_step(m, PowerCycle::Reading(t)).0, PowerCycle::Reading(t)).1
            == None::<PowerTelemetry>,
        power_cycle_step(m, PowerCycle::Reading(t)).0.last_sent == t,
{
}

/// A failed cycle (bus error or timeout) makes the next cycle set the chip
/// up again, whatever came before, and publishes nothing.
pub proof fn lemma_power_failure_reconfigures(m: PowerRailMonitor, outcome: PowerCycle)
    requires
        outcome == PowerCycle::BusError || outcome == PowerCycle::Timeout,
    ensures
        !power_cycle_step(m, outcome).0.configured,
        power_cycle_step(m, outcome).1 == None::<PowerTelemetry>,
        power_cycle_step(m, outcome).0.last_sent == m.last_sent,
{
}

/// One whole poll cycle of the INA219 task: Configuration and Calibration
/// are written first when the monitor needs them (which leaves it
/// configured; [`PowerRailMonitor::mark_configured`]), then the cycle ends
/// with `outcome` ([`PowerRailMonitor::finish_cycle`]).
pub open spec fn power_task_cycle(m: PowerRailMonitor, outcome: PowerCycle) -> (
    PowerRailMonitor,
    Option<PowerTelemetry>,
) {
    power_cycle_step(PowerRailMonitor { configured: true, last_sent: m.last_sent }, outcome)
}

/// The monitor after a run of whole poll cycles ending as `outcomes`.
pub open spec fn power_run(m: PowerRailMonitor, outcomes: Seq<PowerCycle>) -> PowerRailMonitor
    decreases outcomes.len(),
{
    if outcomes.len() == 0 {
        m
    } else {
        power_task_cycle(power_run(m, outcomes.drop_last()), outcomes.last()).0
    }
}

/// Everything a run of whole poll cycles publishes, in order.
pub open spec fn power_published(m: PowerRailMonitor, outcomes: Seq<PowerCycle>) -> Seq<
    PowerTelemetry,
>
    decreases outcomes.len(),
{
    if outcomes.len() == 0 {
        seq![]
    } else {
        power_published(m, outcomes.drop_last()) + match power_task_cycle(
            power_run(m, outcomes.drop_last()),
            outcomes.last(),
        ).1 {
            Some(t) => seq![t],
            None => seq![],
        }
    }
}

/// The readings among a run's outcomes, in order.
pub open spec fn power_readings(outcomes: Seq<PowerCycle>) -> Seq<PowerTelemetry>
    decreases outcomes.len(),
{
    if outcomes.len() == 0 {
        seq![]
    } else {
        power_readings(outcomes.drop_last()) + match outcomes.last() {
            PowerCycle::Reading(t) => seq![t],
            _ => seq![],
        }
    }
}

/// The last of `values`, or `first` when there are none.
pub open spec fn last_or<T>(first: T, values: Seq<T>) -> T {
    if values.len() == 0 {
        first
    } else {
        values.last()
    }
}

/// The values that differ from the one before them (the first compared
/// with `first`), in order.
pub open spec fn changes<T>(first: T, values: Seq<T>) -> Seq<T>
    decreases values.len(),
{
    if values.len() == 0 {
        seq![]
    } else {
        changes(first, values.drop_last()) + if values.last() != last_or(
            first,
            values.drop_last(),
        ) {
            seq![values.last()]
        } else {
            seq![]
        }
    }
}

/// Whether the INA219 task writes Configuration and Calibration in cycle `i`
/// of a run.
pub open spec fn power_configures_in(m: PowerRailMonitor, outcomes: Seq<PowerCycle>, i: int) -> bool {
    !power_run(m, outcomes.take(i)).configured
}

/// Over any run of poll cycles of the INA219 task, starting from monitor `m`
/// (the task starts from [`PowerRailMonitor::new`]):
/// - exactly the readings that differ from the last one sent are published,
///   in order, and the last one sent ends as the run's last reading;
/// - Configuration and Calibration are written in the first cycle exactly
///   when `m` is not configured, and in a later cycle exactly when the cycle
///   before it ended in a bus error or a timeout.
pub proof fn lemma_power_task_run(m: PowerRailMonitor, outcomes: Seq<PowerCycle>)
    ensures
        power_published(m, outcomes) == changes(m.last_sent, power_readings(outcomes)),
        power_run(m, outcomes).last_sent == last_or(m.last_sent, power_readings(outcomes)),
        forall|i: int|
            0 <= i < outcomes.len() ==> (#[trigger] power_configures_in(m, outcomes, i) <==> if i
                == 0 {
                !m.configured
            } else {
                outcomes[i - 1] == PowerCycle::BusError || outcomes[i - 1] == PowerCycle::Timeout
            }),
    decreases outcomes.len(),
{
    if outcomes.len() > 0 {
        let pre = outcomes.drop_last();
        lemma_power_task_run(m, pre);
        let rs = power_readings(pre);
        match outcomes.last() {
            PowerCycle::Reading(t) => {
                assert(power_readings(outcomes) == rs.push(t)) by {
                    assert(rs + seq![t] =~= rs.push(t));
                }
                assert(rs.push(t).drop_last() =~= rs);
            },
            _ => {
                assert(power_readings(outcomes) =~= rs);
                assert(power_published(m, outcomes) =~= power_published(m, pre));
            },
        }
        assert forall|i: int| 0 <= i < outcomes.len() implies (#[trigger] power_configures_in(
            m,
            outcomes,
            i,
        ) <==> if i == 0 {
            !m.configured
        } else {
            outcomes[i - 1] == PowerCycle::BusError || outcomes[i - 1] == PowerCycle::Timeout
        }) by {
            if i == 0 {
                assert(outcomes.take(0) =~= Seq::<PowerCycle>::empty());
            } else {
                assert(outcomes.take(i).drop_last() =~= outcomes.take(i - 1));
                assert(outcomes.take(i).last() == outcomes[i - 1]);
            }
        }
    }
}

/// Tenths of a degree C of a channel's temperature registers.
pub open spec fn temp_decic(high: u8, low: u8, range_extended: bool) -> int {
    let e = emc1403::temp_eighths(high, low, range_extended);
    if e >= 0 {
        (e * 10) / 8
    } else {
        -((-e * 10) / 8)
    }
}

/// A channel's temperature registers in tenths of a degree C, truncated
/// toward zero.
pub fn thermal_decic(high: u8, low: u8, range_extended: bool) -> (r: i16)
    ensures
        r == temp_decic(high, low, range_extended),
{
    let e = crate::emc1403::decode_temp_eighths(high, low, range_extended);
    decic_from_eighths(e)
}

/// The EMC1403 task's state between cycles.
pub struct ThermalMonitor {
    /// `Some(RANGE bit)` once the sensor has been probed and set up since the
    /// last sign that it may have reset.
    pub range_extended: Option<bool>,
    /// The last telemetry published.
    pub last_sent: ThermalTelemetry,
}

impl ThermalMonitor {
    pub fn new() -> (r: Self)
        ensures
            r.range_extended == None::<bool>,
            r.last_sent == (ThermalTelemetry { internal_decic: 0, external1_decic: 0 }),
    {
        ThermalMonitor { range_extended: None, last_sent: ThermalTelemetry::default() }
    }

    /// Records the RANGE bit read back after probing and setting up.
    pub fn mark_configured(&mut self, range_extended: bool)
        ensures
            final(self).range_extended == Some(range_extended),
            final(self).last_sent == old(self).last_sent,
    {
        self.range_extended = Some(range_extended);
    }

    /// Ends a cycle that read both channels (`None`: a bus error or a
    /// timeout), returning the telemetry to publish, if any (see
    /// [`thermal_cycle_step`]).
    pub fn finish_cycle(&mut self, reading: Option<ThermalTelemetry>) -> (r: Option<
        ThermalTelemetry,
    >)
        ensures
            (*final(self), r) == thermal_cycle_step(*old(self), reading),
    {
        match reading {
            Some(t) => {
                if t != self.last_sent {
                    self.last_sent = t;
                    Some(t)
                } else {
                    None
                }
            },
            None => {
                self.range_extended = None;
                None
            },
        }
    }
}

/// The end of an EMC1403 cycle: the monitor's next state and the telemetry
/// to publish. A reading is published only when it differs from the last
/// one published, and becomes the last one; a failed cycle means the sensor
/// is probed and set up again next time.
pub open spec fn thermal_cycle_step(m: ThermalMonitor, reading: Option<ThermalTelemetry>) -> (
    ThermalMonitor,
    Option<ThermalTelemetry>,
) {
    match reading {
        Some(t) => (
            ThermalMonitor { range_extended: m.range_extended, last_sent: t },
            if t != m.last_sent {
                Some(t)
            } else {
                None
            },
        ),
        None => (ThermalMonitor { range_extended: None, last_sent: m.last_sent }, None),
    }
}

/// Publishing only on change: a reading that repeats the previous cycle's is
/// never published again.
pub proof fn lemma_thermal_repeat_not_published(m: ThermalMonitor, t: ThermalTelemetry)
    ensures
        thermal_cycle_step(thermal_cycle_step(m, Some(t)).0, Some(t)).1 == None::<
            ThermalTelemetry,
        >,
        thermal_cycle_step(m, Some(t)).0.last_sent == t,
{
}

/// A failed cycle makes the next cycle probe and set up the sensor again,
/// and publishes nothing.
pub proof fn lemma_thermal_failure_reprobes(m: ThermalMonitor)
    ensures
        thermal_cycle_step(m, None).0.range_extended == None::<bool>,
        thermal_cycle_step(m, None).1 == None::<ThermalTelemetry>,
        thermal_cycle_step(m, None).0.last_sent == m.last_sent,
{
}
/// One whole poll cycle of the EMC1403 task, with `event.0` the RANGE bit
/// that setting the sensor up reads back and `event.1` the reading (`None`:
/// a bus error or a timeout): the sensor is probed and set up first when the
/// monitor holds no RANGE bit ([`ThermalMonitor::mark_configured`]), then
/// the cycle ends with the reading ([`ThermalMonitor::finish_cycle`]).
pub open spec fn thermal_task_cycle(m: ThermalMonitor, event: (bool, Option<ThermalTelemetry>)) -> (
    ThermalMonitor,
    Option<ThermalTelemetry>,
) {
    let range_extended = match m.range_extended {
        Some(r) => Some(r),
        None => Some(event.0),
    };
    thermal_cycle_step(ThermalMonitor { range_extended, last_sent: m.last_sent }, event.1)
}

/// The monitor after a run of whole poll cycles.
pub open spec fn thermal_run(m: ThermalMonitor, events: Seq<(bool, Option<ThermalTelemetry>)>) -> ThermalMonitor
    decreases events.len(),
{
    if events.len() == 0 {
        m
    } else {
        thermal_task_cycle(thermal_run(m, events.drop_last()), events.last()).0
    }
}

/// Everything a run of whole poll cycles publishes, in order.
pub open spec fn thermal_published(
    m: ThermalMonitor,
    events: Seq<(bool, Option<ThermalTelemetry>)>,
) -> Seq<ThermalTelemetry>
    decreases events.len(),
{
    if events.len() == 0 {
        seq![]
    } else {
        thermal_published(m, events.drop_last()) + match thermal_task_cycle(
            thermal_run(m, events.drop_last()),
            events.last(),
        ).1 {
            Some(t) => seq![t],
            None => seq![],
        }
    }
}

/// The readings of a run, in order.
pub open spec fn thermal_readings(events: Seq<(bool, Option<ThermalTelemetry>)>) -> Seq<
    ThermalTelemetry,
>
    decreases events.len(),
{
    if events.len() == 0 {
        seq![]
    } else {
        thermal_readings(events.drop_last()) + match events.last().1 {
            Some(t) => seq![t],
            None => seq![],
        }
    }
}

/// Whether the EMC1403 task probes and sets up the sensor in cycle `i` of a
/// run.
pub open spec fn thermal_probes_in(
    m: ThermalMonitor,
    events: Seq<(bool, Option<ThermalTelemetry>)>,
    i: int,
) -> bool {
    thermal_run(m, events.take(i)).range_extended is None
}

/// Over any run of poll cycles of the EMC1403 task, starting from monitor
/// `m` (the task starts from [`ThermalMonitor::new`]):
/// - exactly the readings that differ from the last one sent are published,
///   in order, and the last one sent ends as the run's last reading;
/// - the sensor is probed and set up in the first cycle exactly when `m`
///   holds no RANGE bit, and in a later cycle exactly when the cycle before
///   it failed; a successful cycle that does not probe keeps the RANGE bit
///   it started with.
pub proof fn lemma_thermal_task_run(m: ThermalMonitor, events: Seq<(bool, Option<ThermalTelemetry>)>)
    ensures
        thermal_published(m, events) == changes(m.last_sent, thermal_readings(events)),
        thermal_run(m, events).last_sent == last_or(m.last_sent, thermal_readings(events)),
        forall|i: int|
            0 <= i < events.len() ==> (#[trigger] thermal_probes_in(m, events, i) <==> if i == 0 {
                m.range_extended is None
            } else {
                events[i - 1].1 is None
            }),
        forall|i: int|
            0 <= i < events.len() && !#[trigger] thermal_probes_in(m, events, i)
                && events[i].1 is Some ==> thermal_run(m, events.take(i + 1)).range_extended
                == thermal_run(m, events.take(i)).range_extended,
    decreases events.len(),
{
    if events.len() > 0 {
        let pre = events.drop_last();
        lemma_thermal_task_run(m, pre);
        let rs = thermal_readings(pre);
        match events.last().1 {
            Some(t) => {
                assert(thermal_readings(events) == rs.push(t)) by {
                    assert(rs + seq![t] =~= rs.push(t));
                }
                assert(rs.push(t).drop_last() =~= rs);
            },
            None => {
                assert(thermal_readings(events) =~= rs);
                assert(thermal_published(m, events) =~= thermal_published(m, pre));
            },
        }
        assert forall|i: int| 0 <= i < events.len() implies (#[trigger] thermal_probes_in(
            m,
            events,
            i,
        ) <==> if i == 0 {
            m.range_extended is None
        } else {
            events[i - 1].1 is None
        }) by {
            if i == 0 {
                assert(events.take(0) =~= Seq::<(bool, Option<ThermalTelemetry>)>::empty());
            } else {
                assert(events.take(i).drop_last() =~= events.take(i - 1));
                assert(events.take(i).last() == events[i - 1]);
            }
        }
        assert forall|i: int|
            0 <= i < events.len() && !#[trigger] thermal_probes_in(m, events, i)
                && events[i].1 is Some implies thermal_run(m, events.take(i + 1)).range_extended
            == thermal_run(m, events.take(i)).range_extended by {
            assert(events.take(i + 1).drop_last() =~= events.take(i));
            assert(events.take(i + 1).last() == events[i]);
        }
    }
}

} // verus!
