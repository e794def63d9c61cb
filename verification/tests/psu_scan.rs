use cinemacontrol::firmware::pwm::{pwm_top, BACKLIGHT_FREQUENCY_HZ, FAN_PWM_FREQUENCY_HZ};
use cinemacontrol::psu_scan::{
    pmbus_probe_code, pmbus_probe_name, ScanAction, ScanStep, END_ADDRESS, FIRST_ADDRESS,
    PMBUS_PROBE_COUNT, REST_SECS, SETTLE_SECS,
};

#[test]
fn sweep_starts_by_settling_then_probes_the_first_address() {
    let s = ScanStep::start();
    assert_eq!(s.action(), ScanAction::Sleep { secs: SETTLE_SECS });
    let s = s.next(true);
    assert_eq!(s, ScanStep::Presence { addr: FIRST_ADDRESS });
    assert_eq!(s.action(), ScanAction::WriteRead { addr: 0x08, command: 0x00, len: 1 });
}

#[test]
fn absent_device_gets_a_fallback_probe_then_is_skipped() {
    let s = ScanStep::Presence { addr: 0x20 }.next(false);
    assert_eq!(s, ScanStep::PresenceFallback { addr: 0x20 });
    assert_eq!(s.action(), ScanAction::Probe { addr: 0x20 });
    assert_eq!(s.next(false), ScanStep::Presence { addr: 0x21 });
    assert_eq!(s.next(true), ScanStep::Command { addr: 0x20, index: 0 });
}

#[test]
fn present_device_gets_every_pmbus_command_then_every_raw_register() {
    let mut s = ScanStep::Presence { addr: 0x58 }.next(true);
    for i in 0..PMBUS_PROBE_COUNT {
        assert_eq!(
            s.action(),
            ScanAction::WriteRead { addr: 0x58, command: pmbus_probe_code(i), len: 2 }
        );
        s = s.next(i % 2 == 0);
    }
    for reg in 0..=255u8 {
        assert_eq!(s, ScanStep::Raw { addr: 0x58, reg });
        assert_eq!(s.action(), ScanAction::WriteRead { addr: 0x58, command: reg, len: 1 });
        s = s.next(false);
    }
    assert_eq!(s, ScanStep::Presence { addr: 0x59 });
}

#[test]
fn last_address_leads_to_the_rest_and_back() {
    let last = END_ADDRESS - 1;
    let s = ScanStep::PresenceFallback { addr: last }.next(false);
    assert_eq!(s, ScanStep::Rest);
    assert_eq!(s.action(), ScanAction::Sleep { secs: REST_SECS });
    assert_eq!(s.next(true), ScanStep::Presence { addr: FIRST_ADDRESS });
}

#[test]
fn pmbus_table() {
    assert_eq!(pmbus_probe_code(0), 0x79);
    assert_eq!(pmbus_probe_name(0), "STATUS_WORD");
    assert_eq!(pmbus_probe_code(5), 0x88);
    assert_eq!(pmbus_probe_name(5), "READ_VIN");
    assert_eq!(pmbus_probe_code(17), 0x9B);
    assert_eq!(pmbus_probe_name(17), "MFR_REVISION");
}

#[test]
fn pwm_top_for_the_board_frequencies() {
    // RP2040 at 125 MHz, divider 1.
    assert_eq!(pwm_top(125_000_000, BACKLIGHT_FREQUENCY_HZ, 1), 9614);
    assert_eq!(pwm_top(125_000_000, FAN_PWM_FREQUENCY_HZ, 1), 4999);
    assert_eq!(pwm_top(125_000_000, 1000, 2), 62499);
}
