use cinemacontrol::emc1403::{ConversionRate};
use cinemacontrol::fan_control::FanState;
use cinemacontrol::firmware::fan::{duty_for_rpm, newly_failed, tach_rpm, MAX_RPM};
use cinemacontrol::firmware::hid::{
    brightness_from_set_report, brightness_get_report, clamp_to_string_descriptor, hex_encode,
    power_get_report, psu_get_report, restore_brightness, thermal_get_report, ReportKind,
};
use cinemacontrol::firmware::neopixel::render;
use cinemacontrol::firmware::pwm::scale_to_duty;
use cinemacontrol::firmware::smbus::{
    check_bus_voltage, ina219_config, power_telemetry, refresh_interval_us, thermal_decic,
    PowerCycle, PowerRailError, PowerRailMonitor, ThermalMonitor, INA219_PRECISION,
};
use cinemacontrol::firmware::storage::{debounce_followup, needs_save};
use cinemacontrol::ina219::{AdcSetting, BusVoltage, Configuration};
use cinemacontrol::protocol::{PowerTelemetry, ThermalTelemetry};

#[test]
fn restored_brightness_is_clamped() {
    assert_eq!(restore_brightness(700), 700);
    assert_eq!(restore_brightness(1023), 1023);
    assert_eq!(restore_brightness(5000), 1023);
}

#[test]
fn set_report_accepts_only_feature_reports_with_two_bytes() {
    assert_eq!(brightness_from_set_report(ReportKind::Feature, &[0x00, 0x02]), Some(512));
    assert_eq!(brightness_from_set_report(ReportKind::Feature, &[0xFF, 0xFF, 9]), Some(1023));
    assert_eq!(brightness_from_set_report(ReportKind::Feature, &[0x01]), None);
    assert_eq!(brightness_from_set_report(ReportKind::Output, &[0x00, 0x02]), None);
}

#[test]
fn get_report_answers_feature_and_input() {
    assert_eq!(brightness_get_report(ReportKind::Feature, 512), Some([0x00, 0x02]));
    assert_eq!(brightness_get_report(ReportKind::Input, 1023), Some([0xFF, 0x03]));
    assert_eq!(brightness_get_report(ReportKind::Output, 1), None);
}

#[test]
fn serial_is_cut_to_what_a_string_descriptor_holds() {
    assert_eq!(clamp_to_string_descriptor("E6614103E7"), "E6614103E7");
    let long = "x".repeat(200);
    assert_eq!(clamp_to_string_descriptor(&long).len(), 126);
    // 125 ASCII chars, then a char that still fits as the 126th unit.
    let s = format!("{}€tail", "a".repeat(125));
    assert_eq!(clamp_to_string_descriptor(&s), format!("{}€", "a".repeat(125)));
    // 64 two-byte chars: 128 bytes but only 64 UTF-16 units, kept whole.
    let accented = "é".repeat(64);
    assert_eq!(clamp_to_string_descriptor(&accented), accented);
    let accented = "é".repeat(200);
    assert_eq!(clamp_to_string_descriptor(&accented), "é".repeat(126));
    // A char outside the BMP takes two units: 125 + 2 would not fit.
    let s = format!("{}😀", "a".repeat(125));
    assert_eq!(clamp_to_string_descriptor(&s), "a".repeat(125));
    let s = format!("{}😀b", "a".repeat(124));
    assert_eq!(clamp_to_string_descriptor(&s), format!("{}😀", "a".repeat(124)));
    for s in ["", "é".repeat(126).as_str(), "😀".repeat(63).as_str()] {
        assert_eq!(clamp_to_string_descriptor(s), s);
        assert!(clamp_to_string_descriptor(s).encode_utf16().count() <= 126);
    }
}

#[test]
fn unique_id_is_upper_case_hex() {
    let hex = hex_encode([0xE6, 0x61, 0x41, 0x03, 0xE7, 0x00, 0x9A, 0xFF]);
    assert_eq!(&hex, b"E6614103E7009AFF");
}

#[test]
fn backlight_duty_scales_with_brightness() {
    assert_eq!(scale_to_duty(0, 9614), 0);
    assert_eq!(scale_to_duty(1023, 9614), 9614);
    assert_eq!(scale_to_duty(512, 9614), 4811);
}

#[test]
fn neopixel_mirrors_brightness_at_half_intensity() {
    assert_eq!(render(0), 0);
    assert_eq!(render(1023), 127);
    assert_eq!(render(512), 63);
}

#[test]
fn storage_skips_redundant_writes() {
    assert!(needs_save(None, 5));
    assert!(needs_save(Some(4), 5));
    assert!(!needs_save(Some(5), 5));
    assert_eq!(debounce_followup(5, Some(6)), Some(6));
    assert_eq!(debounce_followup(5, Some(5)), None);
    assert_eq!(debounce_followup(5, None), None);
}

#[test]
fn fan_duty_and_tach() {
    assert_eq!(duty_for_rpm(1600, MAX_RPM, 5000), (1600, 2500));
    assert_eq!(duty_for_rpm(9000, MAX_RPM, 5000), (3200, 5000));
    // 100 pulses = 50 revolutions in 500ms -> 6000 rpm.
    assert_eq!(tach_rpm(150, 50, 500), 6000);
    // Counter wrapped around.
    assert_eq!(tach_rpm(10, 65530, 1000), 480);
    assert_eq!(tach_rpm(65535, 0, 0), 0xFFFF);
}

#[test]
fn ina219_setup_and_cycle() {
    let cfg = ina219_config();
    assert_eq!(cfg.bus_adc, AdcSetting::Average128);
    assert_eq!(cfg.shunt_adc, AdcSetting::Average128);
    assert_eq!(cfg.to_raw(), (Configuration::default().to_raw() & !0x7F8) | (0xF << 7) | (0xF << 3));
    assert_eq!(refresh_interval_us(2 * INA219_PRECISION.conversion_time_us()), 150_200);
    assert_eq!(refresh_interval_us(ConversionRate::PerSec4.period_us()), 264_000);

    let ok = BusVoltage { millivolts: 12000, conversion_ready: true, overflow: false };
    assert_eq!(check_bus_voltage::<()>(ok), Ok(12000));
    let bad = BusVoltage { overflow: true, ..ok };
    assert_eq!(check_bus_voltage::<()>(bad), Err(PowerRailError::Overflow));
    assert_eq!(power_telemetry(12000, 70_000, 5).current_ma, 70_000i32 as i16);

    let mut monitor = PowerRailMonitor::new();
    assert!(monitor.needs_configuration());
    monitor.mark_configured();
    let t = PowerTelemetry { voltage_mv: 12000, current_ma: 1500, power_mw: 18000 };
    assert_eq!(monitor.finish_cycle(PowerCycle::Reading(t)), Some(t));
    assert_eq!(monitor.finish_cycle(PowerCycle::Reading(t)), None);
    assert_eq!(monitor.finish_cycle(PowerCycle::Overflow), None);
    assert!(!monitor.needs_configuration());
    assert_eq!(monitor.finish_cycle(PowerCycle::Timeout), None);
    assert!(monitor.needs_configuration());
}

#[test]
fn emc1403_cycle() {
    assert_eq!(thermal_decic(42, 0b011_00000, false), 423);
    let mut monitor = ThermalMonitor::new();
    assert_eq!(monitor.range_extended, None);
    monitor.mark_configured(true);
    let t = ThermalTelemetry { internal_decic: 250, external1_decic: 301 };
    assert_eq!(monitor.finish_cycle(Some(t)), Some(t));
    assert_eq!(monitor.finish_cycle(Some(t)), None);
    assert_eq!(monitor.range_extended, Some(true));
    assert_eq!(monitor.finish_cycle(None), None);
    assert_eq!(monitor.range_extended, None);
}

#[test]
fn telemetry_get_reports_answer_feature_and_input_only() {
    let power = PowerTelemetry { voltage_mv: 12_050, current_ma: -2, power_mw: 0x0001_0203 };
    let bytes = [0x12, 0x2F, 0xFE, 0xFF, 0x03, 0x02, 0x01, 0x00];
    assert_eq!(power_get_report(ReportKind::Feature, power), Some(bytes));
    assert_eq!(power_get_report(ReportKind::Input, power), Some(bytes));
    assert_eq!(power_get_report(ReportKind::Output, power), None);

    let thermal = ThermalTelemetry { internal_decic: 253, external1_decic: -400 };
    assert_eq!(thermal_get_report(ReportKind::Feature, thermal), Some([0xFD, 0x00, 0x70, 0xFE]));
    assert_eq!(thermal_get_report(ReportKind::Output, thermal), None);

    assert_eq!(
        psu_get_report(ReportKind::Input, 12_000, 1_500, -5),
        Some([0xE0, 0x2E, 0xDC, 0x05, 0xFB, 0xFF])
    );
    assert_eq!(psu_get_report(ReportKind::Output, 1, 2, 3), None);
}

#[test]
fn fan_failure_is_reported_once() {
    assert!(newly_failed(None, FanState::Failed));
    assert!(newly_failed(Some(FanState::Running(100)), FanState::Failed));
    assert!(!newly_failed(Some(FanState::Failed), FanState::Failed));
    assert!(!newly_failed(None, FanState::Running(0)));
    assert!(!newly_failed(Some(FanState::Failed), FanState::Running(40)));
}

#[test]
fn repeated_readings_are_published_once() {
    let mut m = PowerRailMonitor::new();
    let t = power_telemetry(12_000, 1_500, 18_000);
    assert_eq!(m.finish_cycle(PowerCycle::Reading(t)), Some(t));
    assert_eq!(m.finish_cycle(PowerCycle::Reading(t)), None);
    m.mark_configured();
    assert_eq!(m.finish_cycle(PowerCycle::Timeout), None);
    assert!(m.needs_configuration());
    assert_eq!(m.finish_cycle(PowerCycle::Reading(t)), None);

    let mut th = ThermalMonitor::new();
    let r = ThermalTelemetry { internal_decic: 301, external1_decic: 402 };
    assert_eq!(th.finish_cycle(Some(r)), Some(r));
    assert_eq!(th.finish_cycle(Some(r)), None);
    th.mark_configured(true);
    assert_eq!(th.finish_cycle(None), None);
    assert_eq!(th.range_extended, None);
}
