use cinemacontrol::ina219::{AdcSetting, BusVoltageRange, Configuration, Gain, Mode};

#[test]
fn default_matches_power_on_reset_value() {
    assert_eq!(Configuration::default().to_raw(), 0x399F);
    assert_eq!(Configuration::from_raw(0x399F), Configuration::default());
}

#[test]
fn adc_setting_round_trips_defined_codes() {
    for raw in [
        0b0000u16, 0b0001, 0b0010, 0b0011, 0b1001, 0b1010, 0b1011, 0b1100, 0b1101, 0b1110, 0b1111,
    ] {
        assert_eq!(AdcSetting::from_raw(raw).to_raw(), raw);
    }
}

#[test]
fn undefined_adc_codes_fall_back_to_12_bit() {
    for raw in [0b0100u16, 0b0101, 0b0110, 0b0111, 0b1000] {
        assert_eq!(AdcSetting::from_raw(raw), AdcSetting::Bits12);
    }
}

#[test]
fn mode_round_trips_every_code() {
    for raw in 0b000u16..=0b111 {
        assert_eq!(Mode::from_raw(raw).to_raw(), raw);
    }
}

#[test]
fn triggered_modes_are_identified() {
    assert!(Mode::ShuntTriggered.is_triggered());
    assert!(Mode::BusTriggered.is_triggered());
    assert!(Mode::ShuntBusTriggered.is_triggered());
    assert!(!Mode::ShuntBusContinuous.is_triggered());
    assert!(!Mode::AdcOff.is_triggered());
}

#[test]
fn configuration_round_trips_arbitrary_value() {
    let cfg = Configuration {
        bus_voltage_range: BusVoltageRange::V16,
        gain: Gain::Div2,
        bus_adc: AdcSetting::Average32,
        shunt_adc: AdcSetting::Bits10,
        mode: Mode::ShuntContinuous,
    };
    assert_eq!(Configuration::from_raw(cfg.to_raw()), cfg);
}

#[test]
fn configuration_encodes_fields_at_their_bit_positions() {
    let cfg = Configuration {
        bus_voltage_range: BusVoltageRange::V16,
        gain: Gain::Div2,
        bus_adc: AdcSetting::Average32,
        shunt_adc: AdcSetting::Bits10,
        mode: Mode::ShuntContinuous,
    };
    // BRNG 0, PG 01, BADC 1101, SADC 0001, MODE 101.
    assert_eq!(cfg.to_raw(), 0b0_0_01_1101_0001_101);
}

#[test]
fn configuration_ignores_reset_and_reserved_bits() {
    assert_eq!(Configuration::from_raw(0xF99F), Configuration::default());
    assert_eq!(Configuration::from_raw(0xF99F).to_raw(), 0x399F);
}

#[test]
fn gain_full_scale_ranges() {
    assert_eq!(Gain::Div1.full_scale_mv(), 40);
    assert_eq!(Gain::Div2.full_scale_mv(), 80);
    assert_eq!(Gain::Div4.full_scale_mv(), 160);
    assert_eq!(Gain::Div8.full_scale_mv(), 320);
    assert_eq!(Gain::from_raw(0b110), Gain::Div4);
    assert_eq!(Gain::Div8.to_raw(), 0b11);
}

#[test]
fn bus_voltage_range_bit() {
    assert_eq!(BusVoltageRange::from_bit(true), BusVoltageRange::V32);
    assert_eq!(BusVoltageRange::from_bit(false), BusVoltageRange::V16);
    assert!(BusVoltageRange::V32.to_bit());
    assert!(!BusVoltageRange::V16.to_bit());
}

#[test]
fn adc_conversion_times() {
    assert_eq!(AdcSetting::Bits9.conversion_time_us(), 84);
    assert_eq!(AdcSetting::Bits12.conversion_time_us(), 532);
    assert_eq!(AdcSetting::Average128.conversion_time_us(), 68_100);
}
