use cinemacontrol::emc1403::{
    decic_from_eighths, decode_limit, decode_temp_eighths, device_id_from, encode_limit,
    BetaConfig, BetaSetting, Channel, ChannelMask, ConsecutiveAlertConfig, ConsecutiveCount,
    ConversionRate, DeviceId, DiodeFault, DigitalFilter, Error, LimitStatus, Product, ProbeRetry,
    Register, Status, PROBE_MAX_RETRIES,
};

#[test]
fn decodes_standard_range() {
    // 0.375C fractional = 0b011 in the top 3 bits of the low byte.
    assert_eq!(decode_temp_eighths(42, 0b011_00000, false) as f32 * 0.125, 42.375);
}

#[test]
fn decodes_extended_range_below_zero() {
    assert_eq!(decode_temp_eighths(0, 0, true) as f32 * 0.125, -64.0);
}

#[test]
fn limit_status_bit_matches_channel_mask_bit() {
    for ch in [Channel::Internal, Channel::External1, Channel::External2, Channel::External3] {
        assert_eq!(LimitStatus::for_channel(ch).bits(), ChannelMask::for_channel(ch).bits());
    }
}

#[test]
fn diode_fault_has_no_bit_for_internal_channel() {
    assert!(DiodeFault::for_channel(Channel::Internal).is_empty());
}

#[test]
fn diode_fault_bits_for_external_channels() {
    assert_eq!(DiodeFault::for_channel(Channel::External1).bits(), 0b0010);
    assert_eq!(DiodeFault::for_channel(Channel::External3).bits(), 0b1000);
}

#[test]
fn flags_truncate_undefined_bits() {
    assert_eq!(Status::from_bits_truncate(0xFF).bits(), 0b1001_1110);
    assert!(Status::from_bits_truncate(0x80).contains(Status::busy()));
    assert!(!Status::from_bits_truncate(0x80).intersects(Status::high()));
    let cfg = cinemacontrol::emc1403::Configuration::from_bits_truncate(0x04);
    assert!(cfg.contains(cinemacontrol::emc1403::Configuration::range()));
    let mut mask = ChannelMask::empty();
    mask.insert(ChannelMask::external2());
    assert_eq!(mask.bits(), 0b0100);
    mask.remove(ChannelMask::external2());
    assert!(mask.is_empty());
}

#[test]
fn channel_registers() {
    assert_eq!(
        Channel::External2.temp_regs(),
        (Register::External2TempHigh, Register::External2TempLow)
    );
    assert_eq!(Channel::Internal.high_limit_reg(), Register::InternalHighLimit);
    assert_eq!(Channel::External3.therm_limit_reg(), Register::External3ThermLimit);
    assert_eq!(u8::from(Channel::External1.low_limit_reg()), 0x08);
    assert_eq!(u8::from(Register::InternalTempLow), 0x29);
}

#[test]
fn conversion_rate_codes_and_periods() {
    assert_eq!(ConversionRate::from_raw(6), ConversionRate::PerSec4);
    assert_eq!(ConversionRate::from_raw(0x0C), ConversionRate::PerSec1);
    assert_eq!(ConversionRate::from_raw(0xF6), ConversionRate::PerSec4);
    assert_eq!(ConversionRate::PerSec64.to_raw(), 0x0A);
    assert_eq!(ConversionRate::PerSec4.period_us(), 250_000);
    assert_eq!(ConversionRate::PerSec1_16.period_us(), 16_000_000);
    assert_eq!(ConversionRate::PerSec64.period_us(), 15_625);
}

#[test]
fn consecutive_alert_round_trip() {
    let cfg = ConsecutiveAlertConfig {
        smbus_timeout_enabled: true,
        therm_count: ConsecutiveCount::Four,
        alert_count: ConsecutiveCount::Three,
    };
    assert_eq!(cfg.to_raw(), 0b1_111_011_0);
    assert_eq!(ConsecutiveAlertConfig::from_raw(cfg.to_raw()), cfg);
    // Undefined patterns read as one.
    assert_eq!(ConsecutiveCount::from_field(0b101), ConsecutiveCount::One);
}

#[test]
fn beta_config_round_trip() {
    let cfg = BetaConfig { autodetect: true, setting: BetaSetting::Beta2_33 };
    assert_eq!(cfg.to_raw(), 0b1110);
    assert_eq!(BetaConfig::from_raw(0b1110), cfg);
    assert_eq!(BetaConfig::from_raw(0x07).setting, BetaSetting::Disabled);
}

#[test]
fn digital_filter_codes() {
    assert_eq!(DigitalFilter::from_raw(0b10), DigitalFilter::Level1);
    assert_eq!(DigitalFilter::from_raw(0b01), DigitalFilter::Level1);
    assert_eq!(DigitalFilter::from_raw(0b11), DigitalFilter::Level2);
    assert_eq!(DigitalFilter::Level1.to_raw(), 0b01);
}

#[test]
fn limits_follow_the_range_bit() {
    assert_eq!(encode_limit(85, false), 85);
    assert_eq!(encode_limit(85, true), 149);
    assert_eq!(encode_limit(-10, true), 54);
    assert_eq!(decode_limit(149, true), 85);
    assert_eq!(decode_limit(54, true), -10);
    assert_eq!(decode_limit(200, false), 200);
}

#[test]
fn temperatures_in_tenths() {
    assert_eq!(decic_from_eighths(decode_temp_eighths(42, 0b011_00000, false)), 423);
    // -63.875C -> -638 (truncated toward zero).
    assert_eq!(decic_from_eighths(decode_temp_eighths(0, 0b001_00000, true)), -638);
}

#[test]
fn identification() {
    assert_eq!(
        device_id_from::<()>(0x5D, 0x21, 3),
        Ok(DeviceId { product: Product::Emc1403, revision: 3 })
    );
    assert_eq!(
        device_id_from::<()>(0x5D, 0x25, 1),
        Ok(DeviceId { product: Product::Emc1404, revision: 1 })
    );
    assert_eq!(
        device_id_from::<()>(0x5D, 0x99, 1),
        Err(Error::UnexpectedDevice { product: 0x99, manufacturer: 0x5D })
    );
    assert_eq!(
        device_id_from::<()>(0x11, 0x21, 1),
        Err(Error::UnexpectedDevice { product: 0x21, manufacturer: 0x11 })
    );
}

#[test]
fn probe_retries_only_bus_errors_and_at_most_ten_times() {
    let mut retry = ProbeRetry::new();
    assert!(!retry.should_retry(false));
    let mut retries = 0;
    while retry.should_retry(true) {
        retries += 1;
    }
    assert_eq!(retries, PROBE_MAX_RETRIES);
}
