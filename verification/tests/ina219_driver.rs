use cinemacontrol::ina219::{Address, BusVoltage, Error, Ina219, Register, RESET_BITS};

#[test]
fn addresses_follow_strap_pins() {
    assert_eq!(u8::from(Address::GndGnd), 0x40);
    assert_eq!(u8::from(Address::VsScl), 0x47);
    assert_eq!(u8::from(Address::SclScl), 0x4F);
    assert_eq!(u8::from(Register::Calibration), 0x05);
    assert_eq!(u8::from(Register::Configuration), 0x00);
}

#[test]
fn constructor_keeps_board_constants() {
    let sensor = Ina219::new((), 0x40, 7, 0x4000);
    assert_eq!(sensor.address(), 0x40);
    assert_eq!(sensor.current_lsb_ma(), 7);
    assert_eq!(sensor.calibration_setting(), 0x4000);
    sensor.release();
}

#[test]
fn register_writes_are_big_endian() {
    assert_eq!(Ina219::<()>::write_frame(0x05, 0x4000), [0x05, 0x40, 0x00]);
    assert_eq!(Ina219::<()>::write_frame(0x00, RESET_BITS), [0x00, 0x80, 0x00]);
    assert_eq!(Ina219::<()>::register_value([0x12, 0x34]), 0x1234);
}

#[test]
fn bus_voltage_decodes_fields() {
    // 12000mV = 3000 * 4 -> bits 15:3 = 3000, CNVR set, OVF clear.
    let raw = (3000u16 << 3) | 0b10;
    assert_eq!(
        BusVoltage::from_raw(raw),
        BusVoltage { millivolts: 12000, conversion_ready: true, overflow: false }
    );
    assert!(BusVoltage::from_raw(1).overflow);
    assert_eq!(BusVoltage::from_raw(0xFFFF).millivolts, 32764);
}

#[test]
fn shunt_voltage_is_signed_ten_microvolt_steps() {
    assert_eq!(Ina219::<()>::shunt_voltage_uv_from_raw(100), 1000);
    assert_eq!(Ina219::<()>::shunt_voltage_uv_from_raw(0xFFFF), -10);
}

#[test]
fn current_and_power_scale_with_the_current_lsb() {
    let sensor = Ina219::new((), 0x40, 2, 0x4000);
    assert_eq!(sensor.current_ma_from_raw(1000), 2000);
    assert_eq!(sensor.current_ma_from_raw(0xFFFE), -4);
    // Power_LSB = 20 x Current_LSB = 40mW.
    assert_eq!(sensor.power_mw_from_raw(50), 2000);
}

#[test]
fn large_current_lsb_wraps_like_the_64_bit_computation() {
    let sensor = Ina219::new((), 0x40, u32::MAX, 0);
    assert_eq!(sensor.current_ma_from_raw(1), ((u32::MAX as i64) as i32));
    assert_eq!(sensor.power_mw_from_raw(1), ((20 * u32::MAX as u64) as u32));
}

#[test]
fn current_and_power_are_refused_until_calibrated() {
    let mut sensor = Ina219::new((), 0x40, 0, 0x4000);
    assert!(!sensor.is_calibrated());
    assert_eq!(sensor.current_ma_checked::<()>(100), Err(Error::NotCalibrated));
    assert_eq!(sensor.power_mw_checked::<()>(100), Err(Error::NotCalibrated));

    sensor.record_calibration(2);
    assert!(sensor.is_calibrated());
    assert_eq!(sensor.current_lsb_ma(), 2);
    assert_eq!(sensor.current_ma_checked::<()>(0xFFFF), Ok(-2));
    assert_eq!(sensor.current_ma_checked::<()>(100), Ok(200));
    assert_eq!(sensor.power_mw_checked::<()>(100), Ok(4000));
    assert_eq!(sensor.calibration_setting(), 0x4000);

    sensor.record_reset();
    assert!(!sensor.is_calibrated());
    assert_eq!(sensor.current_lsb_ma(), 0);
    assert_eq!(sensor.current_ma_checked::<()>(100), Err(Error::NotCalibrated));
    assert_eq!(sensor.power_mw_checked::<()>(100), Err(Error::NotCalibrated));
}
