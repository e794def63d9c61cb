use cinemacontrol::hid_tools::{Report, ToLeBytes};
use cinemacontrol::protocol::{ChipTemperature, CHIP_TEMP_REPORT_LEN, PowerTelemetry, ThermalTelemetry};

#[test]
fn power_telemetry_wire_format() {
    let t = PowerTelemetry { voltage_mv: 12_034, current_ma: -1_500, power_mw: 18_051_000 };
    let bytes = t.to_bytes();
    assert_eq!(bytes, [0x02, 0x2F, 0x24, 0xFA, 0xB8, 0x6F, 0x13, 0x01]);
    assert_eq!(PowerTelemetry::from_bytes(bytes), t);
}

#[test]
fn thermal_telemetry_wire_format() {
    let t = ThermalTelemetry { internal_decic: 423, external1_decic: -638 };
    let bytes = t.to_bytes();
    assert_eq!(bytes, [0xA7, 0x01, 0x82, 0xFD]);
    assert_eq!(ThermalTelemetry::from_bytes(bytes), t);
}

#[test]
fn telemetry_defaults_are_zero() {
    assert_eq!(PowerTelemetry::default().to_bytes(), [0; 8]);
    assert_eq!(ThermalTelemetry::default().to_bytes(), [0; 4]);
}

#[test]
fn decoding_any_bytes_re_encodes_them() {
    let raw = [0xFF, 0x80, 0x01, 0x80, 0x10, 0x20, 0x30, 0x40];
    assert_eq!(PowerTelemetry::from_bytes(raw).to_bytes(), raw);
    assert_eq!(ThermalTelemetry::from_bytes([1, 2, 3, 4]).to_bytes(), [1, 2, 3, 4]);
}

#[test]
fn report_appends_fields_in_order() {
    let mut buf = [0u8; 8];
    let mut report = Report::new(&mut buf);
    report.field(0x1234u16).field(-2i16).field(0xA1B2C3D4u32);
    assert_eq!(report.len(), 8);
    assert_eq!(buf, [0x34, 0x12, 0xFE, 0xFF, 0xD4, 0xC3, 0xB2, 0xA1]);
    assert_eq!(ToLeBytes::<2>::to_le_bytes(0xBEEFu16), [0xEF, 0xBE]);
}

#[test]
fn chip_temperature_round_trip() {
    let t = ChipTemperature { decic: -123 };
    let bytes = t.to_bytes();
    assert_eq!(bytes.len(), CHIP_TEMP_REPORT_LEN);
    assert_eq!(bytes, [0x85, 0xFF]);
    assert_eq!(ChipTemperature::from_bytes(bytes), t);
    assert_eq!(ChipTemperature::from_bytes([0x2C, 0x01]), ChipTemperature { decic: 300 });
    assert_eq!(ChipTemperature::default(), ChipTemperature { decic: 0 });
}
