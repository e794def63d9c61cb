use cinemacontrol::device::Board;
use cinemacontrol::menubar::{
    boards_to_add, brightness_from_percent, copy_rgba, brightness_text, decimal, percent, placeholder_change,
    serials_to_remove, PlaceholderChange, SliderSync,
};
use cinemacontrol::report::{brightness_feature_report, brightness_from_bytes, feature_payload};

fn board(serial: &str) -> Board {
    Board {
        serial: serial.as_bytes().to_vec(),
        brightness_path: None,
        power_path: None,
        thermal_path: None,
        chip_temp_path: None,
    }
}

#[test]
fn feature_report_round_trip() {
    assert_eq!(brightness_feature_report(512), [0, 0x00, 0x02]);
    assert_eq!(brightness_feature_report(4000), [0, 0xFF, 0x03]);
    let report = brightness_feature_report(700);
    let payload = feature_payload(&report);
    assert_eq!(brightness_from_bytes([payload[0], payload[1]]), 700);
}

#[test]
fn percent_and_back() {
    assert_eq!(percent(0), 0);
    assert_eq!(percent(512), 50);
    assert_eq!(percent(1023), 100);
    assert_eq!(brightness_from_percent(50), 512);
    assert_eq!(brightness_from_percent(100), 1023);
    assert_eq!(brightness_from_percent(200), 1023);
    for p in 0..=100u32 {
        assert_eq!(percent(brightness_from_percent(p)), p);
    }
}

#[test]
fn brightness_label() {
    assert_eq!(brightness_text(512), "Brightness: 50%");
    assert_eq!(brightness_text(1023), "Brightness: 100%");
    assert_eq!(brightness_text(0), "Brightness: 0%");
    assert_eq!(decimal(4294967295), "4294967295");
}

#[test]
fn placeholder_follows_board_count() {
    assert_eq!(placeholder_change(true, false), PlaceholderChange::Show);
    assert_eq!(placeholder_change(false, true), PlaceholderChange::Hide);
    assert_eq!(placeholder_change(true, true), PlaceholderChange::Keep);
    assert_eq!(placeholder_change(false, false), PlaceholderChange::Keep);
}

#[test]
fn refresh_adds_new_and_removes_gone_boards() {
    let discovered = vec![board("A"), board("C")];
    let known = vec![b"A".to_vec(), b"B".to_vec()];
    assert_eq!(boards_to_add(&discovered, &known), vec![1]);
    assert_eq!(serials_to_remove(&known, &discovered), vec![1]);
}

#[test]
fn slider_writes_only_when_moved() {
    let mut sync = SliderSync::new(512);
    assert_eq!(sync.synced_percent, 50);
    assert_eq!(sync.on_slider(50), None);
    assert_eq!(sync.on_slider(75), Some(767));
    assert_eq!(sync.brightness, 767);
    assert_eq!(sync.on_slider(75), None);
}

#[test]
fn rgba_rows_drop_their_padding() {
    // 2x2 pixels, rows padded to 12 bytes.
    let mut data = vec![0xEEu8; 24];
    for k in 0..8 {
        data[k] = k as u8;
        data[12 + k] = 100 + k as u8;
    }
    let out = copy_rgba(&data, 12, 2, 2);
    assert_eq!(out, vec![0, 1, 2, 3, 4, 5, 6, 7, 100, 101, 102, 103, 104, 105, 106, 107]);
    assert_eq!(copy_rgba(&data, 8, 2, 3), data[..24].to_vec());
    assert!(copy_rgba(&data, 12, 0, 2).is_empty());
}
