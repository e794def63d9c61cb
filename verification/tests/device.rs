use cinemacontrol::device::{compare_bytes, discover, ByteOrder, DeviceEntry, DiscoverError};

fn entry(vid: u16, pid: u16, serial: &str, iface: i32, path: &str) -> DeviceEntry {
    DeviceEntry {
        vendor_id: vid,
        product_id: pid,
        serial: serial.as_bytes().to_vec(),
        interface_number: iface,
        path: path.as_bytes().to_vec(),
    }
}

#[test]
fn groups_interfaces_by_serial_in_ascending_order() {
    let entries = vec![
        entry(0x1209, 0xCC02, "B", 1, "b1"),
        entry(0x1209, 0xCC02, "A", 0, "a0"),
        entry(0x046D, 0xC52B, "A", 7, "mouse"),
        entry(0x1209, 0xCC02, "B", 0, "b0"),
        entry(0x1209, 0xCC02, "A", 3, "a3"),
    ];
    let boards = discover(&entries).unwrap();
    assert_eq!(boards.len(), 2);
    assert_eq!(boards[0].serial, b"A".to_vec());
    assert_eq!(boards[0].brightness_path, Some(b"a0".to_vec()));
    assert_eq!(boards[0].power_path, None);
    assert_eq!(boards[0].chip_temp_path, Some(b"a3".to_vec()));
    assert_eq!(boards[1].serial, b"B".to_vec());
    assert_eq!(boards[1].brightness_path, Some(b"b0".to_vec()));
    assert_eq!(boards[1].power_path, Some(b"b1".to_vec()));
}

#[test]
fn later_entries_win_and_prefixes_sort_first() {
    let entries = vec![
        entry(0x1209, 0xCC02, "AB", 2, "old"),
        entry(0x1209, 0xCC02, "A", 2, "short"),
        entry(0x1209, 0xCC02, "AB", 2, "new"),
    ];
    let boards = discover(&entries).unwrap();
    assert_eq!(boards.len(), 2);
    assert_eq!(boards[0].serial, b"A".to_vec());
    assert_eq!(boards[1].thermal_path, Some(b"new".to_vec()));
}

#[test]
fn unexpected_interface_is_an_error() {
    let entries = vec![
        entry(0x1209, 0xCC02, "A", 0, "a0"),
        entry(0x1209, 0xCC02, "A", 4, "a4"),
        entry(0x1209, 0xCC02, "A", -1, "neg"),
    ];
    assert_eq!(discover(&entries).unwrap_err(), DiscoverError::UnexpectedInterface(4));
}

#[test]
fn other_devices_are_ignored() {
    let entries = vec![entry(0x1209, 0xCC03, "A", 9, "x"), entry(0x1210, 0xCC02, "A", 0, "y")];
    assert!(discover(&entries).unwrap().is_empty());
}

#[test]
fn byte_order() {
    assert_eq!(compare_bytes(b"abc", b"abd"), ByteOrder::Less);
    assert_eq!(compare_bytes(b"abc", b"ab"), ByteOrder::Greater);
    assert_eq!(compare_bytes(b"", b""), ByteOrder::Equal);
    assert_eq!(compare_bytes(b"ab", b"abc"), ByteOrder::Less);
}
