use pawpad::backend::guid::{alternative_guid, crc16, get_guid, Guid};
use pawpad::backend::hid::{hid_device_guids, is_gamepad_usage, HidBus};

#[test]
fn crc16_check_value() {
    // CRC-16/ARC check value.
    assert_eq!(crc16(0, b"123456789"), 0xBB3D);
    assert_eq!(crc16(0, b""), 0);
    assert_eq!(crc16(0x1234, b""), 0x1234);
}

#[test]
fn crc16_concat() {
    let whole = crc16(0, b"8BitDo SN30 Pro");
    let split = crc16(crc16(crc16(0, b"8BitDo"), b" "), b"SN30 Pro");
    assert_eq!(whole, split);
}

#[test]
fn guid_with_vendor() {
    let g = get_guid(0x03, 0x2dc8, 0x6001, 0x0111, None, None, b'h', 0);
    assert_eq!(
        g.bytes,
        [0x03, 0x00, 0x00, 0x00, 0xc8, 0x2d, 0x00, 0x00, 0x01, 0x60, 0x00, 0x00, 0x11, 0x01, 0x68, 0x00]
    );
}

#[test]
fn guid_name_checksum() {
    let crc = crc16(0, b"8BitDo SN30 Pro");
    let g = get_guid(0x05, 0x2dc8, 0x6101, 1, Some("8BitDo"), Some("SN30 Pro"), 0, 0);
    assert_eq!(g.bytes[2], (crc & 0xff) as u8);
    assert_eq!(g.bytes[3], (crc >> 8) as u8);
    // Only a product name: its checksum alone.
    let crc = crc16(0, b"SN30 Pro");
    let g = get_guid(0x05, 0x2dc8, 0x6101, 1, None, Some("SN30 Pro"), 0, 0);
    assert_eq!(u16::from_le_bytes([g.bytes[2], g.bytes[3]]), crc);
    // An empty vendor name counts as none.
    let g2 = get_guid(0x05, 0x2dc8, 0x6101, 1, Some(""), Some("SN30 Pro"), 0, 0);
    assert_eq!(g, g2);
    // No product name: no checksum.
    let g = get_guid(0x05, 0x2dc8, 0x6101, 1, Some("8BitDo"), None, 0, 0);
    assert_eq!(g.bytes[2], 0);
    assert_eq!(g.bytes[3], 0);
}

#[test]
fn guid_without_vendor_holds_name() {
    let g = get_guid(0x03, 0, 0, 0, None, Some("Pad"), 0, 0);
    let crc = crc16(0, b"Pad");
    let mut expected = [0u8; 16];
    expected[0] = 3;
    expected[2] = (crc & 0xff) as u8;
    expected[3] = (crc >> 8) as u8;
    expected[4..7].copy_from_slice(b"Pad");
    assert_eq!(g.bytes, expected);

    // As SDL_strlcpy into the twelve-byte field: eleven name bytes and a zero.
    let g = get_guid(0x03, 0, 7, 7, None, Some("A very long controller name"), 0, 0);
    assert_eq!(&g.bytes[4..15], b"A very long");
    assert_eq!(g.bytes[15], 0);

    // A twelve-byte name loses its last byte to the terminating zero.
    let g = get_guid(0x03, 0, 7, 7, None, Some("Twelve bytes"), 0, 0);
    assert_eq!(&g.bytes[4..15], b"Twelve byte");
    assert_eq!(g.bytes[15], 0);

    // With a driver signature the field is ten bytes: nine name bytes and a zero.
    let g = get_guid(0x03, 0, 7, 7, None, Some("A very long controller name"), b'h', 9);
    assert_eq!(&g.bytes[4..13], b"A very lo");
    assert_eq!(g.bytes[13], 0);
    assert_eq!(g.bytes[14], b'h');
    assert_eq!(g.bytes[15], 9);

    let g = get_guid(0x03, 0, 7, 7, None, None, 0, 9);
    assert_eq!(&g.bytes[4..16], &[0u8; 12]);
}

#[test]
fn alternative_guid_clears_checksum() {
    let g = get_guid(0x05, 0x2dc8, 0x6101, 1, Some("8BitDo"), Some("SN30 Pro"), b'h', 0);
    let alt = alternative_guid(g);
    let mut expected = g.bytes;
    expected[2] = 0;
    expected[3] = 0;
    expected[13] = 1;
    assert_eq!(alt.bytes, expected);
    assert_eq!(alternative_guid(alt), alt);
}

#[test]
fn alternative_guid_shared_by_names() {
    let a = get_guid(0x03, 0x2dc8, 0x6001, 0x0111, Some("8BitDo"), Some("Pro 2"), b'h', 0);
    let b = get_guid(0x03, 0x2dc8, 0x6001, 0x0111, Some("Other"), Some("Name"), b'h', 0);
    assert_ne!(a, b);
    assert_eq!(alternative_guid(a), alternative_guid(b));
}

#[test]
fn guid_as_u128_is_big_endian() {
    let g = Guid { bytes: [0xa1, 0xa2, 0xa3, 0xa4, 0xb1, 0xb2, 0xc1, 0xc2, 0xd1, 0xd2, 0xd3, 0xd4, 0xd5, 0xd6, 0xd7, 0xd8] };
    assert_eq!(g.as_u128(), 0xa1a2a3a4b1b2c1c2d1d2d3d4d5d6d7d8);
    assert_eq!(g.as_u128(), uuid::Uuid::from_bytes(g.bytes).as_u128());
    assert_eq!(Guid { bytes: [0; 16] }.as_u128(), 0);
}

#[test]
fn hid_guids() {
    let (g, alt) = hid_device_guids(HidBus::Bluetooth, 0x2dc8, 0x6006, 2, Some("8BitDo"), Some("Pro 2"));
    assert_eq!(g, get_guid(0x05, 0x2dc8, 0x6006, 2, Some("8BitDo"), Some("Pro 2"), b'h', 0));
    assert_eq!(alt, alternative_guid(g));
    assert_eq!(HidBus::Unknown.code(), 0x00);
    assert_eq!(HidBus::Usb.code(), 0x03);
    assert_eq!(HidBus::Bluetooth.code(), 0x05);
    assert_eq!(HidBus::I2c.code(), 0x18);
    assert_eq!(HidBus::Spi.code(), 0x1c);
}

#[test]
fn gamepad_usage_filter() {
    assert!(is_gamepad_usage(1, 5));
    assert!(is_gamepad_usage(1, 4));
    assert!(!is_gamepad_usage(1, 6));
    assert!(!is_gamepad_usage(2, 5));
}
