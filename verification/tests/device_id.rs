use pawpad::mapping::device_id::{DeviceId, DeviceIdParseError, HexParseError};

#[test]
fn device_id_text() {
    let id = DeviceId { vendor: 0x2dc8, product: 0x6001, version: 0x0111 };
    assert_eq!(id.to_text(), b"2dc8:6001:0111".to_vec());
    let id = DeviceId { vendor: 0, product: 0xABCD, version: 0xffff };
    assert_eq!(id.to_text(), b"0000:abcd:ffff".to_vec());
}

#[test]
fn device_id_parse() {
    assert_eq!(
        DeviceId::parse("2dc8:6001:0111"),
        Ok(DeviceId { vendor: 0x2dc8, product: 0x6001, version: 0x0111 })
    );
    assert_eq!(
        DeviceId::parse("2DC8:1:+a"),
        Ok(DeviceId { vendor: 0x2dc8, product: 1, version: 10 })
    );
    assert_eq!(
        DeviceId::parse("0000000ffff:0:0"),
        Ok(DeviceId { vendor: 0xffff, product: 0, version: 0 })
    );
}

#[test]
fn device_id_parse_errors() {
    assert_eq!(DeviceId::parse(""), Err(DeviceIdParseError::MissingProduct));
    assert_eq!(DeviceId::parse("1234"), Err(DeviceIdParseError::MissingProduct));
    assert_eq!(DeviceId::parse("zz:1"), Err(DeviceIdParseError::MissingVersion));
    assert_eq!(DeviceId::parse("1:2:3:4"), Err(DeviceIdParseError::TooManyFields));
    assert_eq!(DeviceId::parse("1::3"), Err(DeviceIdParseError::InvalidNumber(HexParseError::Empty)));
    assert_eq!(DeviceId::parse("1:g:3"), Err(DeviceIdParseError::InvalidNumber(HexParseError::InvalidDigit)));
    assert_eq!(DeviceId::parse("-1:2:3"), Err(DeviceIdParseError::InvalidNumber(HexParseError::InvalidDigit)));
    assert_eq!(DeviceId::parse("+:2:3"), Err(DeviceIdParseError::InvalidNumber(HexParseError::InvalidDigit)));
    assert_eq!(DeviceId::parse("10000:0:0"), Err(DeviceIdParseError::InvalidNumber(HexParseError::PosOverflow)));
    assert_eq!(DeviceId::parse("10000z:0:0"), Err(DeviceIdParseError::InvalidNumber(HexParseError::PosOverflow)));
    assert_eq!(DeviceId::parse("1z0000:0:0"), Err(DeviceIdParseError::InvalidNumber(HexParseError::InvalidDigit)));
}

#[test]
fn device_id_text_roundtrip() {
    for (vendor, product, version) in [(0u16, 0u16, 0u16), (0x2dc8, 0x6001, 0x0111), (0xffff, 0x1234, 0xa0b0)] {
        let id = DeviceId { vendor, product, version };
        let text = id.to_text();
        let s = std::str::from_utf8(&text).unwrap();
        assert_eq!(DeviceId::parse(s), Ok(id));
    }
}

#[test]
fn device_id_parse_agrees_with_std() {
    for field in ["0", "ff", "FFFF", "+7", "-7", "+", "-", "", "12345", "0001f", "x"] {
        let text = format!("{}:1:1", field);
        let ours = DeviceId::parse(&text);
        match u16::from_str_radix(field, 16) {
            Ok(v) => assert_eq!(ours, Ok(DeviceId { vendor: v, product: 1, version: 1 })),
            Err(e) => {
                let kind = match e.kind() {
                    std::num::IntErrorKind::Empty => HexParseError::Empty,
                    std::num::IntErrorKind::InvalidDigit => HexParseError::InvalidDigit,
                    _ => HexParseError::PosOverflow,
                };
                assert_eq!(ours, Err(DeviceIdParseError::InvalidNumber(kind)));
            }
        }
    }
}
