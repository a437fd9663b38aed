use pawpad::gamepad::button::GamepadButton;
use pawpad::mapping::hat::{HatButton, HatDescriptor, HatDescriptorParseError, HatIndex};

#[test]
fn hat_button_chars() {
    assert_eq!(HatButton::One.to_char(), b'1');
    assert_eq!(HatButton::Two.to_char(), b'2');
    assert_eq!(HatButton::Four.to_char(), b'4');
    assert_eq!(HatButton::Eight.to_char(), b'8');
    assert_eq!(HatButton::from_char(b'1'), Some(HatButton::One));
    assert_eq!(HatButton::from_char(b'2'), Some(HatButton::Two));
    assert_eq!(HatButton::from_char(b'4'), Some(HatButton::Four));
    assert_eq!(HatButton::from_char(b'8'), Some(HatButton::Eight));
    assert_eq!(HatButton::from_char(b'3'), None);
    assert_eq!(HatButton::from_char(b'0'), None);
}

#[test]
fn hat_index_chars() {
    assert_eq!(HatIndex::Zero.to_char(), b'0');
    assert_eq!(HatIndex::Three.to_char(), b'3');
    assert_eq!(HatIndex::from_char(b'2'), Some(HatIndex::Two));
    assert_eq!(HatIndex::from_char(b'4'), None);
    assert_eq!(HatIndex::One.to_index(), 1);
    assert_eq!(HatIndex::Three.to_index(), 3);
}

#[test]
fn hat_char_roundtrip_all() {
    for b in [HatButton::One, HatButton::Two, HatButton::Four, HatButton::Eight] {
        assert_eq!(HatButton::from_char(b.to_char()), Some(b));
    }
    for i in [HatIndex::Zero, HatIndex::One, HatIndex::Two, HatIndex::Three] {
        assert_eq!(HatIndex::from_char(i.to_char()), Some(i));
    }
}

#[test]
fn hat_guess_button() {
    assert_eq!(HatDescriptor(HatIndex::Zero, HatButton::One).guess_button(), GamepadButton::DPadUp);
    assert_eq!(HatDescriptor(HatIndex::Two, HatButton::Two).guess_button(), GamepadButton::DPadRight);
    assert_eq!(HatDescriptor(HatIndex::Zero, HatButton::Four).guess_button(), GamepadButton::DPadDown);
    assert_eq!(HatDescriptor(HatIndex::One, HatButton::Eight).guess_button(), GamepadButton::DPadLeft);
}

#[test]
fn hat_descriptor_text() {
    let d = HatDescriptor(HatIndex::Two, HatButton::Eight);
    assert_eq!(d.to_text(), *b"2.8");
    assert_eq!(HatDescriptor::parse("2.8"), Ok(d));
    assert_eq!(HatDescriptor::parse("0.1"), Ok(HatDescriptor(HatIndex::Zero, HatButton::One)));
}

#[test]
fn hat_descriptor_text_roundtrip_all() {
    for i in [HatIndex::Zero, HatIndex::One, HatIndex::Two, HatIndex::Three] {
        for b in [HatButton::One, HatButton::Two, HatButton::Four, HatButton::Eight] {
            let d = HatDescriptor(i, b);
            let text = d.to_text();
            let s = std::str::from_utf8(&text).unwrap();
            assert_eq!(HatDescriptor::parse(s), Ok(d));
        }
    }
}

#[test]
fn hat_descriptor_parse_errors() {
    assert_eq!(HatDescriptor::parse("0.10"), Err(HatDescriptorParseError::BadFormat));
    assert_eq!(HatDescriptor::parse("0-1"), Err(HatDescriptorParseError::BadFormat));
    assert_eq!(HatDescriptor::parse(""), Err(HatDescriptorParseError::BadFormat));
    assert_eq!(HatDescriptor::parse("4.1"), Err(HatDescriptorParseError::InvalidIndex));
    assert_eq!(HatDescriptor::parse("9.9"), Err(HatDescriptorParseError::InvalidIndex));
    assert_eq!(HatDescriptor::parse("1.3"), Err(HatDescriptorParseError::InvalidButton));
}

#[test]
fn hat_descriptor_keys_distinct() {
    let mut seen = Vec::new();
    for i in [HatIndex::Zero, HatIndex::One, HatIndex::Two, HatIndex::Three] {
        for b in [HatButton::One, HatButton::Two, HatButton::Four, HatButton::Eight] {
            let k = HatDescriptor(i, b).key();
            assert!(k < 16);
            assert!(!seen.contains(&k));
            seen.push(k);
        }
    }
    assert_eq!(HatDescriptor(HatIndex::One, HatButton::Four).key(), 6);
}

#[test]
fn hat_descriptor_from_key() {
    for i in [HatIndex::Zero, HatIndex::One, HatIndex::Two, HatIndex::Three] {
        for b in [HatButton::One, HatButton::Two, HatButton::Four, HatButton::Eight] {
            let d = HatDescriptor(i, b);
            assert_eq!(HatDescriptor::from_key(d.key()), Some(d));
        }
    }
    assert_eq!(HatDescriptor::from_key(6), Some(HatDescriptor(HatIndex::One, HatButton::Four)));
    assert_eq!(HatDescriptor::from_key(16), None);
    assert_eq!(HatDescriptor::from_key(255), None);
}
