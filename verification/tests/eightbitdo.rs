use pawpad::backend::guid::{alternative_guid, get_guid, Guid};
use pawpad::backend::hid::driver::eightbitdo::{
    guess_axis, guess_button, DeviceHat, EightBitDoDriver, HatMask,
};
use pawpad::backend::hid::driver::{HidDriver, HidEvent};
use pawpad::gamepad::axis::GamepadAxis;
use pawpad::gamepad::button::GamepadButton;
use pawpad::mapping::hat::{HatButton, HatDescriptor, HatIndex};
use pawpad::mapping::{AxisMapping, BakedGamepadMappings, DeviceMappings, GamepadMappings, Platform};

fn ids() -> (Guid, Guid) {
    let g = get_guid(0x03, 0x2dc8, 0x6009, 1, Some("8BitDo"), Some("Pro 3"), b'h', 0);
    (g, alternative_guid(g))
}

fn no_mappings() -> BakedGamepadMappings {
    GamepadMappings::default().bake(Platform::Linux)
}

/// A report: hat byte, six axis bytes, button bytes.
fn report(hat: u8, axes: [u8; 6], buttons: [u8; 3]) -> Vec<u8> {
    let mut r = vec![0x03, hat];
    r.extend_from_slice(&axes);
    r.extend_from_slice(&buttons);
    r
}

const REST: [u8; 6] = [127, 127, 127, 127, 0, 0];

#[test]
fn device_hat_directions() {
    assert_eq!(DeviceHat::from_device(0), Some(DeviceHat::Up));
    assert_eq!(DeviceHat::from_device(3), Some(DeviceHat::RightDown));
    assert_eq!(DeviceHat::from_device(7), Some(DeviceHat::LeftUp));
    assert_eq!(DeviceHat::from_device(8), None);
    assert_eq!(DeviceHat::from_device(0x0f), None);
    assert_eq!(DeviceHat::Up.to_mask().bits, 1);
    assert_eq!(DeviceHat::RightUp.to_mask().bits, 3);
    assert_eq!(DeviceHat::Right.to_mask().bits, 2);
    assert_eq!(DeviceHat::RightDown.to_mask().bits, 6);
    assert_eq!(DeviceHat::Down.to_mask().bits, 4);
    assert_eq!(DeviceHat::LeftDown.to_mask().bits, 12);
    assert_eq!(DeviceHat::Left.to_mask().bits, 8);
    assert_eq!(DeviceHat::LeftUp.to_mask().bits, 9);
}

#[test]
fn hat_mask_iter_buttons() {
    assert_eq!(HatMask::empty().iter_buttons(), vec![]);
    assert_eq!(
        HatMask { bits: 9 }.iter_buttons(),
        vec![(HatMask::up(), HatButton::One), (HatMask::left(), HatButton::Eight)]
    );
    assert_eq!(HatMask { bits: 0x0f }.iter_buttons().len(), 4);
    assert_eq!(HatMask::up().union(HatMask::down()).bits, 5);
    assert_eq!(HatMask { bits: 3 }.symmetric_difference(HatMask { bits: 6 }).bits, 5);
    assert!(HatMask { bits: 3 }.contains(HatMask::right()));
    assert!(!HatMask { bits: 3 }.contains(HatMask::down()));
}

#[test]
fn guesses() {
    assert_eq!(guess_axis(0), Some(AxisMapping::of_axis(GamepadAxis::LeftX)));
    assert_eq!(guess_axis(4), Some(AxisMapping::of_axis(GamepadAxis::RightTrigger)));
    assert_eq!(guess_axis(5), Some(AxisMapping::of_axis(GamepadAxis::LeftTrigger)));
    assert_eq!(guess_axis(6), None);
    assert_eq!(guess_button(0), Some(GamepadButton::East));
    assert_eq!(guess_button(1), Some(GamepadButton::South));
    assert_eq!(guess_button(8), None);
    assert_eq!(guess_button(12), Some(GamepadButton::Guide));
    assert_eq!(guess_button(17), Some(GamepadButton::RightPaddle1));
    assert_eq!(guess_button(18), None);
}

#[test]
fn driver_selection() {
    assert!(EightBitDoDriver::from(0x2dc8, 0x6001).is_some());
    assert!(EightBitDoDriver::from(0x2dc8, 0x1234).is_some());
    assert!(EightBitDoDriver::from(0x045e, 0x6001).is_none());
    assert!(matches!(HidDriver::from(0x2dc8, 0x6012), HidDriver::EightBitDo(_)));
    assert!(matches!(HidDriver::from(0x054c, 0x0ce6), HidDriver::Unknown(_)));
}

#[test]
fn resting_report_is_silent() {
    let (g, alt) = ids();
    let mut d = EightBitDoDriver::from(0x2dc8, 0x6009).unwrap();
    let mut events = Vec::new();
    d.handle_state(&report(0x0f, REST, [0, 0, 0]), g, alt, &mut events, &no_mappings());
    assert!(events.is_empty());
}

#[test]
fn buttons_hat_and_axes() {
    let (g, alt) = ids();
    let m = no_mappings();
    let mut d = EightBitDoDriver::from(0x2dc8, 0x6009).unwrap();
    let mut events = Vec::new();
    // Hat right-up, left stick X fully right, A (bit 0) and bit 8 (no guess) pressed.
    d.handle_state(&report(1, [255, 127, 127, 127, 0, 0], [0x01, 0x01, 0]), g, alt, &mut events, &m);
    assert_eq!(
        events,
        vec![
            HidEvent::ButtonChanged(GamepadButton::DPadUp, true),
            HidEvent::ButtonChanged(GamepadButton::DPadRight, true),
            HidEvent::AxisMoved(AxisMapping::of_axis(GamepadAxis::LeftX), 255),
            HidEvent::ButtonChanged(GamepadButton::East, true),
        ]
    );
    // Hat right: up is released; A released, B pressed; byte 10 bit 0 (bit 16) pressed.
    let mut events = Vec::new();
    d.handle_state(&report(2, [255, 127, 127, 127, 0, 0], [0x02, 0x01, 0x01]), g, alt, &mut events, &m);
    assert_eq!(
        events,
        vec![
            HidEvent::ButtonChanged(GamepadButton::DPadUp, false),
            HidEvent::ButtonChanged(GamepadButton::East, false),
            HidEvent::ButtonChanged(GamepadButton::South, true),
            HidEvent::ButtonChanged(GamepadButton::LeftPaddle1, true),
        ]
    );
}

#[test]
fn short_report_has_no_third_button_byte() {
    let (g, alt) = ids();
    let m = no_mappings();
    let mut d = EightBitDoDriver::from(0x2dc8, 0x6009).unwrap();
    let mut events = Vec::new();
    let mut r = report(0x0f, REST, [0, 0x10, 0]);
    r.truncate(10);
    d.handle_state(&r, g, alt, &mut events, &m);
    // Bit 12: guide.
    assert_eq!(events, vec![HidEvent::ButtonChanged(GamepadButton::Guide, true)]);
}

#[test]
fn repeated_report_is_silent() {
    let (g, alt) = ids();
    let m = no_mappings();
    let mut d = EightBitDoDriver::from(0x2dc8, 0x6009).unwrap();
    let r = report(5, [3, 200, 17, 99, 255, 1], [0xff, 0xff, 0xff]);
    let mut events = Vec::new();
    d.handle_state(&r, g, alt, &mut events, &m);
    assert!(!events.is_empty());
    let mut again = Vec::new();
    d.handle_state(&r, g, alt, &mut again, &m);
    assert!(again.is_empty());
}

#[test]
fn mappings_override_guesses() {
    let (g, alt) = ids();
    let mut dm = DeviceMappings::default();
    dm.buttons.insert(0, GamepadButton::Misc4);
    dm.buttons.insert(8, GamepadButton::Misc5);
    dm.axes.insert(1, AxisMapping { axis: GamepadAxis::RightY, invert: true });
    dm.hats.insert(HatDescriptor(HatIndex::Zero, HatButton::Four).key(), GamepadButton::Misc6);
    let mut mappings = GamepadMappings::default();
    mappings.linux.insert(alt.as_u128(), dm);
    let m = mappings.bake(Platform::Linux);
    let mut d = EightBitDoDriver::from(0x2dc8, 0x6009).unwrap();
    let mut events = Vec::new();
    d.handle_state(&report(4, [127, 0, 127, 127, 0, 0], [0x01, 0x01, 0x00]), g, alt, &mut events, &m);
    assert_eq!(
        events,
        vec![
            HidEvent::ButtonChanged(GamepadButton::Misc6, true),
            HidEvent::AxisMoved(AxisMapping { axis: GamepadAxis::RightY, invert: true }, 0),
            HidEvent::ButtonChanged(GamepadButton::Misc4, true),
            HidEvent::ButtonChanged(GamepadButton::Misc5, true),
        ]
    );
}

#[test]
fn unknown_driver_ignores_reports() {
    let (g, alt) = ids();
    let m = no_mappings();
    let mut d = HidDriver::from(0x1234, 0x5678);
    let mut events = vec![HidEvent::ButtonChanged(GamepadButton::Start, true)];
    d.handle_state(&[1, 2, 3], g, alt, &mut events, &m);
    assert_eq!(events, vec![HidEvent::ButtonChanged(GamepadButton::Start, true)]);
}

#[test]
fn dispatch_to_eightbitdo() {
    let (g, alt) = ids();
    let m = no_mappings();
    let mut d = HidDriver::from(0x2dc8, 0x6003);
    let mut events = Vec::new();
    d.handle_state(&report(0x0f, [127, 127, 127, 127, 9, 0], [0, 0, 0]), g, alt, &mut events, &m);
    assert_eq!(events, vec![HidEvent::AxisMoved(AxisMapping::of_axis(GamepadAxis::RightTrigger), 9)]);
}
