use std::collections::HashMap;

use pawpad::backend::guid::{alternative_guid, get_guid, Guid};
use pawpad::gamepad::axis::GamepadAxis;
use pawpad::gamepad::button::GamepadButton;
use pawpad::mapping::hat::{HatButton, HatDescriptor, HatIndex};
use pawpad::mapping::{AxisMapping, DeviceMappings, GamepadMappings, Platform, Transport};

fn device() -> (Guid, Guid) {
    let g = get_guid(0x03, 0x2dc8, 0x6001, 0x0111, Some("8BitDo"), Some("SN30 Pro"), b'h', 0);
    (g, alternative_guid(g))
}

#[test]
fn axis_mapping_of_axis() {
    assert_eq!(AxisMapping::of_axis(GamepadAxis::LeftY), AxisMapping { axis: GamepadAxis::LeftY, invert: false });
}

#[test]
fn transport_from_bus() {
    assert_eq!(Transport::from_bus(0x03), Some(Transport::Usb));
    assert_eq!(Transport::from_bus(0x05), Some(Transport::Bluetooth));
    assert_eq!(Transport::from_bus(0x18), None);
}

#[test]
fn empty_mappings_find_nothing() {
    let (g, alt) = device();
    let baked = GamepadMappings::default().bake(Platform::Linux);
    assert_eq!(baked.get_button(g, alt, 0), None);
    assert_eq!(baked.get_axis(g, alt, 0), None);
    assert_eq!(baked.get_hat(g, alt, HatDescriptor(HatIndex::Zero, HatButton::One)), None);
    let d = DeviceMappings::default();
    assert!(d.name.is_empty() && d.buttons.is_empty() && d.axes.is_empty() && d.hats.is_empty());
}

#[test]
fn lookup_prefers_own_guid() {
    let (g, alt) = device();
    let mut own = DeviceMappings::default();
    own.name = "own".to_string();
    own.buttons.insert(1, GamepadButton::South);
    own.axes.insert(2, AxisMapping { axis: GamepadAxis::RightX, invert: true });
    own.hats.insert(HatDescriptor(HatIndex::Zero, HatButton::Two).key(), GamepadButton::Misc1);
    let mut shared = DeviceMappings::default();
    shared.buttons.insert(1, GamepadButton::North);
    shared.buttons.insert(2, GamepadButton::West);
    shared.axes.insert(3, AxisMapping { axis: GamepadAxis::LeftTrigger, invert: false });
    shared.hats.insert(HatDescriptor(HatIndex::Zero, HatButton::Two).key(), GamepadButton::Misc2);
    shared.hats.insert(HatDescriptor(HatIndex::One, HatButton::Eight).key(), GamepadButton::Misc3);
    let mut mappings = GamepadMappings::default();
    mappings.linux.insert(g.as_u128(), own);
    mappings.linux.insert(alt.as_u128(), shared);
    let baked = mappings.bake(Platform::Linux);
    assert_eq!(baked.get_button(g, alt, 1), Some(GamepadButton::South));
    assert_eq!(baked.get_button(g, alt, 2), Some(GamepadButton::West));
    assert_eq!(baked.get_button(g, alt, 3), None);
    assert_eq!(baked.get_axis(g, alt, 2), Some(AxisMapping { axis: GamepadAxis::RightX, invert: true }));
    assert_eq!(baked.get_axis(g, alt, 3), Some(AxisMapping { axis: GamepadAxis::LeftTrigger, invert: false }));
    assert_eq!(baked.get_axis(g, alt, 4), None);
    assert_eq!(baked.get_hat(g, alt, HatDescriptor(HatIndex::Zero, HatButton::Two)), Some(GamepadButton::Misc1));
    assert_eq!(baked.get_hat(g, alt, HatDescriptor(HatIndex::One, HatButton::Eight)), Some(GamepadButton::Misc3));
    assert_eq!(baked.get_hat(g, alt, HatDescriptor(HatIndex::One, HatButton::One)), None);
    // Swapping the roles of the two GUIDs swaps which entry wins.
    assert_eq!(baked.get_button(alt, g, 1), Some(GamepadButton::North));
}

#[test]
fn bake_picks_the_platform() {
    let (g, alt) = device();
    let mut d = DeviceMappings::default();
    d.buttons.insert(0, GamepadButton::Guide);
    let mut mappings = GamepadMappings::default();
    mappings.windows.insert(g.as_u128(), d);
    assert_eq!(mappings.bake(Platform::Linux).get_button(g, alt, 0), None);
    assert_eq!(mappings.bake(Platform::MacOs).get_button(g, alt, 0), None);
    assert_eq!(mappings.bake(Platform::Windows).get_button(g, alt, 0), Some(GamepadButton::Guide));
    assert_eq!(mappings.get_platform(Platform::Windows).len(), 1);
    assert_eq!(mappings.get_platform(Platform::Android).len(), 0);
}

#[test]
fn bake_keeps_every_device() {
    let mut mappings = GamepadMappings::default();
    let mut guids = Vec::new();
    for i in 0..20u16 {
        let g = get_guid(0x03, 0x1000 + i, i, 0, None, None, 0, 0);
        let mut d = DeviceMappings::default();
        d.buttons.insert(i, GamepadButton::Start);
        d.buttons.insert(100, GamepadButton::Back);
        mappings.ios.insert(g.as_u128(), d);
        guids.push(g);
    }
    let baked = mappings.bake(Platform::Ios);
    let nobody = Guid { bytes: [0xee; 16] };
    for (i, g) in guids.iter().enumerate() {
        assert_eq!(baked.get_button(*g, nobody, i as u16), Some(GamepadButton::Start));
        assert_eq!(baked.get_button(nobody, *g, 100), Some(GamepadButton::Back));
        assert_eq!(baked.get_button(*g, nobody, 101), None);
    }
    let _ = HashMap::<u16, GamepadButton>::new();
}
