use pawpad::backend::evdev::{
    hat_axis_change, hat_axis_codes, keycode_table, looks_like_gamepad, EvdevAction, EvdevHatState, EvdevInput,
    ABS_HAT0X, ABS_HAT0Y, ABS_X, ABS_Y,
    BTN_DPAD_DOWN, BTN_DPAD_LEFT, BTN_DPAD_RIGHT, BTN_DPAD_UP, BTN_EAST, BTN_SOUTH,
};
use pawpad::backend::guid::{alternative_guid, get_guid, Guid};
use pawpad::gamepad::axis::GamepadAxis;
use pawpad::gamepad::button::GamepadButton;
use pawpad::mapping::{AxisMapping, BakedGamepadMappings, DeviceMappings, GamepadMappings, Platform};

fn setup() -> (Guid, Guid, BakedGamepadMappings) {
    let g = get_guid(0x03, 0x045e, 0x028e, 0x0114, None, Some("Pad"), 0, 0);
    let alt = alternative_guid(g);
    let mut d = DeviceMappings::default();
    d.buttons.insert(0, GamepadButton::South);
    d.axes.insert(1, AxisMapping { axis: GamepadAxis::LeftY, invert: false });
    let mut m = GamepadMappings::default();
    m.linux.insert(g.as_u128(), d);
    (g, alt, m.bake(Platform::Linux))
}

#[test]
fn gamepad_detection() {
    let keys = [BTN_SOUTH, BTN_DPAD_UP, BTN_DPAD_DOWN, BTN_DPAD_LEFT, BTN_DPAD_RIGHT];
    let abs = [ABS_X, ABS_Y];
    assert!(looks_like_gamepad(Some(&keys), Some(&abs)));
    assert!(!looks_like_gamepad(None, Some(&abs)));
    assert!(!looks_like_gamepad(Some(&keys), None));
    assert!(!looks_like_gamepad(Some(&keys), Some(&[ABS_X])));
    assert!(!looks_like_gamepad(Some(&keys[1..]), Some(&abs)));
    // D-pad as a hat instead of buttons.
    assert!(looks_like_gamepad(Some(&[BTN_EAST]), Some(&[ABS_Y, ABS_HAT0Y, ABS_X, ABS_HAT0X])));
    // Missing one D-pad button and no hat.
    assert!(!looks_like_gamepad(Some(&keys[..4]), Some(&abs)));
}

#[test]
fn hat_codes() {
    assert_eq!(hat_axis_codes(0), (ABS_HAT0X, ABS_HAT0Y));
    assert_eq!(hat_axis_codes(2), (0x14, 0x15));
}

#[test]
fn hat_axis_moves() {
    let mut changes = Vec::new();
    let held = hat_axis_change(None, -1, GamepadButton::DPadLeft, GamepadButton::DPadRight, &mut changes);
    assert_eq!(held, Some(GamepadButton::DPadLeft));
    assert_eq!(changes, vec![(GamepadButton::DPadLeft, true)]);
    let held = hat_axis_change(held, 1, GamepadButton::DPadLeft, GamepadButton::DPadRight, &mut changes);
    assert_eq!(held, Some(GamepadButton::DPadRight));
    assert_eq!(
        changes,
        vec![(GamepadButton::DPadLeft, true), (GamepadButton::DPadLeft, false), (GamepadButton::DPadRight, true)]
    );
    let mut changes = Vec::new();
    let held = hat_axis_change(held, 0, GamepadButton::DPadUp, GamepadButton::DPadDown, &mut changes);
    assert_eq!(held, None);
    assert_eq!(changes, vec![(GamepadButton::DPadRight, false)]);
    let held = hat_axis_change(None, 5, GamepadButton::DPadUp, GamepadButton::DPadDown, &mut changes);
    assert_eq!(held, None);
    assert_eq!(changes.len(), 1);
}

#[test]
fn evdev_key_events() {
    let (g, alt, m) = setup();
    let mut st = EvdevHatState::new();
    assert_eq!(
        st.handle_event(EvdevInput::Key { scancode: Some(0), value: 1 }, Some(0), &m, g, alt),
        vec![EvdevAction::Button(GamepadButton::South, true)]
    );
    assert_eq!(
        st.handle_event(EvdevInput::Key { scancode: Some(7), value: 0 }, Some(0), &m, g, alt),
        vec![EvdevAction::UnknownButton(7, false)]
    );
    assert_eq!(st.handle_event(EvdevInput::Key { scancode: None, value: 1 }, Some(0), &m, g, alt), vec![]);
    assert_eq!(st.handle_event(EvdevInput::Other, Some(0), &m, g, alt), vec![]);
    assert_eq!(st, EvdevHatState::new());
}

#[test]
fn evdev_axis_events() {
    let (g, alt, m) = setup();
    let mut st = EvdevHatState::new();
    assert_eq!(
        st.handle_event(EvdevInput::Absolute { code: ABS_Y, scancode: Some(1), value: 300 }, Some(0), &m, g, alt),
        vec![EvdevAction::Axis(AxisMapping { axis: GamepadAxis::LeftY, invert: false }, 1)]
    );
    assert_eq!(
        st.handle_event(EvdevInput::Absolute { code: ABS_X, scancode: Some(0), value: 300 }, Some(0), &m, g, alt),
        vec![EvdevAction::UnknownAxis(0)]
    );
    assert_eq!(
        st.handle_event(EvdevInput::Absolute { code: ABS_X, scancode: None, value: 300 }, Some(0), &m, g, alt),
        vec![]
    );
}

#[test]
fn evdev_hat_events() {
    let (g, alt, m) = setup();
    let mut st = EvdevHatState::new();
    // Hat X left: D-pad left pressed; the hat axis itself is not reported as unknown.
    assert_eq!(
        st.handle_event(EvdevInput::Absolute { code: ABS_HAT0X, scancode: Some(4), value: -1 }, Some(0), &m, g, alt),
        vec![EvdevAction::Button(GamepadButton::DPadLeft, true)]
    );
    assert_eq!(st.hatx, Some(GamepadButton::DPadLeft));
    // Hat Y down.
    assert_eq!(
        st.handle_event(EvdevInput::Absolute { code: ABS_HAT0Y, scancode: Some(5), value: 1 }, Some(0), &m, g, alt),
        vec![EvdevAction::Button(GamepadButton::DPadDown, true)]
    );
    // Hat X centered: left released.
    assert_eq!(
        st.handle_event(EvdevInput::Absolute { code: ABS_HAT0X, scancode: Some(4), value: 0 }, Some(0), &m, g, alt),
        vec![EvdevAction::Button(GamepadButton::DPadLeft, false)]
    );
    assert_eq!(st, EvdevHatState { hatx: None, haty: Some(GamepadButton::DPadDown) });
    // Without a hat, the hat axes are plain unknown axes.
    let mut st = EvdevHatState::new();
    assert_eq!(
        st.handle_event(EvdevInput::Absolute { code: ABS_HAT0X, scancode: Some(4), value: -1 }, None, &m, g, alt),
        vec![EvdevAction::UnknownAxis(4)]
    );
    // With hat one, hat zero's axes are plain axes.
    assert_eq!(
        st.handle_event(EvdevInput::Absolute { code: 0x12, scancode: Some(6), value: 1 }, Some(1), &m, g, alt),
        vec![EvdevAction::Button(GamepadButton::DPadRight, true)]
    );
    assert_eq!(st.hatx, Some(GamepadButton::DPadRight));
}

#[test]
fn evdev_keycode_table() {
    let t = keycode_table(&[Some(0x130), Some(0x131), Some(0x1_0130), None, Some(0x200)]);
    assert_eq!(t.len(), 2);
    // 0x1_0130 keeps its low 16 bits and, coming later, wins over index 0.
    assert_eq!(t.get(&0x130), Some(&2));
    assert_eq!(t.get(&0x131), Some(&1));
    assert_eq!(t.get(&0x200), None);
    assert!(keycode_table(&[]).is_empty());
    assert!(keycode_table(&[None, Some(1)]).is_empty());
}
