//! Decisions of the Linux evdev backend: which input devices are gamepads,
//! and how hat axes turn into D-pad presses.
use std::collections::HashMap;

use vstd::prelude::*;

use crate::backend::guid::Guid;
use crate::gamepad::button::GamepadButton;
use crate::mapping::{self, AxisMapping, BakedGamepadMappings};

verus! {

/// Linux key code of the bottom face button.
pub const BTN_SOUTH: u16 = 0x130;
/// Linux key code of the right face button.
pub const BTN_EAST: u16 = 0x131;
pub const BTN_DPAD_UP: u16 = 0x220;
pub const BTN_DPAD_DOWN: u16 = 0x221;
pub const BTN_DPAD_LEFT: u16 = 0x222;
pub const BTN_DPAD_RIGHT: u16 = 0x223;
/// Linux absolute axis codes.
pub const ABS_X: u16 = 0x00;
pub const ABS_Y: u16 = 0x01;
pub const ABS_HAT0X: u16 = 0x10;
pub const ABS_HAT0Y: u16 = 0x11;

/// Whether a device whose supported key codes and absolute axis codes are
/// given (`None` where the device reports none) looks like a gamepad: it has
/// a south or east face button, an X and a Y axis, and a D-pad, as four
/// buttons or as the first hat's two axes.
pub open spec fn spec_looks_like_gamepad(keys: Option<Seq<u16>>, abs: Option<Seq<u16>>) -> bool {
    match (keys, abs) {
        (Some(keys), Some(abs)) => {
            &&& (keys.contains(BTN_SOUTH) || keys.contains(BTN_EAST))
            &&& abs.contains(ABS_X) && abs.contains(ABS_Y)
            &&& ((keys.contains(BTN_DPAD_UP) && keys.contains(BTN_DPAD_DOWN) && keys.contains(
                BTN_DPAD_LEFT,
            ) && keys.contains(BTN_DPAD_RIGHT)) || (abs.contains(ABS_HAT0X) && abs.contains(
                ABS_HAT0Y,
            )))
        },
        _ => false,
    }
}

fn has_code(codes: &[u16], code: u16) -> (r: bool)
    ensures
        r == codes@.contains(code),
{
    let mut i: usize = 0;
    while i < codes.len()
        invariant
            i <= codes@.len(),
            forall|j: int| 0 <= j < i ==> codes@[j] != code,
        decreases codes@.len() - i,
    {
        if codes[i] == code {
            return true;
        }
        i = i + 1;
    }
    false
}

pub open spec fn opt_view(codes: Option<&[u16]>) -> Option<Seq<u16>> {
    match codes {
        Some(c) => Some(c@),
        None => None,
    }
}

pub fn looks_like_gamepad(keys: Option<&[u16]>, abs: Option<&[u16]>) -> (r: bool)
    ensures
        r == spec_looks_like_gamepad(opt_view(keys), opt_view(abs)),
{
    let keys = match keys {
        Some(keys) => keys,
        None => {
            return false;
        },
    };
    let abs = match abs {
        Some(abs) => abs,
        None => {
            return false;
        },
    };
    let has_basic_buttons = has_code(keys, BTN_SOUTH) || has_code(keys, BTN_EAST);
    let has_analog_sticks = has_code(abs, ABS_X) && has_code(abs, ABS_Y);
    let has_dpad = (has_code(keys, BTN_DPAD_UP) && has_code(keys, BTN_DPAD_DOWN) && has_code(
        keys,
        BTN_DPAD_LEFT,
    ) && has_code(keys, BTN_DPAD_RIGHT)) || (has_code(abs, ABS_HAT0X) && has_code(abs, ABS_HAT0Y));
    has_basic_buttons && has_analog_sticks && has_dpad
}

/// Supporting more key codes or more axes never turns a gamepad into a
/// device that is not one.
pub proof fn law_gamepad_check_monotone(keys: Seq<u16>, more_keys: Seq<u16>, abs: Seq<u16>, more_abs: Seq<u16>)
    requires
        forall|c: u16| keys.contains(c) ==> more_keys.contains(c),
        forall|c: u16| abs.contains(c) ==> more_abs.contains(c),
    ensures
        spec_looks_like_gamepad(Some(keys), Some(abs)) ==> spec_looks_like_gamepad(Some(more_keys), Some(more_abs)),
{
}

/// A device with a south or an east face button (or both), X and Y axes
/// and the first hat's two axes is a gamepad; and every gamepad has a south
/// or east face button and X and Y axes. A device that reports no key codes
/// or no axes is none.
pub proof fn law_face_button_stick_and_hat_is_gamepad(keys: Seq<u16>, abs: Seq<u16>)
    ensures
        (keys.contains(BTN_SOUTH) || keys.contains(BTN_EAST)) && abs.contains(ABS_X) && abs.contains(ABS_Y)
            && abs.contains(ABS_HAT0X) && abs.contains(ABS_HAT0Y) ==> spec_looks_like_gamepad(
            Some(keys),
            Some(abs),
        ),
        spec_looks_like_gamepad(Some(keys), Some(abs)) ==> (keys.contains(BTN_SOUTH) || keys.contains(
            BTN_EAST,
        )) && abs.contains(ABS_X) && abs.contains(ABS_Y),
        !spec_looks_like_gamepad(None, Some(abs)),
        !spec_looks_like_gamepad(Some(keys), None),
{
}

/// The X and Y axis codes of hat `hat`: hats take consecutive pairs of codes
/// from the first hat's X axis on.
pub fn hat_axis_codes(hat: u16) -> (codes: (u16, u16))
    requires
        hat <= 3,
    ensures
        codes.0 == ABS_HAT0X + 2 * hat,
        codes.1 == codes.0 + 1,
{
    let x = ABS_HAT0X + hat * 2;
    (x, x + 1)
}

/// The table from key code to device button number that a device's key
/// map gives, read from entry `i` on onto `table`: entry `i` holds the key
/// code that device button `i` sends, and the first missing entry ends the
/// map. Key codes are kept to their low 16 bits; a key code sent by several
/// buttons goes to the last of them.
pub open spec fn spec_keycode_table_from(
    entries: Seq<Option<u32>>,
    i: nat,
    table: Map<u16, u16>,
) -> Map<u16, u16>
    decreases entries.len() - i,
{
    if i >= entries.len() {
        table
    } else {
        match entries[i as int] {
            None => table,
            Some(code) => spec_keycode_table_from(
                entries,
                i + 1,
                table.insert((code % 65536) as u16, i as u16),
            ),
        }
    }
}

/// Builds the table from key code to device button number out of the
/// entries of a device's key map, in index order.
pub fn keycode_table(entries: &[Option<u32>]) -> (table: HashMap<u16, u16>)
    requires
        entries@.len() <= 65535,
    ensures
        table@ == spec_keycode_table_from(entries@, 0, Map::empty()),
{
    broadcast use vstd::std_specs::hash::group_hash_axioms;

    let mut table: HashMap<u16, u16> = HashMap::new();
    let mut i: usize = 0;
    while i < entries.len()
        invariant
            i <= entries@.len(),
            entries@.len() <= 65535,
            spec_keycode_table_from(entries@, 0, Map::empty()) == spec_keycode_table_from(
                entries@,
                i as nat,
                table@,
            ),
        decreases entries@.len() - i,
    {
        match entries[i] {
            None => {
                return table;
            },
            Some(code) => {
                table.insert((code % 65536) as u16, i as u16);
            },
        }
        i = i + 1;
    }
    table
}

/// The button a hat axis holds down at a value: the first button at -1,
/// the second at 1, none otherwise.
pub open spec fn spec_hat_axis_button(value: i32, negative: GamepadButton, positive: GamepadButton) -> Option<GamepadButton> {
    if value == -1 {
        Some(negative)
    } else if value == 1 {
        Some(positive)
    } else {
        None
    }
}

/// The button changes when a hat axis moves to `value`, given the button
/// it held before: that button is released, then the one the value holds
/// down is pressed.
pub open spec fn spec_hat_axis_events(
    previous: Option<GamepadButton>,
    value: i32,
    negative: GamepadButton,
    positive: GamepadButton,
) -> Seq<(GamepadButton, bool)> {
    let released = match previous {
        Some(b) => seq![(b, false)],
        None => Seq::empty(),
    };
    let pressed = match spec_hat_axis_button(value, negative, positive) {
        Some(b) => seq![(b, true)],
        None => Seq::empty(),
    };
    released + pressed
}

/// Moves a hat axis: appends the button changes and returns the button the
/// axis now holds down.
pub fn hat_axis_change(
    previous: Option<GamepadButton>,
    value: i32,
    negative: GamepadButton,
    positive: GamepadButton,
    changes: &mut Vec<(GamepadButton, bool)>,
) -> (held: Option<GamepadButton>)
    ensures
        held == spec_hat_axis_button(value, negative, positive),
        final(changes)@ == old(changes)@ + spec_hat_axis_events(previous, value, negative, positive),
{
    if let Some(button) = previous {
        changes.push((button, false));
    }
    let held = if value == -1 {
        Some(negative)
    } else if value == 1 {
        Some(positive)
    } else {
        None
    };
    if let Some(button) = held {
        changes.push((button, true));
    }
    assert(changes@ =~= old(changes)@ + spec_hat_axis_events(previous, value, negative, positive));
    held
}

/// One input event of an evdev device, with the device button or axis
/// number that the event's code stands for on that device, where it has one.
#[derive(Debug, Clone, Copy, PartialEq, Eq, Structural)]
pub enum EvdevInput {
    /// A key or button event.
    Key { scancode: Option<u16>, value: i32 },
    /// An absolute axis event, with the axis code.
    Absolute { code: u16, scancode: Option<u16>, value: i32 },
    /// Any other event.
    Other,
}

/// What an evdev event comes to.
#[derive(Debug, Clone, Copy, PartialEq, Eq, Structural)]
pub enum EvdevAction {
    /// A gamepad button is now pressed (`true`) or released.
    Button(GamepadButton, bool),
    /// A device button that no mapping names is now pressed or released.
    UnknownButton(u16, bool),
    /// A device axis that drives a gamepad axis moved.
    Axis(AxisMapping, u16),
    /// A device axis that no mapping names moved.
    UnknownAxis(u16),
}

/// The D-pad buttons that an evdev device's hat holds down.
#[derive(Debug, Clone, Copy, PartialEq, Eq, Structural)]
pub struct EvdevHatState {
    pub hatx: Option<GamepadButton>,
    pub haty: Option<GamepadButton>,
}

/// Button changes as actions.
pub open spec fn button_actions(changes: Seq<(GamepadButton, bool)>) -> Seq<EvdevAction> {
    changes.map_values(|c: (GamepadButton, bool)| EvdevAction::Button(c.0, c.1))
}

/// The state after an event and what the event comes to.
///
/// A key event with a device button number is the mapped gamepad button
/// (own GUID first, then the alternative) or, unmapped, an unknown button;
/// pressed where the value is not zero. An absolute event on the X axis of
/// the device's hat (where it has one) moves the left/right D-pad buttons,
/// on its Y axis the up/down ones; then, where the axis has a device axis
/// number, it is the mapped gamepad axis, or an unknown axis unless it was
/// a hat axis.
pub open spec fn spec_handle_event(
    state: EvdevHatState,
    input: EvdevInput,
    hat: Option<u16>,
    mappings: BakedGamepadMappings,
    uuid: Guid,
    alternative_uuid: Guid,
) -> (EvdevHatState, Seq<EvdevAction>) {
    match input {
        EvdevInput::Key { scancode: Some(scancode), value } => {
            let pressed = value != 0;
            match mapping::lookup(mappings.spec_buttons(), uuid.spec_u128(), alternative_uuid.spec_u128(), scancode) {
                Some(button) => (state, seq![EvdevAction::Button(button, pressed)]),
                None => (state, seq![EvdevAction::UnknownButton(scancode, pressed)]),
            }
        },
        EvdevInput::Absolute { code, scancode, value } => {
            let on_x = hat is Some && code == ABS_HAT0X + 2 * hat.unwrap();
            let on_y = hat is Some && code == ABS_HAT0X + 2 * hat.unwrap() + 1;
            let x_changes = if on_x {
                spec_hat_axis_events(state.hatx, value, GamepadButton::DPadLeft, GamepadButton::DPadRight)
            } else {
                Seq::empty()
            };
            let y_changes = if on_y {
                spec_hat_axis_events(state.haty, value, GamepadButton::DPadUp, GamepadButton::DPadDown)
            } else {
                Seq::empty()
            };
            let next = EvdevHatState {
                hatx: if on_x {
                    spec_hat_axis_button(value, GamepadButton::DPadLeft, GamepadButton::DPadRight)
                } else {
                    state.hatx
                },
                haty: if on_y {
                    spec_hat_axis_button(value, GamepadButton::DPadUp, GamepadButton::DPadDown)
                } else {
                    state.haty
                },
            };
            let hat_actions = button_actions(x_changes + y_changes);
            let axis_actions = match scancode {
                None => Seq::empty(),
                Some(scancode) => match mapping::lookup(
                    mappings.spec_axes(),
                    uuid.spec_u128(),
                    alternative_uuid.spec_u128(),
                    scancode,
                ) {
                    Some(axis) => seq![EvdevAction::Axis(axis, scancode)],
                    None => if on_x || on_y {
                        Seq::empty()
                    } else {
                        seq![EvdevAction::UnknownAxis(scancode)]
                    },
                },
            };
            (next, hat_actions + axis_actions)
        },
        _ => (state, Seq::empty()),
    }
}

impl EvdevHatState {
    pub fn new() -> (s: Self)
        ensures
            s.hatx is None,
            s.haty is None,
    {
        EvdevHatState { hatx: None, haty: None }
    }

    /// Handles one event of a device whose hat is hat number `hat`, where it
    /// has one: updates the held D-pad buttons and returns what the event comes to.
    pub fn handle_event(
        &mut self,
        input: EvdevInput,
        hat: Option<u16>,
        mappings: &BakedGamepadMappings,
        uuid: Guid,
        alternative_uuid: Guid,
    ) -> (actions: Vec<EvdevAction>)
        requires
            hat matches Some(h) ==> h <= 3,
        ensures
            (*final(self), actions@) == spec_handle_event(
                *old(self),
                input,
                hat,
                *mappings,
                uuid,
                alternative_uuid,
            ),
    {
        let mut actions: Vec<EvdevAction> = Vec::new();
        match input {
            EvdevInput::Key { scancode: Some(scancode), value } => {
                let pressed = value != 0;
                match mappings.get_button(uuid, alternative_uuid, scancode) {
                    Some(button) => actions.push(EvdevAction::Button(button, pressed)),
                    None => actions.push(EvdevAction::UnknownButton(scancode, pressed)),
                }
                assert(actions@ =~= spec_handle_event(
                    *old(self),
                    input,
                    hat,
                    *mappings,
                    uuid,
                    alternative_uuid,
                ).1);
            },
            EvdevInput::Absolute { code, scancode, value } => {
                let mut was_hat = false;
                let mut changes: Vec<(GamepadButton, bool)> = Vec::new();
                if let Some(h) = hat {
                    let (hatx, haty) = hat_axis_codes(h);
                    if code == hatx {
                        self.hatx = hat_axis_change(
                            self.hatx,
                            value,
                            GamepadButton::DPadLeft,
                            GamepadButton::DPadRight,
                            &mut changes,
                        );
                        was_hat = true;
                    }
                    if code == haty {
                        self.haty = hat_axis_change(
                            self.haty,
                            value,
                            GamepadButton::DPadUp,
                            GamepadButton::DPadDown,
                            &mut changes,
                        );
                        was_hat = true;
                    }
                }
                proof {
                    assert(changes@ =~= (if hat is Some && code == ABS_HAT0X + 2 * hat.unwrap() {
                        spec_hat_axis_events(
                            old(self).hatx,
                            value,
                            GamepadButton::DPadLeft,
                            GamepadButton::DPadRight,
                        )
                    } else {
                        Seq::empty()
                    }) + (if hat is Some && code == ABS_HAT0X + 2 * hat.unwrap() + 1 {
                        spec_hat_axis_events(
                            old(self).haty,
                            value,
                            GamepadButton::DPadUp,
                            GamepadButton::DPadDown,
                        )
                    } else {
                        Seq::empty()
                    }));
                }
                let mut k: usize = 0;
                while k < changes.len()
                    invariant
                        k <= changes@.len(),
                        actions@ == button_actions(changes@.take(k as int)),
                    decreases changes@.len() - k,
                {
                    let (button, pressed) = changes[k];
                    actions.push(EvdevAction::Button(button, pressed));
                    proof {
                        assert(changes@.take(k + 1) =~= changes@.take(k as int).push(changes@[k as int]));
                        assert(actions@ =~= button_actions(changes@.take(k + 1)));
                    }
                    k = k + 1;
                }
                proof {
                    assert(changes@.take(changes@.len() as int) =~= changes@);
                }
                let ghost hat_actions = actions@;
                if let Some(scancode) = scancode {
                    match mappings.get_axis(uuid, alternative_uuid, scancode) {
                        Some(axis) => actions.push(EvdevAction::Axis(axis, scancode)),
                        None => {
                            if !was_hat {
                                actions.push(EvdevAction::UnknownAxis(scancode));
                            }
                        },
                    }
                }
                assert(actions@ =~= spec_handle_event(
                    *old(self),
                    input,
                    hat,
                    *mappings,
                    uuid,
                    alternative_uuid,
                ).1);
            },
            _ => {},
        }
        proof {
            assert(actions@ =~= spec_handle_event(
                *old(self),
                input,
                hat,
                *mappings,
                uuid,
                alternative_uuid,
            ).1);
        }
        actions
    }
}


/// The D-pad buttons that a hat can hold down: left or right on its X
/// axis, up or down on its Y axis.
pub open spec fn hat_state_ok(state: EvdevHatState) -> bool {
    &&& (state.hatx is None || state.hatx == Some(GamepadButton::DPadLeft) || state.hatx == Some(
        GamepadButton::DPadRight,
    ))
    &&& (state.haty is None || state.haty == Some(GamepadButton::DPadUp) || state.haty == Some(
        GamepadButton::DPadDown,
    ))
}

/// The button actions of one hat axis move, followed by actions that are
/// not button actions: each press is of the button the new value holds
/// down, each release of the button held before, and that press is there.
proof fn lemma_hat_axis_actions(
    previous: Option<GamepadButton>,
    value: i32,
    negative: GamepadButton,
    positive: GamepadButton,
    rest: Seq<EvdevAction>,
)
    requires
        forall|i: int| 0 <= i < rest.len() ==> !(rest[i] is Button),
    ensures
        ({
            let acts = button_actions(spec_hat_axis_events(previous, value, negative, positive)) + rest;
            &&& forall|i: int, b: GamepadButton, p: bool|
                0 <= i < acts.len() && acts[i] == EvdevAction::Button(b, p) ==> if p {
                    spec_hat_axis_button(value, negative, positive) == Some(b)
                } else {
                    previous == Some(b)
                }
            &&& spec_hat_axis_button(value, negative, positive) matches Some(b) ==> acts.contains(
                EvdevAction::Button(b, true),
            )
        }),
{
    let changes = spec_hat_axis_events(previous, value, negative, positive);
    let released: Seq<(GamepadButton, bool)> = match previous {
        Some(b) => seq![(b, false)],
        None => Seq::empty(),
    };
    let acts = button_actions(changes) + rest;
    assert(acts.len() == changes.len() + rest.len());
    assert forall|i: int, b: GamepadButton, p: bool|
        0 <= i < acts.len() && acts[i] == EvdevAction::Button(b, p) implies if p {
            spec_hat_axis_button(value, negative, positive) == Some(b)
        } else {
            previous == Some(b)
        } by {
        if i >= changes.len() {
            assert(acts[i] == rest[i - changes.len()]);
        } else {
            assert(acts[i] == EvdevAction::Button(changes[i].0, changes[i].1));
        }
    }
    if let Some(b) = spec_hat_axis_button(value, negative, positive) {
        let k = released.len() as int;
        assert(changes[k] == (b, true));
        assert(acts[k] == EvdevAction::Button(b, true));
    }
}

/// A key event leaves the hat alone and comes to one action for its device
/// button: a release where the value is 0, a press for any other value
/// (1 pressed, 2 held and repeating); of the mapped gamepad button where
/// there is one, else of the device button itself.
pub proof fn law_key_event(
    state: EvdevHatState,
    scancode: u16,
    value: i32,
    hat: Option<u16>,
    mappings: BakedGamepadMappings,
    uuid: Guid,
    alternative_uuid: Guid,
)
    ensures
        ({
            let input = EvdevInput::Key { scancode: Some(scancode), value };
            let (next, acts) = spec_handle_event(state, input, hat, mappings, uuid, alternative_uuid);
            &&& next == state
            &&& acts.len() == 1
            &&& match acts[0] {
                EvdevAction::Button(_, p) => p == (value != 0),
                EvdevAction::UnknownButton(c, p) => c == scancode && p == (value != 0),
                _ => false,
            }
        }),
{
}

/// An absolute event on an axis that is not one of the hat's leaves the
/// hat alone and presses or releases no button: it comes to the mapped
/// gamepad axis where the device axis has a mapping, else to an unknown
/// axis, and to nothing where the event has no device axis number.
pub proof fn law_axis_event_off_hat(
    state: EvdevHatState,
    code: u16,
    scancode: Option<u16>,
    value: i32,
    hat: Option<u16>,
    mappings: BakedGamepadMappings,
    uuid: Guid,
    alternative_uuid: Guid,
)
    requires
        hat matches Some(h) ==> code != ABS_HAT0X + 2 * h && code != ABS_HAT0Y + 2 * h,
    ensures
        ({
            let input = EvdevInput::Absolute { code, scancode, value };
            let (next, acts) = spec_handle_event(state, input, hat, mappings, uuid, alternative_uuid);
            &&& next == state
            &&& scancode is None ==> acts.len() == 0
            &&& scancode matches Some(sc) ==> acts.len() == 1 && (acts[0] matches EvdevAction::Axis(_, c)
                && c == sc || acts[0] == EvdevAction::UnknownAxis(sc))
        }),
{
    let input = EvdevInput::Absolute { code, scancode, value };
    let acts = spec_handle_event(state, input, hat, mappings, uuid, alternative_uuid).1;
    assert(button_actions(Seq::<(GamepadButton, bool)>::empty() + Seq::<(GamepadButton, bool)>::empty())
        =~= Seq::<EvdevAction>::empty());
}

/// Each event keeps the hat's held buttons among those it can hold.
pub proof fn law_hat_state_stays_valid(
    state: EvdevHatState,
    input: EvdevInput,
    hat: Option<u16>,
    mappings: BakedGamepadMappings,
    uuid: Guid,
    alternative_uuid: Guid,
)
    requires
        hat_state_ok(state),
    ensures
        hat_state_ok(spec_handle_event(state, input, hat, mappings, uuid, alternative_uuid).0),
{
}

/// On the Y axis of the device's hat, the value -1 holds D-pad up down and
/// the value 1 D-pad down; any other value holds neither. Such an event
/// presses only the button that it holds down, releases only the one held
/// before on that axis, and leaves the X axis alone.
pub proof fn law_hat_y_axis(
    state: EvdevHatState,
    hat: u16,
    scancode: Option<u16>,
    value: i32,
    mappings: BakedGamepadMappings,
    uuid: Guid,
    alternative_uuid: Guid,
)
    requires
        hat <= 3,
    ensures
        ({
            let input = EvdevInput::Absolute { code: (ABS_HAT0Y + 2 * hat) as u16, scancode, value };
            let (next, acts) = spec_handle_event(state, input, Some(hat), mappings, uuid, alternative_uuid);
            &&& next.hatx == state.hatx
            &&& value == -1 ==> next.haty == Some(GamepadButton::DPadUp) && acts.contains(
                EvdevAction::Button(GamepadButton::DPadUp, true),
            )
            &&& value == 1 ==> next.haty == Some(GamepadButton::DPadDown) && acts.contains(
                EvdevAction::Button(GamepadButton::DPadDown, true),
            )
            &&& value != -1 && value != 1 ==> next.haty is None
            &&& forall|i: int, b: GamepadButton, p: bool|
                0 <= i < acts.len() && acts[i] == EvdevAction::Button(b, p) ==> if p {
                    (value == -1 && b == GamepadButton::DPadUp) || (value == 1 && b == GamepadButton::DPadDown)
                } else {
                    state.haty == Some(b)
                }
        }),
{
    let input = EvdevInput::Absolute { code: (ABS_HAT0Y + 2 * hat) as u16, scancode, value };
    let acts = spec_handle_event(state, input, Some(hat), mappings, uuid, alternative_uuid).1;
    let changes = spec_hat_axis_events(state.haty, value, GamepadButton::DPadUp, GamepadButton::DPadDown);
    assert(Seq::<(GamepadButton, bool)>::empty() + changes =~= changes);
    assert(changes + Seq::<(GamepadButton, bool)>::empty() =~= changes);
    let rest = acts.skip(changes.len() as int);
    assert(acts =~= button_actions(changes) + rest);
    lemma_hat_axis_actions(state.haty, value, GamepadButton::DPadUp, GamepadButton::DPadDown, rest);
}

/// On the X axis of the device's hat, the value -1 holds D-pad left down
/// and the value 1 D-pad right; any other value holds neither. Such an
/// event presses only the button that it holds down, releases only the one
/// held before on that axis, and leaves the Y axis alone.
pub proof fn law_hat_x_axis(
    state: EvdevHatState,
    hat: u16,
    scancode: Option<u16>,
    value: i32,
    mappings: BakedGamepadMappings,
    uuid: Guid,
    alternative_uuid: Guid,
)
    requires
        hat <= 3,
    ensures
        ({
            let input = EvdevInput::Absolute { code: (ABS_HAT0X + 2 * hat) as u16, scancode, value };
            let (next, acts) = spec_handle_event(state, input, Some(hat), mappings, uuid, alternative_uuid);
            &&& next.haty == state.haty
            &&& value == -1 ==> next.hatx == Some(GamepadButton::DPadLeft) && acts.contains(
                EvdevAction::Button(GamepadButton::DPadLeft, true),
            )
            &&& value == 1 ==> next.hatx == Some(GamepadButton::DPadRight) && acts.contains(
                EvdevAction::Button(GamepadButton::DPadRight, true),
            )
            &&& value != -1 && value != 1 ==> next.hatx is None
            &&& forall|i: int, b: GamepadButton, p: bool|
                0 <= i < acts.len() && acts[i] == EvdevAction::Button(b, p) ==> if p {
                    (value == -1 && b == GamepadButton::DPadLeft) || (value == 1 && b == GamepadButton::DPadRight)
                } else {
                    state.hatx == Some(b)
                }
        }),
{
    let input = EvdevInput::Absolute { code: (ABS_HAT0X + 2 * hat) as u16, scancode, value };
    let acts = spec_handle_event(state, input, Some(hat), mappings, uuid, alternative_uuid).1;
    let changes = spec_hat_axis_events(state.hatx, value, GamepadButton::DPadLeft, GamepadButton::DPadRight);
    assert(Seq::<(GamepadButton, bool)>::empty() + changes =~= changes);
    assert(changes + Seq::<(GamepadButton, bool)>::empty() =~= changes);
    let rest = acts.skip(changes.len() as int);
    assert(acts =~= button_actions(changes) + rest);
    lemma_hat_axis_actions(state.hatx, value, GamepadButton::DPadLeft, GamepadButton::DPadRight, rest);
}


} // verus!
