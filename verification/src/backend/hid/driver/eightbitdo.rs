//! 8BitDo controllers.
use vstd::prelude::*;

use crate::backend::guid::Guid;
use crate::backend::hid::driver::HidEvent;
use crate::gamepad::{axis::GamepadAxis, button::GamepadButton};
use crate::mapping::{
    self,
    AxisMapping,
    BakedGamepadMappings,
    hat::{HatButton, HatDescriptor, HatIndex},
};

verus! {

/// The state that an 8BitDo controller last reported.
#[derive(Debug)]
pub struct EightBitDoDriver {
    product: Product,
    last_button: u32,
    last_hat: HatMask,
    last_axes: [u8; 6],
}

/// How an 8BitDo controller is attached.
#[derive(Debug, Clone, Copy, PartialEq, Eq, Structural)]
pub enum Transport {
    Usb,
    Bluetooth,
}

/// The 8BitDo models this driver tells apart.
#[derive(Debug, Clone, Copy, PartialEq, Eq, Structural)]
pub enum Product {
    Sn30Pro(Transport),
    Pro2(Transport),
    Pro3,
    Ultimate2,
    Unknown,
}

/// A direction that an 8BitDo hat switch reports, clockwise from up.
#[derive(Debug, Clone, Copy, PartialEq, Eq, Structural)]
pub enum DeviceHat {
    Up,
    RightUp,
    Right,
    RightDown,
    Down,
    LeftDown,
    Left,
    LeftUp,
}

/// A set of pressed hat directions: bit 0 up, bit 1 right, bit 2 down, bit 3 left.
#[derive(Debug, Clone, Copy, PartialEq, Eq, Structural)]
pub struct HatMask {
    pub bits: u8,
}

impl DeviceHat {
    /// Report values 0 to 7 are the eight directions; any other value means centered.
    pub open spec fn spec_from_device(index: u8) -> Option<DeviceHat> {
        if index == 0 {
            Some(DeviceHat::Up)
        } else if index == 1 {
            Some(DeviceHat::RightUp)
        } else if index == 2 {
            Some(DeviceHat::Right)
        } else if index == 3 {
            Some(DeviceHat::RightDown)
        } else if index == 4 {
            Some(DeviceHat::Down)
        } else if index == 5 {
            Some(DeviceHat::LeftDown)
        } else if index == 6 {
            Some(DeviceHat::Left)
        } else if index == 7 {
            Some(DeviceHat::LeftUp)
        } else {
            None
        }
    }

    /// The pressed directions of a hat position.
    pub open spec fn spec_mask_bits(self) -> u8 {
        match self {
            DeviceHat::Up => 1u8,
            DeviceHat::RightUp => 3u8,
            DeviceHat::Right => 2u8,
            DeviceHat::RightDown => 6u8,
            DeviceHat::Down => 4u8,
            DeviceHat::LeftDown => 12u8,
            DeviceHat::Left => 8u8,
            DeviceHat::LeftUp => 9u8,
        }
    }

    pub fn from_device(index: u8) -> (h: Option<Self>)
        ensures
            h == Self::spec_from_device(index),
    {
        match index {
            0 => Some(DeviceHat::Up),
            1 => Some(DeviceHat::RightUp),
            2 => Some(DeviceHat::Right),
            3 => Some(DeviceHat::RightDown),
            4 => Some(DeviceHat::Down),
            5 => Some(DeviceHat::LeftDown),
            6 => Some(DeviceHat::Left),
            7 => Some(DeviceHat::LeftUp),
            _ => None,
        }
    }

    pub fn to_mask(self) -> (m: HatMask)
        ensures
            m.bits == self.spec_mask_bits(),
    {
        assert(1u8 | 2u8 == 3u8 && 2u8 | 4u8 == 6u8 && 4u8 | 8u8 == 12u8 && 8u8 | 1u8 == 9u8)
            by (bit_vector);
        match self {
            DeviceHat::Up => HatMask::up(),
            DeviceHat::RightUp => HatMask::up().union(HatMask::right()),
            DeviceHat::Right => HatMask::right(),
            DeviceHat::RightDown => HatMask::right().union(HatMask::down()),
            DeviceHat::Down => HatMask::down(),
            DeviceHat::LeftDown => HatMask::down().union(HatMask::left()),
            DeviceHat::Left => HatMask::left(),
            DeviceHat::LeftUp => HatMask::left().union(HatMask::up()),
        }
    }
}

/// The pressed directions of a hat report byte; none where it is centered.
pub open spec fn spec_report_hat(b: u8) -> u8 {
    match DeviceHat::spec_from_device(b) {
        Some(h) => h.spec_mask_bits(),
        None => 0,
    }
}

/// Direction `k` of a hat mask, in the order up, right, down, left, with
/// the hat direction it stands for.
pub open spec fn hat_entry(k: nat) -> (HatMask, HatButton) {
    if k == 0 {
        (HatMask { bits: 1 }, HatButton::One)
    } else if k == 1 {
        (HatMask { bits: 2 }, HatButton::Two)
    } else if k == 2 {
        (HatMask { bits: 4 }, HatButton::Four)
    } else {
        (HatMask { bits: 8 }, HatButton::Eight)
    }
}

/// The directions from the `k`-th on (in the order up, right, down, left)
/// that a set holds, each with the hat direction it stands for.
pub open spec fn spec_buttons_from(bits: u8, k: nat) -> Seq<(HatMask, HatButton)>
    decreases 4 - k,
{
    if k >= 4 {
        Seq::empty()
    } else {
        let e = hat_entry(k);
        let rest = spec_buttons_from(bits, k + 1);
        if bits & e.0.bits == e.0.bits {
            seq![e] + rest
        } else {
            rest
        }
    }
}

impl HatMask {
    pub fn up() -> (m: Self)
        ensures
            m.bits == 1,
    {
        HatMask { bits: 1 }
    }

    pub fn right() -> (m: Self)
        ensures
            m.bits == 2,
    {
        HatMask { bits: 2 }
    }

    pub fn down() -> (m: Self)
        ensures
            m.bits == 4,
    {
        HatMask { bits: 4 }
    }

    pub fn left() -> (m: Self)
        ensures
            m.bits == 8,
    {
        HatMask { bits: 8 }
    }

    pub fn empty() -> (m: Self)
        ensures
            m.bits == 0,
    {
        HatMask { bits: 0 }
    }

    pub fn union(self, other: Self) -> (m: Self)
        ensures
            m.bits == self.bits | other.bits,
    {
        HatMask { bits: self.bits | other.bits }
    }

    pub fn symmetric_difference(self, other: Self) -> (m: Self)
        ensures
            m.bits == self.bits ^ other.bits,
    {
        HatMask { bits: self.bits ^ other.bits }
    }

    pub fn contains(self, other: Self) -> (r: bool)
        ensures
            r == (self.bits & other.bits == other.bits),
    {
        self.bits & other.bits == other.bits
    }

    /// The directions in the set, in the order up, right, down, left, each
    /// with the hat direction it stands for.
    pub fn iter_buttons(self) -> (v: Vec<(HatMask, HatButton)>)
        ensures
            v@ == spec_buttons_from(self.bits, 0),
    {
        let mut v: Vec<(HatMask, HatButton)> = Vec::new();
        if self.contains(HatMask::up()) {
            v.push((HatMask::up(), HatButton::One));
        }
        if self.contains(HatMask::right()) {
            v.push((HatMask::right(), HatButton::Two));
        }
        if self.contains(HatMask::down()) {
            v.push((HatMask::down(), HatButton::Four));
        }
        if self.contains(HatMask::left()) {
            v.push((HatMask::left(), HatButton::Eight));
        }
        proof {
            reveal_with_fuel(spec_buttons_from, 5);
        }
        assert(v@ =~= spec_buttons_from(self.bits, 0));
        v
    }
}

/// The gamepad axis that 8BitDo axis `scancode` drives when no mapping says otherwise.
pub open spec fn spec_guess_axis(scancode: u16) -> Option<AxisMapping> {
    if scancode == 0 {
        Some(AxisMapping { axis: GamepadAxis::LeftX, invert: false })
    } else if scancode == 1 {
        Some(AxisMapping { axis: GamepadAxis::LeftY, invert: false })
    } else if scancode == 2 {
        Some(AxisMapping { axis: GamepadAxis::RightX, invert: false })
    } else if scancode == 3 {
        Some(AxisMapping { axis: GamepadAxis::RightY, invert: false })
    } else if scancode == 4 {
        Some(AxisMapping { axis: GamepadAxis::RightTrigger, invert: false })
    } else if scancode == 5 {
        Some(AxisMapping { axis: GamepadAxis::LeftTrigger, invert: false })
    } else {
        None
    }
}

/// The gamepad button that 8BitDo button bit `scancode` drives when no mapping says otherwise.
pub open spec fn spec_guess_button(scancode: u16) -> Option<GamepadButton> {
    if scancode == 0 {
        Some(GamepadButton::East)
    } else if scancode == 1 {
        Some(GamepadButton::South)
    } else if scancode == 2 {
        Some(GamepadButton::RightPaddle2)
    } else if scancode == 3 {
        Some(GamepadButton::North)
    } else if scancode == 4 {
        Some(GamepadButton::West)
    } else if scancode == 5 {
        Some(GamepadButton::LeftPaddle2)
    } else if scancode == 6 {
        Some(GamepadButton::LeftShoulder)
    } else if scancode == 7 {
        Some(GamepadButton::RightShoulder)
    } else if scancode == 10 {
        Some(GamepadButton::Back)
    } else if scancode == 11 {
        Some(GamepadButton::Start)
    } else if scancode == 12 {
        Some(GamepadButton::Guide)
    } else if scancode == 13 {
        Some(GamepadButton::LeftStick)
    } else if scancode == 14 {
        Some(GamepadButton::RightStick)
    } else if scancode == 16 {
        Some(GamepadButton::LeftPaddle1)
    } else if scancode == 17 {
        Some(GamepadButton::RightPaddle1)
    } else {
        None
    }
}

pub fn guess_axis(scancode: u16) -> (a: Option<AxisMapping>)
    ensures
        a == spec_guess_axis(scancode),
{
    match scancode {
        0 => Some(AxisMapping::of_axis(GamepadAxis::LeftX)),
        1 => Some(AxisMapping::of_axis(GamepadAxis::LeftY)),
        2 => Some(AxisMapping::of_axis(GamepadAxis::RightX)),
        3 => Some(AxisMapping::of_axis(GamepadAxis::RightY)),
        4 => Some(AxisMapping::of_axis(GamepadAxis::RightTrigger)),
        5 => Some(AxisMapping::of_axis(GamepadAxis::LeftTrigger)),
        _ => None,
    }
}

pub fn guess_button(scancode: u16) -> (b: Option<GamepadButton>)
    ensures
        b == spec_guess_button(scancode),
{
    match scancode {
        0 => Some(GamepadButton::East),
        1 => Some(GamepadButton::South),
        2 => Some(GamepadButton::RightPaddle2),
        3 => Some(GamepadButton::North),
        4 => Some(GamepadButton::West),
        5 => Some(GamepadButton::LeftPaddle2),
        6 => Some(GamepadButton::LeftShoulder),
        7 => Some(GamepadButton::RightShoulder),
        10 => Some(GamepadButton::Back),
        11 => Some(GamepadButton::Start),
        12 => Some(GamepadButton::Guide),
        13 => Some(GamepadButton::LeftStick),
        14 => Some(GamepadButton::RightStick),
        16 => Some(GamepadButton::LeftPaddle1),
        17 => Some(GamepadButton::RightPaddle1),
        _ => None,
    }
}

/// The gamepad button a direction of hat zero drives: as mapped, else its D-pad button.
pub open spec fn spec_hat_button(
    mappings: BakedGamepadMappings,
    uuid: Guid,
    alternative_uuid: Guid,
    button: HatButton,
) -> GamepadButton {
    let descriptor = HatDescriptor(HatIndex::Zero, button);
    match mapping::lookup(mappings.spec_hats(), uuid.spec_u128(), alternative_uuid.spec_u128(), descriptor.spec_key()) {
        Some(b) => b,
        None => descriptor.spec_guess_button(),
    }
}

/// The events of hat directions that changed between two masks: for each
/// changed direction, in the order up, right, down, left, whether it is now pressed.
pub open spec fn spec_hat_events(
    mappings: BakedGamepadMappings,
    uuid: Guid,
    alternative_uuid: Guid,
    last: u8,
    hat: u8,
) -> Seq<HidEvent> {
    if hat == last {
        Seq::empty()
    } else {
        spec_buttons_from(hat ^ last, 0).map_values(
            |e: (HatMask, HatButton)|
                HidEvent::ButtonChanged(
                    spec_hat_button(mappings, uuid, alternative_uuid, e.1),
                    hat & e.0.bits == e.0.bits,
                ),
        )
    }
}

/// The mapping of 8BitDo axis `i`: as mapped, else the usual one.
pub open spec fn spec_axis_mapping(
    mappings: BakedGamepadMappings,
    uuid: Guid,
    alternative_uuid: Guid,
    i: u16,
) -> Option<AxisMapping> {
    match mapping::lookup(mappings.spec_axes(), uuid.spec_u128(), alternative_uuid.spec_u128(), i) {
        Some(a) => Some(a),
        None => spec_guess_axis(i),
    }
}

/// The events of the first `n` axes: an axis whose byte changed and that
/// drives a gamepad axis reports its new byte.
pub open spec fn spec_axis_events(
    mappings: BakedGamepadMappings,
    uuid: Guid,
    alternative_uuid: Guid,
    last: Seq<u8>,
    state: Seq<u8>,
    n: nat,
) -> Seq<HidEvent>
    decreases n,
{
    if n == 0 {
        Seq::empty()
    } else {
        let i = (n - 1) as nat;
        let before = spec_axis_events(mappings, uuid, alternative_uuid, last, state, i);
        let byte = state[i + 2 as int];
        if last[i as int] == byte {
            before
        } else {
            match spec_axis_mapping(mappings, uuid, alternative_uuid, i as u16) {
                Some(a) => before.push(HidEvent::AxisMoved(a, byte)),
                None => before,
            }
        }
    }
}

/// The button bits of a report: bytes 8 and 9, and byte 10 where the report has it.
pub open spec fn spec_button_mask(state: Seq<u8>) -> u32 {
    (state[8] + 256 * state[9] + if state.len() > 10 {
        65536 * state[10]
    } else {
        0
    }) as u32
}

/// Whether bit `bit` of `x` is set.
pub open spec fn bit32(x: u32, bit: u32) -> bool {
    x & (1u32 << bit) != 0
}

/// The gamepad button of 8BitDo button bit `bit`: as mapped, else the usual one.
pub open spec fn spec_button_mapping(
    mappings: BakedGamepadMappings,
    uuid: Guid,
    alternative_uuid: Guid,
    bit: u16,
) -> Option<GamepadButton> {
    match mapping::lookup(mappings.spec_buttons(), uuid.spec_u128(), alternative_uuid.spec_u128(), bit) {
        Some(b) => Some(b),
        None => spec_guess_button(bit),
    }
}

/// The events of the first `n` button bits: a bit that differs between
/// `last` and `mask` and that drives a gamepad button reports its new state.
pub open spec fn spec_button_events(
    mappings: BakedGamepadMappings,
    uuid: Guid,
    alternative_uuid: Guid,
    last: u32,
    mask: u32,
    n: nat,
) -> Seq<HidEvent>
    decreases n,
{
    if n == 0 {
        Seq::empty()
    } else {
        let bit = (n - 1) as nat;
        let before = spec_button_events(mappings, uuid, alternative_uuid, last, mask, bit);
        if !bit32(mask ^ last, bit as u32) {
            before
        } else {
            match spec_button_mapping(mappings, uuid, alternative_uuid, bit as u16) {
                Some(b) => before.push(HidEvent::ButtonChanged(b, bit32(mask, bit as u32))),
                None => before,
            }
        }
    }
}

/// The 8BitDo model of a product id.
pub open spec fn spec_product(product: u16) -> Product {
    if product == 0x6001 {
        Product::Pro2(Transport::Usb)
    } else if product == 0x6101 {
        Product::Pro2(Transport::Bluetooth)
    } else if product == 0x6003 {
        Product::Pro2(Transport::Usb)
    } else if product == 0x6006 {
        Product::Pro2(Transport::Bluetooth)
    } else if product == 0x6009 {
        Product::Pro3
    } else if product == 0x6012 {
        Product::Ultimate2
    } else {
        Product::Unknown
    }
}

impl EightBitDoDriver {
    pub const VENDOR: u16 = 0x2dc8;
    pub const SN30_PRO: u16 = 0x6001;
    pub const SN30_PRO_BT: u16 = 0x6101;
    pub const PRO_2: u16 = 0x6003;
    pub const PRO_2_BT: u16 = 0x6006;
    pub const PRO_3: u16 = 0x6009;
    pub const ULTIMATE2: u16 = 0x6012;

    pub closed spec fn spec_model(&self) -> Product {
        self.product
    }

    /// The button bits of the last report.
    pub closed spec fn spec_last_button(&self) -> u32 {
        self.last_button
    }

    /// The pressed hat directions of the last report.
    pub closed spec fn spec_last_hat(&self) -> u8 {
        self.last_hat.bits
    }

    /// The six axis bytes of the last report.
    pub closed spec fn spec_last_axes(&self) -> Seq<u8> {
        self.last_axes@
    }

    /// A driver for an 8BitDo device, `None` for a device of another vendor.
    /// Nothing is taken as pressed at first; the sticks are taken as centered
    /// (127) and the triggers as released (0).
    pub fn from(vendor: u16, product: u16) -> (d: Option<Self>)
        ensures
            d is Some <==> vendor == Self::VENDOR,
            d matches Some(d) ==> {
                &&& d.spec_model() == spec_product(product)
                &&& d.spec_last_button() == 0
                &&& d.spec_last_hat() == 0
                &&& d.spec_last_axes() == seq![127u8, 127u8, 127u8, 127u8, 0u8, 0u8]
            },
    {
        if vendor != Self::VENDOR {
            return None;
        }
        let product = if product == Self::SN30_PRO {
            Product::Pro2(Transport::Usb)
        } else if product == Self::SN30_PRO_BT {
            Product::Pro2(Transport::Bluetooth)
        } else if product == Self::PRO_2 {
            Product::Pro2(Transport::Usb)
        } else if product == Self::PRO_2_BT {
            Product::Pro2(Transport::Bluetooth)
        } else if product == Self::PRO_3 {
            Product::Pro3
        } else if product == Self::ULTIMATE2 {
            Product::Ultimate2
        } else {
            Product::Unknown
        };
        let last_axes = [127u8, 127u8, 127u8, 127u8, 0u8, 0u8];
        assert(last_axes@ =~= seq![127u8, 127u8, 127u8, 127u8, 0u8, 0u8]);
        Some(EightBitDoDriver { product, last_button: 0, last_hat: HatMask::empty(), last_axes })
    }

    /// Turns a report into events, in order: hat directions that changed,
    /// axes that changed, then button bits that changed; and keeps the
    /// report's state for the next one. Byte 1 of a report is the hat,
    /// bytes 2 to 7 the axes, bytes 8 to 10 the buttons.
    pub fn handle_state(
        &mut self,
        state: &[u8],
        uuid: Guid,
        alternative_uuid: Guid,
        events: &mut Vec<HidEvent>,
        mappings: &BakedGamepadMappings,
    )
        requires
            state@.len() >= 10,
        ensures
            final(self).spec_model() == old(self).spec_model(),
            final(self).spec_last_hat() == spec_report_hat(state@[1]),
            final(self).spec_last_axes() == state@.subrange(2, 8),
            final(self).spec_last_button() == spec_button_mask(state@),
            final(events)@ == old(events)@ + spec_hat_events(
                *mappings,
                uuid,
                alternative_uuid,
                old(self).spec_last_hat(),
                spec_report_hat(state@[1]),
            ) + spec_axis_events(
                *mappings,
                uuid,
                alternative_uuid,
                old(self).spec_last_axes(),
                state@,
                6,
            ) + spec_button_events(
                *mappings,
                uuid,
                alternative_uuid,
                old(self).spec_last_button(),
                spec_button_mask(state@),
                32,
            ),
    {
        let ghost events0 = events@;
        let hat = match DeviceHat::from_device(state[1]) {
            Some(h) => h.to_mask(),
            None => HatMask::empty(),
        };
        if hat != self.last_hat {
            let changed = hat.symmetric_difference(self.last_hat);
            let directions = changed.iter_buttons();
            let ghost hat_events = spec_hat_events(
                *mappings,
                uuid,
                alternative_uuid,
                self.last_hat.bits,
                hat.bits,
            );
            let mut k: usize = 0;
            while k < directions.len()
                invariant
                    k <= directions@.len(),
                    hat.bits != old(self).last_hat.bits,
                    directions@ == spec_buttons_from(hat.bits ^ old(self).last_hat.bits, 0),
                    hat_events == spec_hat_events(
                        *mappings,
                        uuid,
                        alternative_uuid,
                        old(self).last_hat.bits,
                        hat.bits,
                    ),
                    hat_events.len() == directions@.len(),
                    events@ == events0 + hat_events.take(k as int),
                decreases directions@.len() - k,
            {
                let (index, button) = directions[k];
                let descriptor = HatDescriptor(HatIndex::Zero, button);
                let mapped = match mappings.get_hat(uuid, alternative_uuid, descriptor) {
                    Some(b) => b,
                    None => descriptor.guess_button(),
                };
                events.push(HidEvent::ButtonChanged(mapped, hat.contains(index)));
                proof {
                    assert(hat_events.take(k + 1) =~= hat_events.take(k as int).push(hat_events[k as int]));
                }
                k = k + 1;
            }
            proof {
                assert(hat_events.take(directions@.len() as int) =~= hat_events);
            }
            self.last_hat = hat;
        } else {
            proof {
                assert(events@ =~= events0 + spec_hat_events(
                    *mappings,
                    uuid,
                    alternative_uuid,
                    old(self).last_hat.bits,
                    hat.bits,
                ));
            }
        }
        let ghost events1 = events@;
        let ghost last_axes0 = self.last_axes@;
        let mut i: usize = 0;
        while i < 6
            invariant
                i <= 6,
                state@.len() >= 10,
                last_axes0.len() == 6,
                self.last_axes@.len() == 6,
                forall|j: int| 0 <= j < i ==> self.last_axes@[j] == state@[j + 2],
                forall|j: int| i <= j < 6 ==> self.last_axes@[j] == last_axes0[j],
                self.product == old(self).product,
                self.last_button == old(self).last_button,
                self.last_hat.bits == spec_report_hat(state@[1]),
                events@ == events1 + spec_axis_events(
                    *mappings,
                    uuid,
                    alternative_uuid,
                    last_axes0,
                    state@,
                    i as nat,
                ),
            decreases 6 - i,
        {
            let byte = state[i + 2];
            if self.last_axes[i] != byte {
                self.last_axes[i] = byte;
                let mapping = match mappings.get_axis(uuid, alternative_uuid, i as u16) {
                    Some(a) => Some(a),
                    None => guess_axis(i as u16),
                };
                if let Some(axis) = mapping {
                    events.push(HidEvent::AxisMoved(axis, byte));
                }
            }
            i = i + 1;
        }
        proof {
            assert(self.last_axes@ =~= state@.subrange(2, 8));
        }
        let ghost events2 = events@;
        let mut button_mask: u32 = state[8] as u32 + 256 * (state[9] as u32);
        if state.len() > 10 {
            button_mask = button_mask + 65536 * (state[10] as u32);
        }
        if button_mask != self.last_button {
            let diff = button_mask ^ self.last_button;
            let mut bit: u32 = 0;
            while bit < 32
                invariant
                    bit <= 32,
                    diff == button_mask ^ old(self).last_button,
                    events@ == events2 + spec_button_events(
                        *mappings,
                        uuid,
                        alternative_uuid,
                        old(self).last_button,
                        button_mask,
                        bit as nat,
                    ),
                decreases 32 - bit,
            {
                let index: u32 = 1u32 << bit;
                let changed = diff & index != 0;
                if changed {
                    let new_value = button_mask & index != 0;
                    let mapping = match mappings.get_button(uuid, alternative_uuid, bit as u16) {
                        Some(b) => Some(b),
                        None => guess_button(bit as u16),
                    };
                    if let Some(button) = mapping {
                        events.push(HidEvent::ButtonChanged(button, new_value));
                    }
                }
                bit = bit + 1;
            }
            self.last_button = button_mask;
        } else {
            proof {
                lemma_no_button_events(*mappings, uuid, alternative_uuid, button_mask, 32);
            }
        }
        proof {
            assert(events@ =~= old(events)@ + spec_hat_events(
                *mappings,
                uuid,
                alternative_uuid,
                old(self).spec_last_hat(),
                spec_report_hat(state@[1]),
            ) + spec_axis_events(
                *mappings,
                uuid,
                alternative_uuid,
                old(self).spec_last_axes(),
                state@,
                6,
            ) + spec_button_events(
                *mappings,
                uuid,
                alternative_uuid,
                old(self).spec_last_button(),
                spec_button_mask(state@),
                32,
            ));
        }
    }
}

proof fn lemma_no_axis_events(
    mappings: BakedGamepadMappings,
    uuid: Guid,
    alternative_uuid: Guid,
    state: Seq<u8>,
    n: nat,
)
    requires
        n <= 6,
        state.len() >= 10,
    ensures
        spec_axis_events(mappings, uuid, alternative_uuid, state.subrange(2, 8), state, n)
            == Seq::<HidEvent>::empty(),
    decreases n,
{
    if n > 0 {
        lemma_no_axis_events(mappings, uuid, alternative_uuid, state, (n - 1) as nat);
    }
}

/// A report that repeats the one before it gives no events: after any
/// report, the driver's state is exactly what the report said.
pub proof fn law_repeated_report_is_silent(
    mappings: BakedGamepadMappings,
    uuid: Guid,
    alternative_uuid: Guid,
    state: Seq<u8>,
)
    requires
        state.len() >= 10,
    ensures
        spec_hat_events(
            mappings,
            uuid,
            alternative_uuid,
            spec_report_hat(state[1]),
            spec_report_hat(state[1]),
        ) == Seq::<HidEvent>::empty(),
        spec_axis_events(mappings, uuid, alternative_uuid, state.subrange(2, 8), state, 6)
            == Seq::<HidEvent>::empty(),
        spec_button_events(
            mappings,
            uuid,
            alternative_uuid,
            spec_button_mask(state),
            spec_button_mask(state),
            32,
        ) == Seq::<HidEvent>::empty(),
{
    lemma_no_axis_events(mappings, uuid, alternative_uuid, state, 6);
    lemma_no_button_events(mappings, uuid, alternative_uuid, spec_button_mask(state), 32);
}

proof fn lemma_no_button_events(
    mappings: BakedGamepadMappings,
    uuid: Guid,
    alternative_uuid: Guid,
    mask: u32,
    n: nat,
)
    requires
        n <= 32,
    ensures
        spec_button_events(mappings, uuid, alternative_uuid, mask, mask, n) == Seq::<HidEvent>::empty(),
    decreases n,
{
    if n > 0 {
        lemma_no_button_events(mappings, uuid, alternative_uuid, mask, (n - 1) as nat);
        assert(mask ^ mask == 0) by (bit_vector);
        let b = (n - 1) as u32;
        assert(0u32 & (1u32 << b) == 0) by (bit_vector);
    }
}


/// The events of a change of the single button bit `b`: one event for that
/// bit, with its new state, where it drives a gamepad button; none else.
proof fn lemma_single_bit_events(
    mappings: BakedGamepadMappings,
    uuid: Guid,
    alternative_uuid: Guid,
    last: u32,
    mask: u32,
    b: u32,
    n: nat,
)
    requires
        b < 32,
        n <= 32,
        mask ^ last == 1u32 << b,
    ensures
        spec_button_events(mappings, uuid, alternative_uuid, last, mask, n) == if b < n {
            match spec_button_mapping(mappings, uuid, alternative_uuid, b as u16) {
                Some(x) => seq![HidEvent::ButtonChanged(x, bit32(mask, b))],
                None => Seq::<HidEvent>::empty(),
            }
        } else {
            Seq::<HidEvent>::empty()
        },
    decreases n,
{
    if n > 0 {
        lemma_single_bit_events(mappings, uuid, alternative_uuid, last, mask, b, (n - 1) as nat);
        let c = (n - 1) as u32;
        let d = mask ^ last;
        if c == b {
            assert(d & (1u32 << c) != 0) by (bit_vector)
                requires
                    c < 32,
                    d == 1u32 << c,
            ;
        } else {
            assert(d & (1u32 << c) == 0) by (bit_vector)
                requires
                    c < 32,
                    b < 32,
                    c != b,
                    d == 1u32 << b,
            ;
        }
    }
}

/// The default 8BitDo button layout: where a report differs from the one
/// before it in button bit `b` alone, and no mapping names that bit, the
/// report gives exactly one event (bit 0 East, 1 South, 2 right paddle 2,
/// 3 North, 4 West, 5 left paddle 2, 6 left shoulder, 7 right shoulder,
/// 10 Back, 11 Start, 12 Guide, 13 left stick, 14 right stick, 16 left
/// paddle 1, 17 right paddle 1), whose state is whether the bit is now set;
/// the other bits give none.
pub proof fn law_default_button_layout(
    mappings: BakedGamepadMappings,
    uuid: Guid,
    alternative_uuid: Guid,
    last: u32,
    mask: u32,
    b: u32,
)
    requires
        b < 32,
        mask ^ last == 1u32 << b,
        mapping::lookup(mappings.spec_buttons(), uuid.spec_u128(), alternative_uuid.spec_u128(), b as u16)
            is None,
    ensures
        ({
            let events = spec_button_events(mappings, uuid, alternative_uuid, last, mask, 32);
            let pressed = mask & (1u32 << b) != 0;
            &&& (b == 8 || b == 9 || b == 15 || b >= 18) ==> events == Seq::<HidEvent>::empty()
            &&& b == 0 ==> events == seq![HidEvent::ButtonChanged(GamepadButton::East, pressed)]
            &&& b == 1 ==> events == seq![HidEvent::ButtonChanged(GamepadButton::South, pressed)]
            &&& b == 2 ==> events == seq![HidEvent::ButtonChanged(GamepadButton::RightPaddle2, pressed)]
            &&& b == 3 ==> events == seq![HidEvent::ButtonChanged(GamepadButton::North, pressed)]
            &&& b == 4 ==> events == seq![HidEvent::ButtonChanged(GamepadButton::West, pressed)]
            &&& b == 5 ==> events == seq![HidEvent::ButtonChanged(GamepadButton::LeftPaddle2, pressed)]
            &&& b == 6 ==> events == seq![HidEvent::ButtonChanged(GamepadButton::LeftShoulder, pressed)]
            &&& b == 7 ==> events == seq![HidEvent::ButtonChanged(GamepadButton::RightShoulder, pressed)]
            &&& b == 10 ==> events == seq![HidEvent::ButtonChanged(GamepadButton::Back, pressed)]
            &&& b == 11 ==> events == seq![HidEvent::ButtonChanged(GamepadButton::Start, pressed)]
            &&& b == 12 ==> events == seq![HidEvent::ButtonChanged(GamepadButton::Guide, pressed)]
            &&& b == 13 ==> events == seq![HidEvent::ButtonChanged(GamepadButton::LeftStick, pressed)]
            &&& b == 14 ==> events == seq![HidEvent::ButtonChanged(GamepadButton::RightStick, pressed)]
            &&& b == 16 ==> events == seq![HidEvent::ButtonChanged(GamepadButton::LeftPaddle1, pressed)]
            &&& b == 17 ==> events == seq![HidEvent::ButtonChanged(GamepadButton::RightPaddle1, pressed)]
        }),
{
    lemma_single_bit_events(mappings, uuid, alternative_uuid, last, mask, b, 32);
}


/// The hat positions that a report byte can give, as direction sets, and
/// the directions each holds.
proof fn lemma_hat_mask_bits(bits: u8)
    requires
        bits == 0 || bits == 1 || bits == 3 || bits == 2 || bits == 6 || bits == 4 || bits == 12
            || bits == 8 || bits == 9,
    ensures
        bits ^ 0 == bits,
        0u8 ^ bits == bits,
        (bits & 1 == 1) == (bits == 1 || bits == 3 || bits == 9),
        (bits & 2 == 2) == (bits == 2 || bits == 3 || bits == 6),
        (bits & 4 == 4) == (bits == 4 || bits == 6 || bits == 12),
        (bits & 8 == 8) == (bits == 8 || bits == 12 || bits == 9),
        0u8 & 1 != 1 && 0u8 & 2 != 2 && 0u8 & 4 != 4 && 0u8 & 8 != 8,
{
    assert({
        &&& bits ^ 0 == bits
        &&& 0u8 ^ bits == bits
        &&& (bits & 1 == 1) == (bits == 1 || bits == 3 || bits == 9)
        &&& (bits & 2 == 2) == (bits == 2 || bits == 3 || bits == 6)
        &&& (bits & 4 == 4) == (bits == 4 || bits == 6 || bits == 12)
        &&& (bits & 8 == 8) == (bits == 8 || bits == 12 || bits == 9)
        &&& 0u8 & 1 != 1 && 0u8 & 2 != 2 && 0u8 & 4 != 4 && 0u8 & 8 != 8
    }) by (bit_vector)
        requires
            bits == 0 || bits == 1 || bits == 3 || bits == 2 || bits == 6 || bits == 4 || bits == 12
                || bits == 8 || bits == 9,
    ;
}

/// The default 8BitDo hat layout: where no mapping names a direction of hat
/// zero, moving the hat from centered to report value `b` presses, in the
/// order up, right, down, left, the D-pad buttons of that position (0 up,
/// 1 up and right, 2 right, 3 right and down, 4 down, 5 down and left,
/// 6 left, 7 up and left), and moving it back releases them; values from 8
/// on mean centered and give no events.
pub proof fn law_default_hat_layout(
    mappings: BakedGamepadMappings,
    uuid: Guid,
    alternative_uuid: Guid,
    b: u8,
)
    requires
        forall|k: u8|
            k < 4 ==> mapping::lookup(mappings.spec_hats(), uuid.spec_u128(), alternative_uuid.spec_u128(), k)
                is None,
    ensures
        ({
            let press = spec_hat_events(mappings, uuid, alternative_uuid, 0, spec_report_hat(b));
            let release = spec_hat_events(mappings, uuid, alternative_uuid, spec_report_hat(b), 0);
            &&& b >= 8 ==> press == Seq::<HidEvent>::empty() && release == Seq::<HidEvent>::empty()
            &&& b == 0 ==> press == seq![HidEvent::ButtonChanged(GamepadButton::DPadUp, true)] && release == seq![HidEvent::ButtonChanged(GamepadButton::DPadUp, false)]
            &&& b == 1 ==> press == seq![HidEvent::ButtonChanged(GamepadButton::DPadUp, true), HidEvent::ButtonChanged(GamepadButton::DPadRight, true)] && release == seq![HidEvent::ButtonChanged(GamepadButton::DPadUp, false), HidEvent::ButtonChanged(GamepadButton::DPadRight, false)]
            &&& b == 2 ==> press == seq![HidEvent::ButtonChanged(GamepadButton::DPadRight, true)] && release == seq![HidEvent::ButtonChanged(GamepadButton::DPadRight, false)]
            &&& b == 3 ==> press == seq![HidEvent::ButtonChanged(GamepadButton::DPadRight, true), HidEvent::ButtonChanged(GamepadButton::DPadDown, true)] && release == seq![HidEvent::ButtonChanged(GamepadButton::DPadRight, false), HidEvent::ButtonChanged(GamepadButton::DPadDown, false)]
            &&& b == 4 ==> press == seq![HidEvent::ButtonChanged(GamepadButton::DPadDown, true)] && release == seq![HidEvent::ButtonChanged(GamepadButton::DPadDown, false)]
            &&& b == 5 ==> press == seq![HidEvent::ButtonChanged(GamepadButton::DPadDown, true), HidEvent::ButtonChanged(GamepadButton::DPadLeft, true)] && release == seq![HidEvent::ButtonChanged(GamepadButton::DPadDown, false), HidEvent::ButtonChanged(GamepadButton::DPadLeft, false)]
            &&& b == 6 ==> press == seq![HidEvent::ButtonChanged(GamepadButton::DPadLeft, true)] && release == seq![HidEvent::ButtonChanged(GamepadButton::DPadLeft, false)]
            &&& b == 7 ==> press == seq![HidEvent::ButtonChanged(GamepadButton::DPadUp, true), HidEvent::ButtonChanged(GamepadButton::DPadLeft, true)] && release == seq![HidEvent::ButtonChanged(GamepadButton::DPadUp, false), HidEvent::ButtonChanged(GamepadButton::DPadLeft, false)]
        }),
{
    let bits = spec_report_hat(b);
    let press = spec_hat_events(mappings, uuid, alternative_uuid, 0, bits);
    let release = spec_hat_events(mappings, uuid, alternative_uuid, bits, 0);
    lemma_hat_mask_bits(bits);
    reveal_with_fuel(spec_buttons_from, 5);
    assert(mapping::lookup(mappings.spec_hats(), uuid.spec_u128(), alternative_uuid.spec_u128(), 0u8) is None);
    assert(mapping::lookup(mappings.spec_hats(), uuid.spec_u128(), alternative_uuid.spec_u128(), 1u8) is None);
    assert(mapping::lookup(mappings.spec_hats(), uuid.spec_u128(), alternative_uuid.spec_u128(), 2u8) is None);
    assert(mapping::lookup(mappings.spec_hats(), uuid.spec_u128(), alternative_uuid.spec_u128(), 3u8) is None);
    if b == 0 {
        assert(press =~= seq![HidEvent::ButtonChanged(GamepadButton::DPadUp, true)]);
        assert(release =~= seq![HidEvent::ButtonChanged(GamepadButton::DPadUp, false)]);
    }
    if b == 1 {
        assert(press =~= seq![HidEvent::ButtonChanged(GamepadButton::DPadUp, true), HidEvent::ButtonChanged(GamepadButton::DPadRight, true)]);
        assert(release =~= seq![HidEvent::ButtonChanged(GamepadButton::DPadUp, false), HidEvent::ButtonChanged(GamepadButton::DPadRight, false)]);
    }
    if b == 2 {
        assert(press =~= seq![HidEvent::ButtonChanged(GamepadButton::DPadRight, true)]);
        assert(release =~= seq![HidEvent::ButtonChanged(GamepadButton::DPadRight, false)]);
    }
    if b == 3 {
        assert(press =~= seq![HidEvent::ButtonChanged(GamepadButton::DPadRight, true), HidEvent::ButtonChanged(GamepadButton::DPadDown, true)]);
        assert(release =~= seq![HidEvent::ButtonChanged(GamepadButton::DPadRight, false), HidEvent::ButtonChanged(GamepadButton::DPadDown, false)]);
    }
    if b == 4 {
        assert(press =~= seq![HidEvent::ButtonChanged(GamepadButton::DPadDown, true)]);
        assert(release =~= seq![HidEvent::ButtonChanged(GamepadButton::DPadDown, false)]);
    }
    if b == 5 {
        assert(press =~= seq![HidEvent::ButtonChanged(GamepadButton::DPadDown, true), HidEvent::ButtonChanged(GamepadButton::DPadLeft, true)]);
        assert(release =~= seq![HidEvent::ButtonChanged(GamepadButton::DPadDown, false), HidEvent::ButtonChanged(GamepadButton::DPadLeft, false)]);
    }
    if b == 6 {
        assert(press =~= seq![HidEvent::ButtonChanged(GamepadButton::DPadLeft, true)]);
        assert(release =~= seq![HidEvent::ButtonChanged(GamepadButton::DPadLeft, false)]);
    }
    if b == 7 {
        assert(press =~= seq![HidEvent::ButtonChanged(GamepadButton::DPadUp, true), HidEvent::ButtonChanged(GamepadButton::DPadLeft, true)]);
        assert(release =~= seq![HidEvent::ButtonChanged(GamepadButton::DPadUp, false), HidEvent::ButtonChanged(GamepadButton::DPadLeft, false)]);
    }
}

/// The events of a report whose axis bytes differ from the last ones at
/// axis `i` alone: one event for that axis, with its new byte, where it
/// drives a gamepad axis; none else.
proof fn lemma_single_axis_events(
    mappings: BakedGamepadMappings,
    uuid: Guid,
    alternative_uuid: Guid,
    last: Seq<u8>,
    state: Seq<u8>,
    i: nat,
    n: nat,
)
    requires
        state.len() >= 10,
        last.len() == 6,
        i < 6,
        n <= 6,
        last[i as int] != state[i + 2 as int],
        forall|j: int| 0 <= j < 6 && j != i ==> last[j] == state[j + 2],
    ensures
        spec_axis_events(mappings, uuid, alternative_uuid, last, state, n) == if i < n {
            match spec_axis_mapping(mappings, uuid, alternative_uuid, i as u16) {
                Some(a) => seq![HidEvent::AxisMoved(a, state[i + 2 as int])],
                None => Seq::<HidEvent>::empty(),
            }
        } else {
            Seq::<HidEvent>::empty()
        },
    decreases n,
{
    if n > 0 {
        lemma_single_axis_events(mappings, uuid, alternative_uuid, last, state, i, (n - 1) as nat);
    }
}

/// The default 8BitDo axis layout: where a report's axis bytes differ from
/// the last ones at axis `i` alone, and no mapping names that axis, the
/// report gives exactly one axis event with the new byte: axis 0 is the
/// left stick's X, 1 its Y, 2 the right stick's X, 3 its Y, 4 the right
/// trigger and 5 the left trigger, none of them inverted.
pub proof fn law_default_axis_layout(
    mappings: BakedGamepadMappings,
    uuid: Guid,
    alternative_uuid: Guid,
    last: Seq<u8>,
    state: Seq<u8>,
    i: nat,
)
    requires
        state.len() >= 10,
        last.len() == 6,
        i < 6,
        last[i as int] != state[i + 2 as int],
        forall|j: int| 0 <= j < 6 && j != i ==> last[j] == state[j + 2],
        mapping::lookup(mappings.spec_axes(), uuid.spec_u128(), alternative_uuid.spec_u128(), i as u16) is None,
    ensures
        ({
            let events = spec_axis_events(mappings, uuid, alternative_uuid, last, state, 6);
            &&& i == 0 ==> events == seq![HidEvent::AxisMoved(AxisMapping { axis: GamepadAxis::LeftX, invert: false }, state[i + 2 as int])]
            &&& i == 1 ==> events == seq![HidEvent::AxisMoved(AxisMapping { axis: GamepadAxis::LeftY, invert: false }, state[i + 2 as int])]
            &&& i == 2 ==> events == seq![HidEvent::AxisMoved(AxisMapping { axis: GamepadAxis::RightX, invert: false }, state[i + 2 as int])]
            &&& i == 3 ==> events == seq![HidEvent::AxisMoved(AxisMapping { axis: GamepadAxis::RightY, invert: false }, state[i + 2 as int])]
            &&& i == 4 ==> events == seq![HidEvent::AxisMoved(AxisMapping { axis: GamepadAxis::RightTrigger, invert: false }, state[i + 2 as int])]
            &&& i == 5 ==> events == seq![HidEvent::AxisMoved(AxisMapping { axis: GamepadAxis::LeftTrigger, invert: false }, state[i + 2 as int])]
        }),
{
    lemma_single_axis_events(mappings, uuid, alternative_uuid, last, state, i, 6);
}

} // verus!
