//! User-configurable mappings from device inputs to gamepad controls.
//!
//! Mapping tables are filed by device GUID, as the number
//! [`Guid::as_u128`](crate::backend::guid::Guid::as_u128) gives (most
//! significant byte first, as `uuid::Uuid::as_u128` does), and hat directions
//! by [`HatDescriptor::key`](hat::HatDescriptor::key).
use std::collections::HashMap;

use vstd::prelude::*;

use crate::backend::guid::Guid;
use crate::gamepad::{axis::GamepadAxis, button::GamepadButton};
use crate::mapping::hat::HatDescriptor;

pub mod device_id;
pub mod hat;

verus! {

broadcast use vstd::std_specs::hash::group_hash_axioms;

/// Which axis a device axis drives, and whether it runs the other way.
#[derive(Debug, Clone, Copy, PartialEq, Eq, Structural)]
pub struct AxisMapping {
    pub axis: GamepadAxis,
    pub invert: bool,
}

/// How a device is attached.
#[derive(Debug, Clone, Copy, PartialEq, Eq, Hash, Structural)]
pub enum Transport {
    Usb,
    Bluetooth,
}

/// The operating systems that mapping tables are kept for.
#[derive(Debug, Clone, Copy, PartialEq, Eq, Structural)]
pub enum Platform {
    Linux,
    Windows,
    MacOs,
    Ios,
    Android,
}

/// The mappings of one device model.
#[derive(Debug, Clone, PartialEq, Eq)]
pub struct DeviceMappings {
    pub name: String,
    /// Device button number to gamepad button.
    pub buttons: HashMap<u16, GamepadButton>,
    /// Device axis number to gamepad axis.
    pub axes: HashMap<u16, AxisMapping>,
    /// Hat direction, by [`HatDescriptor::key`], to gamepad button.
    pub hats: HashMap<u8, GamepadButton>,
}

/// The mappings of all device models, per operating system, by device GUID.
#[derive(Debug, Clone, PartialEq)]
pub struct GamepadMappings {
    pub linux: HashMap<u128, DeviceMappings>,
    pub windows: HashMap<u128, DeviceMappings>,
    pub macos: HashMap<u128, DeviceMappings>,
    pub ios: HashMap<u128, DeviceMappings>,
    pub android: HashMap<u128, DeviceMappings>,
}

/// The mappings of one operating system, arranged for lookup by device
/// GUID and input.
pub struct BakedGamepadMappings {
    buttons: HashMap<u128, HashMap<u16, GamepadButton>>,
    axes: HashMap<u128, HashMap<u16, AxisMapping>>,
    hats: HashMap<u128, HashMap<u8, GamepadButton>>,
}

impl AxisMapping {
    pub fn of_axis(axis: GamepadAxis) -> (m: Self)
        ensures
            m == (AxisMapping { axis, invert: false }),
    {
        AxisMapping { axis, invert: false }
    }
}

impl Transport {
    /// The transport that a Linux bus number (`BUS_USB`, `BUS_BLUETOOTH`) stands for.
    pub open spec fn spec_from_bus(bus: u16) -> Option<Transport> {
        if bus == 0x03 {
            Some(Transport::Usb)
        } else if bus == 0x05 {
            Some(Transport::Bluetooth)
        } else {
            None
        }
    }

    pub fn from_bus(bus: u16) -> (t: Option<Transport>)
        ensures
            t == Self::spec_from_bus(bus),
    {
        if bus == 0x03 {
            Some(Transport::Usb)
        } else if bus == 0x05 {
            Some(Transport::Bluetooth)
        } else {
            None
        }
    }
}

impl Default for DeviceMappings {
    fn default() -> (m: Self)
        ensures
            m.name@ == Seq::<char>::empty(),
            m.buttons@ == Map::<u16, GamepadButton>::empty(),
            m.axes@ == Map::<u16, AxisMapping>::empty(),
            m.hats@ == Map::<u8, GamepadButton>::empty(),
    {
        DeviceMappings {
            name: String::new(),
            buttons: HashMap::new(),
            axes: HashMap::new(),
            hats: HashMap::new(),
        }
    }
}

impl Default for GamepadMappings {
    fn default() -> (m: Self)
        ensures
            m.linux@ == Map::<u128, DeviceMappings>::empty(),
            m.windows@ == Map::<u128, DeviceMappings>::empty(),
            m.macos@ == Map::<u128, DeviceMappings>::empty(),
            m.ios@ == Map::<u128, DeviceMappings>::empty(),
            m.android@ == Map::<u128, DeviceMappings>::empty(),
    {
        GamepadMappings {
            linux: HashMap::new(),
            windows: HashMap::new(),
            macos: HashMap::new(),
            ios: HashMap::new(),
            android: HashMap::new(),
        }
    }
}

/// The button table of a set of device mappings, by device GUID and button number.
pub open spec fn button_table(devices: Map<u128, DeviceMappings>) -> Map<(u128, u16), GamepadButton> {
    Map::new(
        |k: (u128, u16)| devices.contains_key(k.0) && devices[k.0].buttons@.contains_key(k.1),
        |k: (u128, u16)| devices[k.0].buttons@[k.1],
    )
}

/// The axis table of a set of device mappings, by device GUID and axis number.
pub open spec fn axis_table(devices: Map<u128, DeviceMappings>) -> Map<(u128, u16), AxisMapping> {
    Map::new(
        |k: (u128, u16)| devices.contains_key(k.0) && devices[k.0].axes@.contains_key(k.1),
        |k: (u128, u16)| devices[k.0].axes@[k.1],
    )
}

/// The hat table of a set of device mappings, by device GUID and hat key.
pub open spec fn hat_table(devices: Map<u128, DeviceMappings>) -> Map<(u128, u8), GamepadButton> {
    Map::new(
        |k: (u128, u8)| devices.contains_key(k.0) && devices[k.0].hats@.contains_key(k.1),
        |k: (u128, u8)| devices[k.0].hats@[k.1],
    )
}

/// A two-level table seen as one table by pairs of keys.
pub open spec fn flatten<K, V>(nested: Map<u128, HashMap<K, V>>) -> Map<(u128, K), V> {
    Map::new(
        |k: (u128, K)| nested.contains_key(k.0) && nested[k.0]@.contains_key(k.1),
        |k: (u128, K)| nested[k.0]@[k.1],
    )
}

/// What a lookup with a fallback finds: the entry under the first GUID,
/// else the entry under the second, else nothing.
pub open spec fn lookup<K, V>(table: Map<(u128, K), V>, first: u128, second: u128, key: K) -> Option<V> {
    if table.contains_key((first, key)) {
        Some(table[(first, key)])
    } else if table.contains_key((second, key)) {
        Some(table[(second, key)])
    } else {
        None
    }
}

/// A lookup finds the entry under the device's own GUID whenever there is one.
pub proof fn law_lookup_prefers_own_guid<K, V>(table: Map<(u128, K), V>, first: u128, second: u128, key: K)
    requires
        table.contains_key((first, key)),
    ensures
        lookup(table, first, second, key) == Some(table[(first, key)]),
{
}

/// A lookup falls back to the alternative GUID only where the device's own
/// GUID has no entry, and finds nothing where neither has one.
pub proof fn law_lookup_falls_back<K, V>(table: Map<(u128, K), V>, first: u128, second: u128, key: K)
    requires
        !table.contains_key((first, key)),
    ensures
        table.contains_key((second, key)) ==> lookup(table, first, second, key) == Some(
            table[(second, key)],
        ),
        !table.contains_key((second, key)) ==> lookup(table, first, second, key) is None,
{
}

/// After baking, a device button maps to what the device model's own
/// mappings for that operating system say, else to what those of its
/// alternative GUID say.
pub proof fn law_baked_button(
    mappings: GamepadMappings,
    platform: Platform,
    uuid: u128,
    alternative_uuid: u128,
    index: u16,
)
    ensures
        ({
            let devices = mappings.spec_platform(platform);
            lookup(button_table(devices), uuid, alternative_uuid, index) == if devices.contains_key(
                uuid,
            ) && devices[uuid].buttons@.contains_key(index) {
                Some(devices[uuid].buttons@[index])
            } else if devices.contains_key(alternative_uuid)
                && devices[alternative_uuid].buttons@.contains_key(index) {
                Some(devices[alternative_uuid].buttons@[index])
            } else {
                None
            }
        }),
{
}

/// After baking, a device axis maps to what the device model's own
/// mappings for that operating system say, else to what those of its
/// alternative GUID say.
pub proof fn law_baked_axis(
    mappings: GamepadMappings,
    platform: Platform,
    uuid: u128,
    alternative_uuid: u128,
    index: u16,
)
    ensures
        ({
            let devices = mappings.spec_platform(platform);
            lookup(axis_table(devices), uuid, alternative_uuid, index) == if devices.contains_key(
                uuid,
            ) && devices[uuid].axes@.contains_key(index) {
                Some(devices[uuid].axes@[index])
            } else if devices.contains_key(alternative_uuid)
                && devices[alternative_uuid].axes@.contains_key(index) {
                Some(devices[alternative_uuid].axes@[index])
            } else {
                None
            }
        }),
{
}

/// After baking, a hat direction maps to what the device model's own
/// mappings for that operating system say, else to what those of its
/// alternative GUID say.
pub proof fn law_baked_hat(
    mappings: GamepadMappings,
    platform: Platform,
    uuid: u128,
    alternative_uuid: u128,
    descriptor: HatDescriptor,
)
    ensures
        ({
            let devices = mappings.spec_platform(platform);
            let key = descriptor.spec_key();
            lookup(hat_table(devices), uuid, alternative_uuid, key) == if devices.contains_key(uuid)
                && devices[uuid].hats@.contains_key(key) {
                Some(devices[uuid].hats@[key])
            } else if devices.contains_key(alternative_uuid)
                && devices[alternative_uuid].hats@.contains_key(key) {
                Some(devices[alternative_uuid].hats@[key])
            } else {
                None
            }
        }),
{
}

impl GamepadMappings {
    /// The mappings kept for one operating system.
    pub open spec fn spec_platform(&self, platform: Platform) -> Map<u128, DeviceMappings> {
        match platform {
            Platform::Linux => self.linux@,
            Platform::Windows => self.windows@,
            Platform::MacOs => self.macos@,
            Platform::Ios => self.ios@,
            Platform::Android => self.android@,
        }
    }

    pub fn get_platform(&self, platform: Platform) -> (m: &HashMap<u128, DeviceMappings>)
        ensures
            m@ == self.spec_platform(platform),
    {
        match platform {
            Platform::Linux => &self.linux,
            Platform::Windows => &self.windows,
            Platform::MacOs => &self.macos,
            Platform::Ios => &self.ios,
            Platform::Android => &self.android,
        }
    }

    /// Arranges the mappings of one operating system for lookup.
    pub fn bake(&self, platform: Platform) -> (baked: BakedGamepadMappings)
        ensures
            baked.spec_buttons() == button_table(self.spec_platform(platform)),
            baked.spec_axes() == axis_table(self.spec_platform(platform)),
            baked.spec_hats() == hat_table(self.spec_platform(platform)),
    {
        let devices = self.get_platform(platform);
        let ghost dm = devices@;
        let mut buttons: HashMap<u128, HashMap<u16, GamepadButton>> = HashMap::new();
        let mut axes: HashMap<u128, HashMap<u16, AxisMapping>> = HashMap::new();
        let mut hats: HashMap<u128, HashMap<u8, GamepadButton>> = HashMap::new();
        for (id, mappings) in it: devices.iter()
            invariant
                devices@ == dm,
                forall|i: int| 0 <= i < it.seq().len() ==> dm.contains_key(*(#[trigger] it.seq()[i]).0)
                    && dm[*it.seq()[i].0] == *it.seq()[i].1,
                forall|k: u128| #[trigger] dm.contains_key(k) ==> it.seq().contains((&k, &dm[k])),
                forall|k: u128|
                    #[trigger] dm.contains_key(k) ==> buttons@.contains_key(k) || exists|i: int|
                        it.index() <= i < it.seq().len() && *(#[trigger] it.seq()[i]).0 == k,
                forall|k: u128|
                    #[trigger] buttons@.contains_key(k) <==> exists|i: int|
                        0 <= i < it.index() && *(#[trigger] it.seq()[i]).0 == k,
                forall|k: u128| #[trigger] axes@.contains_key(k) <==> buttons@.contains_key(k),
                forall|k: u128| #[trigger] hats@.contains_key(k) <==> buttons@.contains_key(k),
                forall|k: u128|
                    #[trigger] buttons@.contains_key(k) ==> {
                        &&& dm.contains_key(k)
                        &&& buttons@[k]@ == dm[k].buttons@
                        &&& axes@[k]@ == dm[k].axes@
                        &&& hats@[k]@ == dm[k].hats@
                    },
        {
            let ghost before = buttons@;
            buttons.insert(*id, mappings.buttons.clone());
            axes.insert(*id, mappings.axes.clone());
            hats.insert(*id, mappings.hats.clone());
            proof {
                assert(it.seq()[it.index()] == (id, mappings));
                assert forall|k: u128| #[trigger] buttons@.contains_key(k) implies exists|i: int|
                    0 <= i < it.index() + 1 && *(#[trigger] it.seq()[i]).0 == k by {
                    if k != *id {
                        assert(before.contains_key(k));
                    } else {
                        assert(*it.seq()[it.index()].0 == k);
                    }
                }
            }
        }
        let baked = BakedGamepadMappings { buttons, axes, hats };
        proof {
            assert(baked.spec_buttons() =~= button_table(dm));
            assert(baked.spec_axes() =~= axis_table(dm));
            assert(baked.spec_hats() =~= hat_table(dm));
        }
        baked
    }
}

impl BakedGamepadMappings {
    /// Gamepad buttons by device GUID and button number.
    pub closed spec fn spec_buttons(&self) -> Map<(u128, u16), GamepadButton> {
        flatten(self.buttons@)
    }

    /// Gamepad axes by device GUID and axis number.
    pub closed spec fn spec_axes(&self) -> Map<(u128, u16), AxisMapping> {
        flatten(self.axes@)
    }

    /// Gamepad buttons by device GUID and hat key.
    pub closed spec fn spec_hats(&self) -> Map<(u128, u8), GamepadButton> {
        flatten(self.hats@)
    }

    /// The button that device button `index` drives: as mapped for the
    /// device's own GUID, else as mapped for its alternative GUID.
    pub fn get_button(&self, uuid: Guid, alternative_uuid: Guid, index: u16) -> (b: Option<GamepadButton>)
        ensures
            b == lookup(self.spec_buttons(), uuid.spec_u128(), alternative_uuid.spec_u128(), index),
    {
        let first = uuid.as_u128();
        let second = alternative_uuid.as_u128();
        if let Some(table) = self.buttons.get(&first) {
            if let Some(button) = table.get(&index) {
                return Some(*button);
            }
        }
        if let Some(table) = self.buttons.get(&second) {
            if let Some(button) = table.get(&index) {
                return Some(*button);
            }
        }
        None
    }

    /// The axis that device axis `index` drives: as mapped for the device's
    /// own GUID, else as mapped for its alternative GUID.
    pub fn get_axis(&self, uuid: Guid, alternative_uuid: Guid, index: u16) -> (a: Option<AxisMapping>)
        ensures
            a == lookup(self.spec_axes(), uuid.spec_u128(), alternative_uuid.spec_u128(), index),
    {
        let first = uuid.as_u128();
        let second = alternative_uuid.as_u128();
        if let Some(table) = self.axes.get(&first) {
            if let Some(axis) = table.get(&index) {
                return Some(*axis);
            }
        }
        if let Some(table) = self.axes.get(&second) {
            if let Some(axis) = table.get(&index) {
                return Some(*axis);
            }
        }
        None
    }

    /// The button that a hat direction drives: as mapped for the device's
    /// own GUID, else as mapped for its alternative GUID.
    pub fn get_hat(&self, uuid: Guid, alternative_uuid: Guid, descriptor: HatDescriptor) -> (b: Option<GamepadButton>)
        ensures
            b == lookup(self.spec_hats(), uuid.spec_u128(), alternative_uuid.spec_u128(), descriptor.spec_key()),
    {
        let first = uuid.as_u128();
        let second = alternative_uuid.as_u128();
        let key = descriptor.key();
        if let Some(table) = self.hats.get(&first) {
            if let Some(button) = table.get(&key) {
                return Some(*button);
            }
        }
        if let Some(table) = self.hats.get(&second) {
            if let Some(button) = table.get(&key) {
                return Some(*button);
            }
        }
        None
    }
}

} // verus!
