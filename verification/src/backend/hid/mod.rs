//! Devices that speak HID.
use vstd::prelude::*;

use crate::backend::guid::{self, alternative_guid, get_guid, Guid};

pub mod driver;
pub mod report_descriptor;

verus! {

/// HID usage page of generic desktop controls.
pub const USAGE_PAGE_GENERIC_DESKTOP: u16 = 1;
/// HID usage of a joystick, on the generic desktop page.
pub const USAGE_JOYSTICK: u16 = 4;
/// HID usage of a gamepad, on the generic desktop page.
pub const USAGE_GAMEPAD: u16 = 5;

/// Whether a HID interface with this top-level usage is a gamepad or joystick.
pub fn is_gamepad_usage(usage_page: u16, usage: u16) -> (r: bool)
    ensures
        r == (usage_page == USAGE_PAGE_GENERIC_DESKTOP && (usage == USAGE_GAMEPAD || usage
            == USAGE_JOYSTICK)),
{
    usage_page == USAGE_PAGE_GENERIC_DESKTOP && (usage == USAGE_GAMEPAD || usage == USAGE_JOYSTICK)
}

/// The bus a HID device is attached by.
#[derive(Debug, Clone, Copy, PartialEq, Eq, Structural)]
pub enum HidBus {
    Unknown,
    Usb,
    Bluetooth,
    I2c,
    Spi,
}

impl HidBus {
    /// The Linux bus number of a bus, as device GUIDs hold it.
    pub open spec fn spec_code(self) -> u16 {
        match self {
            HidBus::Unknown => 0x00,
            HidBus::Usb => 0x03,
            HidBus::Bluetooth => 0x05,
            HidBus::I2c => 0x18,
            HidBus::Spi => 0x1c,
        }
    }

    pub fn code(self) -> (c: u16)
        ensures
            c == self.spec_code(),
    {
        match self {
            HidBus::Unknown => 0x00,
            HidBus::Usb => 0x03,
            HidBus::Bluetooth => 0x05,
            HidBus::I2c => 0x18,
            HidBus::Spi => 0x1c,
        }
    }
}

/// The driver signature that GUIDs of HID devices carry (`h`).
pub const HID_DRIVER_SIGNATURE: u8 = 104;

/// The GUID of a HID device and its alternative, from what the device
/// reports of itself.
pub fn hid_device_guids(
    bus: HidBus,
    vendor: u16,
    product: u16,
    release: u16,
    manufacturer: Option<&str>,
    product_name: Option<&str>,
) -> (ids: (Guid, Guid))
    ensures
        ids.0.bytes@ == guid::spec_guid(
            bus.spec_code(),
            vendor,
            product,
            release,
            guid::name_bytes(manufacturer),
            guid::name_bytes(product_name),
            HID_DRIVER_SIGNATURE,
            0,
        ),
        ids.1.bytes@ == guid::spec_alternative(ids.0.bytes@),
{
    let uuid = get_guid(
        bus.code(),
        vendor,
        product,
        release,
        manufacturer,
        product_name,
        HID_DRIVER_SIGNATURE,
        0,
    );
    let alternative = alternative_guid(uuid);
    (uuid, alternative)
}

} // verus!
