//! Per-model decoding of HID input reports.
use vstd::prelude::*;

use crate::backend::guid::Guid;
use crate::backend::hid::driver::{
    eightbitdo::EightBitDoDriver,
    unknown::UnknwonDriver,
};
use crate::gamepad::button::GamepadButton;
use crate::mapping::{AxisMapping, BakedGamepadMappings};

pub mod eightbitdo;
pub mod unknown;

verus! {

/// What a report says happened, before timestamps and ids are attached.
#[derive(Debug, Clone, Copy, PartialEq, Eq, Structural)]
pub enum HidEvent {
    /// A gamepad button is now pressed (`true`) or released.
    ButtonChanged(GamepadButton, bool),
    /// A device axis that drives a gamepad axis now reads this byte
    /// (0 to 255 across its range).
    AxisMoved(AxisMapping, u8),
}

/// The driver of a HID device.
#[derive(Debug)]
pub enum HidDriver {
    EightBitDo(EightBitDoDriver),
    Unknown(UnknwonDriver),
}

impl HidDriver {
    /// The 8BitDo driver for 8BitDo devices, else the driver that ignores the device.
    pub fn from(vendor: u16, product: u16) -> (d: Self)
        ensures
            vendor == EightBitDoDriver::VENDOR ==> (d matches HidDriver::EightBitDo(e) && {
                &&& e.spec_model() == eightbitdo::spec_product(product)
                &&& e.spec_last_button() == 0
                &&& e.spec_last_hat() == 0
                &&& e.spec_last_axes() == seq![127u8, 127u8, 127u8, 127u8, 0u8, 0u8]
            }),
            vendor != EightBitDoDriver::VENDOR ==> (d matches HidDriver::Unknown(u) && {
                &&& u.spec_vendor() == vendor
                &&& u.spec_product() == product
            }),
    {
        if let Some(driver) = EightBitDoDriver::from(vendor, product) {
            return HidDriver::EightBitDo(driver);
        }
        HidDriver::Unknown(UnknwonDriver::new(vendor, product))
    }

    /// Whether a report is long enough for this driver to read.
    pub open spec fn accepts(&self, packet: Seq<u8>) -> bool {
        match self {
            HidDriver::EightBitDo(_) => packet.len() >= 10,
            HidDriver::Unknown(_) => true,
        }
    }

    /// Hands a report to the device's driver.
    pub fn handle_state(
        &mut self,
        packet: &[u8],
        uuid: Guid,
        alternative_uuid: Guid,
        events: &mut Vec<HidEvent>,
        mappings: &BakedGamepadMappings,
    )
        requires
            old(self).accepts(packet@),
        ensures
            match (*old(self), *final(self)) {
                (HidDriver::EightBitDo(before), HidDriver::EightBitDo(after)) => {
                    &&& after.spec_model() == before.spec_model()
                    &&& after.spec_last_hat() == eightbitdo::spec_report_hat(packet@[1])
                    &&& after.spec_last_axes() == packet@.subrange(2, 8)
                    &&& after.spec_last_button() == eightbitdo::spec_button_mask(packet@)
                    &&& final(events)@ == old(events)@ + eightbitdo::spec_hat_events(
                        *mappings,
                        uuid,
                        alternative_uuid,
                        before.spec_last_hat(),
                        eightbitdo::spec_report_hat(packet@[1]),
                    ) + eightbitdo::spec_axis_events(
                        *mappings,
                        uuid,
                        alternative_uuid,
                        before.spec_last_axes(),
                        packet@,
                        6,
                    ) + eightbitdo::spec_button_events(
                        *mappings,
                        uuid,
                        alternative_uuid,
                        before.spec_last_button(),
                        eightbitdo::spec_button_mask(packet@),
                        32,
                    )
                },
                (HidDriver::Unknown(before), HidDriver::Unknown(after)) => {
                    &&& after == before
                    &&& final(events)@ == old(events)@
                },
                _ => false,
            },
    {
        match self {
            HidDriver::EightBitDo(driver) => driver.handle_state(
                packet,
                uuid,
                alternative_uuid,
                events,
                mappings,
            ),
            HidDriver::Unknown(driver) => driver.handle_state(
                packet,
                uuid,
                alternative_uuid,
                events,
                mappings,
            ),
        }
    }
}

} // verus!
