//! Devices without a driver of their own.
use vstd::prelude::*;

use crate::backend::guid::Guid;
use crate::backend::hid::driver::HidEvent;
use crate::mapping::BakedGamepadMappings;

verus! {

/// A device that no driver knows: its reports are ignored.
#[derive(Debug)]
pub struct UnknwonDriver {
    vendor: u16,
    product: u16,
}

impl UnknwonDriver {
    pub closed spec fn spec_vendor(&self) -> u16 {
        self.vendor
    }

    pub closed spec fn spec_product(&self) -> u16 {
        self.product
    }

    pub fn new(vendor: u16, product: u16) -> (d: Self)
        ensures
            d.spec_vendor() == vendor,
            d.spec_product() == product,
    {
        UnknwonDriver { vendor, product }
    }

    /// Reports of unknown devices give no events.
    pub fn handle_state(
        &self,
        state: &[u8],
        uuid: Guid,
        alternative_uuid: Guid,
        events: &mut Vec<HidEvent>,
        mappings: &BakedGamepadMappings,
    )
        ensures
            final(events)@ == old(events)@,
    {
    }
}

} // verus!
