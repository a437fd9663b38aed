use vstd::prelude::*;

use crate::backend::hid::report_descriptor;

use crate::backend::hid::report_descriptor::parse_unsigned;

verus! {

/// The kind of a collection item.
#[derive(Debug, Clone, Copy, PartialEq, Eq, Structural)]
pub enum Collection {
    Physical,
    Application,
    Logical,
    Report,
    NamedArray,
    UsageSwitch,
    UsageModifier,
    Reserved(u8),
    VendorDefined(u8),
}

impl Collection {
    /// Values 0 to 6 are the defined kinds, 7 to 0x7F reserved, 0x80 and up vendor-defined.
    pub open spec fn spec_from_raw(value: u8) -> Collection {
        if value == 0 {
            Collection::Physical
        } else if value == 1 {
            Collection::Application
        } else if value == 2 {
            Collection::Logical
        } else if value == 3 {
            Collection::Report
        } else if value == 4 {
            Collection::NamedArray
        } else if value == 5 {
            Collection::UsageSwitch
        } else if value == 6 {
            Collection::UsageModifier
        } else if value <= 0x7F {
            Collection::Reserved(value)
        } else {
            Collection::VendorDefined(value)
        }
    }

    fn from_raw(value: u8) -> (c: Self)
        ensures
            c == Self::spec_from_raw(value),
    {
        match value {
            0x00 => Collection::Physical,
            0x01 => Collection::Application,
            0x02 => Collection::Logical,
            0x03 => Collection::Report,
            0x04 => Collection::NamedArray,
            0x05 => Collection::UsageSwitch,
            0x06 => Collection::UsageModifier,
            0x07..=0x7F => Collection::Reserved(value),
            0x80..=0xFF => Collection::VendorDefined(value),
        }
    }

    /// Decodes the data of a collection item: only its lowest byte is read.
    pub fn from_bytes(bytes: &[u8]) -> (c: Self)
        ensures
            c == Self::spec_from_raw((report_descriptor::item_value(bytes@) % 256) as u8),
    {
        let value = parse_unsigned(bytes);
        Self::from_raw((value % 256) as u8)
    }
}


/// The collection kinds by value (HID 1.11, section 6.2.2.6): 0 Physical,
/// 1 Application, 2 Logical, 3 Report, 4 Named Array, 5 Usage Switch,
/// 6 Usage Modifier; 7 to 0x7F are reserved and 0x80 to 0xFF vendor-defined,
/// each keeping its value.
pub proof fn law_collection_kinds(value: u8)
    ensures
        ({
            let c = Collection::spec_from_raw(value);
            &&& value == 0 ==> c == Collection::Physical
            &&& value == 1 ==> c == Collection::Application
            &&& value == 2 ==> c == Collection::Logical
            &&& value == 3 ==> c == Collection::Report
            &&& value == 4 ==> c == Collection::NamedArray
            &&& value == 5 ==> c == Collection::UsageSwitch
            &&& value == 6 ==> c == Collection::UsageModifier
            &&& 7 <= value <= 0x7F ==> c == Collection::Reserved(value)
            &&& 0x80 <= value ==> c == Collection::VendorDefined(value)
        }),
{
}

} // verus!
