use vstd::prelude::*;

use crate::backend::hid::report_descriptor;

use crate::backend::hid::report_descriptor::parse_unsigned;

verus! {

/// The base unit named by the low byte of a HID unit item.
#[derive(Debug, Clone, Copy, PartialEq, Eq, Structural)]
pub enum Unit {
    Centimeter,
    Radian,
    Inch,
    Degree,
    Gram,
    Slug,
    Second,
    Kelvin,
    Fahrenheit,
    Ampere,
    Candela,
}

impl Unit {
    /// The unit for a measurement kind (high nibble: 1 length, 2 mass, 3 time,
    /// 4 temperature, 5 current, 6 luminous intensity) in a unit system
    /// (low nibble: 1 SI linear, 2 SI rotation, 3 English linear, 4 English rotation).
    pub open spec fn spec_from_raw(value: u8) -> Option<Unit> {
        let system = value % 16;
        let kind = value / 16;
        if kind == 1 && system == 1 {
            Some(Unit::Centimeter)
        } else if kind == 1 && system == 2 {
            Some(Unit::Radian)
        } else if kind == 1 && system == 3 {
            Some(Unit::Inch)
        } else if kind == 1 && system == 4 {
            Some(Unit::Degree)
        } else if kind == 2 && (system == 1 || system == 2) {
            Some(Unit::Gram)
        } else if kind == 2 && (system == 3 || system == 4) {
            Some(Unit::Slug)
        } else if kind == 3 && 1 <= system <= 4 {
            Some(Unit::Second)
        } else if kind == 4 && (system == 1 || system == 2) {
            Some(Unit::Kelvin)
        } else if kind == 4 && (system == 3 || system == 4) {
            Some(Unit::Fahrenheit)
        } else if kind == 5 && 1 <= system <= 4 {
            Some(Unit::Ampere)
        } else if kind == 6 && 1 <= system <= 4 {
            Some(Unit::Candela)
        } else {
            None
        }
    }

    fn from_raw(value: u8) -> (unit: Option<Self>)
        ensures
            unit == Self::spec_from_raw(value),
    {
        let system_raw = value & 0x0F;
        let kind_raw = (value >> 4) & 0x0F;
        assert(system_raw == value % 16 && kind_raw == value / 16) by (bit_vector)
            requires
                system_raw == value & 0x0F,
                kind_raw == (value >> 4) & 0x0F,
        ;
        match (kind_raw, system_raw) {
            (1, 0x1) => Some(Unit::Centimeter),
            (1, 0x2) => Some(Unit::Radian),
            (1, 0x3) => Some(Unit::Inch),
            (1, 0x4) => Some(Unit::Degree),
            (2, 0x1) | (2, 0x2) => Some(Unit::Gram),
            (2, 0x3) | (2, 0x4) => Some(Unit::Slug),
            (3, 0x1) | (3, 0x2) | (3, 0x3) | (3, 0x4) => Some(Unit::Second),
            (4, 0x1) | (4, 0x2) => Some(Unit::Kelvin),
            (4, 0x3) | (4, 0x4) => Some(Unit::Fahrenheit),
            (5, 0x1) | (5, 0x2) | (5, 0x3) | (5, 0x4) => Some(Unit::Ampere),
            (6, 0x1) | (6, 0x2) | (6, 0x3) | (6, 0x4) => Some(Unit::Candela),
            _ => None,
        }
    }

    /// Decodes the data of a unit item: only its lowest byte is read.
    pub fn from_bytes(bytes: &[u8]) -> (unit: Option<Self>)
        ensures
            unit == Self::spec_from_raw((report_descriptor::item_value(bytes@) % 256) as u8),
    {
        let value = parse_unsigned(bytes);
        Self::from_raw((value % 256) as u8)
    }
}

} // verus!
