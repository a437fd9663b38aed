use vstd::prelude::*;

pub mod unit;

verus! {

/// The global items of a HID report descriptor, by tag.
#[derive(Debug, Clone, Copy, PartialEq, Eq, Structural)]
pub enum ReportDescriptorCodeGlobal {
    UsagePage,
    LogicalMinimum,
    LogicalMaximum,
    PhysicalMinimum,
    PhysicalMaximum,
    UnitExponent,
    Unit,
    ReportSize,
    ReportId,
    ReportCount,
    Push,
    Pop,
    Reserved(u8),
}

impl ReportDescriptorCodeGlobal {
    /// The global item with a given tag; tags above 11 are reserved.
    pub open spec fn spec_from_tag(tag: u8) -> ReportDescriptorCodeGlobal {
        if tag == 0 {
            ReportDescriptorCodeGlobal::UsagePage
        } else if tag == 1 {
            ReportDescriptorCodeGlobal::LogicalMinimum
        } else if tag == 2 {
            ReportDescriptorCodeGlobal::LogicalMaximum
        } else if tag == 3 {
            ReportDescriptorCodeGlobal::PhysicalMinimum
        } else if tag == 4 {
            ReportDescriptorCodeGlobal::PhysicalMaximum
        } else if tag == 5 {
            ReportDescriptorCodeGlobal::UnitExponent
        } else if tag == 6 {
            ReportDescriptorCodeGlobal::Unit
        } else if tag == 7 {
            ReportDescriptorCodeGlobal::ReportSize
        } else if tag == 8 {
            ReportDescriptorCodeGlobal::ReportId
        } else if tag == 9 {
            ReportDescriptorCodeGlobal::ReportCount
        } else if tag == 10 {
            ReportDescriptorCodeGlobal::Push
        } else if tag == 11 {
            ReportDescriptorCodeGlobal::Pop
        } else {
            ReportDescriptorCodeGlobal::Reserved(tag)
        }
    }

    /// Decodes a global item; its data bytes carry no information this decoder keeps.
    pub fn from_tag(tag: u8, bytes: &[u8]) -> (code: Self)
        ensures
            code == Self::spec_from_tag(tag),
    {
        match tag {
            0 => ReportDescriptorCodeGlobal::UsagePage,
            1 => ReportDescriptorCodeGlobal::LogicalMinimum,
            2 => ReportDescriptorCodeGlobal::LogicalMaximum,
            3 => ReportDescriptorCodeGlobal::PhysicalMinimum,
            4 => ReportDescriptorCodeGlobal::PhysicalMaximum,
            5 => ReportDescriptorCodeGlobal::UnitExponent,
            6 => ReportDescriptorCodeGlobal::Unit,
            7 => ReportDescriptorCodeGlobal::ReportSize,
            8 => ReportDescriptorCodeGlobal::ReportId,
            9 => ReportDescriptorCodeGlobal::ReportCount,
            10 => ReportDescriptorCodeGlobal::Push,
            11 => ReportDescriptorCodeGlobal::Pop,
            _ => ReportDescriptorCodeGlobal::Reserved(tag),
        }
    }
}

} // verus!
