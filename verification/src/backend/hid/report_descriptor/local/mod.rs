use vstd::prelude::*;

use crate::backend::hid::report_descriptor;

use crate::backend::hid::report_descriptor::parse_unsigned;

verus! {

/// The local items of a HID report descriptor, by tag.
#[derive(Debug, Clone, Copy, PartialEq, Eq, Structural)]
pub enum ReportDescriptorCodeLocal {
    Usage(u32),
    UsageMinimum,
    UsageMaximum,
    DesignatorIndex,
    DesignatorMinimum,
    DesignatorMaximum,
    StringIndex,
    StringMinimum,
    StringMaximum,
    Delimiter,
    Reserved(u8),
}

impl ReportDescriptorCodeLocal {
    /// The local item with a given tag and data; a usage keeps its data as
    /// a little-endian number, tags above 9 are reserved.
    pub open spec fn spec_from_tag(tag: u8, bytes: Seq<u8>) -> ReportDescriptorCodeLocal {
        if tag == 0 {
            ReportDescriptorCodeLocal::Usage(report_descriptor::item_value(bytes) as u32)
        } else if tag == 1 {
            ReportDescriptorCodeLocal::UsageMinimum
        } else if tag == 2 {
            ReportDescriptorCodeLocal::UsageMaximum
        } else if tag == 3 {
            ReportDescriptorCodeLocal::DesignatorIndex
        } else if tag == 4 {
            ReportDescriptorCodeLocal::DesignatorMinimum
        } else if tag == 5 {
            ReportDescriptorCodeLocal::DesignatorMaximum
        } else if tag == 6 {
            ReportDescriptorCodeLocal::StringIndex
        } else if tag == 7 {
            ReportDescriptorCodeLocal::StringMinimum
        } else if tag == 8 {
            ReportDescriptorCodeLocal::StringMaximum
        } else if tag == 9 {
            ReportDescriptorCodeLocal::Delimiter
        } else {
            ReportDescriptorCodeLocal::Reserved(tag)
        }
    }

    pub fn from_tag(tag: u8, bytes: &[u8]) -> (code: Self)
        ensures
            code == Self::spec_from_tag(tag, bytes@),
    {
        match tag {
            0 => ReportDescriptorCodeLocal::Usage(parse_unsigned(bytes)),
            1 => ReportDescriptorCodeLocal::UsageMinimum,
            2 => ReportDescriptorCodeLocal::UsageMaximum,
            3 => ReportDescriptorCodeLocal::DesignatorIndex,
            4 => ReportDescriptorCodeLocal::DesignatorMinimum,
            5 => ReportDescriptorCodeLocal::DesignatorMaximum,
            6 => ReportDescriptorCodeLocal::StringIndex,
            7 => ReportDescriptorCodeLocal::StringMinimum,
            8 => ReportDescriptorCodeLocal::StringMaximum,
            9 => ReportDescriptorCodeLocal::Delimiter,
            _ => ReportDescriptorCodeLocal::Reserved(tag),
        }
    }
}

} // verus!
