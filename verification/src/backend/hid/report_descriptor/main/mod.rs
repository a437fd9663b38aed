use vstd::prelude::*;

use crate::backend::hid::report_descriptor;

use crate::backend::hid::report_descriptor::main::{
    collection::Collection,
    input_output::InputOutput,
};


pub mod collection;
pub mod input_output;

verus! {

/// The main items of a HID report descriptor, by tag.
#[derive(Debug, Clone, Copy, PartialEq, Eq, Structural)]
pub enum ReportDescriptorCodeMain {
    Input(InputOutput),
    Output(InputOutput),
    Feature(InputOutput),
    Collection(Collection),
    EndCollection,
    Reserved(u8),
}

impl ReportDescriptorCodeMain {
    /// The main item with a given tag and data: tags 8 to 12 are input,
    /// output, feature, collection and end of collection; the rest are reserved.
    pub open spec fn spec_from_tag(tag: u8, bytes: Seq<u8>) -> ReportDescriptorCodeMain {
        if tag == 8 {
            ReportDescriptorCodeMain::Input(InputOutput::spec_from_u16((report_descriptor::item_value(bytes) % 65536) as u16))
        } else if tag == 9 {
            ReportDescriptorCodeMain::Output(InputOutput::spec_from_u16((report_descriptor::item_value(bytes) % 65536) as u16))
        } else if tag == 10 {
            ReportDescriptorCodeMain::Feature(InputOutput::spec_from_u16((report_descriptor::item_value(bytes) % 65536) as u16))
        } else if tag == 11 {
            ReportDescriptorCodeMain::Collection(Collection::spec_from_raw((report_descriptor::item_value(bytes) % 256) as u8))
        } else if tag == 12 {
            ReportDescriptorCodeMain::EndCollection
        } else {
            ReportDescriptorCodeMain::Reserved(tag)
        }
    }

    pub fn from_tag(tag: u8, bytes: &[u8]) -> (code: Self)
        ensures
            code == Self::spec_from_tag(tag, bytes@),
    {
        match tag {
            8 => ReportDescriptorCodeMain::Input(InputOutput::from_bytes(bytes)),
            9 => ReportDescriptorCodeMain::Output(InputOutput::from_bytes(bytes)),
            10 => ReportDescriptorCodeMain::Feature(InputOutput::from_bytes(bytes)),
            11 => ReportDescriptorCodeMain::Collection(Collection::from_bytes(bytes)),
            12 => ReportDescriptorCodeMain::EndCollection,
            _ => ReportDescriptorCodeMain::Reserved(tag),
        }
    }
}

} // verus!
