use pawpad::backend::hid::report_descriptor::global::unit::Unit;
use pawpad::backend::hid::report_descriptor::global::ReportDescriptorCodeGlobal;
use pawpad::backend::hid::report_descriptor::local::ReportDescriptorCodeLocal;
use pawpad::backend::hid::report_descriptor::main::collection::Collection;
use pawpad::backend::hid::report_descriptor::main::input_output::{
    ArrayKind, BufferKind, DataKind, InputOutput, LinearKind, NullKind, PositionKind, PreferredKind,
    VolatileKind, WrapKind,
};
use pawpad::backend::hid::report_descriptor::main::ReportDescriptorCodeMain;
use pawpad::backend::hid::report_descriptor::{
    parse_report_items, parse_unsigned, HidReportDescriptorParser, ReportDescriptorCode,
};

#[test]
fn parse_unsigned_little_endian() {
    assert_eq!(parse_unsigned(&[]), 0);
    assert_eq!(parse_unsigned(&[0x05]), 5);
    assert_eq!(parse_unsigned(&[0x34, 0x12]), 0x1234);
    assert_eq!(parse_unsigned(&[0x78, 0x56, 0x34, 0x12]), 0x12345678);
    assert_eq!(parse_unsigned(&[0xff, 0xff, 0xff, 0xff]), u32::MAX);
}

#[test]
fn global_tags() {
    assert_eq!(ReportDescriptorCodeGlobal::from_tag(0, &[1]), ReportDescriptorCodeGlobal::UsagePage);
    assert_eq!(ReportDescriptorCodeGlobal::from_tag(9, &[]), ReportDescriptorCodeGlobal::ReportCount);
    assert_eq!(ReportDescriptorCodeGlobal::from_tag(11, &[]), ReportDescriptorCodeGlobal::Pop);
    assert_eq!(ReportDescriptorCodeGlobal::from_tag(12, &[]), ReportDescriptorCodeGlobal::Reserved(12));
}

#[test]
fn local_tags() {
    assert_eq!(ReportDescriptorCodeLocal::from_tag(0, &[0x30, 0x01]), ReportDescriptorCodeLocal::Usage(0x130));
    assert_eq!(ReportDescriptorCodeLocal::from_tag(9, &[]), ReportDescriptorCodeLocal::Delimiter);
    assert_eq!(ReportDescriptorCodeLocal::from_tag(10, &[]), ReportDescriptorCodeLocal::Reserved(10));
}

#[test]
fn collection_kinds() {
    assert_eq!(Collection::from_bytes(&[0x00]), Collection::Physical);
    assert_eq!(Collection::from_bytes(&[0x01]), Collection::Application);
    assert_eq!(Collection::from_bytes(&[0x06]), Collection::UsageModifier);
    assert_eq!(Collection::from_bytes(&[0x07]), Collection::Reserved(7));
    assert_eq!(Collection::from_bytes(&[0x7f]), Collection::Reserved(0x7f));
    assert_eq!(Collection::from_bytes(&[0x80]), Collection::VendorDefined(0x80));
    assert_eq!(Collection::from_bytes(&[0x01, 0x02]), Collection::Application);
    assert_eq!(Collection::from_bytes(&[]), Collection::Physical);
}

#[test]
fn unit_kinds() {
    assert_eq!(Unit::from_bytes(&[0x11]), Some(Unit::Centimeter));
    assert_eq!(Unit::from_bytes(&[0x12]), Some(Unit::Radian));
    assert_eq!(Unit::from_bytes(&[0x14]), Some(Unit::Degree));
    assert_eq!(Unit::from_bytes(&[0x23]), Some(Unit::Slug));
    assert_eq!(Unit::from_bytes(&[0x31]), Some(Unit::Second));
    assert_eq!(Unit::from_bytes(&[0x43]), Some(Unit::Fahrenheit));
    assert_eq!(Unit::from_bytes(&[0x52]), Some(Unit::Ampere));
    assert_eq!(Unit::from_bytes(&[0x64]), Some(Unit::Candela));
    assert_eq!(Unit::from_bytes(&[0x15]), None);
    assert_eq!(Unit::from_bytes(&[0x71]), None);
    assert_eq!(Unit::from_bytes(&[0x10, 0x01]), None);
}

#[test]
fn input_output_flags() {
    let io = InputOutput::from_bytes(&[0x02]);
    assert_eq!(
        io,
        InputOutput {
            data_kind: DataKind::Data,
            array_kind: ArrayKind::Variable,
            position_kind: PositionKind::Absolute,
            wrap_kind: WrapKind::NoWrap,
            linear_kind: LinearKind::Linear,
            preferred_kind: PreferredKind::PreferredState,
            null_kind: NullKind::NoNull,
            volatile_kind: VolatileKind::NonVolatile,
            buffer_kind: BufferKind::BitField,
        }
    );
    let io = InputOutput::from_bytes(&[0xff, 0x01]);
    assert_eq!(
        io,
        InputOutput {
            data_kind: DataKind::Constant,
            array_kind: ArrayKind::Variable,
            position_kind: PositionKind::Relative,
            wrap_kind: WrapKind::Wrap,
            linear_kind: LinearKind::NonLinear,
            preferred_kind: PreferredKind::NoPreferred,
            null_kind: NullKind::NullState,
            volatile_kind: VolatileKind::Volatile,
            buffer_kind: BufferKind::BufferedBytes,
        }
    );
    assert_eq!(InputOutput::from_bytes(&[0x00, 0x02]), InputOutput::from_bytes(&[]));
}

#[test]
fn main_tags() {
    assert_eq!(ReportDescriptorCodeMain::from_tag(8, &[0x02]), ReportDescriptorCodeMain::Input(InputOutput::from_bytes(&[0x02])));
    assert_eq!(ReportDescriptorCodeMain::from_tag(9, &[0x03]), ReportDescriptorCodeMain::Output(InputOutput::from_bytes(&[0x03])));
    assert_eq!(ReportDescriptorCodeMain::from_tag(10, &[0x01]), ReportDescriptorCodeMain::Feature(InputOutput::from_bytes(&[0x01])));
    assert_eq!(ReportDescriptorCodeMain::from_tag(11, &[0x01]), ReportDescriptorCodeMain::Collection(Collection::Application));
    assert_eq!(ReportDescriptorCodeMain::from_tag(12, &[]), ReportDescriptorCodeMain::EndCollection);
    assert_eq!(ReportDescriptorCodeMain::from_tag(3, &[]), ReportDescriptorCodeMain::Reserved(3));
}

#[test]
fn parser_next() {
    let data = [1u8, 2];
    let mut p = HidReportDescriptorParser::new(&data);
    assert_eq!(p.next(), Some(1));
    assert_eq!(p.next(), Some(2));
    assert_eq!(p.next(), None);
    assert_eq!(p.next(), None);
}

#[test]
fn parse_items_of_a_gamepad_descriptor() {
    let data = [
        0x05, 0x01, // Usage Page (Generic Desktop)
        0x09, 0x05, // Usage (Game Pad)
        0xB1, 0x01, // main tag 11 (collection), data 1
        0x15, 0x00, // Logical Minimum (0)
        0x26, 0xFF, 0x00, // Logical Maximum (255), two data bytes
        0x0A, 0x30, 0x01, // Usage (0x130), two data bytes
        0x81, 0x02, // Input (Data, Variable, Absolute)
        0xC0, // End Collection
    ];
    let (items, rejected) = parse_report_items(&data);
    assert_eq!(rejected, None);
    assert_eq!(
        items,
        vec![
            ReportDescriptorCode::Global(ReportDescriptorCodeGlobal::UsagePage),
            ReportDescriptorCode::Local(ReportDescriptorCodeLocal::Usage(5)),
            ReportDescriptorCode::Main(ReportDescriptorCodeMain::Collection(Collection::Application)),
            ReportDescriptorCode::Global(ReportDescriptorCodeGlobal::LogicalMinimum),
            ReportDescriptorCode::Global(ReportDescriptorCodeGlobal::LogicalMaximum),
            ReportDescriptorCode::Local(ReportDescriptorCodeLocal::Usage(0x130)),
            ReportDescriptorCode::Main(ReportDescriptorCodeMain::Input(InputOutput::from_bytes(&[0x02]))),
            ReportDescriptorCode::Main(ReportDescriptorCodeMain::EndCollection),
        ]
    );
}

#[test]
fn parse_items_four_byte_data() {
    let (items, rejected) = parse_report_items(&[0x0B, 0x01, 0x00, 0x09, 0x00]);
    assert_eq!(rejected, None);
    assert_eq!(items, vec![ReportDescriptorCode::Local(ReportDescriptorCodeLocal::Usage(0x0009_0001))]);
}

#[test]
fn parse_items_long_items() {
    // Long item: 0xFE, size 2, tag 0x10, two data bytes; then a short item.
    let (items, rejected) = parse_report_items(&[0xFE, 0x02, 0x10, 0xAA, 0xBB, 0xC0]);
    assert_eq!(rejected, None);
    assert_eq!(
        items,
        vec![ReportDescriptorCode::Long, ReportDescriptorCode::Main(ReportDescriptorCodeMain::EndCollection)]
    );
    // 0xFF: four data bytes, the first a size of more data.
    let (items, rejected) = parse_report_items(&[0xFF, 0x01, 0x07, 0x00, 0x00, 0x55, 0xC0]);
    assert_eq!(rejected, None);
    assert_eq!(
        items,
        vec![ReportDescriptorCode::Long, ReportDescriptorCode::Main(ReportDescriptorCodeMain::EndCollection)]
    );
}

#[test]
fn parse_items_stops_at_truncated_item() {
    let (items, rejected) = parse_report_items(&[0x05, 0x01, 0x26, 0xFF]);
    assert_eq!(rejected, None);
    assert_eq!(items, vec![ReportDescriptorCode::Global(ReportDescriptorCodeGlobal::UsagePage)]);
    let (items, rejected) = parse_report_items(&[0xFE, 0x05, 0x00, 0x01]);
    assert_eq!(rejected, None);
    assert!(items.is_empty());
    let (items, rejected) = parse_report_items(&[]);
    assert_eq!(rejected, None);
    assert!(items.is_empty());
}

#[test]
fn parse_items_rejects_reserved_items() {
    // Short item of the reserved type with tag 1.
    let (items, rejected) = parse_report_items(&[0x05, 0x01, 0x1C, 0xC0]);
    assert_eq!(items, vec![ReportDescriptorCode::Global(ReportDescriptorCodeGlobal::UsagePage)]);
    assert_eq!(rejected, Some(0x1C));
    let (items, rejected) = parse_report_items(&[0xFC]);
    assert!(items.is_empty());
    assert_eq!(rejected, Some(0xFC));
    let (items, rejected) = parse_report_items(&[0xFD, 0x00]);
    assert!(items.is_empty());
    assert_eq!(rejected, Some(0xFD));
    // Too short to be rejected: the data is cut off first.
    let (items, rejected) = parse_report_items(&[0xFD]);
    assert!(items.is_empty());
    assert_eq!(rejected, None);
}

#[test]
fn single_item_parse() {
    let data = [0x09, 0x05, 0xC0];
    let mut p = HidReportDescriptorParser::new(&data);
    assert_eq!(ReportDescriptorCode::rejected_at(&p), None);
    assert_eq!(ReportDescriptorCode::parse(&mut p), Some(ReportDescriptorCode::Local(ReportDescriptorCodeLocal::Usage(5))));
    assert_eq!(ReportDescriptorCode::parse(&mut p), Some(ReportDescriptorCode::Main(ReportDescriptorCodeMain::EndCollection)));
    assert_eq!(ReportDescriptorCode::parse(&mut p), None);
}

#[test]
fn input_output_describe() {
    assert_eq!(
        InputOutput::from_bytes(&[0x02]).describe(),
        "(Data | Variable | Absolute | NoWrap | Linear | PreferredState | NoNull | NonVolatile | BitField)"
    );
    assert_eq!(
        InputOutput::from_bytes(&[0xff, 0x01]).describe(),
        "(Constant | Variable | Relative | Wrap | NonLinear | NoPreferred | NullState | Volatile | BufferedBytes)"
    );
    assert_eq!(DataKind::Constant.name(), "Constant");
    assert_eq!(BufferKind::BitField.name(), "BitField");
}
