//! Decoding of HID report descriptors (HID 1.11, section 6.2.2).
use vstd::prelude::*;


use crate::backend::hid::report_descriptor::{
    global::ReportDescriptorCodeGlobal,
    local::ReportDescriptorCodeLocal,
    main::ReportDescriptorCodeMain,
};

pub mod global;
pub mod local;
pub mod main;

verus! {

/// A HID report descriptor of a device.
pub struct HidReportDescriptor {}

/// A cursor over the bytes of a report descriptor.
pub struct HidReportDescriptorParser<'a> {
    data: &'a [u8],
    index: usize,
}

/// One item of a report descriptor.
#[derive(Debug, Clone, Copy, PartialEq, Eq, Structural)]
pub enum ReportDescriptorCode {
    Main(ReportDescriptorCodeMain),
    Global(ReportDescriptorCodeGlobal),
    Local(ReportDescriptorCodeLocal),
    Long,
}

/// The number that item data stands for: its first four bytes (all of
/// them, where there are fewer), least significant first.
pub open spec fn item_value(bytes: Seq<u8>) -> nat {
    if bytes.len() <= 4 {
        crate::bytes::le_value(bytes)
    } else {
        crate::bytes::le_value(bytes.take(4))
    }
}

/// Reads item data as an unsigned little-endian number.
pub fn parse_unsigned(bytes: &[u8]) -> (value: u32)
    ensures
        value == item_value(bytes@),
{
    let len = if bytes.len() <= 4 {
        bytes.len()
    } else {
        4
    };
    let ghost data = bytes@.take(len as int);
    let mut value: u32 = 0;
    let mut i: usize = len;
    proof {
        assert(data.subrange(len as int, len as int) =~= Seq::<u8>::empty());
        reveal_with_fuel(crate::bytes::pow256, 5);
    }
    while i > 0
        invariant
            len == data.len(),
            len <= 4,
            len <= bytes@.len(),
            data == bytes@.take(len as int),
            i <= len,
            value == crate::bytes::le_value(data.subrange(i as int, len as int)),
            crate::bytes::pow256(4) == 4294967296,
        decreases i,
    {
        let ghost tail = data.subrange(i as int, len as int);
        proof {
            crate::bytes::lemma_le_value_bound(tail);
            assert(crate::bytes::pow256((len - i + 1) as nat) == 256 * crate::bytes::pow256((len - i) as nat));
            assert(crate::bytes::pow256((len - i + 1) as nat) <= crate::bytes::pow256(4)) by {
                reveal_with_fuel(crate::bytes::pow256, 5);
            }
        }
        i = i - 1;
        value = bytes[i] as u32 + 256 * value;
        proof {
            assert(data.subrange(i as int, len as int).drop_first() =~= tail);
        }
    }
    proof {
        assert(data.subrange(0, len as int) =~= data);
        if bytes@.len() <= 4 {
            assert(data =~= bytes@);
        }
    }
    value
}

/// How many data bytes follow the first byte of a short item.
pub open spec fn short_data_len(first: u8) -> nat {
    let code = first & 3;
    if code == 0 {
        0
    } else if code == 1 {
        1
    } else if code == 2 {
        2
    } else {
        4
    }
}

/// The type field of a short item's first byte: 0 main, 1 global, 2 local, 3 reserved.
pub open spec fn item_type(first: u8) -> u8 {
    (first >> 2) & 3
}

/// The tag field of a short item's first byte.
pub open spec fn item_tag(first: u8) -> u8 {
    (first >> 4) & 15
}

/// Whether the item at the start of `s` is one that the descriptor format
/// does not allow here: a short item of the reserved type whose tag is not
/// 15, or the reserved first bytes 0xFC and 0xFD, which carry too few bytes
/// to announce a long item. Only items whose data is present count.
pub open spec fn spec_rejected(s: Seq<u8>) -> bool {
    &&& s.len() >= 1
    &&& s[0] != 0xFE
    &&& item_type(s[0]) == 3
    &&& s.len() >= 1 + short_data_len(s[0])
    &&& (item_tag(s[0]) != 15 || short_data_len(s[0]) < 2)
}

/// The item at the start of `s` and the number of bytes it takes, or `None`
/// where `s` ends before the item does.
///
/// The first byte 0xFE starts a long item: a size byte, a tag byte and that
/// many data bytes follow. Any other first byte starts a short item whose
/// low two bits give 0, 1, 2 or 4 data bytes; of the reserved type only
/// 0xFF is allowed, whose first data byte again gives the size of long data
/// that follows the four.
pub open spec fn spec_item(s: Seq<u8>) -> Option<(ReportDescriptorCode, nat)> {
    if s.len() == 0 {
        None
    } else if s[0] == 0xFE {
        if s.len() < 3 || s.len() < 3 + s[1] {
            None
        } else {
            Some((ReportDescriptorCode::Long, (3 + s[1]) as nat))
        }
    } else {
        let n = short_data_len(s[0]);
        if s.len() < 1 + n {
            None
        } else {
            let data = s.subrange(1, 1 + n as int);
            let tag = item_tag(s[0]);
            let t = item_type(s[0]);
            if t == 0 {
                Some((ReportDescriptorCode::Main(ReportDescriptorCodeMain::spec_from_tag(tag, data)), 1 + n))
            } else if t == 1 {
                Some((ReportDescriptorCode::Global(ReportDescriptorCodeGlobal::spec_from_tag(tag)), 1 + n))
            } else if t == 2 {
                Some((ReportDescriptorCode::Local(ReportDescriptorCodeLocal::spec_from_tag(tag, data)), 1 + n))
            } else if s.len() < 5 + s[1] {
                None
            } else {
                Some((ReportDescriptorCode::Long, (5 + s[1]) as nat))
            }
        }
    }
}

/// An item that is read takes at least one byte and no more bytes than are left.
pub proof fn lemma_item_len(s: Seq<u8>)
    ensures
        spec_item(s) matches Some((_, n)) ==> 1 <= n <= s.len(),
{
}

/// The items that a descriptor's bytes hold, read one after another until
/// the bytes run out or a rejected item comes; in that case the second
/// component is the rejected item's first byte.
pub open spec fn spec_parse_items(s: Seq<u8>) -> (Seq<ReportDescriptorCode>, Option<u8>)
    decreases s.len(),
{
    if spec_rejected(s) {
        (Seq::empty(), Some(s[0]))
    } else {
        match spec_item(s) {
            None => (Seq::empty(), None),
            Some((code, n)) => {
                proof {
                    lemma_item_len(s);
                }
                let rest = spec_parse_items(s.skip(n as int));
                (seq![code] + rest.0, rest.1)
            },
        }
    }
}

impl<'a> HidReportDescriptorParser<'a> {
    /// The bytes being read.
    pub closed spec fn spec_data(&self) -> Seq<u8> {
        self.data@
    }

    /// How many bytes have been read.
    pub closed spec fn spec_index(&self) -> int {
        self.index as int
    }

    /// The bytes not yet read.
    pub open spec fn remaining(&self) -> Seq<u8> {
        self.spec_data().skip(self.spec_index())
    }

    pub open spec fn wf(&self) -> bool {
        0 <= self.spec_index() <= self.spec_data().len()
    }

    pub fn new(data: &'a [u8]) -> (p: Self)
        ensures
            p.wf(),
            p.spec_data() == data@,
            p.spec_index() == 0,
    {
        HidReportDescriptorParser { data, index: 0 }
    }

    /// The next byte, if any is left.
    pub fn next(&mut self) -> (b: Option<u8>)
        requires
            old(self).wf(),
        ensures
            final(self).wf(),
            final(self).spec_data() == old(self).spec_data(),
            old(self).spec_index() < old(self).spec_data().len() ==> {
                &&& b == Some(old(self).spec_data()[old(self).spec_index()])
                &&& final(self).spec_index() == old(self).spec_index() + 1
            },
            old(self).spec_index() >= old(self).spec_data().len() ==> {
                &&& b is None
                &&& final(self).spec_index() == old(self).spec_index()
            },
    {
        if self.index < self.data.len() {
            let value = self.data[self.index];
            self.index = self.index + 1;
            Some(value)
        } else {
            None
        }
    }

    /// Reads `count` bytes and forgets them; `false` where the bytes ran out.
    fn skip_bytes(&mut self, count: usize) -> (complete: bool)
        requires
            old(self).wf(),
        ensures
            final(self).wf(),
            final(self).spec_data() == old(self).spec_data(),
            complete == (old(self).spec_index() + count <= old(self).spec_data().len()),
            complete ==> final(self).spec_index() == old(self).spec_index() + count,
            !complete ==> final(self).spec_index() == old(self).spec_data().len(),
    {
        let mut i: usize = 0;
        while i < count
            invariant
                self.wf(),
                self.spec_data() == old(self).spec_data(),
                i <= count,
                self.spec_index() == old(self).spec_index() + i,
            decreases count - i,
        {
            match self.next() {
                Some(_) => {},
                None => {
                    return false;
                },
            }
            i = i + 1;
        }
        true
    }
}

impl ReportDescriptorCode {
    /// The first byte of the item under the cursor, where that item is rejected.
    pub fn rejected_at(reader: &HidReportDescriptorParser) -> (r: Option<u8>)
        requires
            reader.wf(),
        ensures
            r is Some <==> spec_rejected(reader.remaining()),
            r matches Some(b) ==> b == reader.remaining()[0],
    {
        if reader.index >= reader.data.len() {
            return None;
        }
        let first = reader.data[reader.index];
        let left = reader.data.len() - reader.index;
        let size_code = first & 0b11;
        let item_type = (first >> 2) & 0b11;
        let tag = (first >> 4) & 0b1111;
        let size: usize = if size_code == 0 {
            0
        } else if size_code == 1 {
            1
        } else if size_code == 2 {
            2
        } else {
            4
        };
        if first != 0xFE && item_type == 3 && left >= 1 + size && (tag != 0xF || size < 2) {
            Some(first)
        } else {
            None
        }
    }

    /// Reads the item under the cursor.
    pub fn parse(reader: &mut HidReportDescriptorParser) -> (r: Option<Self>)
        requires
            old(reader).wf(),
            !spec_rejected(old(reader).remaining()),
        ensures
            final(reader).wf(),
            final(reader).spec_data() == old(reader).spec_data(),
            match spec_item(old(reader).remaining()) {
                Some((code, n)) => r == Some(code) && final(reader).spec_index()
                    == old(reader).spec_index() + n,
                None => r is None && final(reader).spec_index() == final(reader).spec_data().len(),
            },
    {
        let ghost s = old(reader).remaining();
        let ghost start = old(reader).spec_index();
        let first_byte = match reader.next() {
            Some(b) => b,
            None => {
                return None;
            },
        };
        assert(s[0] == first_byte);
        if first_byte == 0xFE {
            let size = match reader.next() {
                Some(b) => b,
                None => {
                    return None;
                },
            };
            let _tag = match reader.next() {
                Some(b) => b,
                None => {
                    return None;
                },
            };
            assert(s[1] == size);
            if !reader.skip_bytes(size as usize) {
                return None;
            }
            return Some(ReportDescriptorCode::Long);
        }
        let size_code = first_byte & 0b11;
        let item_type = (first_byte >> 2) & 0b11;
        let tag = (first_byte >> 4) & 0b1111;
        assert(size_code <= 3 && item_type <= 3) by (bit_vector)
            requires
                size_code == first_byte & 0b11,
                item_type == (first_byte >> 2) & 0b11,
        ;
        let size: usize = if size_code == 0 {
            0
        } else if size_code == 1 {
            1
        } else if size_code == 2 {
            2
        } else {
            4
        };
        let mut bytes: Vec<u8> = Vec::new();
        let mut i: usize = 0;
        while i < size
            invariant
                reader.wf(),
                reader.spec_data() == old(reader).spec_data(),
                s == old(reader).remaining(),
                start == old(reader).spec_index(),
                i <= size,
                size == short_data_len(first_byte),
                first_byte != 0xFE,
                s.len() >= 1,
                s[0] == first_byte,
                s.len() == reader.spec_data().len() - start,
                reader.spec_index() == start + 1 + i,
                bytes@ == s.subrange(1, 1 + i as int),
            decreases size - i,
        {
            match reader.next() {
                Some(b) => {
                    bytes.push(b);
                },
                None => {
                    return None;
                },
            }
            i = i + 1;
            assert(bytes@ =~= s.subrange(1, 1 + i as int));
        }
        let data = bytes.as_slice();
        if item_type == 0 {
            Some(ReportDescriptorCode::Main(ReportDescriptorCodeMain::from_tag(tag, data)))
        } else if item_type == 1 {
            Some(ReportDescriptorCode::Global(ReportDescriptorCodeGlobal::from_tag(tag, data)))
        } else if item_type == 2 {
            Some(ReportDescriptorCode::Local(ReportDescriptorCodeLocal::from_tag(tag, data)))
        } else {
            assert(size_code == 2 && item_type == 3 && tag == 15 ==> first_byte == 0xFE) by (bit_vector)
                requires
                    size_code == first_byte & 0b11,
                    item_type == (first_byte >> 2) & 0b11,
                    tag == (first_byte >> 4) & 0b1111,
            ;
            assert(size == 4);
            let long_size = bytes[0];
            if !reader.skip_bytes(long_size as usize) {
                return None;
            }
            Some(ReportDescriptorCode::Long)
        }
    }
}

/// Whether `s` starts with the item `code`, made of the first byte and its
/// short data, and the items after it are those of the remaining bytes.
pub open spec fn starts_with_item(s: Seq<u8>, code: ReportDescriptorCode) -> bool {
    let n = 1 + short_data_len(s[0]);
    &&& spec_item(s) == Some((code, n))
    &&& spec_parse_items(s).0 == seq![code] + spec_parse_items(s.skip(n as int)).0
    &&& spec_parse_items(s).1 == spec_parse_items(s.skip(n as int)).1
}

/// A first byte whose bits 2 and 3 hold `t` and whose high nibble is `k`
/// starts a short item of type `t` with tag `k`.
proof fn lemma_short_first_byte(b: u8, t: u8, k: u8)
    requires
        t <= 2,
        k <= 15,
        4 * t + 16 * k <= b <= 4 * t + 3 + 16 * k,
    ensures
        item_type(b) == t,
        item_tag(b) == k,
        b != 0xFE,
{
    let lo: u8 = (4 * t + 16 * k) as u8;
    let hi: u8 = (4 * t + 3 + 16 * k) as u8;
    assert(((b >> 2) & 3) == t && ((b >> 4) & 15) == k) by (bit_vector)
        requires
            t <= 2u8,
            k <= 15u8,
            lo == 4u8 * t + 16u8 * k,
            hi == 4u8 * t + 3u8 + 16u8 * k,
            lo <= b,
            b <= hi,
    ;
}

/// The global short items, by first byte (HID 1.11, section 6.2.2.7): the
/// high nibble is the tag, so 0x04..0x07 is Usage Page, 0x14..0x17 Logical
/// Minimum, 0x24..0x27 Logical Maximum, 0x34..0x37 Physical Minimum,
/// 0x44..0x47 Physical Maximum, 0x54..0x57 Unit Exponent, 0x64..0x67 Unit,
/// 0x74..0x77 Report Size, 0x84..0x87 Report ID, 0x94..0x97 Report Count,
/// 0xA4..0xA7 Push and 0xB4..0xB7 Pop. Each such item, with its data
/// present, is read as that global item and reading goes on after its data.
pub proof fn law_global_items(s: Seq<u8>)
    requires
        s.len() >= 1,
        s.len() >= 1 + short_data_len(s[0]),
    ensures
        0x04 <= s[0] <= 0x07 ==> starts_with_item(s, ReportDescriptorCode::Global(ReportDescriptorCodeGlobal::UsagePage)),
        0x14 <= s[0] <= 0x17 ==> starts_with_item(s, ReportDescriptorCode::Global(ReportDescriptorCodeGlobal::LogicalMinimum)),
        0x24 <= s[0] <= 0x27 ==> starts_with_item(s, ReportDescriptorCode::Global(ReportDescriptorCodeGlobal::LogicalMaximum)),
        0x34 <= s[0] <= 0x37 ==> starts_with_item(s, ReportDescriptorCode::Global(ReportDescriptorCodeGlobal::PhysicalMinimum)),
        0x44 <= s[0] <= 0x47 ==> starts_with_item(s, ReportDescriptorCode::Global(ReportDescriptorCodeGlobal::PhysicalMaximum)),
        0x54 <= s[0] <= 0x57 ==> starts_with_item(s, ReportDescriptorCode::Global(ReportDescriptorCodeGlobal::UnitExponent)),
        0x64 <= s[0] <= 0x67 ==> starts_with_item(s, ReportDescriptorCode::Global(ReportDescriptorCodeGlobal::Unit)),
        0x74 <= s[0] <= 0x77 ==> starts_with_item(s, ReportDescriptorCode::Global(ReportDescriptorCodeGlobal::ReportSize)),
        0x84 <= s[0] <= 0x87 ==> starts_with_item(s, ReportDescriptorCode::Global(ReportDescriptorCodeGlobal::ReportId)),
        0x94 <= s[0] <= 0x97 ==> starts_with_item(s, ReportDescriptorCode::Global(ReportDescriptorCodeGlobal::ReportCount)),
        0xA4 <= s[0] <= 0xA7 ==> starts_with_item(s, ReportDescriptorCode::Global(ReportDescriptorCodeGlobal::Push)),
        0xB4 <= s[0] <= 0xB7 ==> starts_with_item(s, ReportDescriptorCode::Global(ReportDescriptorCodeGlobal::Pop)),
{
    if 0x04 <= s[0] <= 0x07 {
        lemma_short_first_byte(s[0], 1, 0);
    }
    if 0x14 <= s[0] <= 0x17 {
        lemma_short_first_byte(s[0], 1, 1);
    }
    if 0x24 <= s[0] <= 0x27 {
        lemma_short_first_byte(s[0], 1, 2);
    }
    if 0x34 <= s[0] <= 0x37 {
        lemma_short_first_byte(s[0], 1, 3);
    }
    if 0x44 <= s[0] <= 0x47 {
        lemma_short_first_byte(s[0], 1, 4);
    }
    if 0x54 <= s[0] <= 0x57 {
        lemma_short_first_byte(s[0], 1, 5);
    }
    if 0x64 <= s[0] <= 0x67 {
        lemma_short_first_byte(s[0], 1, 6);
    }
    if 0x74 <= s[0] <= 0x77 {
        lemma_short_first_byte(s[0], 1, 7);
    }
    if 0x84 <= s[0] <= 0x87 {
        lemma_short_first_byte(s[0], 1, 8);
    }
    if 0x94 <= s[0] <= 0x97 {
        lemma_short_first_byte(s[0], 1, 9);
    }
    if 0xA4 <= s[0] <= 0xA7 {
        lemma_short_first_byte(s[0], 1, 10);
    }
    if 0xB4 <= s[0] <= 0xB7 {
        lemma_short_first_byte(s[0], 1, 11);
    }
}

/// The local short items, by first byte: 0x08..0x0B is a Usage, whose data
/// is the usage number, then by tag in the high nibble Usage Minimum, Usage
/// Maximum, Designator Index, Designator Minimum, Designator Maximum, String
/// Index, String Minimum, String Maximum and Delimiter (0x98..0x9B). Each
/// such item, with its data present, is read as that local item and reading
/// goes on after its data.
pub proof fn law_local_items(s: Seq<u8>)
    requires
        s.len() >= 1,
        s.len() >= 1 + short_data_len(s[0]),
    ensures
        ({
            let data = s.subrange(1, 1 + short_data_len(s[0]) as int);
            &&& 0x08 <= s[0] <= 0x0B ==> starts_with_item(s, ReportDescriptorCode::Local(ReportDescriptorCodeLocal::Usage(item_value(data) as u32)))
            &&& 0x18 <= s[0] <= 0x1B ==> starts_with_item(s, ReportDescriptorCode::Local(ReportDescriptorCodeLocal::UsageMinimum))
            &&& 0x28 <= s[0] <= 0x2B ==> starts_with_item(s, ReportDescriptorCode::Local(ReportDescriptorCodeLocal::UsageMaximum))
            &&& 0x38 <= s[0] <= 0x3B ==> starts_with_item(s, ReportDescriptorCode::Local(ReportDescriptorCodeLocal::DesignatorIndex))
            &&& 0x48 <= s[0] <= 0x4B ==> starts_with_item(s, ReportDescriptorCode::Local(ReportDescriptorCodeLocal::DesignatorMinimum))
            &&& 0x58 <= s[0] <= 0x5B ==> starts_with_item(s, ReportDescriptorCode::Local(ReportDescriptorCodeLocal::DesignatorMaximum))
            &&& 0x68 <= s[0] <= 0x6B ==> starts_with_item(s, ReportDescriptorCode::Local(ReportDescriptorCodeLocal::StringIndex))
            &&& 0x78 <= s[0] <= 0x7B ==> starts_with_item(s, ReportDescriptorCode::Local(ReportDescriptorCodeLocal::StringMinimum))
            &&& 0x88 <= s[0] <= 0x8B ==> starts_with_item(s, ReportDescriptorCode::Local(ReportDescriptorCodeLocal::StringMaximum))
            &&& 0x98 <= s[0] <= 0x9B ==> starts_with_item(s, ReportDescriptorCode::Local(ReportDescriptorCodeLocal::Delimiter))
        }),
{
    if 0x08 <= s[0] <= 0x0B {
        lemma_short_first_byte(s[0], 2, 0);
    }
    if 0x18 <= s[0] <= 0x1B {
        lemma_short_first_byte(s[0], 2, 1);
    }
    if 0x28 <= s[0] <= 0x2B {
        lemma_short_first_byte(s[0], 2, 2);
    }
    if 0x38 <= s[0] <= 0x3B {
        lemma_short_first_byte(s[0], 2, 3);
    }
    if 0x48 <= s[0] <= 0x4B {
        lemma_short_first_byte(s[0], 2, 4);
    }
    if 0x58 <= s[0] <= 0x5B {
        lemma_short_first_byte(s[0], 2, 5);
    }
    if 0x68 <= s[0] <= 0x6B {
        lemma_short_first_byte(s[0], 2, 6);
    }
    if 0x78 <= s[0] <= 0x7B {
        lemma_short_first_byte(s[0], 2, 7);
    }
    if 0x88 <= s[0] <= 0x8B {
        lemma_short_first_byte(s[0], 2, 8);
    }
    if 0x98 <= s[0] <= 0x9B {
        lemma_short_first_byte(s[0], 2, 9);
    }
}

/// The main short items, by first byte: tags 8, 9 and 10 in the high nibble
/// (0x80..0x83, 0x90..0x93, 0xA0..0xA3) are Input, Output and Feature, each
/// with the flags its data gives; tag 11 (0xB0..0xB3) starts a Collection
/// of the kind its data gives, and tag 12 (0xC0..0xC3) ends one. Each such item, with its data
/// present, is read as that main item and reading goes on after its data.
pub proof fn law_main_items(s: Seq<u8>)
    requires
        s.len() >= 1,
        s.len() >= 1 + short_data_len(s[0]),
    ensures
        ({
            let data = s.subrange(1, 1 + short_data_len(s[0]) as int);
            &&& 0x80 <= s[0] <= 0x83 ==> starts_with_item(s, ReportDescriptorCode::Main(ReportDescriptorCodeMain::Input(main::input_output::InputOutput::spec_from_u16((item_value(data) % 65536) as u16))))
            &&& 0x90 <= s[0] <= 0x93 ==> starts_with_item(s, ReportDescriptorCode::Main(ReportDescriptorCodeMain::Output(main::input_output::InputOutput::spec_from_u16((item_value(data) % 65536) as u16))))
            &&& 0xA0 <= s[0] <= 0xA3 ==> starts_with_item(s, ReportDescriptorCode::Main(ReportDescriptorCodeMain::Feature(main::input_output::InputOutput::spec_from_u16((item_value(data) % 65536) as u16))))
            &&& 0xB0 <= s[0] <= 0xB3 ==> starts_with_item(s, ReportDescriptorCode::Main(ReportDescriptorCodeMain::Collection(main::collection::Collection::spec_from_raw((item_value(data) % 256) as u8))))
            &&& 0xC0 <= s[0] <= 0xC3 ==> starts_with_item(s, ReportDescriptorCode::Main(ReportDescriptorCodeMain::EndCollection))
        }),
{
    if 0x80 <= s[0] <= 0x83 {
        lemma_short_first_byte(s[0], 0, 8);
    }
    if 0x90 <= s[0] <= 0x93 {
        lemma_short_first_byte(s[0], 0, 9);
    }
    if 0xA0 <= s[0] <= 0xA3 {
        lemma_short_first_byte(s[0], 0, 10);
    }
    if 0xB0 <= s[0] <= 0xB3 {
        lemma_short_first_byte(s[0], 0, 11);
    }
    if 0xC0 <= s[0] <= 0xC3 {
        lemma_short_first_byte(s[0], 0, 12);
    }
}

/// Reads all items of a report descriptor, in order. Reading stops at the
/// end of the bytes, at an item cut short by the end, or at a rejected item;
/// in the last case the second component holds that item's first byte.
pub fn parse_report_items(data: &[u8]) -> (r: (Vec<ReportDescriptorCode>, Option<u8>))
    ensures
        r.0@ == spec_parse_items(data@).0,
        r.1 == spec_parse_items(data@).1,
{
    let mut reader = HidReportDescriptorParser::new(data);
    let mut items: Vec<ReportDescriptorCode> = Vec::new();
    proof {
        assert(reader.remaining() =~= data@);
    }
    loop
        invariant
            reader.wf(),
            reader.spec_data() == data@,
            items@ + spec_parse_items(reader.remaining()).0 == spec_parse_items(data@).0,
            spec_parse_items(reader.remaining()).1 == spec_parse_items(data@).1,
        decreases data@.len() - reader.spec_index(),
    {
        let ghost s = reader.remaining();
        if let Some(first) = ReportDescriptorCode::rejected_at(&reader) {
            proof {
                assert(items@ + Seq::<ReportDescriptorCode>::empty() =~= items@);
            }
            return (items, Some(first));
        }
        let ghost before = reader.spec_index();
        match ReportDescriptorCode::parse(&mut reader) {
            Some(code) => {
                proof {
                    lemma_item_len(s);
                    let n = spec_item(s).unwrap().1;
                    assert(reader.remaining() =~= s.skip(n as int));
                    assert(items@.push(code) + spec_parse_items(reader.remaining()).0 =~= items@
                        + spec_parse_items(s).0);
                }
                items.push(code);
            },
            None => {
                proof {
                    assert(items@ + Seq::<ReportDescriptorCode>::empty() =~= items@);
                }
                return (items, None);
            },
        }
    }
}

} // verus!
