use vstd::prelude::*;
use vstd::string::StringExecFns;

use crate::backend::hid::report_descriptor;

use crate::backend::hid::report_descriptor::parse_unsigned;

verus! {

#[derive(Debug, Clone, Copy, PartialEq, Eq, Structural)]
pub enum DataKind {
    Data,
    Constant,
}

#[derive(Debug, Clone, Copy, PartialEq, Eq, Structural)]
pub enum ArrayKind {
    Array,
    Variable,
}

#[derive(Debug, Clone, Copy, PartialEq, Eq, Structural)]
pub enum PositionKind {
    Absolute,
    Relative,
}

#[derive(Debug, Clone, Copy, PartialEq, Eq, Structural)]
pub enum WrapKind {
    NoWrap,
    Wrap,
}

#[derive(Debug, Clone, Copy, PartialEq, Eq, Structural)]
pub enum LinearKind {
    Linear,
    NonLinear,
}

#[derive(Debug, Clone, Copy, PartialEq, Eq, Structural)]
pub enum PreferredKind {
    PreferredState,
    NoPreferred,
}

#[derive(Debug, Clone, Copy, PartialEq, Eq, Structural)]
pub enum NullKind {
    NoNull,
    NullState,
}

#[derive(Debug, Clone, Copy, PartialEq, Eq, Structural)]
pub enum VolatileKind {
    NonVolatile,
    Volatile,
}

#[derive(Debug, Clone, Copy, PartialEq, Eq, Structural)]
pub enum BufferKind {
    BitField,
    BufferedBytes,
}

/// The flags of an input, output or feature item.
#[derive(Debug, Clone, Copy, PartialEq, Eq, Structural)]
pub struct InputOutput {
    pub data_kind: DataKind,
    pub array_kind: ArrayKind,
    pub position_kind: PositionKind,
    pub wrap_kind: WrapKind,
    pub linear_kind: LinearKind,
    pub preferred_kind: PreferredKind,
    pub null_kind: NullKind,
    pub volatile_kind: VolatileKind,
    pub buffer_kind: BufferKind,
}

impl DataKind {
    /// The variant's name.
    pub open spec fn spec_name(self) -> Seq<char> {
        match self {
            DataKind::Data => "Data"@,
            DataKind::Constant => "Constant"@,
        }
    }

    pub fn name(self) -> (n: &'static str)
        ensures
            n@ == self.spec_name(),
    {
        match self {
            DataKind::Data => "Data",
            DataKind::Constant => "Constant",
        }
    }
}

impl ArrayKind {
    /// The variant's name.
    pub open spec fn spec_name(self) -> Seq<char> {
        match self {
            ArrayKind::Array => "Array"@,
            ArrayKind::Variable => "Variable"@,
        }
    }

    pub fn name(self) -> (n: &'static str)
        ensures
            n@ == self.spec_name(),
    {
        match self {
            ArrayKind::Array => "Array",
            ArrayKind::Variable => "Variable",
        }
    }
}

impl PositionKind {
    /// The variant's name.
    pub open spec fn spec_name(self) -> Seq<char> {
        match self {
            PositionKind::Absolute => "Absolute"@,
            PositionKind::Relative => "Relative"@,
        }
    }

    pub fn name(self) -> (n: &'static str)
        ensures
            n@ == self.spec_name(),
    {
        match self {
            PositionKind::Absolute => "Absolute",
            PositionKind::Relative => "Relative",
        }
    }
}

impl WrapKind {
    /// The variant's name.
    pub open spec fn spec_name(self) -> Seq<char> {
        match self {
            WrapKind::NoWrap => "NoWrap"@,
            WrapKind::Wrap => "Wrap"@,
        }
    }

    pub fn name(self) -> (n: &'static str)
        ensures
            n@ == self.spec_name(),
    {
        match self {
            WrapKind::NoWrap => "NoWrap",
            WrapKind::Wrap => "Wrap",
        }
    }
}

impl LinearKind {
    /// The variant's name.
    pub open spec fn spec_name(self) -> Seq<char> {
        match self {
            LinearKind::Linear => "Linear"@,
            LinearKind::NonLinear => "NonLinear"@,
        }
    }

    pub fn name(self) -> (n: &'static str)
        ensures
            n@ == self.spec_name(),
    {
        match self {
            LinearKind::Linear => "Linear",
            LinearKind::NonLinear => "NonLinear",
        }
    }
}

impl PreferredKind {
    /// The variant's name.
    pub open spec fn spec_name(self) -> Seq<char> {
        match self {
            PreferredKind::PreferredState => "PreferredState"@,
            PreferredKind::NoPreferred => "NoPreferred"@,
        }
    }

    pub fn name(self) -> (n: &'static str)
        ensures
            n@ == self.spec_name(),
    {
        match self {
            PreferredKind::PreferredState => "PreferredState",
            PreferredKind::NoPreferred => "NoPreferred",
        }
    }
}

impl NullKind {
    /// The variant's name.
    pub open spec fn spec_name(self) -> Seq<char> {
        match self {
            NullKind::NoNull => "NoNull"@,
            NullKind::NullState => "NullState"@,
        }
    }

    pub fn name(self) -> (n: &'static str)
        ensures
            n@ == self.spec_name(),
    {
        match self {
            NullKind::NoNull => "NoNull",
            NullKind::NullState => "NullState",
        }
    }
}

impl VolatileKind {
    /// The variant's name.
    pub open spec fn spec_name(self) -> Seq<char> {
        match self {
            VolatileKind::NonVolatile => "NonVolatile"@,
            VolatileKind::Volatile => "Volatile"@,
        }
    }

    pub fn name(self) -> (n: &'static str)
        ensures
            n@ == self.spec_name(),
    {
        match self {
            VolatileKind::NonVolatile => "NonVolatile",
            VolatileKind::Volatile => "Volatile",
        }
    }
}

impl BufferKind {
    /// The variant's name.
    pub open spec fn spec_name(self) -> Seq<char> {
        match self {
            BufferKind::BitField => "BitField"@,
            BufferKind::BufferedBytes => "BufferedBytes"@,
        }
    }

    pub fn name(self) -> (n: &'static str)
        ensures
            n@ == self.spec_name(),
    {
        match self {
            BufferKind::BitField => "BitField",
            BufferKind::BufferedBytes => "BufferedBytes",
        }
    }
}

/// Whether bit `k` of `value` is set.
pub open spec fn flag(value: u16, k: u16) -> bool {
    value & (1u16 << k) != 0
}

impl InputOutput {
    /// Bits 0 to 8 of the item data each choose the second of the two kinds
    /// of the matching field when set, the first when clear.
    pub open spec fn spec_from_u16(value: u16) -> InputOutput {
        InputOutput {
            data_kind: if flag(value, 0) { DataKind::Constant } else { DataKind::Data },
            array_kind: if flag(value, 1) { ArrayKind::Variable } else { ArrayKind::Array },
            position_kind: if flag(value, 2) { PositionKind::Relative } else { PositionKind::Absolute },
            wrap_kind: if flag(value, 3) { WrapKind::Wrap } else { WrapKind::NoWrap },
            linear_kind: if flag(value, 4) { LinearKind::NonLinear } else { LinearKind::Linear },
            preferred_kind: if flag(value, 5) { PreferredKind::NoPreferred } else { PreferredKind::PreferredState },
            null_kind: if flag(value, 6) { NullKind::NullState } else { NullKind::NoNull },
            volatile_kind: if flag(value, 7) { VolatileKind::Volatile } else { VolatileKind::NonVolatile },
            buffer_kind: if flag(value, 8) { BufferKind::BufferedBytes } else { BufferKind::BitField },
        }
    }

    fn from_u16(value: u16) -> (io: Self)
        ensures
            io == Self::spec_from_u16(value),
    {
        InputOutput {
            data_kind: if value & (1 << 0) == 0 { DataKind::Data } else { DataKind::Constant },
            array_kind: if value & (1 << 1) == 0 { ArrayKind::Array } else { ArrayKind::Variable },
            position_kind: if value & (1 << 2) == 0 {
                PositionKind::Absolute
            } else {
                PositionKind::Relative
            },
            wrap_kind: if value & (1 << 3) == 0 { WrapKind::NoWrap } else { WrapKind::Wrap },
            linear_kind: if value & (1 << 4) == 0 { LinearKind::Linear } else { LinearKind::NonLinear },
            preferred_kind: if value & (1 << 5) == 0 {
                PreferredKind::PreferredState
            } else {
                PreferredKind::NoPreferred
            },
            null_kind: if value & (1 << 6) == 0 { NullKind::NoNull } else { NullKind::NullState },
            volatile_kind: if value & (1 << 7) == 0 {
                VolatileKind::NonVolatile
            } else {
                VolatileKind::Volatile
            },
            buffer_kind: if value & (1 << 8) == 0 {
                BufferKind::BitField
            } else {
                BufferKind::BufferedBytes
            },
        }
    }

    /// The flags as text: the names of the nine kinds, in field order,
    /// between parentheses and separated by ` | `.
    pub open spec fn spec_describe(&self) -> Seq<char> {
        "("@ + self.data_kind.spec_name() + " | "@ + self.array_kind.spec_name() + " | "@ + self.position_kind.spec_name() + " | "@ + self.wrap_kind.spec_name() + " | "@ + self.linear_kind.spec_name() + " | "@ + self.preferred_kind.spec_name() + " | "@ + self.null_kind.spec_name() + " | "@ + self.volatile_kind.spec_name() + " | "@ + self.buffer_kind.spec_name() + ")"@
    }

    pub fn describe(&self) -> (text: String)
        ensures
            text@ == self.spec_describe(),
    {
        let mut text = String::from_str("(");
        text.append(self.data_kind.name());
        text.append(" | ");
        text.append(self.array_kind.name());
        text.append(" | ");
        text.append(self.position_kind.name());
        text.append(" | ");
        text.append(self.wrap_kind.name());
        text.append(" | ");
        text.append(self.linear_kind.name());
        text.append(" | ");
        text.append(self.preferred_kind.name());
        text.append(" | ");
        text.append(self.null_kind.name());
        text.append(" | ");
        text.append(self.volatile_kind.name());
        text.append(" | ");
        text.append(self.buffer_kind.name());
        text.append(")");
        text
    }

    /// Decodes the data of an input, output or feature item: only its two lowest bytes are read.
    pub fn from_bytes(bytes: &[u8]) -> (io: Self)
        ensures
            io == Self::spec_from_u16((report_descriptor::item_value(bytes@) % 65536) as u16),
    {
        let value = parse_unsigned(bytes);
        Self::from_u16((value % 65536) as u16)
    }
}


/// The flags of an item's data by bit (HID 1.11, section 6.2.2.5): bit 0
/// Data (clear) or Constant, 0x002 Array or Variable, 0x004 Absolute or
/// Relative, 0x008 No Wrap or Wrap, 0x010 Linear or Non Linear, 0x020
/// Preferred State or No Preferred, 0x040 No Null Position or Null State,
/// 0x080 Non Volatile or Volatile, 0x100 Bit Field or Buffered Bytes.
pub proof fn law_input_output_flags(value: u16)
    ensures
        ({
            let io = InputOutput::spec_from_u16(value);
            &&& io.data_kind == (if value & 0x001 != 0 { DataKind::Constant } else { DataKind::Data })
            &&& io.array_kind == (if value & 0x002 != 0 { ArrayKind::Variable } else { ArrayKind::Array })
            &&& io.position_kind == (if value & 0x004 != 0 { PositionKind::Relative } else { PositionKind::Absolute })
            &&& io.wrap_kind == (if value & 0x008 != 0 { WrapKind::Wrap } else { WrapKind::NoWrap })
            &&& io.linear_kind == (if value & 0x010 != 0 { LinearKind::NonLinear } else { LinearKind::Linear })
            &&& io.preferred_kind == (if value & 0x020 != 0 { PreferredKind::NoPreferred } else { PreferredKind::PreferredState })
            &&& io.null_kind == (if value & 0x040 != 0 { NullKind::NullState } else { NullKind::NoNull })
            &&& io.volatile_kind == (if value & 0x080 != 0 { VolatileKind::Volatile } else { VolatileKind::NonVolatile })
            &&& io.buffer_kind == (if value & 0x100 != 0 { BufferKind::BufferedBytes } else { BufferKind::BitField })
        }),
{
    assert({
        &&& (value & (1u16 << 0u16) != 0) == (value & 0x001u16 != 0)
        &&& (value & (1u16 << 1u16) != 0) == (value & 0x002u16 != 0)
        &&& (value & (1u16 << 2u16) != 0) == (value & 0x004u16 != 0)
        &&& (value & (1u16 << 3u16) != 0) == (value & 0x008u16 != 0)
        &&& (value & (1u16 << 4u16) != 0) == (value & 0x010u16 != 0)
        &&& (value & (1u16 << 5u16) != 0) == (value & 0x020u16 != 0)
        &&& (value & (1u16 << 6u16) != 0) == (value & 0x040u16 != 0)
        &&& (value & (1u16 << 7u16) != 0) == (value & 0x080u16 != 0)
        &&& (value & (1u16 << 8u16) != 0) == (value & 0x100u16 != 0)
    }) by (bit_vector);
}

} // verus!
