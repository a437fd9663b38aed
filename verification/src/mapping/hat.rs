use vstd::prelude::*;

use crate::gamepad::button::GamepadButton;
#[allow(unused_imports)]
use vstd::string::StringSliceAdditionalSpecFns;

verus! {

/// One direction of a hat switch, named by the bit it has in the hat's
/// SDL-style direction mask.
#[derive(Debug, Clone, Copy, PartialEq, Eq, Hash, Structural)]
pub enum HatButton {
    One,
    Two,
    Four,
    Eight,
}

/// Which hat switch of a device.
#[derive(Debug, Clone, Copy, PartialEq, Eq, Hash, Structural)]
pub enum HatIndex {
    Zero,
    One,
    Two,
    Three,
}

/// A single direction of a single hat switch.
#[derive(Debug, Clone, Copy, PartialEq, Eq, Hash, Structural)]
pub struct HatDescriptor(pub HatIndex, pub HatButton);

/// Why text could not be read as a [`HatDescriptor`].
#[derive(Debug, Clone, Copy, PartialEq, Eq, Structural)]
pub enum HatDescriptorParseError {
    /// The text is not three bytes long with a `.` in the middle.
    BadFormat,
    /// The first byte is not one of `0`, `1`, `2`, `3`.
    InvalidIndex,
    /// The last byte is not one of `1`, `2`, `4`, `8`.
    InvalidButton,
}

impl HatButton {
    /// The ASCII digit that names this direction.
    pub open spec fn spec_char(self) -> u8 {
        match self {
            HatButton::One => 49u8,
            HatButton::Two => 50u8,
            HatButton::Four => 52u8,
            HatButton::Eight => 56u8,
        }
    }

    /// The direction named by an ASCII digit, if any.
    pub open spec fn spec_from_char(c: u8) -> Option<HatButton> {
        if c == 49 {
            Some(HatButton::One)
        } else if c == 50 {
            Some(HatButton::Two)
        } else if c == 52 {
            Some(HatButton::Four)
        } else if c == 56 {
            Some(HatButton::Eight)
        } else {
            None
        }
    }

    pub fn to_char(&self) -> (c: u8)
        ensures
            c == self.spec_char(),
    {
        match self {
            HatButton::One => 49u8,
            HatButton::Two => 50u8,
            HatButton::Four => 52u8,
            HatButton::Eight => 56u8,
        }
    }

    pub fn from_char(c: u8) -> (r: Option<Self>)
        ensures
            r == Self::spec_from_char(c),
    {
        match c {
            49u8 => Some(HatButton::One),
            50u8 => Some(HatButton::Two),
            52u8 => Some(HatButton::Four),
            56u8 => Some(HatButton::Eight),
            _ => None,
        }
    }

    /// Position of this direction among `One`, `Two`, `Four`, `Eight`.
    pub open spec fn spec_ordinal(self) -> u8 {
        match self {
            HatButton::One => 0u8,
            HatButton::Two => 1u8,
            HatButton::Four => 2u8,
            HatButton::Eight => 3u8,
        }
    }
}

impl HatIndex {
    /// The ASCII digit that names this hat.
    pub open spec fn spec_char(self) -> u8 {
        match self {
            HatIndex::Zero => 48u8,
            HatIndex::One => 49u8,
            HatIndex::Two => 50u8,
            HatIndex::Three => 51u8,
        }
    }

    /// The hat named by an ASCII digit, if any.
    pub open spec fn spec_from_char(c: u8) -> Option<HatIndex> {
        if c == 48 {
            Some(HatIndex::Zero)
        } else if c == 49 {
            Some(HatIndex::One)
        } else if c == 50 {
            Some(HatIndex::Two)
        } else if c == 51 {
            Some(HatIndex::Three)
        } else {
            None
        }
    }

    /// The hat's number.
    pub open spec fn spec_index(self) -> usize {
        match self {
            HatIndex::Zero => 0usize,
            HatIndex::One => 1usize,
            HatIndex::Two => 2usize,
            HatIndex::Three => 3usize,
        }
    }

    pub fn to_char(&self) -> (c: u8)
        ensures
            c == self.spec_char(),
    {
        match self {
            HatIndex::Zero => 48u8,
            HatIndex::One => 49u8,
            HatIndex::Two => 50u8,
            HatIndex::Three => 51u8,
        }
    }

    pub fn from_char(c: u8) -> (r: Option<Self>)
        ensures
            r == Self::spec_from_char(c),
    {
        match c {
            48u8 => Some(HatIndex::Zero),
            49u8 => Some(HatIndex::One),
            50u8 => Some(HatIndex::Two),
            51u8 => Some(HatIndex::Three),
            _ => None,
        }
    }

    pub fn to_index(&self) -> (i: usize)
        ensures
            i == self.spec_index(),
    {
        match self {
            HatIndex::Zero => 0,
            HatIndex::One => 1,
            HatIndex::Two => 2,
            HatIndex::Three => 3,
        }
    }
}

impl HatDescriptor {
    /// The D-pad button a direction stands for when no mapping says otherwise.
    pub open spec fn spec_guess_button(self) -> GamepadButton {
        match self.1 {
            HatButton::One => GamepadButton::DPadUp,
            HatButton::Two => GamepadButton::DPadRight,
            HatButton::Four => GamepadButton::DPadDown,
            HatButton::Eight => GamepadButton::DPadLeft,
        }
    }

    pub fn guess_button(&self) -> (b: GamepadButton)
        ensures
            b == self.spec_guess_button(),
    {
        match self.1 {
            HatButton::One => GamepadButton::DPadUp,
            HatButton::Two => GamepadButton::DPadRight,
            HatButton::Four => GamepadButton::DPadDown,
            HatButton::Eight => GamepadButton::DPadLeft,
        }
    }

    /// The small integer under which mapping tables file this descriptor:
    /// four times the hat's number plus the direction's ordinal.
    pub open spec fn spec_key(self) -> u8 {
        (4 * self.0.spec_index() + self.1.spec_ordinal()) as u8
    }

    pub fn key(&self) -> (k: u8)
        ensures
            k == self.spec_key(),
            k < 16,
    {
        let ordinal: u8 = match self.1 {
            HatButton::One => 0,
            HatButton::Two => 1,
            HatButton::Four => 2,
            HatButton::Eight => 3,
        };
        let index: u8 = match self.0 {
            HatIndex::Zero => 0,
            HatIndex::One => 1,
            HatIndex::Two => 2,
            HatIndex::Three => 3,
        };
        4 * index + ordinal
    }

    /// The descriptor filed under a key, if any: the inverse of [`Self::key`].
    pub open spec fn spec_from_key(key: u8) -> Option<HatDescriptor> {
        if key >= 16 {
            None
        } else {
            let index = if key / 4 == 0 {
                HatIndex::Zero
            } else if key / 4 == 1 {
                HatIndex::One
            } else if key / 4 == 2 {
                HatIndex::Two
            } else {
                HatIndex::Three
            };
            let button = if key % 4 == 0 {
                HatButton::One
            } else if key % 4 == 1 {
                HatButton::Two
            } else if key % 4 == 2 {
                HatButton::Four
            } else {
                HatButton::Eight
            };
            Some(HatDescriptor(index, button))
        }
    }

    pub fn from_key(key: u8) -> (d: Option<HatDescriptor>)
        ensures
            d == Self::spec_from_key(key),
    {
        if key >= 16 {
            return None;
        }
        let index = if key / 4 == 0 {
            HatIndex::Zero
        } else if key / 4 == 1 {
            HatIndex::One
        } else if key / 4 == 2 {
            HatIndex::Two
        } else {
            HatIndex::Three
        };
        let button = if key % 4 == 0 {
            HatButton::One
        } else if key % 4 == 1 {
            HatButton::Two
        } else if key % 4 == 2 {
            HatButton::Four
        } else {
            HatButton::Eight
        };
        Some(HatDescriptor(index, button))
    }

    /// The text form `<index>.<button>`, as bytes.
    pub open spec fn spec_text(self) -> Seq<u8> {
        seq![self.0.spec_char(), 46u8, self.1.spec_char()]
    }

    /// Reads the text form `<index>.<button>`.
    pub open spec fn spec_parse(bytes: Seq<u8>) -> Result<HatDescriptor, HatDescriptorParseError> {
        if bytes.len() != 3 || bytes[1] != 46u8 {
            Err(HatDescriptorParseError::BadFormat)
        } else {
            match HatIndex::spec_from_char(bytes[0]) {
                None => Err(HatDescriptorParseError::InvalidIndex),
                Some(index) => match HatButton::spec_from_char(bytes[2]) {
                    None => Err(HatDescriptorParseError::InvalidButton),
                    Some(button) => Ok(HatDescriptor(index, button)),
                },
            }
        }
    }

    /// Writes the text form `<index>.<button>`; the bytes are ASCII.
    pub fn to_text(&self) -> (text: [u8; 3])
        ensures
            text@ == self.spec_text(),
    {
        let text = [self.0.to_char(), 46u8, self.1.to_char()];
        assert(text@ =~= self.spec_text());
        text
    }

    /// Reads the text form `<index>.<button>`.
    pub fn parse(text: &str) -> (r: Result<HatDescriptor, HatDescriptorParseError>)
        ensures
            r == Self::spec_parse(text.spec_bytes()),
    {
        let bytes = text.as_bytes();
        if bytes.len() != 3 || bytes[1] != 46u8 {
            return Err(HatDescriptorParseError::BadFormat);
        }
        let index = match HatIndex::from_char(bytes[0]) {
            Some(index) => index,
            None => return Err(HatDescriptorParseError::InvalidIndex),
        };
        let button = match HatButton::from_char(bytes[2]) {
            Some(button) => button,
            None => return Err(HatDescriptorParseError::InvalidButton),
        };
        Ok(HatDescriptor(index, button))
    }
}

/// Reading back the digit of a hat direction gives the direction.
pub proof fn lemma_hat_button_char_roundtrip(b: HatButton)
    ensures
        HatButton::spec_from_char(b.spec_char()) == Some(b),
{
}

/// A digit that names a hat direction is that direction's digit.
pub proof fn lemma_hat_button_char_exact(c: u8)
    ensures
        HatButton::spec_from_char(c) matches Some(b) ==> b.spec_char() == c,
{
}

/// Reading back the digit of a hat gives the hat.
pub proof fn lemma_hat_index_char_roundtrip(i: HatIndex)
    ensures
        HatIndex::spec_from_char(i.spec_char()) == Some(i),
{
}

/// A digit that names a hat is that hat's digit.
pub proof fn lemma_hat_index_char_exact(c: u8)
    ensures
        HatIndex::spec_from_char(c) matches Some(i) ==> i.spec_char() == c,
{
}

/// Reading the text form of a descriptor gives the descriptor back.
pub proof fn lemma_hat_descriptor_text_roundtrip(d: HatDescriptor)
    ensures
        HatDescriptor::spec_parse(d.spec_text()) == Ok::<HatDescriptor, HatDescriptorParseError>(d),
{
}

/// Text that reads as a descriptor is exactly that descriptor's text form.
pub proof fn lemma_hat_descriptor_parse_exact(bytes: Seq<u8>)
    ensures
        HatDescriptor::spec_parse(bytes) matches Ok(d) ==> d.spec_text() =~= bytes,
{
}

/// The key of a descriptor leads back to the descriptor, and every key
/// that leads to a descriptor is that descriptor's key.
pub proof fn lemma_hat_descriptor_key_roundtrip(d: HatDescriptor, key: u8)
    ensures
        HatDescriptor::spec_from_key(d.spec_key()) == Some(d),
        HatDescriptor::spec_from_key(key) matches Some(e) ==> e.spec_key() == key,
{
}

/// Distinct descriptors are filed under distinct keys.
pub proof fn lemma_hat_descriptor_key_injective(a: HatDescriptor, b: HatDescriptor)
    ensures
        a.spec_key() == b.spec_key() ==> a == b,
{
}

} // verus!
