//! The vendor, product and version numbers of a device, and their text form
//! `vvvv:pppp:rrrr` (lower-case hexadecimal).
use vstd::prelude::*;
#[allow(unused_imports)]
use vstd::string::StringSliceAdditionalSpecFns;

verus! {

#[derive(Debug, Clone, Copy, PartialEq, Eq, Hash, Structural)]
pub struct DeviceId {
    pub vendor: u16,
    pub product: u16,
    pub version: u16,
}

/// Why a field of text could not be read as a 16-bit hexadecimal number;
/// the same three outcomes as `u16::from_str_radix(_, 16)`.
#[derive(Debug, Clone, Copy, PartialEq, Eq, Structural)]
pub enum HexParseError {
    /// The field is empty.
    Empty,
    /// The field holds a byte that is not a hexadecimal digit (a leading `+`
    /// excepted, where more follows).
    InvalidDigit,
    /// The number does not fit in 16 bits.
    PosOverflow,
}

/// Why text could not be read as a [`DeviceId`].
#[derive(Debug, Clone, Copy, PartialEq, Eq, Structural)]
pub enum DeviceIdParseError {
    /// The text has no `:`.
    MissingProduct,
    /// The text has one `:` only.
    MissingVersion,
    /// The text has more than two `:`.
    TooManyFields,
    /// A field is not a 16-bit hexadecimal number; the first such field counts.
    InvalidNumber(HexParseError),
}

/// The lower-case ASCII hexadecimal digit for `d` (below 16).
pub open spec fn hex_char(d: int) -> u8 {
    if d < 10 {
        (48 + d) as u8
    } else {
        (87 + d) as u8
    }
}

/// Four lower-case hexadecimal digits of `v`, most significant first.
pub open spec fn hex4(v: u16) -> Seq<u8> {
    seq![
        hex_char((v / 4096) as int),
        hex_char(((v / 256) % 16) as int),
        hex_char(((v / 16) % 16) as int),
        hex_char((v % 16) as int),
    ]
}

/// The value of a hexadecimal digit in either case.
pub open spec fn hex_digit_value(b: u8) -> Option<nat> {
    if 48 <= b <= 57 {
        Some((b - 48) as nat)
    } else if 97 <= b <= 102 {
        Some((b - 87) as nat)
    } else if 65 <= b <= 70 {
        Some((b - 55) as nat)
    } else {
        None
    }
}

/// Reads hexadecimal digits left to right onto `acc`; the first byte that is
/// not a digit, or the first digit after which the number no longer fits in
/// 16 bits, decides the error.
pub open spec fn hex_fold(s: Seq<u8>, acc: nat) -> Result<nat, HexParseError>
    decreases s.len(),
{
    if s.len() == 0 {
        Ok(acc)
    } else {
        match hex_digit_value(s[0]) {
            None => Err(HexParseError::InvalidDigit),
            Some(d) => if 16 * acc + d > 0xFFFF {
                Err(HexParseError::PosOverflow)
            } else {
                hex_fold(s.drop_first(), 16 * acc + d)
            },
        }
    }
}

/// What `u16::from_str_radix(s, 16)` gives for the bytes `s`.
pub open spec fn spec_parse_hex_u16(s: Seq<u8>) -> Result<u16, HexParseError> {
    if s.len() == 0 {
        Err(HexParseError::Empty)
    } else if s.len() == 1 && (s[0] == 43 || s[0] == 45) {
        Err(HexParseError::InvalidDigit)
    } else {
        let digits = if s[0] == 43 {
            s.drop_first()
        } else {
            s
        };
        match hex_fold(digits, 0) {
            Ok(v) => Ok(v as u16),
            Err(e) => Err(e),
        }
    }
}

/// Where the first `:` of `s` stands; the length of `s` where there is none.
pub open spec fn first_colon(s: Seq<u8>) -> nat
    decreases s.len(),
{
    if s.len() == 0 {
        0
    } else if s[0] == 58 {
        0
    } else {
        1 + first_colon(s.drop_first())
    }
}

impl DeviceId {
    /// The text form `vvvv:pppp:rrrr`, as bytes.
    pub open spec fn spec_text(self) -> Seq<u8> {
        hex4(self.vendor) + seq![58u8] + hex4(self.product) + seq![58u8] + hex4(self.version)
    }

    /// Reads text split at `:` into exactly three hexadecimal fields: vendor,
    /// product and version. Missing and surplus fields are told before any
    /// field is read as a number; the fields are then read in order.
    pub open spec fn spec_parse(s: Seq<u8>) -> Result<DeviceId, DeviceIdParseError> {
        let p1 = first_colon(s);
        let rest1 = s.skip(p1 + 1 as int);
        let p2 = first_colon(rest1);
        let rest2 = rest1.skip(p2 + 1 as int);
        if p1 == s.len() {
            Err(DeviceIdParseError::MissingProduct)
        } else if p2 == rest1.len() {
            Err(DeviceIdParseError::MissingVersion)
        } else if first_colon(rest2) < rest2.len() {
            Err(DeviceIdParseError::TooManyFields)
        } else {
            match spec_parse_hex_u16(s.take(p1 as int)) {
                Err(e) => Err(DeviceIdParseError::InvalidNumber(e)),
                Ok(vendor) => match spec_parse_hex_u16(rest1.take(p2 as int)) {
                    Err(e) => Err(DeviceIdParseError::InvalidNumber(e)),
                    Ok(product) => match spec_parse_hex_u16(rest2) {
                        Err(e) => Err(DeviceIdParseError::InvalidNumber(e)),
                        Ok(version) => Ok(DeviceId { vendor, product, version }),
                    },
                },
            }
        }
    }

    /// Writes the text form `vvvv:pppp:rrrr`; the bytes are ASCII.
    pub fn to_text(&self) -> (text: Vec<u8>)
        ensures
            text@ == self.spec_text(),
    {
        let mut text: Vec<u8> = Vec::new();
        push_hex4(&mut text, self.vendor);
        text.push(58u8);
        push_hex4(&mut text, self.product);
        text.push(58u8);
        push_hex4(&mut text, self.version);
        assert(text@ =~= self.spec_text());
        text
    }

    /// Reads the text form `vvvv:pppp:rrrr`.
    pub fn parse(text: &str) -> (r: Result<DeviceId, DeviceIdParseError>)
        ensures
            r == Self::spec_parse(text.spec_bytes()),
    {
        let bytes = text.as_bytes();
        let ghost s = bytes@;
        let len = bytes.len();
        let p1 = find_colon(bytes, 0);
        proof {
            assert(s.skip(0) =~= s);
        }
        if p1 == len {
            return Err(DeviceIdParseError::MissingProduct);
        }
        let p2 = find_colon(bytes, p1 + 1);
        if p2 == len {
            return Err(DeviceIdParseError::MissingVersion);
        }
        let p3 = find_colon(bytes, p2 + 1);
        proof {
            let rest1 = s.skip(p1 + 1 as int);
            assert(rest1.skip((p2 - (p1 + 1)) + 1) =~= s.skip(p2 + 1));
        }
        if p3 < len {
            return Err(DeviceIdParseError::TooManyFields);
        }
        proof {
            let rest1 = s.skip(p1 + 1 as int);
            assert(s.subrange(0, p1 as int) =~= s.take(p1 as int));
            assert(s.subrange(p1 + 1, p2 as int) =~= rest1.take((p2 - (p1 + 1)) as int));
            assert(s.subrange(p2 + 1, len as int) =~= s.skip(p2 + 1));
        }
        let vendor = match parse_hex_u16(bytes, 0, p1) {
            Ok(v) => v,
            Err(e) => {
                return Err(DeviceIdParseError::InvalidNumber(e));
            },
        };
        let product = match parse_hex_u16(bytes, p1 + 1, p2) {
            Ok(v) => v,
            Err(e) => {
                return Err(DeviceIdParseError::InvalidNumber(e));
            },
        };
        let version = match parse_hex_u16(bytes, p2 + 1, len) {
            Ok(v) => v,
            Err(e) => {
                return Err(DeviceIdParseError::InvalidNumber(e));
            },
        };
        Ok(DeviceId { vendor, product, version })
    }
}

fn hex_digit(d: u16) -> (c: u8)
    requires
        d < 16,
    ensures
        c == hex_char(d as int),
{
    if d < 10 {
        48 + d as u8
    } else {
        87 + d as u8
    }
}

fn push_hex4(text: &mut Vec<u8>, v: u16)
    ensures
        final(text)@ == old(text)@ + hex4(v),
{
    text.push(hex_digit(v / 4096));
    text.push(hex_digit((v / 256) % 16));
    text.push(hex_digit((v / 16) % 16));
    text.push(hex_digit(v % 16));
    assert(text@ =~= old(text)@ + hex4(v));
}

/// Where the first `:` at or after `from` stands; the length where there is none.
fn find_colon(bytes: &[u8], from: usize) -> (p: usize)
    requires
        from <= bytes@.len(),
    ensures
        from <= p <= bytes@.len(),
        p - from == first_colon(bytes@.skip(from as int)),
{
    let mut p = from;
    while p < bytes.len() && bytes[p] != 58u8
        invariant
            from <= p <= bytes@.len(),
            first_colon(bytes@.skip(from as int)) == (p - from) + first_colon(bytes@.skip(p as int)),
        decreases bytes@.len() - p,
    {
        proof {
            assert(bytes@.skip(p as int).drop_first() =~= bytes@.skip(p + 1));
        }
        p = p + 1;
    }
    p
}

/// Reads `bytes[start..end]` as `u16::from_str_radix(_, 16)` does.
fn parse_hex_u16(bytes: &[u8], start: usize, end: usize) -> (r: Result<u16, HexParseError>)
    requires
        start <= end <= bytes@.len(),
    ensures
        r == spec_parse_hex_u16(bytes@.subrange(start as int, end as int)),
{
    let ghost s = bytes@.subrange(start as int, end as int);
    if start == end {
        return Err(HexParseError::Empty);
    }
    if end - start == 1 && (bytes[start] == 43u8 || bytes[start] == 45u8) {
        return Err(HexParseError::InvalidDigit);
    }
    let mut i = start;
    if bytes[start] == 43u8 {
        i = start + 1;
    }
    let ghost digits = bytes@.subrange(i as int, end as int);
    proof {
        if bytes[start as int] == 43u8 {
            assert(s.drop_first() =~= digits);
        } else {
            assert(s =~= digits);
        }
    }
    let mut acc: u32 = 0;
    while i < end
        invariant
            start <= i <= end,
            end <= bytes@.len(),
            acc <= 0xFFFF,
            s == bytes@.subrange(start as int, end as int),
            spec_parse_hex_u16(s) == (match hex_fold(digits, 0) {
                Ok(v) => Ok(v as u16),
                Err(e) => Err(e),
            }),
            hex_fold(digits, 0) == hex_fold(bytes@.subrange(i as int, end as int), acc as nat),
        decreases end - i,
    {
        let b = bytes[i];
        let d: u32 = if 48u8 <= b && b <= 57u8 {
            (b - 48u8) as u32
        } else if 97u8 <= b && b <= 102u8 {
            (b - 87u8) as u32
        } else if 65u8 <= b && b <= 70u8 {
            (b - 55u8) as u32
        } else {
            return Err(HexParseError::InvalidDigit);
        };
        if 16 * acc + d > 0xFFFF {
            return Err(HexParseError::PosOverflow);
        }
        proof {
            assert(bytes@.subrange(i as int, end as int).drop_first() =~= bytes@.subrange(
                i + 1,
                end as int,
            ));
        }
        acc = 16 * acc + d;
        i = i + 1;
    }
    Ok(acc as u16)
}

/// Reading the text form of a device id gives the id back.
pub proof fn lemma_device_id_text_roundtrip(id: DeviceId)
    ensures
        DeviceId::spec_parse(id.spec_text()) == Ok::<DeviceId, DeviceIdParseError>(id),
{
    let s = id.spec_text();
    lemma_hex4_roundtrip(id.vendor);
    lemma_hex4_roundtrip(id.product);
    lemma_hex4_roundtrip(id.version);
    let h1 = hex4(id.vendor);
    let h2 = hex4(id.product);
    let h3 = hex4(id.version);
    lemma_hex4_no_colon(id.vendor, seq![58u8] + h2 + seq![58u8] + h3);
    assert(s =~= h1 + (seq![58u8] + h2 + seq![58u8] + h3));
    assert(first_colon(s) == 4);
    let rest1 = s.skip(5);
    assert(rest1 =~= h2 + (seq![58u8] + h3));
    lemma_hex4_no_colon(id.product, seq![58u8] + h3);
    assert(first_colon(rest1) == 4);
    let rest2 = rest1.skip(5);
    assert(rest2 =~= h3);
    lemma_hex4_no_colon(id.version, Seq::empty());
    assert(h3 + Seq::<u8>::empty() =~= h3);
    assert(s.take(4) =~= h1);
    assert(rest1.take(4) =~= h2);
}

proof fn lemma_hex4_no_colon(v: u16, tail: Seq<u8>)
    ensures
        first_colon(hex4(v) + tail) == 4 + first_colon(tail),
{
    lemma_hex4_digits(v);
    let s = hex4(v) + tail;
    assert(s[0] != 58 && s[1] != 58 && s[2] != 58 && s[3] != 58);
    assert(s.drop_first().drop_first().drop_first().drop_first() =~= tail);
    reveal_with_fuel(first_colon, 5);
}

proof fn lemma_hex4_digits(v: u16)
    ensures
        v / 4096 < 16,
        (v / 256) % 16 < 16,
        (v / 16) % 16 < 16,
        v % 16 < 16,
        16 * (16 * (16 * (v / 4096) + (v / 256) % 16) + (v / 16) % 16) + v % 16 == v,
        16 * (v / 4096) + (v / 256) % 16 <= 0xFFFF,
        16 * (16 * (v / 4096) + (v / 256) % 16) + (v / 16) % 16 <= 0xFFFF,
{
    let x = v as int;
    assert(16 * (16 * (16 * (x / 4096) + (x / 256) % 16) + (x / 16) % 16) + x % 16 == x) by (nonlinear_arith)
        requires
            0 <= x <= 0xFFFF,
    {
        assert(x / 256 == 16 * (x / 4096) + (x / 256) % 16);
        assert(x / 16 == 16 * (x / 256) + (x / 16) % 16);
        assert(x == 16 * (x / 16) + x % 16);
    }
}

proof fn lemma_hex4_roundtrip(v: u16)
    ensures
        spec_parse_hex_u16(hex4(v)) == Ok::<u16, HexParseError>(v),
{
    lemma_hex4_digits(v);
    let h = hex4(v);
    let d3 = (v / 4096) as nat;
    let d2 = ((v / 256) % 16) as nat;
    let d1 = ((v / 16) % 16) as nat;
    let d0 = (v % 16) as nat;
    assert(hex_digit_value(h[0]) == Some(d3));
    assert(hex_digit_value(h[1]) == Some(d2));
    assert(hex_digit_value(h[2]) == Some(d1));
    assert(hex_digit_value(h[3]) == Some(d0));
    let t1 = h.drop_first();
    let t2 = t1.drop_first();
    let t3 = t2.drop_first();
    let t4 = t3.drop_first();
    assert(t4 =~= Seq::<u8>::empty());
    assert(hex_fold(t4, 16 * (16 * (16 * d3 + d2) + d1) + d0) == Ok::<nat, HexParseError>(v as nat));
    assert(hex_fold(t3, 16 * (16 * d3 + d2) + d1) == Ok::<nat, HexParseError>(v as nat));
    assert(hex_fold(t2, 16 * d3 + d2) == Ok::<nat, HexParseError>(v as nat));
    assert(hex_fold(t1, d3) == Ok::<nat, HexParseError>(v as nat));
    assert(hex_fold(h, 0) == Ok::<nat, HexParseError>(v as nat));
}

} // verus!
