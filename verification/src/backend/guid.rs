//! Device GUIDs, made the way SDL (Simple DirectMedia Layer) makes them so
//! that SDL's controller mapping database can be carried over.
//!
//! Portions of this file are derived from SDL, which is licensed under the
//! zlib license: Copyright (C) 1997-2026 Sam Lantinga <slouken@libsdl.org>.
//! This software is provided 'as-is', without any express or implied warranty.
//! In no event will the authors be held liable for any damages.
//! Permission is granted for any purpose, including commercial applications,
//! subject to the following restrictions:
//! 1. The origin of this software must not be misrepresented.
//! 2. Altered versions must be plainly marked as such.
//! 3. This notice must not be removed or altered from source distribution.
//! Full license text: https://github.com/libsdl-org/SDL/blob/main/LICENSE.txt
use vstd::prelude::*;
#[allow(unused_imports)]
use vstd::string::StringSliceAdditionalSpecFns;

verus! {

/// A 128-bit device identifier, as its sixteen bytes.
#[derive(Debug, Clone, Copy, PartialEq, Eq, Hash)]
pub struct Guid {
    pub bytes: [u8; 16],
}

/// One step of the reflected CRC-16 (polynomial 0xA001) over a single bit.
pub open spec fn crc_bit(crc: u16) -> u16 {
    if crc & 1 != 0 {
        (crc >> 1) ^ 0xA001
    } else {
        crc >> 1
    }
}

/// `n` steps of [`crc_bit`].
pub open spec fn crc_bits(crc: u16, n: nat) -> u16
    decreases n,
{
    if n == 0 {
        crc
    } else {
        crc_bit(crc_bits(crc, (n - 1) as nat))
    }
}

/// The CRC-16 register after one more byte.
pub open spec fn crc_byte(crc: u16, b: u8) -> u16 {
    crc_bits(crc ^ (b as u16), 8)
}

/// The CRC-16 register after the bytes of `data`, in order, starting from `crc`.
pub open spec fn spec_crc16(crc: u16, data: Seq<u8>) -> u16
    decreases data.len(),
{
    if data.len() == 0 {
        crc
    } else {
        spec_crc16(crc_byte(crc, data[0]), data.drop_first())
    }
}

/// Runs the CRC-16 of SDL over `data`, starting from `crc`.
pub fn crc16(crc: u16, data: &[u8]) -> (r: u16)
    ensures
        r == spec_crc16(crc, data@),
{
    let mut crc = crc;
    let ghost start = crc;
    let mut i: usize = 0;
    proof {
        assert(data@.skip(0) =~= data@);
    }
    while i < data.len()
        invariant
            i <= data@.len(),
            spec_crc16(start, data@) == spec_crc16(crc, data@.skip(i as int)),
        decreases data@.len() - i,
    {
        let ghost before = crc;
        crc = crc ^ (data[i] as u16);
        let ghost mixed = crc;
        let mut bit: usize = 0;
        while bit < 8
            invariant
                bit <= 8,
                crc == crc_bits(mixed, bit as nat),
            decreases 8 - bit,
        {
            if crc & 1 != 0 {
                crc = (crc >> 1) ^ 0xA001;
            } else {
                crc = crc >> 1;
            }
            bit = bit + 1;
        }
        proof {
            assert(data@.skip(i as int).drop_first() =~= data@.skip(i + 1));
        }
        i = i + 1;
    }
    crc
}

/// The checksum that a GUID carries of a device's names: the CRC of the
/// vendor name, a space and the product name where both are given and not
/// empty, else of the product name where one is given, else zero.
pub open spec fn spec_name_crc(vendor_name: Option<Seq<u8>>, product_name: Option<Seq<u8>>) -> u16 {
    match (vendor_name, product_name) {
        (Some(vn), Some(pn)) => if vn.len() > 0 && pn.len() > 0 {
            spec_crc16(spec_crc16(spec_crc16(0, vn), seq![32u8]), pn)
        } else {
            spec_crc16(0, pn)
        },
        (None, Some(pn)) => spec_crc16(0, pn),
        (_, None) => 0,
    }
}

/// Low byte of a 16-bit number.
pub open spec fn lo(v: u16) -> u8 {
    (v % 256) as u8
}

/// High byte of a 16-bit number.
pub open spec fn hi(v: u16) -> u8 {
    (v / 256) as u8
}

/// How many bytes of the product name a GUID without a vendor id holds.
/// The name field spans twelve bytes, or ten where a driver signature takes
/// the last two; as with SDL's `SDL_strlcpy` into that field, one byte of it
/// is kept for the terminating zero, so eleven or nine name bytes fit.
pub open spec fn name_room(driver_signature: u8) -> int {
    if driver_signature != 0 {
        9
    } else {
        11
    }
}

/// Byte `i` of the GUID of a device.
///
/// Bytes 0-1 hold the bus and 2-3 the name checksum, little-endian. With a
/// vendor id, bytes 4-5, 8-9 and 12-13 hold vendor, product and version,
/// little-endian, bytes 6-7 and 10-11 are zero, and bytes 14 and 15 hold the
/// driver signature and driver data. Without one, the product name's bytes
/// fill bytes 4 onwards as far as there is room, the driver signature and
/// data take bytes 14 and 15 where the signature is not zero, and every other
/// byte is zero, so the name always ends in a zero byte within its field.
pub open spec fn spec_guid_byte(
    i: int,
    bus: u16,
    vendor: u16,
    product: u16,
    version: u16,
    crc: u16,
    product_name: Option<Seq<u8>>,
    driver_signature: u8,
    driver_data: u8,
) -> u8 {
    if i == 0 {
        lo(bus)
    } else if i == 1 {
        hi(bus)
    } else if i == 2 {
        lo(crc)
    } else if i == 3 {
        hi(crc)
    } else if vendor != 0 {
        if i == 4 {
            lo(vendor)
        } else if i == 5 {
            hi(vendor)
        } else if i == 8 {
            lo(product)
        } else if i == 9 {
            hi(product)
        } else if i == 12 {
            lo(version)
        } else if i == 13 {
            hi(version)
        } else if i == 14 {
            driver_signature
        } else if i == 15 {
            driver_data
        } else {
            0
        }
    } else if driver_signature != 0 && i == 14 {
        driver_signature
    } else if driver_signature != 0 && i == 15 {
        driver_data
    } else {
        match product_name {
            Some(name) => if i - 4 < name.len() && i - 4 < name_room(driver_signature) {
                name[i - 4]
            } else {
                0
            },
            None => 0,
        }
    }
}

/// The GUID of a device, as SDL computes it.
pub open spec fn spec_guid(
    bus: u16,
    vendor: u16,
    product: u16,
    version: u16,
    vendor_name: Option<Seq<u8>>,
    product_name: Option<Seq<u8>>,
    driver_signature: u8,
    driver_data: u8,
) -> Seq<u8> {
    let crc = spec_name_crc(vendor_name, product_name);
    Seq::new(
        16,
        |i: int|
            spec_guid_byte(
                i,
                bus,
                vendor,
                product,
                version,
                crc,
                product_name,
                driver_signature,
                driver_data,
            ),
    )
}

/// The bytes of an optional name.
pub open spec fn name_bytes(name: Option<&str>) -> Option<Seq<u8>> {
    match name {
        Some(s) => Some(s.spec_bytes()),
        None => None,
    }
}

/// Gets the GUID of a device using the same method as SDL.
/// This was chosen so that the SDL controller mapping database can serve as it is.
pub fn get_guid(
    bus: u16,
    vendor: u16,
    product: u16,
    version: u16,
    vendor_name: Option<&str>,
    product_name: Option<&str>,
    driver_signature: u8,
    driver_data: u8,
) -> (guid: Guid)
    ensures
        guid.bytes@ == spec_guid(
            bus,
            vendor,
            product,
            version,
            name_bytes(vendor_name),
            name_bytes(product_name),
            driver_signature,
            driver_data,
        ),
{
    let mut bytes = [0u8; 16];
    let mut crc: u16 = 0;
    match (vendor_name, product_name) {
        (Some(vn), Some(pn)) => {
            let vb = vn.as_bytes();
            let pb = pn.as_bytes();
            if vb.len() != 0 && pb.len() != 0 {
                crc = crc16(crc, vb);
                let space = [32u8];
                proof {
                    assert(space@ =~= seq![32u8]);
                }
                crc = crc16(crc, &space);
                crc = crc16(crc, pb);
            } else {
                crc = crc16(crc, pb);
            }
        },
        (None, Some(pn)) => {
            crc = crc16(crc, pn.as_bytes());
        },
        (_, None) => {},
    }
    let ghost vn = name_bytes(vendor_name);
    let ghost pn = name_bytes(product_name);
    assert(crc == spec_name_crc(vn, pn));

    bytes[0] = (bus % 256) as u8;
    bytes[1] = (bus / 256) as u8;
    bytes[2] = (crc % 256) as u8;
    bytes[3] = (crc / 256) as u8;

    if vendor != 0 {
        bytes[4] = (vendor % 256) as u8;
        bytes[5] = (vendor / 256) as u8;
        bytes[8] = (product % 256) as u8;
        bytes[9] = (product / 256) as u8;
        bytes[12] = (version % 256) as u8;
        bytes[13] = (version / 256) as u8;
        bytes[14] = driver_signature;
        bytes[15] = driver_data;
    } else {
        let offset: usize = 4;
        let mut available: usize = 16 - offset;
        if driver_signature != 0 {
            available = available - 2;
            bytes[14] = driver_signature;
            bytes[15] = driver_data;
        }
        // The name is copied as SDL_strlcpy copies it: at most one byte less
        // than the room, so that a terminating zero always follows.
        let room = available - 1;
        if let Some(name) = product_name {
            let name_bytes = name.as_bytes();
            let len = if name_bytes.len() < room {
                name_bytes.len()
            } else {
                room
            };
            let mut j: usize = 0;
            while j < len
                invariant
                    j <= len,
                    len <= room,
                    room == available - 1,
                    offset == 4,
                    room == name_room(driver_signature),
                    len <= name_bytes@.len(),
                    name_bytes@ == name.spec_bytes(),
                    len == name_bytes@.len() || len == room,
                    vendor == 0,
                    bytes[0] == lo(bus),
                    bytes[1] == hi(bus),
                    bytes[2] == lo(crc),
                    bytes[3] == hi(crc),
                    driver_signature != 0 ==> bytes[14] == driver_signature && bytes[15]
                        == driver_data,
                    forall|k: int| 4 <= k < 4 + j ==> bytes@[k] == name_bytes@[k - 4],
                    forall|k: int|
                        4 + j <= k < 16 && !(driver_signature != 0 && (k == 14 || k == 15))
                            ==> bytes@[k] == 0,
                decreases len - j,
            {
                bytes[offset + j] = name_bytes[j];
                j = j + 1;
            }
        }
    }
    let guid = Guid { bytes };
    assert(guid.bytes@ =~= spec_guid(
        bus,
        vendor,
        product,
        version,
        vn,
        pn,
        driver_signature,
        driver_data,
    ));
    guid
}

/// The GUID that a device shares with others of its model: byte 13 set to
/// one and the name checksum (bytes 2 and 3) cleared.
pub open spec fn spec_alternative(bytes: Seq<u8>) -> Seq<u8> {
    bytes.update(13, 1).update(2, 0).update(3, 0)
}

pub fn alternative_guid(base: Guid) -> (guid: Guid)
    ensures
        guid.bytes@ == spec_alternative(base.bytes@),
{
    let mut bytes = base.bytes;
    bytes[13] = 1;
    bytes[2] = 0;
    bytes[3] = 0;
    Guid { bytes }
}

impl Guid {
    /// The GUID as one number, its first byte most significant.
    pub open spec fn spec_u128(self) -> u128 {
        crate::bytes::be_value(self.bytes@) as u128
    }

    /// The GUID as one number, its first byte most significant; this is the
    /// number under which mapping tables file the GUID.
    pub fn as_u128(&self) -> (v: u128)
        ensures
            v == self.spec_u128(),
            v == crate::bytes::be_value(self.bytes@),
    {
        let mut v: u128 = 0;
        let mut i: usize = 0;
        proof {
            assert(self.bytes@.take(0) =~= Seq::<u8>::empty());
            reveal_with_fuel(crate::bytes::pow256, 17);
        }
        while i < 16
            invariant
                i <= 16,
                self.bytes@.len() == 16,
                v == crate::bytes::be_value(self.bytes@.take(i as int)),
                crate::bytes::pow256(16) == 0x1_0000_0000_0000_0000_0000_0000_0000_0000,
            decreases 16 - i,
        {
            let ghost prefix = self.bytes@.take(i as int);
            proof {
                crate::bytes::lemma_be_value_bound(prefix);
                crate::bytes::lemma_pow256_monotonic((i + 1) as nat, 16);
                assert(crate::bytes::pow256((i + 1) as nat) == 256 * crate::bytes::pow256(
                    i as nat,
                ));
                assert(self.bytes@.take(i + 1).drop_last() =~= prefix);
            }
            v = 256 * v + self.bytes[i] as u128;
            i = i + 1;
        }
        proof {
            assert(self.bytes@.take(16) =~= self.bytes@);
        }
        v
    }
}

/// Running the checksum over two pieces one after the other is running it
/// over the two pieces joined.
pub proof fn law_crc16_concat(crc: u16, a: Seq<u8>, b: Seq<u8>)
    ensures
        spec_crc16(crc, a + b) == spec_crc16(spec_crc16(crc, a), b),
    decreases a.len(),
{
    if a.len() > 0 {
        assert((a + b).drop_first() =~= a.drop_first() + b);
        law_crc16_concat(crc_byte(crc, a[0]), a.drop_first(), b);
    } else {
        assert(a + b =~= b);
    }
}

/// Different registers give different registers after one bit step.
proof fn lemma_crc_bit_injective(x: u16, y: u16)
    requires
        crc_bit(x) == crc_bit(y),
    ensures
        x == y,
{
    let low_x = x & 1;
    let low_y = y & 1;
    let rx = crc_bit(x);
    assert(x == y) by (bit_vector)
        requires
            low_x == x & 1,
            low_y == y & 1,
            rx == (if low_x != 0 { (x >> 1) ^ 0xA001u16 } else { x >> 1 }),
            rx == (if low_y != 0 { (y >> 1) ^ 0xA001u16 } else { y >> 1 }),
    ;
}

/// Different registers give different registers after `n` bit steps.
proof fn lemma_crc_bits_injective(x: u16, y: u16, n: nat)
    requires
        crc_bits(x, n) == crc_bits(y, n),
    ensures
        x == y,
    decreases n,
{
    if n > 0 {
        lemma_crc_bit_injective(crc_bits(x, (n - 1) as nat), crc_bits(y, (n - 1) as nat));
        lemma_crc_bits_injective(x, y, (n - 1) as nat);
    }
}

/// Over the same bytes, different starting registers give different checksums.
proof fn lemma_crc16_injective_start(c: u16, d: u16, data: Seq<u8>)
    requires
        spec_crc16(c, data) == spec_crc16(d, data),
    ensures
        c == d,
    decreases data.len(),
{
    if data.len() > 0 {
        let b = data[0];
        lemma_crc16_injective_start(crc_byte(c, b), crc_byte(d, b), data.drop_first());
        lemma_crc_bits_injective(c ^ (b as u16), d ^ (b as u16), 8);
        let w = b as u16;
        assert(c == d) by (bit_vector)
            requires
                c ^ w == d ^ w,
        ;
    }
}

/// The checksum tells apart any two byte strings that differ in a single
/// byte, wherever it stands: a letter and its other case (`a` and `A`) too,
/// since the bytes are taken as they are.
pub proof fn law_crc16_detects_changed_byte(crc: u16, prefix: Seq<u8>, a: u8, b: u8, rest: Seq<u8>)
    ensures
        a != b ==> spec_crc16(crc, prefix + seq![a] + rest) != spec_crc16(crc, prefix + seq![b] + rest),
{
    if spec_crc16(crc, prefix + seq![a] + rest) == spec_crc16(crc, prefix + seq![b] + rest) {
        let p = spec_crc16(crc, prefix);
        law_crc16_concat(crc, prefix + seq![a], rest);
        law_crc16_concat(crc, prefix + seq![b], rest);
        law_crc16_concat(crc, prefix, seq![a]);
        law_crc16_concat(crc, prefix, seq![b]);
        assert(seq![a].drop_first() =~= Seq::<u8>::empty());
        assert(seq![b].drop_first() =~= Seq::<u8>::empty());
        assert(spec_crc16(crc_byte(p, a), Seq::<u8>::empty()) == crc_byte(p, a));
        assert(spec_crc16(crc_byte(p, b), Seq::<u8>::empty()) == crc_byte(p, b));
        assert(spec_crc16(p, seq![a]) == crc_byte(p, a));
        assert(spec_crc16(p, seq![b]) == crc_byte(p, b));
        lemma_crc16_injective_start(crc_byte(p, a), crc_byte(p, b), rest);
        lemma_crc_bits_injective(p ^ (a as u16), p ^ (b as u16), 8);
        let wa = a as u16;
        let wb = b as u16;
        assert(wa == wb) by (bit_vector)
            requires
                p ^ wa == p ^ wb,
        ;
    }
}

/// Two product names that differ in a single byte give GUIDs different
/// name checksums, whatever the vendor name: names that differ only in the
/// case of a letter are different devices.
pub proof fn law_name_crc_detects_changed_byte(
    vendor_name: Option<Seq<u8>>,
    prefix: Seq<u8>,
    a: u8,
    b: u8,
    rest: Seq<u8>,
)
    ensures
        a != b ==> spec_name_crc(vendor_name, Some(prefix + seq![a] + rest)) != spec_name_crc(
            vendor_name,
            Some(prefix + seq![b] + rest),
        ),
{
    let c = match vendor_name {
        Some(vn) => if vn.len() > 0 {
            spec_crc16(spec_crc16(0, vn), seq![32u8])
        } else {
            0
        },
        None => 0,
    };
    law_crc16_detects_changed_byte(c, prefix, a, b, rest);
}

/// Where both names are given and not empty, the name checksum of a GUID
/// is the checksum of the text `vendor product`.
pub proof fn law_name_crc_of_full_name(vendor_name: Seq<u8>, product_name: Seq<u8>)
    requires
        vendor_name.len() > 0,
        product_name.len() > 0,
    ensures
        spec_name_crc(Some(vendor_name), Some(product_name)) == spec_crc16(
            0,
            vendor_name + seq![32u8] + product_name,
        ),
{
    law_crc16_concat(0, vendor_name + seq![32u8], product_name);
    law_crc16_concat(0, vendor_name, seq![32u8]);
}

/// Without a vendor id, the product name held in a GUID always ends in a
/// zero byte inside its field: at most eleven (nine with a driver signature)
/// name bytes are kept, and the byte after them is zero.
pub proof fn law_name_is_terminated(
    bus: u16,
    product: u16,
    version: u16,
    vendor_name: Option<Seq<u8>>,
    name: Seq<u8>,
    driver_signature: u8,
    driver_data: u8,
)
    ensures
        ({
            let kept = if name.len() < name_room(driver_signature) {
                name.len() as int
            } else {
                name_room(driver_signature)
            };
            let guid = spec_guid(
                bus,
                0,
                product,
                version,
                vendor_name,
                Some(name),
                driver_signature,
                driver_data,
            );
            &&& forall|i: int| 0 <= i < kept ==> guid[4 + i] == name[i]
            &&& guid[4 + kept] == 0
        }),
{
}

/// The alternative of an alternative GUID is itself.
pub proof fn lemma_alternative_idempotent(bytes: Seq<u8>)
    requires
        bytes.len() == 16,
    ensures
        spec_alternative(spec_alternative(bytes)) == spec_alternative(bytes),
{
    assert(spec_alternative(spec_alternative(bytes)) =~= spec_alternative(bytes));
}

/// The alternative of a GUID depends only on bytes other than the name
/// checksum and byte 13: two devices of one model whose names differ share it.
pub proof fn lemma_alternative_ignores_names(a: Seq<u8>, b: Seq<u8>)
    requires
        a.len() == 16,
        b.len() == 16,
        forall|i: int| 0 <= i < 16 && i != 2 && i != 3 && i != 13 ==> a[i] == b[i],
    ensures
        spec_alternative(a) == spec_alternative(b),
{
    assert(spec_alternative(a) =~= spec_alternative(b));
}

/// Devices of one model (one bus, vendor id, product id, version, driver
/// signature and data) that carry a vendor id share their alternative GUID,
/// whatever their names.
pub proof fn law_alternative_guid_ignores_names(
    bus: u16,
    vendor: u16,
    product: u16,
    version: u16,
    vendor_name_a: Option<Seq<u8>>,
    product_name_a: Option<Seq<u8>>,
    vendor_name_b: Option<Seq<u8>>,
    product_name_b: Option<Seq<u8>>,
    driver_signature: u8,
    driver_data: u8,
)
    requires
        vendor != 0,
    ensures
        spec_alternative(
            spec_guid(
                bus,
                vendor,
                product,
                version,
                vendor_name_a,
                product_name_a,
                driver_signature,
                driver_data,
            ),
        ) == spec_alternative(
            spec_guid(
                bus,
                vendor,
                product,
                version,
                vendor_name_b,
                product_name_b,
                driver_signature,
                driver_data,
            ),
        ),
{
    let a = spec_guid(
        bus,
        vendor,
        product,
        version,
        vendor_name_a,
        product_name_a,
        driver_signature,
        driver_data,
    );
    let b = spec_guid(
        bus,
        vendor,
        product,
        version,
        vendor_name_b,
        product_name_b,
        driver_signature,
        driver_data,
    );
    lemma_alternative_ignores_names(a, b);
}

} // verus!
