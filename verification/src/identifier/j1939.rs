use vstd::prelude::*;
use crate::Conversion;
use crate::constant::EFF_MASK;
use crate::hex::{parse_hex_u32, spec_parse_hex_u32, spec_upper_hex, upper_hex_8};
use crate::j1939::address::SourceAddress;

verus! {

/// A J1939 identifier: 32 bits that hold, from the most significant bit
/// down, 3 bits of padding, 3 bits of priority, the reserved bit, the data
/// page bit, and one byte each of PDU format, PDU specific and source
/// address.
#[derive(Clone, Copy, Debug, Default, PartialEq, Eq, PartialOrd, Ord, Structural)]
pub struct J1939(pub u32);

impl J1939 {
    /// The identifier with the given bits, where they fit in 29 bits.
    pub open spec fn spec_try_from_bits(bits: u32) -> Option<J1939> {
        if bits > EFF_MASK {
            None
        } else {
            Some(J1939(bits))
        }
    }

    /// The bits of the identifier that is made of the given parts.
    pub open spec fn spec_pack(
        priority: u8,
        reserved: bool,
        data_page: bool,
        pdu_format: u8,
        pdu_specific: u8,
        source_addr: u8,
    ) -> u32 {
        (priority * 0x400_0000 + (if reserved {
            0x200_0000int
        } else {
            0
        }) + (if data_page {
            0x100_0000int
        } else {
            0
        }) + pdu_format * 0x1_0000 + pdu_specific * 0x100 + source_addr) as u32
    }

    pub open spec fn spec_priority(&self) -> u8 {
        ((self.0 / 0x400_0000) % 8) as u8
    }

    pub open spec fn spec_reserved(&self) -> bool {
        (self.0 / 0x200_0000) % 2 == 1
    }

    pub open spec fn spec_data_page(&self) -> bool {
        (self.0 / 0x100_0000) % 2 == 1
    }

    pub open spec fn spec_pdu_format(&self) -> u8 {
        ((self.0 / 0x1_0000) % 0x100) as u8
    }

    pub open spec fn spec_pdu_specific(&self) -> u8 {
        ((self.0 / 0x100) % 0x100) as u8
    }

    pub open spec fn spec_source_address(&self) -> SourceAddress {
        SourceAddress::Present((self.0 % 0x100) as u8)
    }

    /// The identifier made of the given parts, with zero padding. There is
    /// none for a priority above 7.
    pub fn from_raw_parts(
        priority: u8,
        reserved: bool,
        data_page: bool,
        pdu_format: u8,
        pdu_specific: u8,
        source_addr: u8,
    ) -> (r: Option<Self>)
        ensures
            priority > 7 ==> r is None,
            priority <= 7 ==> r == Some(
                J1939(
                    Self::spec_pack(
                        priority,
                        reserved,
                        data_page,
                        pdu_format,
                        pdu_specific,
                        source_addr,
                    ),
                ),
            ),
    {
        if priority > 0x7 {
            return None;
        }
        let mut bits: u32 = (priority as u32) * 0x400_0000;
        if reserved {
            bits = bits + 0x200_0000;
        }
        if data_page {
            bits = bits + 0x100_0000;
        }
        bits = bits + (pdu_format as u32) * 0x1_0000;
        bits = bits + (pdu_specific as u32) * 0x100;
        bits = bits + (source_addr as u32);
        Some(J1939(bits))
    }

    /// The priority; 0 is the highest.
    #[verifier::when_used_as_spec(spec_priority)]
    pub fn priority(&self) -> (r: u8)
        ensures
            r == self.spec_priority(),
    {
        ((self.0 / 0x400_0000) % 8) as u8
    }

    /// The reserved bit.
    #[verifier::when_used_as_spec(spec_reserved)]
    pub fn reserved(&self) -> (r: bool)
        ensures
            r == self.spec_reserved(),
    {
        (self.0 / 0x200_0000) % 2 == 1
    }

    /// The data page bit.
    #[verifier::when_used_as_spec(spec_data_page)]
    pub fn data_page(&self) -> (r: bool)
        ensures
            r == self.spec_data_page(),
    {
        (self.0 / 0x100_0000) % 2 == 1
    }

    /// The PDU format byte.
    #[verifier::when_used_as_spec(spec_pdu_format)]
    pub fn pdu_format(&self) -> (r: u8)
        ensures
            r == self.spec_pdu_format(),
    {
        ((self.0 / 0x1_0000) % 0x100) as u8
    }

    /// The PDU specific byte.
    #[verifier::when_used_as_spec(spec_pdu_specific)]
    pub fn pdu_specific(&self) -> (r: u8)
        ensures
            r == self.spec_pdu_specific(),
    {
        ((self.0 / 0x100) % 0x100) as u8
    }

    /// The source address byte.
    #[verifier::when_used_as_spec(spec_source_address)]
    pub fn source_address(&self) -> (r: SourceAddress)
        ensures
            r == self.spec_source_address(),
    {
        SourceAddress::Present((self.0 % 0x100) as u8)
    }
}

/// The parts that an identifier was made of are the parts that it has, and
/// it has 29 bits.
pub proof fn lemma_raw_parts_round_trip(
    priority: u8,
    reserved: bool,
    data_page: bool,
    pdu_format: u8,
    pdu_specific: u8,
    source_addr: u8,
)
    requires
        priority <= 7,
    ensures
        ({
            let id = J1939(
                J1939::spec_pack(priority, reserved, data_page, pdu_format, pdu_specific, source_addr),
            );
            &&& id.spec_priority() == priority
            &&& id.spec_reserved() == reserved
            &&& id.spec_data_page() == data_page
            &&& id.spec_pdu_format() == pdu_format
            &&& id.spec_pdu_specific() == pdu_specific
            &&& id.spec_source_address() == SourceAddress::Present(source_addr)
            &&& id.0 <= EFF_MASK
        }),
{
    let r: int = if reserved {
        1
    } else {
        0
    };
    let d: int = if data_page {
        1
    } else {
        0
    };
    let bits = J1939::spec_pack(priority, reserved, data_page, pdu_format, pdu_specific, source_addr);
    let k1 = priority * 0x4_0000 + r * 0x2_0000 + d * 0x1_0000 + pdu_format * 0x100 + pdu_specific;
    let k2 = priority * 0x400 + r * 0x200 + d * 0x100 + pdu_format;
    let k3 = priority * 4 + r * 2 + d;
    let k4 = priority * 2 + r;
    assert(bits == 0x100 * k1 + source_addr);
    assert(bits == 0x1_0000 * k2 + (pdu_specific * 0x100 + source_addr));
    assert(bits == 0x100_0000 * k3 + (pdu_format * 0x1_0000 + pdu_specific * 0x100 + source_addr));
    assert(bits / 0x100_0000 == k3);
    assert(bits == 0x200_0000 * k4 + (d * 0x100_0000 + pdu_format * 0x1_0000 + pdu_specific * 0x100
        + source_addr));
    assert(bits / 0x200_0000 == k4);
    assert(bits == 0x400_0000 * priority + (r * 0x200_0000 + d * 0x100_0000 + pdu_format * 0x1_0000
        + pdu_specific * 0x100 + source_addr));
    assert(bits / 0x400_0000 == priority);
    assert(bits / 0x1_0000 == k2);
    assert(bits / 0x100 == k1);
}

impl Conversion for J1939 {
    type Type = u32;

    fn from_bits(bits: u32) -> (r: Self)
        ensures
            r == J1939(bits),
    {
        J1939(bits)
    }

    fn from_hex(hex_str: &str) -> (r: Self)
        ensures
            r == J1939(
                match spec_parse_hex_u32(hex_str@) {
                    Some(bits) => bits,
                    None => 0,
                },
            ),
    {
        match parse_hex_u32(hex_str) {
            Some(bits) => J1939(bits),
            None => J1939(0),
        }
    }

    fn try_from_bits(bits: u32) -> (r: Option<Self>)
        ensures
            r == J1939::spec_try_from_bits(bits),
    {
        if bits > EFF_MASK {
            None
        } else {
            Some(J1939(bits))
        }
    }

    fn try_from_hex(hex_str: &str) -> (r: Option<Self>)
        ensures
            r == match spec_parse_hex_u32(hex_str@) {
                Some(bits) => J1939::spec_try_from_bits(bits),
                None => None,
            },
    {
        match parse_hex_u32(hex_str) {
            Some(bits) => Self::try_from_bits(bits),
            None => None,
        }
    }

    fn into_bits(self) -> (r: u32)
        ensures
            r == self.0,
    {
        self.0
    }

    fn into_hex(self) -> (r: String)
        ensures
            r@ == spec_upper_hex(self.0 as nat, 8),
    {
        upper_hex_8(self.0)
    }
}

} // verus!
