use vstd::prelude::*;
use crate::Conversion;
use crate::constant::{EFF_MASK, SFF_MASK};
use crate::hex::{parse_hex_u32, spec_parse_hex_u32, spec_upper_hex, upper_hex_8};

pub mod can2a;
pub mod can2b;
pub mod j1939;

pub use can2a::Can2A;
pub use can2b::Can2B;
pub use j1939::J1939;

verus! {

/// A CAN identifier of one of three kinds.
#[derive(Debug, Clone, Copy, PartialEq, Eq, PartialOrd, Ord, Structural)]
pub enum Id {
    /// 11 bits.
    Standard(u16),
    /// 29 bits.
    Extended(u32),
    /// 29 bits, read as a J1939 identifier.
    J1939(J1939),
}

impl Id {
    /// The identifier that the low 29 bits of `bits` make: an extended one
    /// where `extended` asks for it or the bits do not fit in 11, a standard
    /// one otherwise.
    pub open spec fn spec_from_bits(bits: u32, extended: bool) -> Id {
        let masked = bits & EFF_MASK;
        if extended || masked > SFF_MASK {
            Id::Extended(masked)
        } else {
            Id::Standard(masked as u16)
        }
    }

    /// As [`Id::spec_from_bits`], where the bits fit in 29.
    pub open spec fn spec_try_from_bits(bits: u32, extended: bool) -> Option<Id> {
        if bits <= EFF_MASK {
            Some(Self::spec_from_bits(bits, extended))
        } else {
            None
        }
    }

    pub open spec fn spec_into_bits(self) -> u32 {
        match self {
            Id::Standard(v) => v as u32,
            Id::Extended(v) => v,
            Id::J1939(v) => v.0,
        }
    }

    /// The base identifier: a standard identifier itself, or the bits from
    /// the 18th up of an identifier of 29 bits.
    pub open spec fn spec_standard_id(self) -> Id {
        match self {
            Id::Standard(_) => self,
            Id::Extended(v) => Id::Standard((v >> 18) as u16),
            Id::J1939(v) => Id::Standard((v.0 >> 18) as u16),
        }
    }

    pub open spec fn spec_is_extended(&self) -> bool {
        !(self is Standard)
    }

    #[verifier::when_used_as_spec(spec_from_bits)]
    pub fn from_bits(bits: u32, extended: bool) -> (r: Self)
        ensures
            r == Self::spec_from_bits(bits, extended),
    {
        let ghost given = bits;
        let bits = bits & EFF_MASK;
        if extended {
            Self::Extended(bits)
        } else {
            assert((bits & (!SFF_MASK & EFF_MASK) > 0) == (bits > SFF_MASK)) by (bit_vector)
                requires
                    bits == given & EFF_MASK,
            ;
            if bits & (!SFF_MASK & EFF_MASK) > 0 {
                Self::Extended(bits)
            } else {
                Self::Standard(bits as u16)
            }
        }
    }

    pub fn from_hex(hex_str: &str, extended: bool) -> (r: Self)
        ensures
            r == Self::spec_from_bits(
                match spec_parse_hex_u32(hex_str@) {
                    Some(bits) => bits,
                    None => 0,
                },
                extended,
            ),
    {
        let bits = match parse_hex_u32(hex_str) {
            Some(bits) => bits,
            None => 0,
        };
        Self::from_bits(bits, extended)
    }

    #[verifier::when_used_as_spec(spec_try_from_bits)]
    pub fn try_from_bits(bits: u32, extended: bool) -> (r: Option<Self>)
        ensures
            r == Self::spec_try_from_bits(bits, extended),
    {
        if bits <= EFF_MASK {
            Some(Self::from_bits(bits, extended))
        } else {
            None
        }
    }

    pub fn try_from_hex(hex_str: &str, extended: bool) -> (r: Option<Self>)
        ensures
            r == match spec_parse_hex_u32(hex_str@) {
                Some(bits) => Self::spec_try_from_bits(bits, extended),
                None => None,
            },
    {
        match parse_hex_u32(hex_str) {
            Some(bits) => Self::try_from_bits(bits, extended),
            None => None,
        }
    }

    #[verifier::when_used_as_spec(spec_into_bits)]
    pub fn into_bits(self) -> (r: u32)
        ensures
            r == self.spec_into_bits(),
    {
        match self {
            Self::Standard(v) => v as u32,
            Self::Extended(v) => v,
            Self::J1939(v) => v.into_bits(),
        }
    }

    pub fn into_hex(self) -> (r: String)
        ensures
            r@ == spec_upper_hex(self.spec_into_bits() as nat, 8),
    {
        upper_hex_8(self.into_bits())
    }

    /// The identifier as a raw integer of 32 bits.
    #[must_use]
    pub fn as_raw(self) -> (r: u32)
        ensures
            r == self.spec_into_bits(),
    {
        self.into_bits()
    }

    #[verifier::when_used_as_spec(spec_standard_id)]
    #[must_use]
    pub fn standard_id(self) -> (r: Self)
        ensures
            r == self.spec_standard_id(),
    {
        match self {
            Self::Standard(_) => self,
            Self::Extended(v) => {
                assert(v >> 18 <= 0x3FFF) by (bit_vector);
                Self::Standard((v >> 18) as u16)
            },
            Self::J1939(v) => {
                let bits = v.into_bits();
                assert(bits >> 18 <= 0x3FFF) by (bit_vector);
                Self::Standard((bits >> 18) as u16)
            },
        }
    }

    #[verifier::when_used_as_spec(spec_is_extended)]
    pub fn is_extended(&self) -> (r: bool)
        ensures
            r == self.spec_is_extended(),
    {
        match self {
            Self::Standard(_) => false,
            Self::Extended(_) | Self::J1939(_) => true,
        }
    }
}

/// An identifier made from bits has those bits, cut to 29, and is a
/// standard one only where they fit in 11.
pub proof fn lemma_from_bits_into_bits(bits: u32, extended: bool)
    ensures
        Id::spec_from_bits(bits, extended).spec_into_bits() == bits & EFF_MASK,
        bits <= EFF_MASK ==> Id::spec_from_bits(bits, extended).spec_into_bits() == bits,
        Id::spec_from_bits(bits, extended) is Standard ==> (bits & EFF_MASK) <= SFF_MASK,
        !(Id::spec_from_bits(bits, extended) is J1939),
{
    assert(bits <= EFF_MASK ==> bits & EFF_MASK == bits) by (bit_vector);
    assert(bits & EFF_MASK <= EFF_MASK) by (bit_vector);
}

} // verus!
