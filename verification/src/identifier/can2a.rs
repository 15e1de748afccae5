use vstd::prelude::*;
use crate::Conversion;
use crate::constant::SFF_MASK;
use crate::hex::{parse_hex_u16, spec_parse_hex_u16, spec_upper_hex, upper_hex_3};

verus! {

/// A standard CAN identifier: 16 bits, of which the low 11 are the
/// identifier and the high 5 are padding.
#[derive(Clone, Copy, Debug, Default, PartialEq, Eq, PartialOrd, Ord, Structural)]
pub struct Can2A(pub u16);

impl Can2A {
    /// The identifier with the given bits, where they fit in 11 bits.
    pub open spec fn spec_try_from_bits(bits: u16) -> Option<Can2A> {
        if bits > SFF_MASK {
            None
        } else {
            Some(Can2A(bits))
        }
    }
}

impl Conversion for Can2A {
    type Type = u16;

    fn from_bits(bits: u16) -> (r: Self)
        ensures
            r == Can2A(bits),
    {
        Can2A(bits)
    }

    fn from_hex(hex_str: &str) -> (r: Self)
        ensures
            r == Can2A(
                match spec_parse_hex_u16(hex_str@) {
                    Some(bits) => bits,
                    None => 0,
                },
            ),
    {
        match parse_hex_u16(hex_str) {
            Some(bits) => Can2A(bits),
            None => Can2A(0),
        }
    }

    fn try_from_bits(bits: u16) -> (r: Option<Self>)
        ensures
            r == Can2A::spec_try_from_bits(bits),
    {
        if bits > 0x07FF {
            None
        } else {
            Some(Can2A(bits))
        }
    }

    fn try_from_hex(hex_str: &str) -> (r: Option<Self>)
        ensures
            r == match spec_parse_hex_u16(hex_str@) {
                Some(bits) => Can2A::spec_try_from_bits(bits),
                None => None,
            },
    {
        match parse_hex_u16(hex_str) {
            Some(bits) => Self::try_from_bits(bits),
            None => None,
        }
    }

    fn into_bits(self) -> (r: u16)
        ensures
            r == self.0,
    {
        self.0
    }

    fn into_hex(self) -> (r: String)
        ensures
            r@ == spec_upper_hex(self.0 as nat, 3),
    {
        upper_hex_3(self.0)
    }
}

} // verus!
