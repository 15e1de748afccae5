use vstd::prelude::*;
use crate::Conversion;
use crate::constant::EFF_MASK;
use crate::hex::{parse_hex_u32, spec_parse_hex_u32, spec_upper_hex, upper_hex_8};

verus! {

/// An extended CAN identifier: 32 bits, of which the low 29 are the
/// identifier and the high 3 are padding.
#[derive(Clone, Copy, Debug, Default, PartialEq, Eq, PartialOrd, Ord, Structural)]
pub struct Can2B(pub u32);

impl Can2B {
    /// The identifier with the given bits, where they fit in 29 bits.
    pub open spec fn spec_try_from_bits(bits: u32) -> Option<Can2B> {
        if bits > EFF_MASK {
            None
        } else {
            Some(Can2B(bits))
        }
    }
}

impl Conversion for Can2B {
    type Type = u32;

    fn from_bits(bits: u32) -> (r: Self)
        ensures
            r == Can2B(bits),
    {
        Can2B(bits)
    }

    fn from_hex(hex_str: &str) -> (r: Self)
        ensures
            r == Can2B(
                match spec_parse_hex_u32(hex_str@) {
                    Some(bits) => bits,
                    None => 0,
                },
            ),
    {
        match parse_hex_u32(hex_str) {
            Some(bits) => Can2B(bits),
            None => Can2B(0),
        }
    }

    fn try_from_bits(bits: u32) -> (r: Option<Self>)
        ensures
            r == Can2B::spec_try_from_bits(bits),
    {
        if bits > EFF_MASK {
            None
        } else {
            Some(Can2B(bits))
        }
    }

    fn try_from_hex(hex_str: &str) -> (r: Option<Self>)
        ensures
            r == match spec_parse_hex_u32(hex_str@) {
                Some(bits) => Can2B::spec_try_from_bits(bits),
                None => None,
            },
    {
        match parse_hex_u32(hex_str) {
            Some(bits) => Self::try_from_bits(bits),
            None => None,
        }
    }

    fn into_bits(self) -> (r: u32)
        ensures
            r == self.0,
    {
        self.0
    }

    fn into_hex(self) -> (r: String)
        ensures
            r@ == spec_upper_hex(self.0 as nat, 8),
    {
        upper_hex_8(self.0)
    }
}

} // verus!
