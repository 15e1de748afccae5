use vstd::prelude::*;

pub mod constant;
pub mod device;
pub mod frame;
pub mod hex;
pub mod identifier;
pub mod isotp;
pub mod j1939;

verus! {

/// Conversion between a bit field and the integer and the hexadecimal text
/// that stand for it.
pub trait Conversion: Sized {
    type Type;

    /// The value with the given bits, unchecked.
    fn from_bits(bits: Self::Type) -> Self;

    /// The value that a hexadecimal text spells; a text that spells none
    /// counts as zero.
    fn from_hex(hex_str: &str) -> Self;

    /// The value with the given bits, where they are in range.
    fn try_from_bits(bits: Self::Type) -> Option<Self>;

    /// The value that a hexadecimal text spells, where it spells one that is
    /// in range.
    fn try_from_hex(hex_str: &str) -> Option<Self>;

    /// The bits of the value.
    fn into_bits(self) -> Self::Type;

    /// The bits of the value as hexadecimal text in upper case.
    fn into_hex(self) -> String;
}

} // verus!
