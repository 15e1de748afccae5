use vstd::prelude::*;
use crate::Conversion;
use crate::hex::{parse_hex_u64, spec_parse_hex_u64, spec_upper_hex, upper_hex_16};

pub mod address;
pub mod message;

pub use address::{Address, DestinationAddress, SourceAddress};
pub use message::Message;
pub use crate::identifier::J1939 as J1939Id;

verus! {

/// What the 64 bits of a message are read as.
#[derive(Debug, Clone, Copy, PartialEq, Eq, Structural)]
pub enum PduType {
    /// The name of a controller.
    Name,
    /// Eight bytes of data.
    Data,
}

/// The 64 bits of a message that carries the name of a controller.
#[derive(Clone, Copy, Debug, Default, PartialEq, Eq, PartialOrd, Ord, Structural)]
pub struct NameField(pub u64);

/// The 64 bits of a message that carries data.
#[derive(Clone, Copy, Debug, Default, PartialEq, Eq, PartialOrd, Ord, Structural)]
pub struct DataField(pub u64);

/// The 64 bits of a message, read as one of the two kinds.
#[derive(Debug, Clone, Copy, PartialEq, Eq, PartialOrd, Ord, Structural)]
pub enum Pdu {
    NameField(NameField),
    DataFiled(DataField),
}

impl Pdu {
    /// The unit that `bits` make, read as `pdu_type` says.
    pub open spec fn spec_from_bits(bits: u64, pdu_type: PduType) -> Pdu {
        match pdu_type {
            PduType::Name => Pdu::NameField(NameField(bits)),
            PduType::Data => Pdu::DataFiled(DataField(bits)),
        }
    }
}

impl Conversion for NameField {
    type Type = u64;

    fn from_bits(bits: u64) -> (r: Self)
        ensures
            r == NameField(bits),
    {
        NameField(bits)
    }

    fn from_hex(hex_str: &str) -> (r: Self)
        ensures
            r == NameField(
                match spec_parse_hex_u64(hex_str@) {
                    Some(bits) => bits,
                    None => 0,
                },
            ),
    {
        match parse_hex_u64(hex_str) {
            Some(bits) => NameField(bits),
            None => NameField(0),
        }
    }

    fn try_from_bits(bits: u64) -> (r: Option<Self>)
        ensures
            r == Some(NameField(bits)),
    {
        Some(NameField(bits))
    }

    fn try_from_hex(hex_str: &str) -> (r: Option<Self>)
        ensures
            r == match spec_parse_hex_u64(hex_str@) {
                Some(bits) => Some(NameField(bits)),
                None => None,
            },
    {
        match parse_hex_u64(hex_str) {
            Some(bits) => Some(NameField(bits)),
            None => None,
        }
    }

    fn into_bits(self) -> (r: u64)
        ensures
            r == self.0,
    {
        self.0
    }

    fn into_hex(self) -> (r: String)
        ensures
            r@ == spec_upper_hex(self.0 as nat, 16),
    {
        upper_hex_16(self.0)
    }
}

impl Conversion for DataField {
    type Type = u64;

    fn from_bits(bits: u64) -> (r: Self)
        ensures
            r == DataField(bits),
    {
        DataField(bits)
    }

    fn from_hex(hex_str: &str) -> (r: Self)
        ensures
            r == DataField(
                match spec_parse_hex_u64(hex_str@) {
                    Some(bits) => bits,
                    None => 0,
                },
            ),
    {
        match parse_hex_u64(hex_str) {
            Some(bits) => DataField(bits),
            None => DataField(0),
        }
    }

    fn try_from_bits(bits: u64) -> (r: Option<Self>)
        ensures
            r == Some(DataField(bits)),
    {
        Some(DataField(bits))
    }

    fn try_from_hex(hex_str: &str) -> (r: Option<Self>)
        ensures
            r == match spec_parse_hex_u64(hex_str@) {
                Some(bits) => Some(DataField(bits)),
                None => None,
            },
    {
        match parse_hex_u64(hex_str) {
            Some(bits) => Some(DataField(bits)),
            None => None,
        }
    }

    fn into_bits(self) -> (r: u64)
        ensures
            r == self.0,
    {
        self.0
    }

    fn into_hex(self) -> (r: String)
        ensures
            r@ == spec_upper_hex(self.0 as nat, 16),
    {
        upper_hex_16(self.0)
    }
}

} // verus!
