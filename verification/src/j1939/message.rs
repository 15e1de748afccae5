use vstd::prelude::*;
use crate::Conversion;
use crate::hex::{spec_parse_hex_u32, spec_parse_hex_u64};
use crate::identifier::{Id, J1939};
use crate::j1939::{DataField, NameField, Pdu, PduType};

verus! {

/// A J1939 message: an identifier of 29 bits and 64 bits of content.
#[derive(Debug, Clone, Copy, PartialEq, Eq, PartialOrd, Ord, Structural)]
pub struct Message {
    pub id: Id,
    pub pdu: Pdu,
}

impl Message {
    /// The message made of an identifier and its content. A standard
    /// identifier makes none; an extended one is read as a J1939 identifier.
    pub fn from_parts(id: Id, pdu: Pdu) -> (r: Option<Self>)
        ensures
            r == match id {
                Id::Standard(_) => None,
                Id::Extended(v) => Some(Message { id: Id::J1939(J1939(v)), pdu }),
                Id::J1939(_) => Some(Message { id, pdu }),
            },
    {
        match id {
            Id::Standard(_) => None,
            Id::Extended(v) => Some(Self { id: Id::J1939(J1939::from_bits(v)), pdu }),
            Id::J1939(_) => Some(Self { id, pdu }),
        }
    }

    /// The identifier and the content of the message.
    #[must_use]
    pub fn into_parts(self) -> (r: (Id, Pdu))
        ensures
            r == (self.id, self.pdu),
    {
        (self.id, self.pdu)
    }

    /// The message with the given bits, the identifier cut to 29 bits and
    /// held as an extended one. Any 64 bits are content of either kind.
    pub fn try_from_bits(hex_id: u32, hex_pdu: u64, pdu_type: PduType) -> (r: Option<Self>)
        ensures
            r == Some(
                Message {
                    id: Id::spec_from_bits(hex_id, true),
                    pdu: Pdu::spec_from_bits(hex_pdu, pdu_type),
                },
            ),
    {
        let id = Id::from_bits(hex_id, true);
        let pdu = match pdu_type {
            PduType::Name => match NameField::try_from_bits(hex_pdu) {
                Some(v) => Some(Pdu::NameField(v)),
                None => None,
            },
            PduType::Data => match DataField::try_from_bits(hex_pdu) {
                Some(v) => Some(Pdu::DataFiled(v)),
                None => None,
            },
        };
        match pdu {
            Some(pdu) => Some(Self { id, pdu }),
            None => None,
        }
    }

    /// The message that two hexadecimal texts spell: there is one where
    /// the first spells an identifier of up to 29 bits and the second spells
    /// 64 bits.
    pub fn try_from_hex(hex_id: &str, hex_pdu: &str, pdu_type: PduType) -> (r: Option<Self>)
        ensures
            r == match (spec_parse_hex_u32(hex_id@), spec_parse_hex_u64(hex_pdu@)) {
                (Some(id), Some(pdu)) => match Id::spec_try_from_bits(id, true) {
                    Some(id) => Some(Message { id, pdu: Pdu::spec_from_bits(pdu, pdu_type) }),
                    None => None,
                },
                _ => None,
            },
    {
        let id = Id::try_from_hex(hex_id, true);
        match id {
            Some(id) => {
                let pdu = match pdu_type {
                    PduType::Name => match NameField::try_from_hex(hex_pdu) {
                        Some(v) => Some(Pdu::NameField(v)),
                        None => None,
                    },
                    PduType::Data => match DataField::try_from_hex(hex_pdu) {
                        Some(v) => Some(Pdu::DataFiled(v)),
                        None => None,
                    },
                };
                match pdu {
                    Some(pdu) => Some(Self { id, pdu }),
                    None => None,
                }
            },
            None => None,
        }
    }

    /// The message with the given bits, the identifier cut to 29 bits and
    /// held as an extended one.
    #[must_use]
    pub fn from_bits(hex_id: u32, hex_pdu: u64, pdu_type: PduType) -> (r: Self)
        ensures
            r == (Message {
                id: Id::spec_from_bits(hex_id, true),
                pdu: Pdu::spec_from_bits(hex_pdu, pdu_type),
            }),
    {
        let id = Id::from_bits(hex_id, true);
        let pdu = match pdu_type {
            PduType::Name => Pdu::NameField(NameField::from_bits(hex_pdu)),
            PduType::Data => Pdu::DataFiled(DataField::from_bits(hex_pdu)),
        };
        Self { id, pdu }
    }

    /// The message that two hexadecimal texts spell; a text that spells no
    /// number counts as zero.
    #[must_use]
    pub fn from_hex(hex_id: &str, hex_pdu: &str, pdu_type: PduType) -> (r: Self)
        ensures
            r == (Message {
                id: Id::spec_from_bits(
                    match spec_parse_hex_u32(hex_id@) {
                        Some(bits) => bits,
                        None => 0,
                    },
                    true,
                ),
                pdu: Pdu::spec_from_bits(
                    match spec_parse_hex_u64(hex_pdu@) {
                        Some(bits) => bits,
                        None => 0,
                    },
                    pdu_type,
                ),
            }),
    {
        let id = Id::from_hex(hex_id, true);
        let pdu = match pdu_type {
            PduType::Name => Pdu::NameField(NameField::from_hex(hex_pdu)),
            PduType::Data => Pdu::DataFiled(DataField::from_hex(hex_pdu)),
        };
        Self { id, pdu }
    }

    /// The identifier of the message.
    #[must_use]
    pub fn id(&self) -> (r: Id)
        ensures
            r == self.id,
    {
        self.id
    }

    /// The content of the message.
    #[must_use]
    pub fn pdu(&self) -> (r: Pdu)
        ensures
            r == self.pdu,
    {
        self.pdu
    }
}

} // verus!
