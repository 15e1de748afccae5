use can_type_rs::frame::{direct, Direct};
use can_type_rs::identifier::{Can2A, Can2B, Id, J1939};
use can_type_rs::j1939::{
    Address, DataField, DestinationAddress, Message, NameField, Pdu, PduType, SourceAddress,
};
use can_type_rs::Conversion;

#[test]
fn can2a_from_bits() {
    let id = Can2A::from_bits(15);
    assert_eq!(0b000_0000_1111, id.into_bits());
    assert_eq!(0x00F, Can2A::from_bits(15).into_bits());
    assert_eq!(Can2A::from_bits(0xFFFF).into_bits(), 0xFFFF);
}

#[test]
fn can2a_from_hex() {
    assert_eq!(0b000_0000_1111, Can2A::from_hex("00F").into_bits());
    assert_eq!(0, Can2A::from_hex("not hex").into_bits());
    assert_eq!(0, Can2A::from_hex("").into_bits());
    assert_eq!(0, Can2A::from_hex("10000").into_bits());
    assert_eq!(0xABC, Can2A::from_hex("abc").into_bits());
}

#[test]
fn can2a_try_from_bits() {
    assert_eq!(0b000_0000_1111, Can2A::try_from_bits(15).unwrap().into_bits());
    assert_eq!(Can2A::try_from_bits(2047), Some(Can2A(2047)));
    assert!(Can2A::try_from_bits(2048).is_none());
}

#[test]
fn can2a_try_from_hex() {
    assert_eq!(0b000_0000_1111, Can2A::try_from_hex("00F").unwrap().into_bits());
    assert!(Can2A::try_from_hex("FFF").is_none());
    assert!(Can2A::try_from_hex("7FG").is_none());
    assert_eq!(Can2A::try_from_hex("7FF"), Some(Can2A(0x7FF)));
}

#[test]
fn can2a_into_hex() {
    assert_eq!("00F", Can2A::from_bits(15).into_hex());
    assert_eq!("7FF", Can2A::from_bits(0x7FF).into_hex());
    assert_eq!("000", Can2A::from_bits(0).into_hex());
    assert_eq!("1ABC", Can2A::from_bits(0x1ABC).into_hex());
}

#[test]
fn can2b_conversions() {
    assert_eq!(0b00000_11111111_00000000_11111111, Can2B::from_bits(16711935).into_bits());
    assert_eq!(16711935, Can2B::from_hex("00FF00FF").into_bits());
    assert_eq!(0, Can2B::from_hex("xyz").into_bits());
    assert_eq!(16711935, Can2B::try_from_bits(16711935).unwrap().into_bits());
    assert!(Can2B::try_from_bits(536870912).is_none());
    assert_eq!(Can2B::try_from_bits(536870911), Some(Can2B(0x1FFF_FFFF)));
    assert_eq!(16711935, Can2B::try_from_hex("00FF00FF").unwrap().into_bits());
    assert!(Can2B::try_from_hex("20000000").is_none());
    assert!(Can2B::try_from_hex("1FFFFFFFF").is_none());
    assert_eq!("00FF00FF", Can2B::from_bits(16711935).into_hex());
    assert_eq!("FFFFFFFF", Can2B::from_bits(u32::MAX).into_hex());
}

#[test]
fn j1939_conversions() {
    assert_eq!(0, J1939::from_bits(0).into_bits());
    assert_eq!(u32::MAX, J1939::from_bits(4294967295).into_bits());
    let id = J1939::from_hex("0CF00400");
    assert_eq!(0b000_011_0_0_11110000_00000100_00000000, id.into_bits());
    assert_eq!(217056256, id.into_bits());
    assert_eq!(0, J1939::try_from_bits(0).unwrap().into_bits());
    assert!(J1939::try_from_bits(4294967295).is_none());
    assert_eq!(0x00FF00FF, J1939::try_from_hex("00FF00FF").unwrap().into_bits());
    assert!(J1939::try_from_hex("20000000").is_none());
    assert_eq!("0000000F", J1939::from_bits(15).into_hex());
}

#[test]
fn j1939_from_raw_parts() {
    let expected = J1939::from_hex("00FF00FF");
    assert_eq!(Some(expected), J1939::from_raw_parts(0x0, false, false, 0xFF, 0x00, 0xFF));
    assert_eq!(
        J1939::from_raw_parts(3, false, false, 0xF0, 0x04, 0x00),
        Some(J1939(0x0CF0_0400))
    );
    assert_eq!(
        J1939::from_raw_parts(7, true, true, 0xFF, 0xFF, 0xFF),
        Some(J1939(0x1FFF_FFFF))
    );
    assert_eq!(J1939::from_raw_parts(8, false, false, 0, 0, 0), None);
    assert_eq!(J1939::from_raw_parts(0, true, false, 0, 0, 0), Some(J1939(0x0200_0000)));
    assert_eq!(J1939::from_raw_parts(0, false, true, 0, 0, 0), Some(J1939(0x0100_0000)));
}

#[test]
fn j1939_parts() {
    let id = J1939::from_bits(0x0CF0_0403);
    assert_eq!(id.priority(), 3);
    assert!(!id.reserved());
    assert!(!id.data_page());
    assert_eq!(id.pdu_format(), 0xF0);
    assert_eq!(id.pdu_specific(), 0x04);
    assert_eq!(id.source_address(), SourceAddress::Present(3));
    let all = J1939::from_bits(u32::MAX);
    assert_eq!(all.priority(), 7);
    assert!(all.reserved());
    assert!(all.data_page());
    assert_eq!(all.pdu_format(), 0xFF);
    let id = J1939::from_raw_parts(6, true, false, 0x12, 0x34, 0x56).unwrap();
    assert_eq!(id.priority(), 6);
    assert!(id.reserved());
    assert!(!id.data_page());
    assert_eq!(id.pdu_format(), 0x12);
    assert_eq!(id.pdu_specific(), 0x34);
    assert_eq!(id.source_address(), SourceAddress::Present(0x56));
}

#[test]
fn id_from_bits() {
    assert_eq!(Id::from_bits(0x7FF, false), Id::Standard(0x7FF));
    assert_eq!(Id::from_bits(0x800, false), Id::Extended(0x800));
    assert_eq!(Id::from_bits(0x123, true), Id::Extended(0x123));
    assert_eq!(Id::from_bits(0xFFFF_FFFF, false), Id::Extended(0x1FFF_FFFF));
    assert_eq!(Id::from_bits(0xE000_0123, false), Id::Standard(0x123));
    assert_eq!(Id::from_bits(0, false), Id::Standard(0));
}

#[test]
fn id_try_from_bits() {
    assert_eq!(Id::try_from_bits(0x1FFF_FFFF, false), Some(Id::Extended(0x1FFF_FFFF)));
    assert_eq!(Id::try_from_bits(0x2000_0000, false), None);
    assert_eq!(Id::try_from_bits(0x2000_0000, true), None);
    assert_eq!(Id::try_from_bits(0x7E0, false), Some(Id::Standard(0x7E0)));
    assert_eq!(Id::try_from_bits(0x7E0, true), Some(Id::Extended(0x7E0)));
}

#[test]
fn id_from_hex() {
    assert_eq!(Id::from_hex("7E0", false), Id::Standard(0x7E0));
    assert_eq!(Id::from_hex("18DA00F1", false), Id::Extended(0x18DA_00F1));
    assert_eq!(Id::from_hex("zz", false), Id::Standard(0));
    assert_eq!(Id::from_hex("zz", true), Id::Extended(0));
    assert_eq!(Id::try_from_hex("7E0", false), Some(Id::Standard(0x7E0)));
    assert_eq!(Id::try_from_hex("20000000", false), None);
    assert_eq!(Id::try_from_hex("", false), None);
    assert_eq!(Id::try_from_hex("0x7E0", false), None);
}

#[test]
fn id_into_bits_and_hex() {
    assert_eq!(Id::Standard(0x7E0).into_bits(), 0x7E0);
    assert_eq!(Id::Extended(0x18DA_00F1).into_bits(), 0x18DA_00F1);
    assert_eq!(Id::J1939(J1939::from_bits(0x0CF0_0400)).into_bits(), 0x0CF0_0400);
    assert_eq!(Id::Standard(0x7E0).as_raw(), 0x7E0);
    assert_eq!(Id::Standard(0x7E0).into_hex(), "000007E0");
    assert_eq!(Id::Extended(0x18DA_00F1).into_hex(), "18DA00F1");
}

#[test]
fn id_standard_id() {
    assert_eq!(Id::Standard(0x7E0).standard_id(), Id::Standard(0x7E0));
    assert_eq!(Id::Extended(0x1FFF_FFFF).standard_id(), Id::Standard(0x7FF));
    assert_eq!(Id::Extended(0x18DA_00F1).standard_id(), Id::Standard(0x636));
    assert_eq!(Id::Extended(0xFFFF_FFFF).standard_id(), Id::Standard(0x3FFF));
    assert_eq!(
        Id::J1939(J1939::from_bits(0x0CF0_0400)).standard_id(),
        Id::Standard((0x0CF0_0400u32 >> 18) as u16)
    );
}

#[test]
fn id_is_extended() {
    assert!(!Id::Standard(1).is_extended());
    assert!(Id::Extended(1).is_extended());
    assert!(Id::J1939(J1939::from_bits(1)).is_extended());
}

#[test]
fn address_from_byte_and_back() {
    assert_eq!(Address::from(0), Address::PrimaryEngineController);
    assert_eq!(Address::from(11), Address::Brakes);
    assert_eq!(Address::from(249), Address::ServiceTool);
    assert_eq!(Address::from(255), Address::SourceAddressRequest1);
    assert_eq!(Address::from(2), Address::Unknown(2));
    for value in 0..=255u8 {
        assert_eq!(Address::from(value).into_u8(), value);
    }
    assert_eq!(Address::Unknown(0).into_u8(), 0);
}

#[test]
fn address_names() {
    assert_eq!(
        Address::PrimaryEngineController.to_string(),
        "Primary Engine Controller | (CPC, ECM)"
    );
    assert_eq!(Address::Retarder.to_string(), "Retarder");
    assert_eq!(Address::ServiceTool.to_string(), "Service Tool");
    assert_eq!(Address::Unknown(2).to_string(), "Unknown(2)");
    assert_eq!(Address::Unknown(0).to_string(), "Unknown(0)");
    assert_eq!(Address::Unknown(45).to_string(), "Unknown(45)");
    assert_eq!(Address::Unknown(250).to_string(), "Unknown(250)");
}

#[test]
fn address_lookup() {
    assert_eq!(SourceAddress::Present(0).lookup(), Some(Address::PrimaryEngineController));
    assert_eq!(SourceAddress::Present(4).lookup(), Some(Address::Unknown(4)));
    assert_eq!(SourceAddress::Absent.lookup(), None);
    assert_eq!(DestinationAddress::Present(17).lookup(), Some(Address::CruiseControl));
    assert_eq!(DestinationAddress::Absent.lookup(), None);
}

#[test]
fn message_from_parts() {
    let pdu = Pdu::DataFiled(DataField::from_bits(0x0102_0304_0506_0708));
    assert_eq!(Message::from_parts(Id::Standard(0x123), pdu), None);
    let message = Message::from_parts(Id::Extended(0x0CF0_0400), pdu).unwrap();
    assert_eq!(message.id(), Id::J1939(J1939::from_bits(0x0CF0_0400)));
    assert_eq!(message.pdu(), pdu);
    let id = Id::J1939(J1939::from_bits(0x18FE_F100));
    let message = Message::from_parts(id, pdu).unwrap();
    assert_eq!(message.into_parts(), (id, pdu));
}

#[test]
fn message_from_bits() {
    let message = Message::from_bits(0xFFFF_FFFF, 0x1122, PduType::Name);
    assert_eq!(message.id(), Id::Extended(0x1FFF_FFFF));
    assert_eq!(message.pdu(), Pdu::NameField(NameField::from_bits(0x1122)));
    let message = Message::try_from_bits(0x0CF0_0400, 0xFF, PduType::Data).unwrap();
    assert_eq!(message.id(), Id::Extended(0x0CF0_0400));
    assert_eq!(message.pdu(), Pdu::DataFiled(DataField::from_bits(0xFF)));
    assert_eq!(
        Message::try_from_bits(0x7E0, u64::MAX, PduType::Name),
        Some(Message { id: Id::Extended(0x7E0), pdu: Pdu::NameField(NameField(u64::MAX)) })
    );
}

#[test]
fn message_from_hex() {
    let message = Message::from_hex("0CF00400", "FFFF82DF1AFFFFFF", PduType::Data);
    assert_eq!(message.id(), Id::Extended(0x0CF0_0400));
    assert_eq!(message.pdu(), Pdu::DataFiled(DataField::from_bits(0xFFFF_82DF_1AFF_FFFF)));
    let message = Message::from_hex("nothing", "nothing", PduType::Name);
    assert_eq!(message.id(), Id::Extended(0));
    assert_eq!(message.pdu(), Pdu::NameField(NameField::from_bits(0)));
    let message = Message::try_from_hex("18FEF100", "0102030405060708", PduType::Name).unwrap();
    assert_eq!(message.id(), Id::Extended(0x18FE_F100));
    assert_eq!(message.pdu(), Pdu::NameField(NameField::from_bits(0x0102_0304_0506_0708)));
    assert_eq!(Message::try_from_hex("20000000", "00", PduType::Data), None);
    assert_eq!(Message::try_from_hex("18FEF100", "", PduType::Data), None);
    assert_eq!(Message::try_from_hex("18FEF1GG", "00", PduType::Data), None);
    assert_eq!(Message::try_from_hex("18FEF100", "10000000000000000", PduType::Data), None);
}

#[test]
fn content_fields_convert() {
    assert_eq!(NameField::from_hex("FF").into_bits(), 0xFF);
    assert_eq!(NameField::from_hex("?").into_bits(), 0);
    assert_eq!(NameField::try_from_bits(7), Some(NameField(7)));
    assert_eq!(NameField::try_from_hex("?"), None);
    assert_eq!(NameField::from_bits(0xABC).into_hex(), "0000000000000ABC");
    assert_eq!(DataField::from_hex("ff").into_bits(), 0xFF);
    assert_eq!(DataField::try_from_bits(7), Some(DataField(7)));
    assert_eq!(DataField::try_from_hex("12"), Some(DataField(0x12)));
    assert_eq!(DataField::from_bits(u64::MAX).into_hex(), "FFFFFFFFFFFFFFFF");
}

#[test]
fn direction_words() {
    assert_eq!(direct(Direct::Transmit), "Tx");
    assert_eq!(direct(Direct::Receive), "Rx");
    assert_eq!(Direct::default(), Direct::Transmit);
}

#[test]
fn hexadecimal_text_forms() {
    assert_eq!(Can2B::try_from_hex("+7E0"), Some(Can2B(0x7E0)));
    assert_eq!(Can2B::try_from_hex("7e0"), Some(Can2B(0x7E0)));
    assert_eq!(Can2B::try_from_hex("0000000000000007E0"), Some(Can2B(0x7E0)));
    assert_eq!(Can2B::try_from_hex("+"), None);
    assert_eq!(Can2B::try_from_hex("-1"), None);
    assert_eq!(Can2B::try_from_hex("++1"), None);
    assert_eq!(Can2B::try_from_hex(" 7E0"), None);
    assert_eq!(Can2B::try_from_hex("7E0 "), None);
    assert_eq!(Can2B::try_from_hex("7_E0"), None);
    assert_eq!(Can2B::try_from_hex("0x7E0"), None);
    assert_eq!(Can2B::try_from_hex("7É0"), None);
    assert_eq!(Can2A::try_from_hex("+000000000000000000007FF"), Some(Can2A(0x7FF)));
    assert_eq!(Can2A::from_hex("FFFF").into_bits(), 0xFFFF);
    assert_eq!(Can2A::from_hex("10000").into_bits(), 0);
    assert_eq!(NameField::try_from_hex("FFFFFFFFFFFFFFFF"), Some(NameField(u64::MAX)));
    assert_eq!(NameField::try_from_hex("10000000000000000"), None);
}

#[test]
fn hexadecimal_text_is_read_back() {
    for bits in [0u32, 1, 0xF, 0x10, 0x7FF, 0x800, 0x1234_5678, 0x1FFF_FFFF] {
        assert_eq!(Can2B::from_hex(&Can2B::from_bits(bits).into_hex()).into_bits(), bits);
        assert_eq!(J1939::try_from_hex(&J1939::from_bits(bits).into_hex()), Some(J1939(bits)));
        assert_eq!(Id::from_hex(&Id::from_bits(bits, true).into_hex(), true), Id::Extended(bits));
    }
    for bits in [0u16, 9, 0xA, 0xFF, 0x100, 0x7FF] {
        assert_eq!(Can2A::try_from_hex(&Can2A::from_bits(bits).into_hex()), Some(Can2A(bits)));
    }
    assert_eq!(
        DataField::from_hex(&DataField::from_bits(0x0123_4567_89AB_CDEF).into_hex()).into_bits(),
        0x0123_4567_89AB_CDEF
    );
}
