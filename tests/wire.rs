use ibkrust::catalog::{InboundMessages, OutboundMessages};
use ibkrust::codec::{decode_event, encode_request, split_tokens, Event};
use ibkrust::field::{decode_field, encode_field, FieldKind, IBField};
use ibkrust::frame::{read_frame, write_frame, FrameError, DEFAULT_FRAME_CAP};
use ibkrust::message::{InboundMessage, Message, MessageError, OutboundMessage};

fn payload(tokens: &[&str]) -> Vec<u8> {
    let mut p = Vec::new();
    for t in tokens {
        p.extend_from_slice(t.as_bytes());
        p.push(0);
    }
    p
}

#[test]
fn create_message_from_bytes() {
    let _length: u32 = 0x000004;
    let _length = _length.to_be_bytes();
    let test_string = String::from("TEST\0");
    let test_bytes = test_string.as_bytes();
    let test_bytes = [&_length, test_bytes].concat();
    let test_message = InboundMessage::from_bytes(&test_bytes).unwrap();
    assert_eq!(test_message.raw(), Some(String::from("TEST")));
}

#[test]
fn frame_has_big_endian_length_prefix() {
    let f = write_frame(b"abc");
    assert_eq!(f, vec![0, 0, 0, 3, b'a', b'b', b'c']);
    let f = write_frame(&[]);
    assert_eq!(f, vec![0, 0, 0, 0]);
}

#[test]
fn frame_round_trip_with_trailing_bytes() {
    let p: Vec<u8> = (0..=255u8).collect();
    let mut f = write_frame(&p);
    f.extend_from_slice(&[9, 9, 9]);
    assert_eq!(read_frame(&f, DEFAULT_FRAME_CAP), Ok(p));
    assert_eq!(read_frame(&write_frame(&[]), 0), Ok(vec![]));
}

#[test]
fn frame_short_reads_are_incomplete() {
    assert_eq!(read_frame(&[0, 0, 0], 100), Err(FrameError::Incomplete));
    assert_eq!(read_frame(&[0, 0, 0, 5, 1, 2], 100), Err(FrameError::Incomplete));
}

#[test]
fn frame_over_cap_is_too_large() {
    assert_eq!(read_frame(&[0, 0, 0, 5, 1, 2, 3, 4, 5], 4), Err(FrameError::TooLarge));
    assert_eq!(read_frame(&[0x01, 0, 0, 1], DEFAULT_FRAME_CAP), Err(FrameError::TooLarge));
    assert_eq!(read_frame(&[0x01, 0, 0, 0], DEFAULT_FRAME_CAP), Err(FrameError::Incomplete));
}

fn round_trip(f: IBField, k: FieldKind) {
    let mut out = Vec::new();
    encode_field(&f, &mut out);
    assert_eq!(out.last(), Some(&0u8));
    out.pop();
    assert_eq!(decode_field(&out, k), Some(f));
}

#[test]
fn field_round_trips() {
    for v in [0i64, 7, -1, 42, 2104, i64::MAX, i64::MIN] {
        round_trip(IBField::IBInteger(v), FieldKind::Integer);
    }
    round_trip(IBField::IBString(String::new()), FieldKind::Text);
    round_trip(IBField::IBString(String::from("Market data farm connection is OK")), FieldKind::Text);
    round_trip(IBField::IBString(String::from("é€")), FieldKind::Text);
    round_trip(IBField::IBFloat(String::from("101.5")), FieldKind::Floating);
    round_trip(IBField::IBFloat(String::from("-0.25")), FieldKind::Floating);
    round_trip(IBField::IBUnset, FieldKind::Floating);
}

#[test]
fn integer_tokens_encode_as_decimal() {
    let mut out = Vec::new();
    encode_field(&IBField::IBInteger(-2104), &mut out);
    assert_eq!(out, b"-2104\0".to_vec());
    let mut out = Vec::new();
    encode_field(&IBField::IBUnset, &mut out);
    assert_eq!(out, b"1.7976931348623157E308\0".to_vec());
}

#[test]
fn malformed_field_tokens_are_refused() {
    assert_eq!(decode_field(b"A", FieldKind::Integer), None);
    assert_eq!(decode_field(b"", FieldKind::Integer), None);
    assert_eq!(decode_field(b"-", FieldKind::Integer), None);
    assert_eq!(decode_field(b"9223372036854775808", FieldKind::Integer), None);
    assert_eq!(decode_field(b"-9223372036854775808", FieldKind::Integer), Some(IBField::IBInteger(i64::MIN)));
    assert_eq!(decode_field(b"007", FieldKind::Integer), Some(IBField::IBInteger(7)));
    assert_eq!(decode_field(b"1.2.3", FieldKind::Floating), None);
    assert_eq!(decode_field(b".", FieldKind::Floating), None);
    assert_eq!(decode_field(&[0xff], FieldKind::Text), None);
}

#[test]
fn float_and_text_validity() {
    assert!(IBField::IBFloat(String::from("3.5")).is_valid());
    assert!(!IBField::IBFloat(String::from("NaN")).is_valid());
    assert!(!IBField::IBString(String::from("a\0b")).is_valid());
    assert!(IBField::IBString(String::new()).is_valid());
}

#[test]
fn split_tokens_needs_terminator() {
    assert_eq!(split_tokens(b"a\0\0bc\0"), Some(vec![b"a".to_vec(), vec![], b"bc".to_vec()]));
    assert_eq!(split_tokens(b""), Some(vec![]));
    assert_eq!(split_tokens(b"a\0b"), None);
}

#[test]
fn opcodes_match_catalog() {
    assert_eq!(OutboundMessages::StartApi.opcode(), 71);
    assert_eq!(OutboundMessages::ReqContractData.opcode(), 9);
    assert_eq!(OutboundMessages::ReqCompletedOrders.opcode(), 99);
    assert_eq!(OutboundMessages::Invalid.opcode(), 0);
    assert_eq!(InboundMessages::ManagedAccounts.opcode(), 15);
    assert_eq!(InboundMessages::ContractDataEnd.opcode(), 52);
    assert_eq!(InboundMessages::from_opcode(55), Some(InboundMessages::ExecutionDataEnd));
    assert_eq!(InboundMessages::from_opcode(48), None);
    assert_eq!(OutboundMessages::ReqContractData.end_sentinel(), Some(InboundMessages::ContractDataEnd));
    assert_eq!(OutboundMessages::ReqCurrentTime.slot_kind(), Some(InboundMessages::CurrentTime));
}

#[test]
fn request_encoding_places_version_and_id() {
    let p = encode_request(
        OutboundMessages::ReqContractData,
        Some(12),
        &[IBField::IBString(String::from("AAPL"))],
    );
    assert_eq!(p, payload(&["9", "8", "12", "AAPL"]));
    let p = encode_request(OutboundMessages::ReqCurrentTime, None, &[]);
    assert_eq!(p, payload(&["49", "1"]));
}

#[test]
fn tick_price_decodes_with_request_id() {
    let p = payload(&["1", "8", "4", "101.5", "3", "1"]);
    match decode_event(&p, 157) {
        Event::Message { kind, req_id, fields } => {
            assert_eq!(kind, InboundMessages::TickPrice);
            assert_eq!(req_id, Some(8));
            assert_eq!(
                fields,
                vec![
                    IBField::IBInteger(8),
                    IBField::IBInteger(4),
                    IBField::IBFloat(String::from("101.5")),
                    IBField::IBInteger(3),
                    IBField::IBInteger(1),
                ]
            );
        }
        other => panic!("unexpected {:?}", other),
    }
}

#[test]
fn version_gated_field_is_skipped_for_old_servers() {
    let p = payload(&["10", "5", "AAPL", "STK", "SMART", "USD", "265598", "0.01", "NMS"]);
    match decode_event(&p, 157) {
        Event::Message { fields, .. } => {
            assert_eq!(fields.len(), 8);
            assert_eq!(fields[7], IBField::IBString(String::from("NMS")));
        }
        other => panic!("unexpected {:?}", other),
    }
    match decode_event(&p, 100) {
        Event::Message { fields, .. } => {
            assert_eq!(fields.len(), 8);
            assert_eq!(fields[7], IBField::IBString(String::from("NMS")));
        }
        other => panic!("unexpected {:?}", other),
    }
    let short = payload(&["10", "5", "AAPL", "STK", "SMART", "USD", "265598", "0.01"]);
    assert!(matches!(decode_event(&short, 157), Event::Malformed { .. }));
    assert!(matches!(decode_event(&short, 100), Event::Message { .. }));
}

#[test]
fn malformed_and_unknown_payloads() {
    let p = vec![0x31, 0x00, 0x41, 0x00];
    assert!(matches!(decode_event(&p, 157), Event::Malformed { .. }));
    let p = payload(&["999", "x"]);
    match decode_event(&p, 157) {
        Event::UnknownOpcode { opcode, raw } => {
            assert_eq!(opcode, 999);
            assert_eq!(raw, p);
        }
        other => panic!("unexpected {:?}", other),
    }
    assert!(matches!(decode_event(b"1\08", 157), Event::Malformed { .. }));
    assert!(matches!(decode_event(b"", 157), Event::Malformed { .. }));
    assert!(matches!(decode_event(b"x\0", 157), Event::Malformed { .. }));
}

#[test]
fn message_to_bytes_gives_the_tokens() {
    let mut m = OutboundMessage::new();
    assert_eq!(m.to_bytes(), Vec::<u8>::new());
    m.add_field(IBField::IBInteger(71));
    m.add_field(IBField::IBInteger(2));
    m.add_field(IBField::IBInteger(100));
    assert_eq!(m.to_bytes(), b"71\x002\x00100\x00".to_vec());
    assert_eq!(write_frame(&m.to_bytes())[..4], [0, 0, 0, 9]);
    let mut msg = Message::new_outbound();
    msg.add_field(IBField::IBString(String::from("x")));
    assert_eq!(msg.to_bytes(), vec![b'x', 0]);
    let before = msg.to_bytes();
    msg.add_field(IBField::IBString(String::new()));
    let mut expect = before.clone();
    expect.push(0);
    assert_eq!(msg.to_bytes(), expect);
    let mut inbound = Message::new_inbound();
    inbound.add_field(IBField::IBInteger(5));
    assert_eq!(inbound.to_bytes(), vec![b'5', 0]);
}

#[test]
fn kind_converts_to_its_opcode() {
    let op: u32 = OutboundMessages::StartApi.into();
    assert_eq!(op, 71);
    assert_eq!(u32::from(OutboundMessages::ReqIds), 8);
}

#[test]
fn from_bytes_errors() {
    assert_eq!(InboundMessage::from_bytes(&[0, 0]).err(), Some(MessageError::Incomplete));
    assert_eq!(InboundMessage::from_bytes(&[0, 0, 0, 1, 0xff]).err(), Some(MessageError::NotUtf8));
    assert_eq!(InboundMessage::from_bytes(&[0x7f, 0, 0, 0]).err(), Some(MessageError::FrameTooLarge));
}

#[test]
fn inbound_message_round_trips_through_its_frame() {
    let mut m = OutboundMessage::new();
    m.add_field(IBField::IBInteger(52));
    m.add_field(IBField::IBInteger(12));
    let frame = write_frame(&m.to_bytes());
    let p = read_frame(&frame, DEFAULT_FRAME_CAP).unwrap();
    match decode_event(&p, 157) {
        Event::Message { kind, req_id, fields } => {
            assert_eq!(kind, InboundMessages::ContractDataEnd);
            assert_eq!(req_id, Some(12));
            assert_eq!(fields, vec![IBField::IBInteger(12)]);
        }
        other => panic!("unexpected {:?}", other),
    }
}
