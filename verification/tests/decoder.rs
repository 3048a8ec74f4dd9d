use mycelink::fcp::decode_error::DecodeError;
use mycelink::fcp::decoder::{DecodeStep, MessageDecoder};
use mycelink::fcp::model::fields::{Field, Fields};
use mycelink::fcp::model::message::{Message, MessagePayload};
use mycelink::fcp::model::message_type_identifier::{ClientMessageType, MessageType, NodeMessageType};

/// Feeds the lines until the decoder stops asking for them.
fn decode(lines: &[&str]) -> DecodeStep {
    let mut decoder = MessageDecoder::new();
    let mut input = lines.iter();
    loop {
        match decoder.feed(input.next().copied()) {
            DecodeStep::NeedLine => {}
            other => return other,
        }
    }
}

fn fields_of(m: &Message) -> Vec<(String, String)> {
    let fs = m.fields();
    (0..fs.len()).map(|i| (fs.at(i).key().to_string(), fs.at(i).value().to_string())).collect()
}

#[test]
fn decodes_a_message_without_payload() {
    match decode(&["", "NodeHello", "FCPVersion=2.0", "Node=Fred", "", "EndMessage"]) {
        DecodeStep::Complete(m) => {
            assert!(m.message_type() == MessageType::Node(NodeMessageType::NodeHello));
            assert_eq!(
                fields_of(&m),
                vec![("FCPVersion".into(), "2.0".into()), ("Node".into(), "Fred".into())]
            );
            assert!(m.payload().is_none());
        }
        _ => panic!("expected a message"),
    }
}

#[test]
fn value_keeps_later_equal_signs() {
    match decode(&["AllData", "Identifier=a=b", "EndMessage"]) {
        DecodeStep::Complete(m) => {
            assert_eq!(fields_of(&m), vec![("Identifier".into(), "a=b".into())]);
        }
        _ => panic!("expected a message"),
    }
}

#[test]
fn asks_for_the_announced_payload() {
    let mut decoder = MessageDecoder::new();
    assert!(matches!(decoder.feed(Some("AllData")), DecodeStep::NeedLine));
    assert!(matches!(decoder.feed(Some("Identifier=x")), DecodeStep::NeedLine));
    assert!(matches!(decoder.feed(Some("DataLength=11")), DecodeStep::NeedLine));
    match decoder.feed(Some("Data")) {
        DecodeStep::NeedPayload { length } => assert_eq!(length, 11),
        _ => panic!("expected a payload request"),
    }
    assert!(!decoder.needs_line());
    let m = decoder.finish_with_payload(b"Hello World".to_vec());
    assert_eq!(fields_of(&m).len(), 2);
    let payload = m.payload().unwrap();
    assert_eq!(payload.data, b"Hello World");
    assert_eq!(payload.data_len_identifier, "DataLength");
}

#[test]
fn unknown_type_is_reported() {
    match decode(&["Hello"]) {
        DecodeStep::Failed(e) => assert_eq!(e, DecodeError::UnknownMessageType { got: "Hello".into() }),
        _ => panic!("expected a failure"),
    }
}

#[test]
fn client_types_are_recognised_too() {
    match decode(&["ClientHello", "Name=x", "EndMessage"]) {
        DecodeStep::Complete(m) => {
            assert!(m.message_type() == MessageType::Client(ClientMessageType::ClientHello))
        }
        _ => panic!("expected a message"),
    }
}

#[test]
fn end_of_input_inside_a_message_is_unexpected() {
    match decode(&["NodeHello", "Node=Fred"]) {
        DecodeStep::Failed(e) => assert_eq!(e, DecodeError::UnexpectedEOF),
        _ => panic!("expected a failure"),
    }
    match decode(&[]) {
        DecodeStep::Failed(e) => assert_eq!(e, DecodeError::UnexpectedEOF),
        _ => panic!("expected a failure"),
    }
}

#[test]
fn a_line_that_is_no_field_is_a_parse_error() {
    match decode(&["NodeHello", "garbage"]) {
        DecodeStep::Failed(e) => assert_eq!(
            e,
            DecodeError::ParseError(
                "'garbage' neither indicates the end of a Fields nor is a field itself.".into()
            )
        ),
        _ => panic!("expected a failure"),
    }
}

#[test]
fn data_without_length_is_missing_the_hint() {
    match decode(&["AllData", "Identifier=x", "Data"]) {
        DecodeStep::Failed(e) => {
            assert_eq!(e, DecodeError::MissingField("PAYLOAD LENGTH HINT".into()))
        }
        _ => panic!("expected a failure"),
    }
    match decode(&["AllData", "DataLength=-3", "Data"]) {
        DecodeStep::Failed(e) => assert_eq!(
            e,
            DecodeError::ParseError("Failed to parse integer (kind: InvalidDigit)".into())
        ),
        _ => panic!("expected a failure"),
    }
}

#[test]
fn an_encoded_message_decodes_to_itself() {
    let original = Message::new(
        MessageType::Node(NodeMessageType::SSKKeypair),
        Fields::from_vec(vec![
            Field::new("Identifier".into(), "id".into()),
            Field::new("RequestURI".into(), "SSK@a=b/".into()),
        ]),
        None,
    );
    let text = String::from_utf8(original.encode()).unwrap();
    let lines: Vec<&str> = text.lines().collect();
    match decode(&lines) {
        DecodeStep::Complete(m) => {
            assert!(m.message_type() == original.message_type());
            assert_eq!(fields_of(&m), fields_of(&original));
            assert!(m.payload().is_none());
        }
        _ => panic!("expected a message"),
    }
}

#[test]
fn an_encoded_message_with_payload_decodes_with_its_length_field() {
    let original = Message::new(
        MessageType::Node(NodeMessageType::AllData),
        Fields::from_vec(vec![Field::new("Identifier".into(), "id".into())]),
        Some(MessagePayload { data: b"Hello\nWorld".to_vec(), data_len_identifier: "DataLength".into() }),
    );
    let bytes = original.encode();
    let split = bytes.windows(6).position(|w| w == b"\nData\n").unwrap() + 6;
    let header = String::from_utf8(bytes[..split].to_vec()).unwrap();
    assert_eq!(header, "AllData\nIdentifier=id\nDataLength=11\nData\n");
    let mut decoder = MessageDecoder::new();
    let mut step = DecodeStep::NeedLine;
    for line in header.lines() {
        step = decoder.feed(Some(line));
    }
    match step {
        DecodeStep::NeedPayload { length } => assert_eq!(length, 11),
        _ => panic!("expected a payload request"),
    }
    let m = decoder.finish_with_payload(bytes[split..].to_vec());
    assert_eq!(
        fields_of(&m),
        vec![("Identifier".into(), "id".into()), ("DataLength".into(), "11".into())]
    );
    assert_eq!(m.payload().unwrap().data, b"Hello\nWorld");
}
