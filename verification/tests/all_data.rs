use mycelink::fcp::decode_error::DecodeError;
use mycelink::fcp::messages::all_data::AllDataMessage;
use mycelink::fcp::model::content_type::ContentType;
use mycelink::fcp::model::fields::{Field, Fields};
use mycelink::fcp::model::message::{Message, MessagePayload};
use mycelink::fcp::model::message_type_identifier::{MessageType, NodeMessageType};
use mycelink::fcp::model::unique_identifier::UniqueIdentifier;

#[test]
fn test_parse() {
    let identifier = UniqueIdentifier::new("Test".into());

    let message = Message::new(
        MessageType::Node(NodeMessageType::AllData),
        Fields::from_vec(vec![
            Field::new("Identifier".into(), identifier.to_text()),
            Field::new(
                "Metadata.ContentType".into(),
                "text/plain;charset=utf8".into(),
            ),
        ]),
        Some(MessagePayload {
            data: "Hello World".into(),
            data_len_identifier: "DataLength".into(),
        }),
    );

    let parsed = AllDataMessage::try_from_message(message).unwrap();

    assert_eq!(
        parsed,
        AllDataMessage {
            data: "Hello World".to_string().into_bytes(),
            content_type: ContentType::from_str("text/plain;charset=utf8").unwrap(),
            identifier,
        }
    )
}

#[test]
fn all_data_without_payload_is_missing_payload() {
    let identifier = UniqueIdentifier::new("Test".into());
    let message = Message::new(
        MessageType::Node(NodeMessageType::AllData),
        Fields::from_vec(vec![
            Field::new("Identifier".into(), identifier.to_text()),
            Field::new("Metadata.ContentType".into(), "text/plain".into()),
        ]),
        None,
    );
    assert_eq!(
        AllDataMessage::try_from_message(message).unwrap_err(),
        DecodeError::MissingPayload
    );
}

#[test]
fn all_data_of_another_type_is_refused() {
    let message = Message::new(
        MessageType::Node(NodeMessageType::DataFound),
        Fields::from_vec(vec![]),
        None,
    );
    assert_eq!(
        AllDataMessage::try_from_message(message).unwrap_err(),
        DecodeError::ExpectedDifferentMessageType {
            expected: MessageType::Node(NodeMessageType::AllData),
            got: MessageType::Node(NodeMessageType::DataFound),
        }
    );
}

#[test]
fn all_data_with_a_bad_content_type_reports_the_mime_error() {
    let identifier = UniqueIdentifier::new("Test".into());
    let message = Message::new(
        MessageType::Node(NodeMessageType::AllData),
        Fields::from_vec(vec![
            Field::new("Identifier".into(), identifier.to_text()),
            Field::new("Metadata.ContentType".into(), "not a type".into()),
        ]),
        Some(MessagePayload { data: vec![1, 2], data_len_identifier: "DataLength".into() }),
    );
    match AllDataMessage::try_from_message(message).unwrap_err() {
        DecodeError::ParseError(text) => {
            assert!(text.starts_with("Failed to parse not a type to MIME ("), "{text}");
            assert!(text.ends_with(')'));
        }
        other => panic!("unexpected error {other:?}"),
    }
}
