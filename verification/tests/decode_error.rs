use mycelink::fcp::decode_error::DecodeError;
use mycelink::fcp::model::message_type_identifier::{ClientMessageType, MessageType, NodeMessageType};

#[test]
fn errors_describe_themselves() {
    assert_eq!(
        DecodeError::ExpectedDifferentMessageType {
            expected: MessageType::Node(NodeMessageType::NodeHello),
            got: MessageType::Client(ClientMessageType::ClientGet),
        }
        .display_text(),
        "Expected 'NodeHello' but got 'ClientGet' as FCP message type while decoding."
    );
    assert_eq!(
        DecodeError::UnknownMessageType { got: "Foo".into() }.display_text(),
        "Could not parse 'Foo' as MessageType"
    );
    assert_eq!(DecodeError::ParseError("bad".into()).display_text(), "Parse error: bad");
    assert_eq!(DecodeError::InvalidVersion("9".into()).display_text(), "Version 9 is unknown.");
    assert_eq!(
        DecodeError::MissingField("Node".into()).display_text(),
        "Field Node is missing in message."
    );
    assert_eq!(DecodeError::ProtocolBreak("x".into()).display_text(), "Protocol Break: x");
    assert_eq!(DecodeError::UnexpectedEOF.display_text(), "Unexpected EOF");
    assert_eq!(DecodeError::MissingPayload.display_text(), "Message is missing Payload");
}

#[test]
fn boolean_errors_carry_the_std_message() {
    assert_eq!(
        DecodeError::from_bool_error(),
        DecodeError::ParseError("provided string was not `true` or `false`".into())
    );
    assert_eq!(
        "yes".parse::<bool>().unwrap_err().to_string(),
        "provided string was not `true` or `false`"
    );
}
