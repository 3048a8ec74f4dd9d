use mycelink::fcp::decode_error::DecodeError;
use mycelink::fcp::model::connection_identifier::ConnectionIdentifier;
use mycelink::fcp::model::content_type::ContentType;
use mycelink::fcp::model::fcp_version::FCPVersion;
use mycelink::fcp::model::fields::{Field, Fields};
use mycelink::fcp::model::message_identifier::{
    ClientMessageIdentifier, MessageIdentifier, NodeMessageIdentifier,
};
use mycelink::fcp::model::message_type_identifier::{ClientMessageType, MessageType, NodeMessageType};
use mycelink::fcp::model::persistence::Persistence;
use mycelink::fcp::model::priority_class::PriorityClass;
use mycelink::fcp::model::return_type::ReturnType;
use mycelink::fcp::model::unique_identifier::UniqueIdentifier;
use mycelink::fcp::model::upload_type::UploadType;
use mycelink::fcp::model::uri::URI;
use mycelink::fcp::model::verbosity::Verbosity;
use mycelink::text::IntErrorKind;
use std::cmp::Ordering;

fn fields() -> Fields {
    Fields::from_vec(vec![
        Field::new("Identifier".into(), "a".into()),
        Field::new("DataLength".into(), "5".into()),
        Field::new("Identifier".into(), "b".into()),
    ])
}

#[test]
fn field_accessors() {
    let f = Field::new("Key".into(), "Value".into());
    assert_eq!(f.key(), "Key");
    assert_eq!(f.value(), "Value");
    assert!(Field::is_field("a=b"));
    assert!(!Field::is_field("EndMessage"));
}

#[test]
fn field_from_line_splits_at_the_first_equal_sign() {
    let f = Field::try_from_line("URI=USK@x=y").unwrap();
    assert_eq!(f.key(), "URI");
    assert_eq!(f.value(), "USK@x=y");
    assert_eq!(
        Field::try_from_line("nothing").unwrap_err(),
        DecodeError::ParseError("'nothing' cannot be parsed as field as it contains no '='".into())
    );
}

#[test]
fn get_finds_the_first_field_with_the_key() {
    let fs = fields();
    assert_eq!(fs.get("Identifier").unwrap().value(), "a");
    assert_eq!(fs.get_value("DataLength").unwrap(), "5");
    assert_eq!(fs.get("Missing").unwrap_err(), DecodeError::MissingField("Missing".into()));
    assert_eq!(fs.iter().map(|f| f.value()).collect::<Vec<_>>(), vec!["a", "5", "b"]);
}

#[test]
fn payload_size_hint() {
    assert_eq!(fields().get_payload_size_hint().unwrap().value(), "5");
    assert_eq!(fields().count_payload_size_hints(), 1);
    let none = Fields::from_vec(vec![Field::new("A".into(), "1".into())]);
    assert_eq!(
        none.get_payload_size_hint().unwrap_err(),
        DecodeError::MissingField("PAYLOAD LENGTH HINT".into())
    );
}

#[test]
fn identifier_text_round_trips() {
    let id = UniqueIdentifier::from_nonce_bytes("Put Test".into(), core_bytes());
    let text = id.to_text();
    assert_eq!(text, "[Mycelink] Put Test - AAECAwQFBgcICQoLDA0ODxAREhMUFRYXGBkaGxwdHh8=");
    let back = UniqueIdentifier::try_from_str(&text).unwrap();
    assert!(back.same_as(&id));
    assert_eq!(back, id);
}

fn core_bytes() -> [u8; 32] {
    let mut bytes = [0u8; 32];
    for (i, b) in bytes.iter_mut().enumerate() {
        *b = i as u8;
    }
    bytes
}

#[test]
fn new_identifiers_have_a_44_character_nonce() {
    let a = UniqueIdentifier::new("Test".into());
    let b = UniqueIdentifier::new("Test".into());
    let text = a.to_text();
    assert!(text.starts_with("[Mycelink] Test - "));
    assert_eq!(text.len(), "[Mycelink] Test - ".len() + 44);
    assert!(!a.same_as(&b));
    assert!(UniqueIdentifier::try_from_str(&text).unwrap().same_as(&a));
}

#[test]
fn identifier_errors() {
    assert_eq!(
        UniqueIdentifier::try_from_str("Test - abc").unwrap_err(),
        DecodeError::ParseError("Test - abc is not a Mycelink identifier".into())
    );
    assert_eq!(
        UniqueIdentifier::try_from_str("[Mycelink] Test").unwrap_err(),
        DecodeError::ParseError(
            "[Mycelink] Test doesn't contain the separator for nonce and name (' - ')".into()
        )
    );
    assert_eq!(
        UniqueIdentifier::try_from_str("[Mycelink] Test - abc").unwrap_err(),
        DecodeError::ParseError(
            "Expected encoded nonce to be 44 bytes long, but is instead 3 bytes long.\n                Read 'abc' as nonce from identifier '[Mycelink] Test - abc'".into()
        )
    );
}

#[test]
fn verbosity_bitmask() {
    let all = Verbosity {
        simple_progress: true,
        sending_to_network: true,
        compatibility_mode: true,
        expected_hashes: true,
        expected_mime: true,
        expected_data_length: true,
    };
    assert_eq!(all.as_bitmask(), 111);
    assert_eq!(all.text(), "111");
    let mime_only = Verbosity {
        simple_progress: false,
        sending_to_network: false,
        compatibility_mode: false,
        expected_hashes: false,
        expected_mime: true,
        expected_data_length: false,
    };
    assert_eq!(mime_only.as_bitmask(), 32);
}

#[test]
fn priority_classes_order_by_urgency() {
    assert_eq!(PriorityClass::Maximum.code(), 0);
    assert_eq!(PriorityClass::Pause.code(), 6);
    assert_eq!(PriorityClass::Medium.text(), "3");
    assert!(PriorityClass::Maximum > PriorityClass::High);
    assert!(PriorityClass::Pause < PriorityClass::VeryLow);
    assert_eq!(PriorityClass::Low.partial_cmp(&PriorityClass::Low), Some(Ordering::Equal));
}

#[test]
fn wire_texts_of_small_enums() {
    assert_eq!(Persistence::Connection.as_str(), "connection");
    assert_eq!(Persistence::Reboot.as_str(), "reboot");
    assert_eq!(Persistence::Forever.as_str(), "forever");
    assert_eq!(ReturnType::Direct.as_str(), "direct");
    assert_eq!(ReturnType::Disk { path: "/x".into() }.as_str(), "disk");
    assert_eq!(ReturnType::Discard.as_str(), "none");
    assert_eq!(UploadType::Direct { data: vec![] }.as_str(), "direct");
    assert_eq!(UploadType::Disk { path: "/x".into() }.as_str(), "disk");
    assert_eq!(
        UploadType::Redirect { target: URI::try_from_str("CHK@").unwrap() }.as_str(),
        "redirect"
    );
}

#[test]
fn fcp_version() {
    assert_eq!(FCPVersion::V2_0.name(), "2.0");
    assert_eq!(FCPVersion::try_from_str("2.0").unwrap(), FCPVersion::V2_0);
    assert_eq!(
        FCPVersion::try_from_str("1.0").unwrap_err(),
        DecodeError::ParseError("Failed parsing 1.0 as a valid FCP version".into())
    );
    let field = Field::new("FCPVersion".into(), "2.0".into());
    assert_eq!(FCPVersion::try_from_field(&field).unwrap(), FCPVersion::V2_0);
    let other = Field::new("Version".into(), "2.0".into());
    assert_eq!(
        FCPVersion::try_from_field(&other).unwrap_err(),
        DecodeError::MissingField("FCPVersion".into())
    );
}

#[test]
fn content_type_renders_as_mime_does() {
    let t = ContentType::from_str("text/plain;charset=utf8").unwrap();
    assert_eq!(t.to_text(), "text/plain;charset=utf8");
    let upper = ContentType::from_str("TEXT/HTML").unwrap();
    assert_eq!(upper.to_text(), "text/html");
    assert!(matches!(ContentType::from_str("nonsense"), Err(DecodeError::ParseError(_))));
}

#[test]
fn uri_and_connection_identifier_keep_their_text() {
    let u = URI::try_from_str("USK@abc/site/3").unwrap();
    assert_eq!(u.to_text(), "USK@abc/site/3");
    assert_eq!(u.duplicate(), u);
    assert_eq!(ConnectionIdentifier::from_str("c1"), ConnectionIdentifier::from_str("c1"));
}

#[test]
fn message_type_names() {
    assert_eq!(ClientMessageType::ClientHello.name(), "ClientHello");
    assert_eq!(NodeMessageType::SubscribedUSKUpdate.name(), "SubscribedUSKUpdate");
    assert_eq!(MessageType::Node(NodeMessageType::AllData).name(), "AllData");
    assert_eq!(
        MessageType::try_from_name("NodeHello").unwrap(),
        MessageType::Node(NodeMessageType::NodeHello)
    );
    assert_eq!(
        MessageType::try_from_name("ClientPut").unwrap(),
        MessageType::Client(ClientMessageType::ClientPut)
    );
    assert_eq!(
        MessageType::try_from_name("Nope").unwrap_err(),
        DecodeError::UnknownMessageType { got: "Nope".into() }
    );
    let t = MessageType::Node(NodeMessageType::GetFailed);
    assert!(t.is_specific_node_message(NodeMessageType::GetFailed));
    assert!(!t.is_specific_node_message(NodeMessageType::PutFailed));
    assert!(t.expect_specific_node_message(NodeMessageType::GetFailed).is_ok());
    assert_eq!(NodeMessageIdentifier::NodeHello.name(), "NodeHello\n");
    assert_eq!(ClientMessageIdentifier::ClientGet.name(), "ClientGet\n");
}

#[test]
fn integer_errors_name_their_kind() {
    assert_eq!(
        DecodeError::from_int_error(IntErrorKind::PosOverflow),
        DecodeError::ParseError("Failed to parse integer (kind: PosOverflow)".into())
    );
}
