use mycelink::fcp::decode_error::DecodeError;
use mycelink::fcp::messages::data_found::DataFoundMessage;
use mycelink::fcp::messages::get_failed::{GetFailedMessage, DATA_NOT_FOUND_CODE};
use mycelink::fcp::messages::node_hello::NodeHelloMessage;
use mycelink::fcp::messages::put_failed::PutFailedMessage;
use mycelink::fcp::messages::ssk_keypair::SSKKeypairMessage;
use mycelink::fcp::messages::subscribed_usk_update::SubscribedUSKUpdateMessage;
use mycelink::fcp::messages::test_dda_complete::TestDDACompleteMessage;
use mycelink::fcp::messages::uri_generated::UriGeneratedMessage;
use mycelink::fcp::model::connection_identifier::ConnectionIdentifier;
use mycelink::fcp::model::content_type::ContentType;
use mycelink::fcp::model::fcp_version::FCPVersion;
use mycelink::fcp::model::fields::{Field, Fields};
use mycelink::fcp::model::message::Message;
use mycelink::fcp::model::message_type_identifier::{ClientMessageType, MessageType, NodeMessageType};
use mycelink::fcp::model::unique_identifier::UniqueIdentifier;

const ZERO_NONCE: &str = "AAAAAAAAAAAAAAAAAAAAAAAAAAAAAAAAAAAAAAAAAAA=";

fn node_message(t: NodeMessageType, fields: &[(&str, &str)]) -> Message {
    Message::new(
        MessageType::Node(t),
        Fields::from_vec(fields.iter().map(|(k, v)| Field::new((*k).into(), (*v).into())).collect()),
        None,
    )
}

fn identifier_text(name: &str) -> String {
    format!("[Mycelink] {name} - {ZERO_NONCE}")
}

#[test]
fn node_hello_decodes() {
    let m = node_message(
        NodeMessageType::NodeHello,
        &[("FCPVersion", "2.0"), ("Node", "Fred"), ("ConnectionIdentifier", "abc123")],
    );
    let hello = NodeHelloMessage::try_from_message(m).unwrap();
    assert_eq!(
        hello,
        NodeHelloMessage {
            fcp_version: FCPVersion::V2_0,
            node: "Fred".into(),
            connection_identifier: ConnectionIdentifier::from_str("abc123"),
        }
    );
}

#[test]
fn node_hello_with_unknown_version_is_refused() {
    let m = node_message(
        NodeMessageType::NodeHello,
        &[("FCPVersion", "3.1"), ("Node", "Fred"), ("ConnectionIdentifier", "abc")],
    );
    assert_eq!(
        NodeHelloMessage::try_from_message(m).unwrap_err(),
        DecodeError::ParseError("Failed parsing 3.1 as a valid FCP version".into())
    );
}

#[test]
fn node_hello_without_node_is_missing_field() {
    let m = node_message(NodeMessageType::NodeHello, &[("FCPVersion", "2.0")]);
    assert_eq!(
        NodeHelloMessage::try_from_message(m).unwrap_err(),
        DecodeError::MissingField("Node".into())
    );
}

#[test]
fn client_message_is_not_a_node_hello() {
    let m = Message::new(
        MessageType::Client(ClientMessageType::ClientHello),
        Fields::from_vec(vec![]),
        None,
    );
    assert_eq!(
        NodeHelloMessage::try_from_message(m).unwrap_err(),
        DecodeError::ExpectedDifferentMessageType {
            expected: MessageType::Node(NodeMessageType::NodeHello),
            got: MessageType::Client(ClientMessageType::ClientHello),
        }
    );
}

#[test]
fn data_found_reads_the_length() {
    let id = identifier_text("Get");
    let m = node_message(
        NodeMessageType::DataFound,
        &[("Identifier", &id), ("Metadata.ContentType", "text/plain"), ("DataLength", "128")],
    );
    let found = DataFoundMessage::try_from_message(m).unwrap();
    assert_eq!(found.data_length, 128);
    assert_eq!(found.identifier.to_text(), id);
    assert_eq!(found.content_type, ContentType::from_str("text/plain").unwrap());
}

#[test]
fn data_found_with_bad_length_reports_the_integer_error() {
    let id = identifier_text("Get");
    let m = node_message(
        NodeMessageType::DataFound,
        &[("Identifier", &id), ("Metadata.ContentType", "text/plain"), ("DataLength", "12a")],
    );
    assert_eq!(
        DataFoundMessage::try_from_message(m).err().unwrap(),
        DecodeError::ParseError("Failed to parse integer (kind: InvalidDigit)".into())
    );
    let m = node_message(
        NodeMessageType::DataFound,
        &[("Identifier", &id), ("Metadata.ContentType", "text/plain"), ("DataLength", "")],
    );
    assert_eq!(
        DataFoundMessage::try_from_message(m).err().unwrap(),
        DecodeError::ParseError("Failed to parse integer (kind: Empty)".into())
    );
}

#[test]
fn get_failed_reads_required_and_optional_fields() {
    let id = identifier_text("Get");
    let m = node_message(
        NodeMessageType::GetFailed,
        &[
            ("Code", "13"),
            ("Identifier", &id),
            ("CodeDescription", "Data not found"),
            ("ShortCodeDescription", "Not found"),
            ("Fatal", "true"),
            ("RedirectURI", "CHK@other"),
            ("FinalizedExpected", "maybe"),
        ],
    );
    let failed = GetFailedMessage::try_from_message(m).unwrap();
    assert_eq!(failed.code, DATA_NOT_FOUND_CODE);
    assert_eq!(failed.code_description, "Data not found");
    assert_eq!(failed.short_code_description, "Not found");
    assert_eq!(failed.extra_description, None);
    assert!(failed.fatal);
    assert_eq!(failed.redirect_uri.unwrap().to_text(), "CHK@other");
    assert_eq!(failed.expected_data_length, None);
    assert!(failed.expected_metadata_content_type.is_none());
    assert_eq!(failed.finalized_expected, None);
}

#[test]
fn get_failed_optional_fields_that_are_present() {
    let id = identifier_text("Get");
    let m = node_message(
        NodeMessageType::GetFailed,
        &[
            ("Code", "28"),
            ("Identifier", &id),
            ("CodeDescription", "All data not found"),
            ("ShortCodeDescription", "Not all"),
            ("ExtraDescription", "more"),
            ("Fatal", "false"),
            ("ExpectedDataLength", "77"),
            ("ExpectedMetadata.ContentType", "image/png"),
            ("FinalizedExpected", "true"),
        ],
    );
    let failed = GetFailedMessage::try_from_message(m).unwrap();
    assert_eq!(failed.code, 28);
    assert_eq!(failed.extra_description, Some("more".into()));
    assert!(!failed.fatal);
    assert_eq!(failed.expected_data_length, Some(77));
    assert_eq!(
        failed.expected_metadata_content_type,
        Some(ContentType::from_str("image/png").unwrap())
    );
    assert_eq!(failed.finalized_expected, Some(true));
}

#[test]
fn get_failed_with_bad_fatal_flag_reports_the_boolean_error() {
    let id = identifier_text("Get");
    let m = node_message(
        NodeMessageType::GetFailed,
        &[
            ("Code", "13"),
            ("Identifier", &id),
            ("CodeDescription", "x"),
            ("ShortCodeDescription", "y"),
            ("Fatal", "yes"),
        ],
    );
    assert_eq!(
        GetFailedMessage::try_from_message(m).unwrap_err(),
        DecodeError::ParseError("provided string was not `true` or `false`".into())
    );
}

#[test]
fn get_failed_with_too_large_code_overflows() {
    let id = identifier_text("Get");
    let m = node_message(
        NodeMessageType::GetFailed,
        &[("Code", "4294967296"), ("Identifier", &id)],
    );
    assert_eq!(
        GetFailedMessage::try_from_message(m).unwrap_err(),
        DecodeError::ParseError("Failed to parse integer (kind: PosOverflow)".into())
    );
}

#[test]
fn put_failed_decodes() {
    let id = identifier_text("Put");
    let m = node_message(
        NodeMessageType::PutFailed,
        &[
            ("Code", "9"),
            ("Identifier", &id),
            ("ExpectedURI", "CHK@x"),
            ("CodeDescription", "Route not found"),
            ("ShortCodeDescription", "RNF"),
            ("ExtraDescription", "none"),
            ("Fatal", "false"),
        ],
    );
    let failed = PutFailedMessage::try_from_message(m).unwrap();
    assert_eq!(failed.code, 9);
    assert_eq!(failed.expected_uri.to_text(), "CHK@x");
    assert_eq!(failed.extra_description, "none");
    assert!(!failed.fatal);
}

#[test]
fn put_failed_with_bad_identifier_reports_it() {
    let m = node_message(
        NodeMessageType::PutFailed,
        &[("Code", "9"), ("Identifier", "someone else's")],
    );
    assert_eq!(
        PutFailedMessage::try_from_message(m).unwrap_err(),
        DecodeError::ParseError("someone else's is not a Mycelink identifier".into())
    );
}

#[test]
fn ssk_keypair_decodes() {
    let id = identifier_text("Generate Test");
    let m = node_message(
        NodeMessageType::SSKKeypair,
        &[("Identifier", &id), ("RequestURI", "SSK@req/"), ("InsertURI", "SSK@ins/")],
    );
    let pair = SSKKeypairMessage::try_from_message(m).unwrap();
    assert_eq!(pair.request_uri, "SSK@req/");
    assert_eq!(pair.insert_uri, "SSK@ins/");
    assert!(pair.identifier.same_as(&UniqueIdentifier::from_nonce_bytes("Generate Test".into(), [0; 32])));
}

#[test]
fn subscribed_usk_update_decodes() {
    let id = identifier_text("USK Tests");
    let m = node_message(
        NodeMessageType::SubscribedUSKUpdate,
        &[
            ("Identifier", &id),
            ("Edition", "18446744073709551615"),
            ("URI", "USK@key/test/1"),
            ("NewKnownGood", "true"),
            ("NewSlotToo", "false"),
        ],
    );
    let update = SubscribedUSKUpdateMessage::try_from_message(m).unwrap();
    assert_eq!(update.edition, u64::MAX);
    assert_eq!(update.uri.to_text(), "USK@key/test/1");
    assert!(update.new_known_good);
    assert!(!update.new_slot_true);
}

#[test]
fn test_dda_complete_and_uri_generated_decode() {
    let m = node_message(
        NodeMessageType::TestDDAComplete,
        &[("Directory", "/tmp"), ("ReadFilename", "r"), ("WriteFilename", "w")],
    );
    let complete = TestDDACompleteMessage::try_from_message(m).unwrap();
    assert_eq!(complete.directory, "/tmp");
    assert_eq!(complete.read_filename, "r");
    assert_eq!(complete.write_filename, "w");

    let id = identifier_text("Put");
    let m = node_message(NodeMessageType::URIGenerated, &[("Identifier", &id), ("URI", "CHK@new")]);
    let generated = UriGeneratedMessage::try_from_message(m).unwrap();
    assert_eq!(generated.uri.to_text(), "CHK@new");
    let m = node_message(NodeMessageType::URIGenerated, &[("Identifier", &id)]);
    assert_eq!(
        UriGeneratedMessage::try_from_message(m).err().map(|e| format!("{e:?}")),
        Some(format!("{:?}", DecodeError::MissingField("URI".into())))
    );
}
