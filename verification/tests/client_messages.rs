use mycelink::fcp::messages::client_get::ClientGetMessage;
use mycelink::fcp::messages::client_hello::{ClientHelloMessage, EXPECTED_VERSION};
use mycelink::fcp::messages::client_put::ClientPutMessage;
use mycelink::fcp::messages::generate_ssk::GenerateSSKMessage;
use mycelink::fcp::messages::list_peer::ListPeerMessage;
use mycelink::fcp::messages::subscribe_usk::SubscribeUSKMessage;
use mycelink::fcp::messages::test_dda_request::TestDDARequestMessage;
use mycelink::fcp::messages::test_dda_response::TestDDAResponseMessage;
use mycelink::fcp::messages::ClientMessage;
use mycelink::fcp::model::content_type::ContentType;
use mycelink::fcp::model::message::FCPEncodable;
use mycelink::fcp::model::persistence::Persistence;
use mycelink::fcp::model::priority_class::PriorityClass;
use mycelink::fcp::model::return_type::ReturnType;
use mycelink::fcp::model::unique_identifier::UniqueIdentifier;
use mycelink::fcp::model::upload_type::UploadType;
use mycelink::fcp::model::uri::URI;
use mycelink::fcp::model::verbosity::Verbosity;

const ZERO_NONCE: &str = "AAAAAAAAAAAAAAAAAAAAAAAAAAAAAAAAAAAAAAAAAAA=";

fn identifier(name: &str) -> UniqueIdentifier {
    UniqueIdentifier::from_nonce_bytes(name.into(), [0u8; 32])
}

fn verbosity() -> Verbosity {
    Verbosity {
        simple_progress: true,
        sending_to_network: false,
        compatibility_mode: false,
        expected_hashes: true,
        expected_mime: true,
        expected_data_length: false,
    }
}

fn text(bytes: Vec<u8>) -> String {
    String::from_utf8(bytes).unwrap()
}

#[test]
fn client_get_encodes_its_fields_in_order() {
    let message = ClientGetMessage {
        identifier: identifier("Get"),
        uri: URI::try_from_str("CHK@abc").unwrap(),
        verbosity: verbosity(),
        return_type: ReturnType::Direct,
        max_size: None,
        max_temp_size: None,
        max_retries: -1,
        priority: PriorityClass::High,
        persistence: Persistence::Connection,
        ignore_data_store: false,
        data_store_only: true,
        real_time: false,
    };
    assert_eq!(
        text(message.to_message().encode()),
        format!(
            "ClientGet\nIdentifier=[Mycelink] Get - {ZERO_NONCE}\nuri=CHK@abc\nVerbosity=41\n\
             ReturnType=direct\nMaxRetries=-1\nPriority=2\nPersistence=connection\n\
             IgnoreDS=false\nDSonly=true\nRealTimeFlag=false\nEndMessage\n"
        )
    );
}

#[test]
fn client_get_appends_filename_and_sizes() {
    let message = ClientGetMessage {
        identifier: identifier("Get"),
        uri: URI::try_from_str("KSK@x").unwrap(),
        verbosity: Verbosity {
            simple_progress: false,
            sending_to_network: false,
            compatibility_mode: false,
            expected_hashes: false,
            expected_mime: false,
            expected_data_length: false,
        },
        return_type: ReturnType::Disk { path: "/tmp/out".into() },
        max_size: Some(1024),
        max_temp_size: Some(0),
        max_retries: 3,
        priority: PriorityClass::Pause,
        persistence: Persistence::Forever,
        ignore_data_store: true,
        data_store_only: false,
        real_time: true,
    };
    assert_eq!(
        text(message.to_message().encode()),
        format!(
            "ClientGet\nIdentifier=[Mycelink] Get - {ZERO_NONCE}\nuri=KSK@x\nVerbosity=0\n\
             ReturnType=disk\nMaxRetries=3\nPriority=6\nPersistence=forever\n\
             IgnoreDS=true\nDSonly=false\nRealTimeFlag=true\nFilename=/tmp/out\n\
             MaxSize=1024\nMaxTempSize=0\nEndMessage\n"
        )
    );
}

#[test]
fn client_put_direct_carries_its_data() {
    let message = ClientPutMessage {
        uri: URI::try_from_str("CHK@").unwrap(),
        content_type: Some(ContentType::from_str("text/plain").unwrap()),
        identifier: identifier("Put"),
        verbosity: verbosity(),
        max_retries: 0,
        priority: PriorityClass::Maximum,
        get_only_chk: false,
        dont_compress: true,
        persistence: Persistence::Reboot,
        target_filename: Some("file.txt".into()),
        upload_from: UploadType::Direct { data: b"Put Test".to_vec() },
        is_binary_blob: false,
        real_time: true,
    };
    let mut expected = format!(
        "ClientPut\nIdentifier=[Mycelink] Put - {ZERO_NONCE}\nURI=CHK@\nVerbosity=41\n\
         MaxRetries=0\nPriorityClass=0\nGetCHKOnly=false\nDontCompress=true\n\
         Persistence=reboot\nUploadFrom=direct\nBinaryBlob=false\nRealTimeFlag=true\n\
         Metadata.ContentType=text/plain\nTargetFilename=file.txt\nDataLength=8\nData\n"
    )
    .into_bytes();
    expected.extend_from_slice(b"Put Test");
    assert_eq!(message.to_message().encode(), expected);
}

#[test]
fn client_put_from_disk_or_redirect_has_no_payload() {
    let disk = ClientPutMessage {
        uri: URI::try_from_str("CHK@").unwrap(),
        content_type: None,
        identifier: identifier("Disk"),
        verbosity: verbosity(),
        max_retries: 1,
        priority: PriorityClass::Low,
        get_only_chk: true,
        dont_compress: false,
        persistence: Persistence::Connection,
        target_filename: None,
        upload_from: UploadType::Disk { path: "/data/f".into() },
        is_binary_blob: true,
        real_time: false,
    };
    assert_eq!(
        text(disk.to_message().encode()),
        format!(
            "ClientPut\nIdentifier=[Mycelink] Disk - {ZERO_NONCE}\nURI=CHK@\nVerbosity=41\n\
             MaxRetries=1\nPriorityClass=4\nGetCHKOnly=true\nDontCompress=false\n\
             Persistence=connection\nUploadFrom=disk\nBinaryBlob=true\nRealTimeFlag=false\n\
             Filename=/data/f\nEndMessage\n"
        )
    );
    let redirect = ClientPutMessage {
        uri: URI::try_from_str("KSK@a").unwrap(),
        content_type: None,
        identifier: identifier("R"),
        verbosity: verbosity(),
        max_retries: 1,
        priority: PriorityClass::VeryLow,
        get_only_chk: false,
        dont_compress: false,
        persistence: Persistence::Connection,
        target_filename: None,
        upload_from: UploadType::Redirect { target: URI::try_from_str("CHK@target").unwrap() },
        is_binary_blob: false,
        real_time: false,
    };
    let encoded = text(redirect.to_message().encode());
    assert!(encoded.contains("\nUploadFrom=redirect\n"));
    assert!(encoded.contains("\nPriorityClass=5\n"));
    assert!(encoded.ends_with("\nTargetURI=CHK@target\nEndMessage\n"));
}

#[test]
fn generate_ssk_and_list_peer_encode() {
    let generate = GenerateSSKMessage { identifier: "Generate Test".into() };
    assert_eq!(
        text(generate.to_message().encode()),
        "GenerateSSK\nIdentifier=Generate Test\nEndMessage\n"
    );
    let list = ListPeerMessage {
        node_identifier: identifier("Peer"),
        with_metadata: true,
        with_volatile: false,
    };
    assert_eq!(
        text(list.to_message().encode()),
        format!(
            "ListPeer\nNodeIdentifier=[Mycelink] Peer - {ZERO_NONCE}\nWithMetadata=true\n\
             WithVolatile=false\nEndMessage\n"
        )
    );
}

#[test]
fn subscribe_usk_encodes() {
    let subscribe = SubscribeUSKMessage {
        uri: URI::try_from_str("USK@key/test/0").unwrap(),
        dont_poll: false,
        identifier: identifier("USK Tests"),
        priority_class: PriorityClass::Medium,
        real_time: true,
        sparse_poll: true,
        ignore_usk_datehints: false,
    };
    assert_eq!(
        text(subscribe.to_message().encode()),
        format!(
            "SubscribeUSK\nIdentifier=[Mycelink] USK Tests - {ZERO_NONCE}\nURI=USK@key/test/0\n\
             DontPoll=false\nSparsePoll=true\nPriorityClass=3\nRealTimeFlag=true\n\
             IgnoreUSKDatehints=false\nEndMessage\n"
        )
    );
}

#[test]
fn test_dda_messages_encode() {
    let request = TestDDARequestMessage {
        directory: "/home/fred".into(),
        want_read_directory: true,
        want_write_directory: false,
    };
    assert_eq!(
        text(request.to_message().encode()),
        "TestDDARequest\nDirectory=/home/fred\nWandReadDirectory=true\nWantWriteDirectory=false\nEndMessage\n"
    );
    let response = TestDDAResponseMessage {
        directory: "/home/fred".into(),
        read_content: "secret".into(),
    };
    assert_eq!(
        text(response.to_message().encode()),
        "TestDDAResponse\nDirectory=/home/fred\nReadContent=secret\nEndMessage\n"
    );
}

#[test]
fn client_message_encodes_as_its_inner_message() {
    let hello = ClientMessage::ClientHello(ClientHelloMessage {
        name: "Fred".into(),
        version: EXPECTED_VERSION,
    });
    assert_eq!(
        text(hello.encode()),
        "ClientHello\nName=Fred\nExpectedVersion=2.0\nEndMessage\n"
    );
}
