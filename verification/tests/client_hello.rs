use mycelink::fcp::messages::client_hello::{ClientHelloMessage, EXPECTED_VERSION};
use mycelink::fcp::model::message::FCPEncodable;

#[test]
fn test_encode() {
    let encoded = ClientHelloMessage {
        version: EXPECTED_VERSION,
        name: "Encode-Test".into(),
    }
    .to_message()
    .encode();

    assert_eq!(
        encoded,
        "ClientHello\nName=Encode-Test\nExpectedVersion=2.0\nEndMessage\n".as_bytes()
    );
}
