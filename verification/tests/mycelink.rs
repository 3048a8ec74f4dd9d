use mycelink::mycelink::account::MycelinkAccount;
use mycelink::mycelink::channel_keys::{open_channel_context, send_message_ksk};
use mycelink::mycelink::chat_message::{
    MycelinkChatMessage, MycelinkChatMessageContent, MycelinkChatMessageId, MycelinkChatMessageType,
};
use mycelink::mycelink::compressed_box::{CompressedBox, CompressionHint, CompressionHinting};
use mycelink::mycelink::contact::{MycelinkContact, SignatureVerificationError};
use mycelink::mycelink::keys::{TaggedEncryptionKeyPair, TaggedSignatureKeyPair};

fn account() -> MycelinkAccount {
    MycelinkAccount::from_generated_keys(
        "SSK@req/".into(),
        "SSK@ins/".into(),
        "SSK@dropreq/",
        "SSK@dropins/",
        vec![
            TaggedEncryptionKeyPair { public_key: vec![1, 2], private_key: vec![3] },
            TaggedEncryptionKeyPair { public_key: vec![4], private_key: vec![5] },
        ],
        vec![TaggedSignatureKeyPair { public_key: vec![9, 9], private_key: vec![8] }],
    )
}

#[test]
fn chat_messages_keep_their_parts() {
    let id = MycelinkChatMessageId([1u8; 16]);
    let message = MycelinkChatMessage::new(
        1_700_000_000,
        id.clone(),
        MycelinkChatMessageType::Standard {
            content: MycelinkChatMessageContent::Text("Hello World".into()),
        },
    );
    assert_eq!(message.timestamp(), 1_700_000_000);
    assert_eq!(message.id(), &id);
    assert_eq!(id.as_bytes(), &[1u8; 16]);
    assert_eq!(
        message.message_type(),
        &MycelinkChatMessageType::Standard {
            content: MycelinkChatMessageContent::Text("Hello World".into())
        }
    );
    assert_ne!(MycelinkChatMessageId::new(), MycelinkChatMessageId::new());
}

#[test]
fn compression_hints() {
    let text = MycelinkChatMessageContent::Text("hi".into());
    assert_eq!(text.compression_hint(), CompressionHint::High);
    let reply = MycelinkChatMessageType::Reply {
        thread_start: MycelinkChatMessageId([0; 16]),
        content: text.clone(),
    };
    assert_eq!(reply.compression_hint(), CompressionHint::High);
    let reaction = MycelinkChatMessageType::Reaction {
        target_message: MycelinkChatMessageId([0; 16]),
        indicator: '👍',
    };
    assert_eq!(reaction.compression_hint(), CompressionHint::Fast);
    let message = MycelinkChatMessage::new(0, MycelinkChatMessageId([2; 16]), reaction);
    assert_eq!(message.compression_hint(), CompressionHint::Fast);
}

#[test]
fn compressed_box_holds_the_bytes() {
    let b = CompressedBox::uncompressed(vec![1, 2, 3]);
    assert_eq!(b.into_bytes(), vec![1, 2, 3]);
}

#[test]
fn account_keys_come_from_the_generated_pairs() {
    let a = account();
    assert_eq!(a.request_ssk_key(), "SSK@req/");
    assert_eq!(a.insert_ssk_key(), "SSK@ins/");
    assert_eq!(a.channel_request_dropbox_request_key(), "SSK@dropreq//requests");
    assert_eq!(a.channel_request_dropbox_insert_key(), "USK@dropins//requests/0");
    assert_eq!(a.channel_request_dropbox_known(), 0);
}

#[test]
fn channel_requests_are_fetched_in_turn() {
    let mut a = account();
    assert_eq!(a.channel_request_uri().to_text(), "SSK@dropreq//requests-0");
    a.record_channel_request();
    a.record_channel_request();
    assert_eq!(a.channel_request_dropbox_known(), 2);
    assert_eq!(a.channel_request_uri().to_text(), "SSK@dropreq//requests-2");
}

#[test]
fn contact_info_publishes_the_public_halves() {
    let a = account();
    let info = a.generate_contact_info("Alice".into());
    assert_eq!(info.account_request_key(), "SSK@req/");
    assert_eq!(info.display_name(), "Alice");
    assert_eq!(info.public_signing_keys(), &vec![vec![9u8, 9]]);
    assert_eq!(info.public_encryption_keys(), &vec![vec![1u8, 2], vec![4]]);
    assert_eq!(info.channel_request_droppoint(), "USK@dropins//requests/0");
}

#[test]
fn try_complete_uses_the_first_key_that_works() {
    let a = account();
    let found = a.try_complete(|k| if k.public_key == vec![4] { Some(k.private_key.clone()) } else { None });
    assert_eq!(found.ok(), Some(vec![5]));
    assert!(a.try_complete(|_| None::<u8>).is_err());
    let first = a.try_complete(|k| Some(k.public_key.len()));
    assert_eq!(first.ok(), Some(2));
}

#[test]
fn accounts_are_the_same_by_request_key() {
    let a = account();
    let b = MycelinkAccount::new(
        "SSK@req/".into(),
        "other".into(),
        "x".into(),
        "y".into(),
        vec![],
        vec![],
    );
    let c = MycelinkAccount::new("SSK@else/".into(), "".into(), "".into(), "".into(), vec![], vec![]);
    assert!(a.same_account(&b));
    assert!(!a.same_account(&c));
}

#[test]
fn contacts_accept_only_published_signing_keys() {
    let contact = MycelinkContact::new("Alice".into(), account().generate_contact_info("Alice".into()));
    assert_eq!(contact.display_name(), "Alice");
    assert!(contact.check_signing_key(&vec![9, 9]).is_ok());
    assert!(matches!(
        contact.check_signing_key(&vec![9]),
        Err(SignatureVerificationError::NoMatchingKey)
    ));
    let details = contact.into_connection_details();
    assert_eq!(details.display_name(), "Alice");
}

#[test]
fn channel_key_texts_use_lowercase_hex() {
    let key: Vec<u8> = (0u8..16).collect();
    assert_eq!(
        send_message_ksk(&key).to_text(),
        "KSK@Mycelink_v1_channel_message_000102030405060708090a0b0c0d0e0f"
    );
    assert_eq!(open_channel_context(&[0xff, 0x10]), "Mycelink open-channel ff10");
}
