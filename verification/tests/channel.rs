use mycelink::mycelink::chat::{MycelinkChat, MycelinkChatType};
use mycelink::mycelink::connection_details::PublicMycelinkConnectionDetails;
use mycelink::mycelink::contact::MycelinkContact;
use mycelink::mycelink::channel::{preferred_component, MycelinkChannel};
use mycelink::mycelink::channel_message::{InitialChannelMessage, MycelinkChannelMessage};
use mycelink::mycelink::chat_message::{MycelinkChatMessage, MycelinkChatMessageContent, MycelinkChatMessageId, MycelinkChatMessageType};
use mycelink::mycelink::compressed_box::{CompressionHint, CompressionHinting};

#[test]
fn a_new_channel_waits_for_the_initial_message() {
    let channel: MycelinkChannel<u32, u8, u8> = MycelinkChannel::new(1, 2, vec![10]);
    assert!(!channel.received_initial_message());
    assert_eq!(*channel.send_ratchet(), 1);
    assert_eq!(*channel.receive_ratchet(), 2);
    assert!(channel.rekey_candidates().is_none());
}

#[test]
fn the_initial_message_offers_components_for_one_rekey() {
    let mut channel: MycelinkChannel<u32, u8, u8> = MycelinkChannel::new(1, 2, vec![10]);
    channel.accept_initial_message(InitialChannelMessage { available_public_component: vec![5, 6] });
    assert!(channel.received_initial_message());
    assert_eq!(channel.rekey_candidates(), Some(&vec![5, 6]));
    channel.complete_send_rekey(3, vec![11]);
    assert_eq!(*channel.send_ratchet(), 3);
    assert!(channel.rekey_candidates().is_none());
}

#[test]
fn an_empty_offer_allows_no_rekey() {
    let mut channel: MycelinkChannel<u32, u8, u8> = MycelinkChannel::new(1, 2, vec![10]);
    channel.accept_initial_message(InitialChannelMessage { available_public_component: vec![] });
    assert!(channel.rekey_candidates().is_none());
}

#[test]
fn a_received_rekey_uses_the_first_matching_generation_and_drops_older_ones() {
    let mut channel: MycelinkChannel<u32, u8, u8> = MycelinkChannel::new(1, 2, vec![10]);
    channel.accept_initial_message(InitialChannelMessage { available_public_component: vec![5] });
    channel.complete_send_rekey(3, vec![11]);
    channel.complete_send_rekey(4, vec![12]);
    // The peer answers the second generation.
    assert!(channel.receive_rekey(|g| if g == &vec![11] { Some(20) } else { None }, vec![7]));
    assert_eq!(*channel.receive_ratchet(), 20);
    assert_eq!(channel.rekey_candidates(), Some(&vec![7]));
    // The first generation is gone: an answer to it no longer matches.
    assert!(!channel.receive_rekey(|g| if g == &vec![10] { Some(30) } else { None }, vec![8]));
    assert_eq!(*channel.receive_ratchet(), 20);
    assert_eq!(channel.rekey_candidates(), Some(&vec![7]));
    // The second and third still match.
    assert!(channel.receive_rekey(|g| if g == &vec![12] { Some(40) } else { None }, vec![9]));
    assert_eq!(*channel.receive_ratchet(), 40);
}

#[test]
fn channel_message_hints_and_chat_messages() {
    let chat = MycelinkChatMessage::new(
        5,
        MycelinkChatMessageId([9; 16]),
        MycelinkChatMessageType::Standard { content: MycelinkChatMessageContent::Text("x".into()) },
    );
    let direct: MycelinkChannelMessage<u8, u8, u8> = MycelinkChannelMessage::DirectMessage(chat);
    assert_eq!(direct.compression_hint(), CompressionHint::High);
    assert_eq!(direct.as_chat_message().unwrap().timestamp(), 5);
    let rekey: MycelinkChannelMessage<u8, u8, u8> = MycelinkChannelMessage::ChannelRekey {
        new_key: 1,
        new_kdf: 0,
        next_public_components: vec![2],
        attached_message: Box::new(direct),
    };
    assert_eq!(rekey.compression_hint(), CompressionHint::Fast);
    assert!(rekey.as_chat_message().is_err());
    let invite: MycelinkChannelMessage<u8, u8, u8> = MycelinkChannelMessage::GroupChatInvite {};
    assert_eq!(invite.compression_hint(), CompressionHint::Fast);
}

#[test]
fn a_direct_chat_is_named_after_its_contact() {
    let details = PublicMycelinkConnectionDetails::new(
        "SSK@bob/".into(),
        "Bob".into(),
        vec![],
        vec![vec![1]],
        "USK@bob/requests/0".into(),
    );
    let chat: MycelinkChat<u32, u8, u8> = MycelinkChat {
        chat_type: MycelinkChatType::DirectChat {
            channel: MycelinkChannel::new(1, 2, vec![3]),
            contact: MycelinkContact::new("Bobby".into(), details),
        },
    };
    assert_eq!(chat.display_name(), "Bobby");
}

#[test]
fn the_most_preferred_component_is_answered_earliest_first() {
    assert_eq!(preferred_component(&vec![3u8, 7, 5, 7], |a, b| a > b), 1);
    assert_eq!(preferred_component(&vec![9u8], |a, b| a > b), 0);
    assert_eq!(preferred_component(&vec![1u8, 1, 1], |a, b| a > b), 0);
    assert_eq!(preferred_component(&vec![4u8, 2, 8], |a, b| a < b), 1);
}
