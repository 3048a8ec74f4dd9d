//! The messages of a chat.

use vstd::prelude::*;

use crate::mycelink::compressed_box::{CompressionHint, CompressionHinting};

verus! {

/// `rand::thread_rng().fill_bytes` on 16 bytes: random bytes, of which nothing can be
/// promised.
#[verifier::external_body]
fn random_id_bytes() -> (res: [u8; 16]) {
    let mut bytes = [0u8; 16];
    rand::RngCore::fill_bytes(&mut rand::thread_rng(), &mut bytes);
    bytes
}

/// The identifier of a chat message: 16 random bytes.
#[derive(Debug, Clone, PartialEq, Eq)]
pub struct MycelinkChatMessageId(pub [u8; 16]);

impl MycelinkChatMessageId {
    /// A fresh random identifier.
    pub fn new() -> (res: MycelinkChatMessageId) {
        MycelinkChatMessageId(random_id_bytes())
    }

    /// The bytes of the identifier (`AsRef<[u8]>`).
    pub fn as_bytes(&self) -> (res: &[u8])
        ensures
            res@ == self.0@,
    {
        self.0.as_slice()
    }
}

/// What a chat message says.
#[derive(Debug, Clone, PartialEq, Eq)]
pub enum MycelinkChatMessageContent {
    Text(String),
}

impl CompressionHinting for MycelinkChatMessageContent {
    /// Text compresses well.
    open spec fn spec_compression_hint(&self) -> CompressionHint {
        match self {
            MycelinkChatMessageContent::Text(_) => CompressionHint::High,
        }
    }

    fn compression_hint(&self) -> (res: CompressionHint) {
        match self {
            MycelinkChatMessageContent::Text(_) => CompressionHint::High,
        }
    }
}

/// The kinds of chat messages.
#[derive(Debug, Clone, PartialEq, Eq)]
pub enum MycelinkChatMessageType {
    Standard { content: MycelinkChatMessageContent },
    Reply { thread_start: MycelinkChatMessageId, content: MycelinkChatMessageContent },
    Reaction { target_message: MycelinkChatMessageId, indicator: char },
}

impl CompressionHinting for MycelinkChatMessageType {
    /// A message with content is compressed as its content; a reaction is small.
    open spec fn spec_compression_hint(&self) -> CompressionHint {
        match self {
            MycelinkChatMessageType::Standard { content } => content.spec_compression_hint(),
            MycelinkChatMessageType::Reply { content, .. } => content.spec_compression_hint(),
            MycelinkChatMessageType::Reaction { .. } => CompressionHint::Fast,
        }
    }

    fn compression_hint(&self) -> (res: CompressionHint) {
        match self {
            MycelinkChatMessageType::Standard { content } => content.compression_hint(),
            MycelinkChatMessageType::Reply { content, .. } => content.compression_hint(),
            MycelinkChatMessageType::Reaction { .. } => CompressionHint::Fast,
        }
    }
}

/// A chat message: when it was written (seconds since the epoch), its identifier and
/// what it is.
#[derive(Debug, Clone)]
pub struct MycelinkChatMessage {
    timestamp: u64,
    id: MycelinkChatMessageId,
    message_type: MycelinkChatMessageType,
}

/// The mathematical value of a [`MycelinkChatMessage`].
pub struct ChatMessageView {
    pub timestamp: u64,
    pub id: MycelinkChatMessageId,
    pub message_type: MycelinkChatMessageType,
}

impl View for MycelinkChatMessage {
    type V = ChatMessageView;

    closed spec fn view(&self) -> ChatMessageView {
        ChatMessageView { timestamp: self.timestamp, id: self.id, message_type: self.message_type }
    }
}

impl MycelinkChatMessage {
    pub fn new(timestamp: u64, id: MycelinkChatMessageId, message_type: MycelinkChatMessageType) -> (res: MycelinkChatMessage)
        ensures
            res@ == (ChatMessageView { timestamp, id, message_type }),
    {
        MycelinkChatMessage { timestamp, id, message_type }
    }

    pub fn timestamp(&self) -> (res: u64)
        ensures
            res == self@.timestamp,
    {
        self.timestamp
    }

    pub fn id(&self) -> (res: &MycelinkChatMessageId)
        ensures
            *res == self@.id,
    {
        &self.id
    }

    pub fn message_type(&self) -> (res: &MycelinkChatMessageType)
        ensures
            *res == self@.message_type,
    {
        &self.message_type
    }
}

impl CompressionHinting for MycelinkChatMessage {
    /// A message is compressed as its kind says.
    open spec fn spec_compression_hint(&self) -> CompressionHint {
        self@.message_type.spec_compression_hint()
    }

    fn compression_hint(&self) -> (res: CompressionHint) {
        self.message_type.compression_hint()
    }
}

} // verus!
