//! The messages sent over a channel.

use vstd::prelude::*;

use crate::mycelink::chat_message::MycelinkChatMessage;
use crate::mycelink::compressed_box::{CompressionHint, CompressionHinting};

verus! {

/// The first message each side sends over a new channel: the public components the
/// other side may answer to rekey.
pub struct InitialChannelMessage<P> {
    pub available_public_component: Vec<P>,
}

/// A message over a channel. `A` is the answer to a key exchange, `K` names a key
/// derivation, `P` is an offered public component.
pub enum MycelinkChannelMessage<A, K, P> {
    GroupChatRekey {},
    GroupChatInvite {},
    /// Rekeys the sender's side and carries another message.
    ChannelRekey {
        new_key: A,
        new_kdf: K,
        next_public_components: Vec<P>,
        attached_message: Box<MycelinkChannelMessage<A, K, P>>,
    },
    DirectMessage(MycelinkChatMessage),
}

impl<A, K, P> CompressionHinting for MycelinkChannelMessage<A, K, P> {
    /// A chat message is compressed as it says; everything else is small.
    open spec fn spec_compression_hint(&self) -> CompressionHint {
        match self {
            MycelinkChannelMessage::DirectMessage(inner) => inner.spec_compression_hint(),
            _ => CompressionHint::Fast,
        }
    }

    fn compression_hint(&self) -> (res: CompressionHint) {
        match self {
            MycelinkChannelMessage::GroupChatRekey { .. } => CompressionHint::Fast,
            MycelinkChannelMessage::GroupChatInvite { .. } => CompressionHint::Fast,
            MycelinkChannelMessage::ChannelRekey { .. } => CompressionHint::Fast,
            MycelinkChannelMessage::DirectMessage(inner) => inner.compression_hint(),
        }
    }
}

impl<A, K, P> MycelinkChannelMessage<A, K, P> {
    /// The chat message a direct message carries (`TryFrom<&MycelinkChannelMessage>`).
    pub fn as_chat_message(&self) -> (res: Result<&MycelinkChatMessage, ()>)
        ensures
            match self {
                MycelinkChannelMessage::DirectMessage(inner) => res == Ok::<
                    &MycelinkChatMessage,
                    (),
                >(inner),
                _ => res is Err,
            },
    {
        match self {
            MycelinkChannelMessage::DirectMessage(inner) => Ok(inner),
            _ => Err(()),
        }
    }
}

} // verus!
