//! A chat: a conversation over a channel.

use vstd::prelude::*;

use crate::mycelink::channel::MycelinkChannel;
use crate::mycelink::contact::MycelinkContact;

verus! {

/// The kinds of chats; the channel's ratchets and components are of types `R`, `P`, `S`.
pub enum MycelinkChatType<R, P, S> {
    /// A conversation with one contact over one channel.
    DirectChat { channel: MycelinkChannel<R, P, S>, contact: MycelinkContact },
}

/// A chat.
pub struct MycelinkChat<R, P, S> {
    pub chat_type: MycelinkChatType<R, P, S>,
}

impl<R, P, S> MycelinkChat<R, P, S> {
    /// The name the chat is shown under: that of its contact.
    pub fn display_name(&self) -> (res: &str)
        ensures
            match self.chat_type {
                MycelinkChatType::DirectChat { contact, .. } => res@ == contact.spec_display_name(),
            },
    {
        match &self.chat_type {
            MycelinkChatType::DirectChat { contact, .. } => contact.display_name(),
        }
    }
}

} // verus!
