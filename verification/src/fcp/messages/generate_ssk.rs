//! A request for a fresh SSK key pair.

use vstd::prelude::*;

use crate::fcp::model::fields::{push_field, Field, Fields};
use crate::fcp::model::message::{FCPEncodable, Message, MessageView};
use crate::fcp::model::message_type_identifier::{ClientMessageType, MessageType};

verus! {

/// Asks the node for a fresh SSK key pair; the reply carries `identifier`.
pub struct GenerateSSKMessage {
    pub identifier: String,
}

impl FCPEncodable for GenerateSSKMessage {
    open spec fn spec_message(&self) -> MessageView {
        MessageView {
            message_type: MessageType::Client(ClientMessageType::GenerateSSK),
            fields: seq![("Identifier"@, self.identifier@)],
            payload: None,
        }
    }

    fn to_message(self) -> (res: Message) {
        let mut fields: Vec<Field> = Vec::new();
        push_field(&mut fields, "Identifier", self.identifier);
        let res = Message::new(
            MessageType::Client(ClientMessageType::GenerateSSK),
            Fields::from_vec(fields),
            None,
        );
        assert(res@.fields =~= self.spec_message().fields);
        res
    }
}

} // verus!
