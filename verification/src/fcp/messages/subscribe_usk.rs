//! A subscription to the editions of a USK.

use vstd::prelude::*;

use crate::fcp::model::fields::{push_field, Field, Fields};
use crate::fcp::model::message::{FCPEncodable, Message, MessageView};
use crate::fcp::model::message_type_identifier::{ClientMessageType, MessageType};
use crate::fcp::model::priority_class::PriorityClass;
use crate::fcp::model::unique_identifier::UniqueIdentifier;
use crate::fcp::model::uri::URI;
use crate::text::{bool_string, bool_text, decimal};

verus! {

/// Asks the node to report each new edition of the USK `uri`.
pub struct SubscribeUSKMessage {
    pub uri: URI,
    pub dont_poll: bool,
    pub identifier: UniqueIdentifier,
    pub priority_class: PriorityClass,
    pub real_time: bool,
    pub sparse_poll: bool,
    pub ignore_usk_datehints: bool,
}

impl FCPEncodable for SubscribeUSKMessage {
    open spec fn spec_message(&self) -> MessageView {
        MessageView {
            message_type: MessageType::Client(ClientMessageType::SubscribeUSK),
            fields: seq![
                ("Identifier"@, self.identifier.spec_text()),
                ("URI"@, self.uri@),
                ("DontPoll"@, bool_text(self.dont_poll)),
                ("SparsePoll"@, bool_text(self.sparse_poll)),
                ("PriorityClass"@, decimal(self.priority_class.spec_code())),
                ("RealTimeFlag"@, bool_text(self.real_time)),
                ("IgnoreUSKDatehints"@, bool_text(self.ignore_usk_datehints)),
            ],
            payload: None,
        }
    }

    fn to_message(self) -> (res: Message) {
        let mut fields: Vec<Field> = Vec::new();
        push_field(&mut fields, "Identifier", self.identifier.to_text());
        push_field(&mut fields, "URI", self.uri.to_text());
        push_field(&mut fields, "DontPoll", bool_string(self.dont_poll));
        push_field(&mut fields, "SparsePoll", bool_string(self.sparse_poll));
        push_field(&mut fields, "PriorityClass", self.priority_class.text());
        push_field(&mut fields, "RealTimeFlag", bool_string(self.real_time));
        push_field(&mut fields, "IgnoreUSKDatehints", bool_string(self.ignore_usk_datehints));
        let res = Message::new(
            MessageType::Client(ClientMessageType::SubscribeUSK),
            Fields::from_vec(fields),
            None,
        );
        assert(res@.fields =~= self.spec_message().fields);
        res
    }
}

} // verus!
