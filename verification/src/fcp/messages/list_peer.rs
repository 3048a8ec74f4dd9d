//! A request for what the node knows of one peer.

use vstd::prelude::*;

use crate::fcp::model::fields::{push_field, Field, Fields};
use crate::fcp::model::message::{FCPEncodable, Message, MessageView};
use crate::fcp::model::message_type_identifier::{ClientMessageType, MessageType};
use crate::fcp::model::unique_identifier::UniqueIdentifier;
use crate::text::{bool_string, bool_text};

verus! {

/// Asks the node about the peer `node_identifier`.
pub struct ListPeerMessage {
    pub node_identifier: UniqueIdentifier,
    pub with_metadata: bool,
    pub with_volatile: bool,
}

impl FCPEncodable for ListPeerMessage {
    open spec fn spec_message(&self) -> MessageView {
        MessageView {
            message_type: MessageType::Client(ClientMessageType::ListPeer),
            fields: seq![
                ("NodeIdentifier"@, self.node_identifier.spec_text()),
                ("WithMetadata"@, bool_text(self.with_metadata)),
                ("WithVolatile"@, bool_text(self.with_volatile)),
            ],
            payload: None,
        }
    }

    fn to_message(self) -> (res: Message) {
        let mut fields: Vec<Field> = Vec::new();
        push_field(&mut fields, "NodeIdentifier", self.node_identifier.to_text());
        push_field(&mut fields, "WithMetadata", bool_string(self.with_metadata));
        push_field(&mut fields, "WithVolatile", bool_string(self.with_volatile));
        let res = Message::new(
            MessageType::Client(ClientMessageType::ListPeer),
            Fields::from_vec(fields),
            None,
        );
        assert(res@.fields =~= self.spec_message().fields);
        res
    }
}

} // verus!
