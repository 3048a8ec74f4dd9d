//! The answer to the node's challenge for direct disk access.

use vstd::prelude::*;

use crate::fcp::model::fields::{push_field, Field, Fields};
use crate::fcp::model::message::{FCPEncodable, Message, MessageView};
use crate::fcp::model::message_type_identifier::{ClientMessageType, MessageType};

verus! {

/// Tells the node what the file it asked about in `directory` holds; the path is kept
/// as its text.
pub struct TestDDAResponseMessage {
    pub directory: String,
    pub read_content: String,
}

impl FCPEncodable for TestDDAResponseMessage {
    open spec fn spec_message(&self) -> MessageView {
        MessageView {
            message_type: MessageType::Client(ClientMessageType::TestDDAResponse),
            fields: seq![("Directory"@, self.directory@), ("ReadContent"@, self.read_content@)],
            payload: None,
        }
    }

    fn to_message(self) -> (res: Message) {
        let mut fields: Vec<Field> = Vec::new();
        push_field(&mut fields, "Directory", self.directory);
        push_field(&mut fields, "ReadContent", self.read_content);
        let res = Message::new(
            MessageType::Client(ClientMessageType::TestDDAResponse),
            Fields::from_vec(fields),
            None,
        );
        assert(res@.fields =~= self.spec_message().fields);
        res
    }
}

} // verus!
