//! A request to test direct disk access to a directory.

use vstd::prelude::*;

use crate::fcp::model::fields::{push_field, Field, Fields};
use crate::fcp::model::message::{FCPEncodable, Message, MessageView};
use crate::fcp::model::message_type_identifier::{ClientMessageType, MessageType};
use crate::text::{bool_string, bool_text};

verus! {

/// Asks the node whether it may read or write `directory` directly.
pub struct TestDDARequestMessage {
    pub directory: String,
    pub want_read_directory: bool,
    pub want_write_directory: bool,
}

impl FCPEncodable for TestDDARequestMessage {
    open spec fn spec_message(&self) -> MessageView {
        MessageView {
            message_type: MessageType::Client(ClientMessageType::TestDDARequest),
            fields: seq![
                ("Directory"@, self.directory@),
                ("WandReadDirectory"@, bool_text(self.want_read_directory)),
                ("WantWriteDirectory"@, bool_text(self.want_write_directory)),
            ],
            payload: None,
        }
    }

    fn to_message(self) -> (res: Message) {
        let mut fields: Vec<Field> = Vec::new();
        push_field(&mut fields, "Directory", self.directory);
        push_field(&mut fields, "WandReadDirectory", bool_string(self.want_read_directory));
        push_field(&mut fields, "WantWriteDirectory", bool_string(self.want_write_directory));
        let res = Message::new(
            MessageType::Client(ClientMessageType::TestDDARequest),
            Fields::from_vec(fields),
            None,
        );
        assert(res@.fields =~= self.spec_message().fields);
        res
    }
}

} // verus!
