//! The first message of a connection.

use vstd::prelude::*;

use crate::fcp::model::fcp_version::{version_text, FCPVersion};
use crate::fcp::model::fields::{field_views, push_field, Field, Fields};
use crate::fcp::model::message::{FCPEncodable, Message, MessageView};
use crate::fcp::model::message_type_identifier::{ClientMessageType, MessageType};
use crate::text::owned;

verus! {

/// The protocol version this library speaks.
pub const EXPECTED_VERSION: FCPVersion = FCPVersion::V2_0;

/// Greets the node: the client's name and the version it expects.
pub struct ClientHelloMessage {
    pub name: String,
    pub version: FCPVersion,
}

impl FCPEncodable for ClientHelloMessage {
    open spec fn spec_message(&self) -> MessageView {
        MessageView {
            message_type: MessageType::Client(ClientMessageType::ClientHello),
            fields: seq![("Name"@, self.name@), ("ExpectedVersion"@, version_text())],
            payload: None,
        }
    }

    fn to_message(self) -> (res: Message) {
        let mut fields: Vec<Field> = Vec::new();
        push_field(&mut fields, "Name", self.name);
        push_field(&mut fields, "ExpectedVersion", owned(self.version.name()));
        let ghost views = field_views(fields@);
        let res = Message::new(
            MessageType::Client(ClientMessageType::ClientHello),
            Fields::from_vec(fields),
            None,
        );
        assert(res@.fields =~= self.spec_message().fields);
        res
    }
}

} // verus!
