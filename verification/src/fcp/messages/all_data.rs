//! The data of a finished fetch.

use vstd::prelude::*;

use crate::fcp::decode_error::{unexpected_type, DecodeError, DecodeErrorView};
use crate::fcp::model::content_type::ContentType;
use crate::fcp::model::field_values::{field_content_type, field_identifier, read_content_type, read_identifier};
use crate::fcp::model::message::{Message, MessageView};
use crate::fcp::model::message_type_identifier::{MessageType, NodeMessageType};
use crate::fcp::model::unique_identifier::UniqueIdentifier;

verus! {

/// The data a fetch found, with its media type and the request's identifier.
#[derive(Debug, Eq, PartialEq)]
pub struct AllDataMessage {
    pub identifier: UniqueIdentifier,
    pub content_type: ContentType,
    pub data: Vec<u8>,
}

/// The mathematical value of an [`AllDataMessage`].
pub struct AllDataView {
    pub identifier: (Seq<char>, Seq<char>),
    pub content_type: Seq<char>,
    pub data: Seq<u8>,
}

impl View for AllDataMessage {
    type V = AllDataView;

    open spec fn view(&self) -> AllDataView {
        AllDataView {
            identifier: self.identifier@,
            content_type: self.content_type@,
            data: self.data@,
        }
    }
}

/// What decoding a message as fetched data gives: the type is checked, then `Identifier`
/// and `Metadata.ContentType` are read, then the payload is taken.
pub open spec fn spec_all_data(m: MessageView) -> Result<AllDataView, DecodeErrorView> {
    if m.message_type != MessageType::Node(NodeMessageType::AllData) {
        Err(unexpected_type(NodeMessageType::AllData, m.message_type))
    } else {
        match field_identifier(m.fields, "Identifier"@) {
            Err(e) => Err(e),
            Ok(identifier) => match field_content_type(m.fields, "Metadata.ContentType"@) {
                Err(e) => Err(e),
                Ok(content_type) => match m.payload {
                    None => Err(DecodeErrorView::MissingPayload),
                    Some(p) => Ok(AllDataView { identifier, content_type, data: p.data }),
                },
            },
        }
    }
}

impl AllDataMessage {
    /// Decodes fetched data (`TryFrom<Message>`).
    pub fn try_from_message(value: Message) -> (res: Result<AllDataMessage, DecodeError>)
        ensures
            match spec_all_data(value@) {
                Ok(v) => res matches Ok(r) && r@ == v,
                Err(e) => res matches Err(err) && err@ == e,
            },
    {
        if let Err(e) = value.message_type().expect_specific_node_message(NodeMessageType::AllData) {
            return Err(e);
        }
        let identifier = match read_identifier(value.fields(), "Identifier") {
            Err(e) => return Err(e),
            Ok(v) => v,
        };
        let content_type = match read_content_type(value.fields(), "Metadata.ContentType") {
            Err(e) => return Err(e),
            Ok(v) => v,
        };
        match value.payload() {
            None => Err(DecodeError::MissingPayload),
            Some(p) => Ok(AllDataMessage { identifier, content_type, data: p.data }),
        }
    }
}

} // verus!
