//! The announcement that a fetch found its data.

use vstd::prelude::*;

use crate::fcp::decode_error::{unexpected_type, DecodeError, DecodeErrorView};
use crate::fcp::model::content_type::ContentType;
use crate::fcp::model::field_values::{
    field_content_type, field_identifier, field_unsigned, read_content_type, read_identifier,
    read_unsigned,
};
use crate::fcp::model::message::{Message, MessageView};
use crate::fcp::model::message_type_identifier::{MessageType, NodeMessageType};
use crate::fcp::model::unique_identifier::UniqueIdentifier;

verus! {

/// A fetch found data of the given media type and length.
pub struct DataFoundMessage {
    pub identifier: UniqueIdentifier,
    pub content_type: ContentType,
    pub data_length: usize,
}

/// The mathematical value of a [`DataFoundMessage`].
pub struct DataFoundView {
    pub identifier: (Seq<char>, Seq<char>),
    pub content_type: Seq<char>,
    pub data_length: nat,
}

impl View for DataFoundMessage {
    type V = DataFoundView;

    open spec fn view(&self) -> DataFoundView {
        DataFoundView {
            identifier: self.identifier@,
            content_type: self.content_type@,
            data_length: self.data_length as nat,
        }
    }
}

/// What decoding a message as found data gives: the type is checked, then `Identifier`,
/// `Metadata.ContentType` and `DataLength` are read in that order.
pub open spec fn spec_data_found(m: MessageView) -> Result<DataFoundView, DecodeErrorView> {
    if m.message_type != MessageType::Node(NodeMessageType::DataFound) {
        Err(unexpected_type(NodeMessageType::DataFound, m.message_type))
    } else {
        match field_identifier(m.fields, "Identifier"@) {
            Err(e) => Err(e),
            Ok(identifier) => match field_content_type(m.fields, "Metadata.ContentType"@) {
                Err(e) => Err(e),
                Ok(content_type) => match field_unsigned(m.fields, "DataLength"@, usize::MAX as nat) {
                    Err(e) => Err(e),
                    Ok(data_length) => Ok(DataFoundView { identifier, content_type, data_length }),
                },
            },
        }
    }
}

impl DataFoundMessage {
    /// Decodes the announcement of found data (`TryFrom<Message>`).
    pub fn try_from_message(value: Message) -> (res: Result<DataFoundMessage, DecodeError>)
        ensures
            match spec_data_found(value@) {
                Ok(v) => res matches Ok(r) && r@ == v,
                Err(e) => res matches Err(err) && err@ == e,
            },
    {
        if let Err(e) = value.message_type().expect_specific_node_message(NodeMessageType::DataFound) {
            return Err(e);
        }
        let fields = value.fields();
        let identifier = match read_identifier(fields, "Identifier") {
            Err(e) => return Err(e),
            Ok(v) => v,
        };
        let content_type = match read_content_type(fields, "Metadata.ContentType") {
            Err(e) => return Err(e),
            Ok(v) => v,
        };
        let data_length = match read_unsigned(fields, "DataLength", usize::MAX as u64) {
            Err(e) => return Err(e),
            Ok(n) => n as usize,
        };
        Ok(DataFoundMessage { identifier, content_type, data_length })
    }
}

} // verus!
