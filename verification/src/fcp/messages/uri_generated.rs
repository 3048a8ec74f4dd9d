//! The URI an insert will have.

use vstd::prelude::*;

use crate::fcp::decode_error::{unexpected_type, DecodeError, DecodeErrorView};
use crate::fcp::model::field_values::{field_identifier, read_identifier, read_uri};
use crate::fcp::model::fields::field_value;
use crate::fcp::model::message::{Message, MessageView};
use crate::fcp::model::message_type_identifier::{MessageType, NodeMessageType};
use crate::fcp::model::unique_identifier::UniqueIdentifier;
use crate::fcp::model::uri::URI;

verus! {

/// The URI the insert `identifier` will have.
pub struct UriGeneratedMessage {
    pub identifier: UniqueIdentifier,
    pub uri: URI,
}

/// The mathematical value of a [`UriGeneratedMessage`].
pub struct UriGeneratedView {
    pub identifier: (Seq<char>, Seq<char>),
    pub uri: Seq<char>,
}

impl View for UriGeneratedMessage {
    type V = UriGeneratedView;

    open spec fn view(&self) -> UriGeneratedView {
        UriGeneratedView { identifier: self.identifier@, uri: self.uri@ }
    }
}

/// What decoding a message as a generated URI gives: the type is checked, then
/// `Identifier` and `URI` are read.
pub open spec fn spec_uri_generated(m: MessageView) -> Result<UriGeneratedView, DecodeErrorView> {
    if m.message_type != MessageType::Node(NodeMessageType::URIGenerated) {
        Err(unexpected_type(NodeMessageType::URIGenerated, m.message_type))
    } else {
        match field_identifier(m.fields, "Identifier"@) {
            Err(e) => Err(e),
            Ok(identifier) => match field_value(m.fields, "URI"@) {
                Err(e) => Err(e),
                Ok(uri) => Ok(UriGeneratedView { identifier, uri }),
            },
        }
    }
}

impl UriGeneratedMessage {
    /// Decodes a generated URI (`TryFrom<Message>`).
    pub fn try_from_message(value: Message) -> (res: Result<UriGeneratedMessage, DecodeError>)
        ensures
            match spec_uri_generated(value@) {
                Ok(v) => res matches Ok(r) && r@ == v,
                Err(e) => res matches Err(err) && err@ == e,
            },
    {
        if let Err(e) = value.message_type().expect_specific_node_message(NodeMessageType::URIGenerated) {
            return Err(e);
        }
        let fields = value.fields();
        let identifier = match read_identifier(fields, "Identifier") {
            Err(e) => return Err(e),
            Ok(v) => v,
        };
        let uri = match read_uri(fields, "URI") {
            Err(e) => return Err(e),
            Ok(v) => v,
        };
        Ok(UriGeneratedMessage { identifier, uri })
    }
}

} // verus!
