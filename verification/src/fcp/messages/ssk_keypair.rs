//! A fresh SSK key pair.

use vstd::prelude::*;

use crate::fcp::decode_error::{unexpected_type, DecodeError, DecodeErrorView};
use crate::fcp::model::field_values::{field_identifier, read_identifier, read_text};
use crate::fcp::model::fields::field_value;
use crate::fcp::model::message::{Message, MessageView};
use crate::fcp::model::message_type_identifier::{MessageType, NodeMessageType};
use crate::fcp::model::unique_identifier::UniqueIdentifier;

verus! {

/// The key pair the node generated for the request `identifier`: the URI to fetch with
/// and the URI to insert with.
pub struct SSKKeypairMessage {
    pub identifier: UniqueIdentifier,
    pub request_uri: String,
    pub insert_uri: String,
}

/// The mathematical value of an [`SSKKeypairMessage`].
pub struct SSKKeypairView {
    pub identifier: (Seq<char>, Seq<char>),
    pub request_uri: Seq<char>,
    pub insert_uri: Seq<char>,
}

impl View for SSKKeypairMessage {
    type V = SSKKeypairView;

    open spec fn view(&self) -> SSKKeypairView {
        SSKKeypairView {
            identifier: self.identifier@,
            request_uri: self.request_uri@,
            insert_uri: self.insert_uri@,
        }
    }
}

/// What decoding a message as a key pair gives: the type is checked, then `Identifier`,
/// `RequestURI` and `InsertURI` are read in that order.
pub open spec fn spec_ssk_keypair(m: MessageView) -> Result<SSKKeypairView, DecodeErrorView> {
    if m.message_type != MessageType::Node(NodeMessageType::SSKKeypair) {
        Err(unexpected_type(NodeMessageType::SSKKeypair, m.message_type))
    } else {
        match field_identifier(m.fields, "Identifier"@) {
            Err(e) => Err(e),
            Ok(identifier) => match field_value(m.fields, "RequestURI"@) {
                Err(e) => Err(e),
                Ok(request_uri) => match field_value(m.fields, "InsertURI"@) {
                    Err(e) => Err(e),
                    Ok(insert_uri) => Ok(SSKKeypairView { identifier, request_uri, insert_uri }),
                },
            },
        }
    }
}

impl SSKKeypairMessage {
    /// Decodes a key pair (`TryFrom<Message>`).
    pub fn try_from_message(value: Message) -> (res: Result<SSKKeypairMessage, DecodeError>)
        ensures
            match spec_ssk_keypair(value@) {
                Ok(v) => res matches Ok(r) && r@ == v,
                Err(e) => res matches Err(err) && err@ == e,
            },
    {
        if let Err(e) = value.message_type().expect_specific_node_message(NodeMessageType::SSKKeypair) {
            return Err(e);
        }
        let fields = value.fields();
        let identifier = match read_identifier(fields, "Identifier") {
            Err(e) => return Err(e),
            Ok(v) => v,
        };
        let request_uri = match read_text(fields, "RequestURI") {
            Err(e) => return Err(e),
            Ok(v) => v,
        };
        let insert_uri = match read_text(fields, "InsertURI") {
            Err(e) => return Err(e),
            Ok(v) => v,
        };
        Ok(SSKKeypairMessage { identifier, request_uri, insert_uri })
    }
}

} // verus!
