//! The node's answer to a client's greeting.

use vstd::prelude::*;

use crate::fcp::decode_error::{unexpected_type, DecodeError, DecodeErrorView};
use crate::fcp::model::connection_identifier::ConnectionIdentifier;
use crate::fcp::model::fcp_version::{version_of, FCPVersion};
use crate::fcp::model::field_values::read_text;
use crate::fcp::model::fields::field_value;
use crate::fcp::model::message::{Message, MessageView};
use crate::fcp::model::message_type_identifier::{MessageType, NodeMessageType};

verus! {

/// The node's greeting: its protocol version, its name and the connection's identifier.
#[derive(Debug, Eq, PartialEq)]
pub struct NodeHelloMessage {
    pub fcp_version: FCPVersion,
    pub node: String,
    pub connection_identifier: ConnectionIdentifier,
}

/// The mathematical value of a [`NodeHelloMessage`].
pub struct NodeHelloView {
    pub fcp_version: FCPVersion,
    pub node: Seq<char>,
    pub connection_identifier: Seq<char>,
}

impl View for NodeHelloMessage {
    type V = NodeHelloView;

    open spec fn view(&self) -> NodeHelloView {
        NodeHelloView {
            fcp_version: self.fcp_version,
            node: self.node@,
            connection_identifier: self.connection_identifier@,
        }
    }
}

/// What decoding a message as a node greeting gives: the type is checked first, then the
/// fields `FCPVersion`, `Node` and `ConnectionIdentifier` are read in that order.
pub open spec fn spec_node_hello(m: MessageView) -> Result<NodeHelloView, DecodeErrorView> {
    if m.message_type != MessageType::Node(NodeMessageType::NodeHello) {
        Err(unexpected_type(NodeMessageType::NodeHello, m.message_type))
    } else {
        match field_value(m.fields, "FCPVersion"@) {
            Err(e) => Err(e),
            Ok(v) => match version_of(v) {
                Err(e) => Err(e),
                Ok(fcp_version) => match field_value(m.fields, "Node"@) {
                    Err(e) => Err(e),
                    Ok(node) => match field_value(m.fields, "ConnectionIdentifier"@) {
                        Err(e) => Err(e),
                        Ok(connection_identifier) => Ok(
                            NodeHelloView { fcp_version, node, connection_identifier },
                        ),
                    },
                },
            },
        }
    }
}

impl NodeHelloMessage {
    /// Decodes a node greeting (`TryFrom<Message>`).
    pub fn try_from_message(value: Message) -> (res: Result<NodeHelloMessage, DecodeError>)
        ensures
            match spec_node_hello(value@) {
                Ok(v) => res matches Ok(r) && r@ == v,
                Err(e) => res matches Err(err) && err@ == e,
            },
    {
        if let Err(e) = value.message_type().expect_specific_node_message(NodeMessageType::NodeHello) {
            return Err(e);
        }
        let fields = value.fields();
        let fcp_version = match fields.get("FCPVersion") {
            Err(e) => return Err(e),
            Ok(f) => match FCPVersion::try_from_field(f) {
                Err(e) => return Err(e),
                Ok(v) => v,
            },
        };
        let node = match read_text(fields, "Node") {
            Err(e) => return Err(e),
            Ok(v) => v,
        };
        let connection_identifier = match fields.get_value("ConnectionIdentifier") {
            Err(e) => return Err(e),
            Ok(v) => ConnectionIdentifier::from_str(v),
        };
        Ok(NodeHelloMessage { fcp_version, node, connection_identifier })
    }
}

} // verus!
