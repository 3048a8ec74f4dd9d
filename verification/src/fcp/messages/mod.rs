//! The FCP messages this library sends and understands.

pub mod all_data;
pub mod client_get;
pub mod client_hello;
pub mod client_put;
pub mod data_found;
pub mod generate_ssk;
pub mod get_failed;
pub mod list_peer;
pub mod node_hello;
pub mod put_failed;
pub mod ssk_keypair;
pub mod subscribe_usk;
pub mod subscribed_usk_update;
pub mod test_dda_complete;
pub mod test_dda_request;
pub mod test_dda_response;
pub mod uri_generated;

use vstd::prelude::*;

use crate::fcp::messages::all_data::AllDataMessage;
use crate::fcp::messages::client_get::ClientGetMessage;
use crate::fcp::messages::client_hello::ClientHelloMessage;
use crate::fcp::messages::client_put::ClientPutMessage;
use crate::fcp::messages::node_hello::NodeHelloMessage;
use crate::fcp::model::message::{spec_encode, FCPEncodable, Message, MessageView};

verus! {

/// The messages a client sends.
pub enum ClientMessage {
    ClientHello(ClientHelloMessage),
    ClientGet(ClientGetMessage),
    ClientPut(ClientPutMessage),
}

/// The messages a node sends that this library reads.
pub enum NodeMessage {
    NodeHello(NodeHelloMessage),
    AllData(AllDataMessage),
}

impl FCPEncodable for ClientMessage {
    /// The message of the wrapped value.
    open spec fn spec_message(&self) -> MessageView {
        match self {
            ClientMessage::ClientHello(inner) => inner.spec_message(),
            ClientMessage::ClientGet(inner) => inner.spec_message(),
            ClientMessage::ClientPut(inner) => inner.spec_message(),
        }
    }

    fn to_message(self) -> (res: Message) {
        match self {
            ClientMessage::ClientHello(inner) => inner.to_message(),
            ClientMessage::ClientGet(inner) => inner.to_message(),
            ClientMessage::ClientPut(inner) => inner.to_message(),
        }
    }
}

impl ClientMessage {
    /// The bytes of the message on the wire.
    pub fn encode(self) -> (res: Vec<u8>)
        ensures
            res@ == spec_encode(self.spec_message()),
    {
        self.to_message().encode()
    }
}

} // verus!
