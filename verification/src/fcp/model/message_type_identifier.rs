//! The types of FCP messages and their names on the wire.

use vstd::prelude::*;

use crate::fcp::decode_error::DecodeError;
use crate::text::{is_blank, is_whitespace, owned, str_equal};

verus! {

/// Messages a client sends to the node.
#[derive(Copy, Clone, Debug, Eq, PartialEq, Structural)]
pub enum ClientMessageType {
    ClientHello,
    ClientGet,
    ClientPut,
    ListPeer,
    GenerateSSK,
    TestDDARequest,
    TestDDAResponse,
    SubscribeUSK,
}

/// Messages the node sends to a client.
#[derive(Copy, Clone, Debug, Eq, PartialEq, Structural)]
pub enum NodeMessageType {
    NodeHello,
    AllData,
    PutSuccessful,
    PutFailed,
    GetFailed,
    URIGenerated,
    SSKKeypair,
    TestDDAReply,
    TestDDAComplete,
    DataFound,
    ProtocolError,
    SubscribedUSKUpdate,
}

/// The type of any FCP message.
#[derive(Copy, Clone, Debug, Eq, PartialEq, Structural)]
pub enum MessageType {
    Client(ClientMessageType),
    Node(NodeMessageType),
}

impl ClientMessageType {
    /// The name of the message type on the wire.
    pub open spec fn spec_name(self) -> Seq<char> {
        match self {
            ClientMessageType::ClientHello => "ClientHello"@,
            ClientMessageType::ClientGet => "ClientGet"@,
            ClientMessageType::ClientPut => "ClientPut"@,
            ClientMessageType::ListPeer => "ListPeer"@,
            ClientMessageType::GenerateSSK => "GenerateSSK"@,
            ClientMessageType::TestDDARequest => "TestDDARequest"@,
            ClientMessageType::TestDDAResponse => "TestDDAResponse"@,
            ClientMessageType::SubscribeUSK => "SubscribeUSK"@,
        }
    }

    /// Gets the str representing the message type (e.g. "ClientHello").
    pub fn name(&self) -> (res: &'static str)
        ensures
            res@ == self.spec_name(),
    {
        match self {
            ClientMessageType::ClientHello => "ClientHello",
            ClientMessageType::ClientGet => "ClientGet",
            ClientMessageType::ClientPut => "ClientPut",
            ClientMessageType::ListPeer => "ListPeer",
            ClientMessageType::GenerateSSK => "GenerateSSK",
            ClientMessageType::TestDDARequest => "TestDDARequest",
            ClientMessageType::TestDDAResponse => "TestDDAResponse",
            ClientMessageType::SubscribeUSK => "SubscribeUSK",
        }
    }

    /// The message type named `value` (`TryFrom<&str>`): the first known type with that name.
    pub fn try_from_name(value: &str) -> (res: Result<ClientMessageType, DecodeError>)
        ensures
            match res {
                Ok(t) => t.spec_name() == value@,
                Err(e) => {
                    &&& forall|t: ClientMessageType| t.spec_name() != value@
                    &&& e matches DecodeError::UnknownMessageType { got }
                    &&& got@ == value@
                },
            },
    {
        let all = [
            ClientMessageType::ClientHello,
            ClientMessageType::ClientGet,
            ClientMessageType::ClientPut,
            ClientMessageType::ListPeer,
            ClientMessageType::GenerateSSK,
            ClientMessageType::TestDDARequest,
            ClientMessageType::TestDDAResponse,
            ClientMessageType::SubscribeUSK,
        ];
        let mut i: usize = 0;
        while i < 8
            invariant
                i <= 8,
                all@ == seq![
                    ClientMessageType::ClientHello,
                    ClientMessageType::ClientGet,
                    ClientMessageType::ClientPut,
                    ClientMessageType::ListPeer,
                    ClientMessageType::GenerateSSK,
                    ClientMessageType::TestDDARequest,
                    ClientMessageType::TestDDAResponse,
                    ClientMessageType::SubscribeUSK,
                ],
                forall|j: int| 0 <= j < i ==> all@[j].spec_name() != value@,
            decreases 8 - i,
        {
            let t = all[i];
            if str_equal(t.name(), value) {
                return Ok(t);
            }
            i = i + 1;
        }
        assert forall|t: ClientMessageType| t.spec_name() != value@ by {
            match t {
                ClientMessageType::ClientHello => assert(all@[0] == t),
                ClientMessageType::ClientGet => assert(all@[1] == t),
                ClientMessageType::ClientPut => assert(all@[2] == t),
                ClientMessageType::ListPeer => assert(all@[3] == t),
                ClientMessageType::GenerateSSK => assert(all@[4] == t),
                ClientMessageType::TestDDARequest => assert(all@[5] == t),
                ClientMessageType::TestDDAResponse => assert(all@[6] == t),
                ClientMessageType::SubscribeUSK => assert(all@[7] == t),
            }
        }
        Err(DecodeError::UnknownMessageType { got: owned(value) })
    }
}

impl NodeMessageType {
    /// The name of the message type on the wire.
    pub open spec fn spec_name(self) -> Seq<char> {
        match self {
            NodeMessageType::NodeHello => "NodeHello"@,
            NodeMessageType::AllData => "AllData"@,
            NodeMessageType::PutSuccessful => "PutSuccessful"@,
            NodeMessageType::PutFailed => "PutFailed"@,
            NodeMessageType::GetFailed => "GetFailed"@,
            NodeMessageType::URIGenerated => "URIGenerated"@,
            NodeMessageType::SSKKeypair => "SSKKeypair"@,
            NodeMessageType::TestDDAReply => "TestDDAReply"@,
            NodeMessageType::TestDDAComplete => "TestDDAComplete"@,
            NodeMessageType::DataFound => "DataFound"@,
            NodeMessageType::ProtocolError => "ProtocolError"@,
            NodeMessageType::SubscribedUSKUpdate => "SubscribedUSKUpdate"@,
        }
    }

    /// Gets the str representing the message type (e.g. "NodeHello").
    pub fn name(&self) -> (res: &'static str)
        ensures
            res@ == self.spec_name(),
    {
        match self {
            NodeMessageType::NodeHello => "NodeHello",
            NodeMessageType::AllData => "AllData",
            NodeMessageType::PutSuccessful => "PutSuccessful",
            NodeMessageType::PutFailed => "PutFailed",
            NodeMessageType::GetFailed => "GetFailed",
            NodeMessageType::URIGenerated => "URIGenerated",
            NodeMessageType::SSKKeypair => "SSKKeypair",
            NodeMessageType::TestDDAReply => "TestDDAReply",
            NodeMessageType::TestDDAComplete => "TestDDAComplete",
            NodeMessageType::DataFound => "DataFound",
            NodeMessageType::ProtocolError => "ProtocolError",
            NodeMessageType::SubscribedUSKUpdate => "SubscribedUSKUpdate",
        }
    }

    /// The message type named `value` (`TryFrom<&str>`): the first known type with that name.
    pub fn try_from_name(value: &str) -> (res: Result<NodeMessageType, DecodeError>)
        ensures
            match res {
                Ok(t) => t.spec_name() == value@,
                Err(e) => {
                    &&& forall|t: NodeMessageType| t.spec_name() != value@
                    &&& e matches DecodeError::UnknownMessageType { got }
                    &&& got@ == value@
                },
            },
    {
        let all = [
            NodeMessageType::NodeHello,
            NodeMessageType::AllData,
            NodeMessageType::PutSuccessful,
            NodeMessageType::PutFailed,
            NodeMessageType::GetFailed,
            NodeMessageType::URIGenerated,
            NodeMessageType::SSKKeypair,
            NodeMessageType::TestDDAReply,
            NodeMessageType::TestDDAComplete,
            NodeMessageType::DataFound,
            NodeMessageType::ProtocolError,
            NodeMessageType::SubscribedUSKUpdate,
        ];
        let mut i: usize = 0;
        while i < 12
            invariant
                i <= 12,
                all@ == seq![
                    NodeMessageType::NodeHello,
                    NodeMessageType::AllData,
                    NodeMessageType::PutSuccessful,
                    NodeMessageType::PutFailed,
                    NodeMessageType::GetFailed,
                    NodeMessageType::URIGenerated,
                    NodeMessageType::SSKKeypair,
                    NodeMessageType::TestDDAReply,
                    NodeMessageType::TestDDAComplete,
                    NodeMessageType::DataFound,
                    NodeMessageType::ProtocolError,
                    NodeMessageType::SubscribedUSKUpdate,
                ],
                forall|j: int| 0 <= j < i ==> all@[j].spec_name() != value@,
            decreases 12 - i,
        {
            let t = all[i];
            if str_equal(t.name(), value) {
                return Ok(t);
            }
            i = i + 1;
        }
        assert forall|t: NodeMessageType| t.spec_name() != value@ by {
            match t {
                NodeMessageType::NodeHello => assert(all@[0] == t),
                NodeMessageType::AllData => assert(all@[1] == t),
                NodeMessageType::PutSuccessful => assert(all@[2] == t),
                NodeMessageType::PutFailed => assert(all@[3] == t),
                NodeMessageType::GetFailed => assert(all@[4] == t),
                NodeMessageType::URIGenerated => assert(all@[5] == t),
                NodeMessageType::SSKKeypair => assert(all@[6] == t),
                NodeMessageType::TestDDAReply => assert(all@[7] == t),
                NodeMessageType::TestDDAComplete => assert(all@[8] == t),
                NodeMessageType::DataFound => assert(all@[9] == t),
                NodeMessageType::ProtocolError => assert(all@[10] == t),
                NodeMessageType::SubscribedUSKUpdate => assert(all@[11] == t),
            }
        }
        Err(DecodeError::UnknownMessageType { got: owned(value) })
    }
}

impl MessageType {
    /// The name of the message type on the wire.
    pub open spec fn spec_name(self) -> Seq<char> {
        match self {
            MessageType::Client(inner) => inner.spec_name(),
            MessageType::Node(inner) => inner.spec_name(),
        }
    }

    /// Gets the str representing the message type.
    pub fn name(&self) -> (res: &'static str)
        ensures
            res@ == self.spec_name(),
    {
        match self {
            MessageType::Client(inner) => inner.name(),
            MessageType::Node(inner) => inner.name(),
        }
    }

    /// Whether this is the node message type `matches`.
    pub fn is_specific_node_message(&self, matches: NodeMessageType) -> (res: bool)
        ensures
            res == (*self == MessageType::Node(matches)),
    {
        match self {
            MessageType::Client(_) => false,
            MessageType::Node(inner) => *inner == matches,
        }
    }

    /// Succeeds exactly when this is the node message type `matches`.
    pub fn expect_specific_node_message(&self, matches: NodeMessageType) -> (res: Result<(), DecodeError>)
        ensures
            *self == MessageType::Node(matches) ==> res is Ok,
            *self != MessageType::Node(matches) ==> res == Err::<(), DecodeError>(
                DecodeError::ExpectedDifferentMessageType { expected: MessageType::Node(matches), got: *self },
            ),
    {
        if !self.is_specific_node_message(matches) {
            Err(DecodeError::ExpectedDifferentMessageType { expected: MessageType::Node(matches), got: *self })
        } else {
            Ok(())
        }
    }

    /// The message type named `value` (`TryFrom<&str>`): node types are tried first, then
    /// client types; when neither knows the name the error is the client types' one.
    pub fn try_from_name(value: &str) -> (res: Result<MessageType, DecodeError>)
        ensures
            match res {
                Ok(MessageType::Node(t)) => t.spec_name() == value@,
                Ok(MessageType::Client(t)) => t.spec_name() == value@
                    && forall|n: NodeMessageType| n.spec_name() != value@,
                Err(e) => {
                    &&& forall|t: MessageType| t.spec_name() != value@
                    &&& e matches DecodeError::UnknownMessageType { got }
                    &&& got@ == value@
                },
            },
    {
        let node = NodeMessageType::try_from_name(value);
        let client = ClientMessageType::try_from_name(value);
        match node {
            Ok(t) => Ok(MessageType::Node(t)),
            Err(_) => match client {
                Ok(t) => Ok(MessageType::Client(t)),
                Err(e) => {
                    assert forall|t: MessageType| t.spec_name() != value@ by {
                        match t {
                            MessageType::Client(c) => {},
                            MessageType::Node(n) => {},
                        }
                    }
                    Err(e)
                },
            },
        }
    }
}


/// No two message types share a name.
pub proof fn lemma_message_type_names_distinct(a: MessageType, b: MessageType)
    ensures
        a.spec_name() == b.spec_name() ==> a == b,
{
    reveal_strlit("NodeHello");
    reveal_strlit("AllData");
    reveal_strlit("PutSuccessful");
    reveal_strlit("PutFailed");
    reveal_strlit("GetFailed");
    reveal_strlit("URIGenerated");
    reveal_strlit("SSKKeypair");
    reveal_strlit("TestDDAReply");
    reveal_strlit("TestDDAComplete");
    reveal_strlit("DataFound");
    reveal_strlit("ProtocolError");
    reveal_strlit("SubscribedUSKUpdate");
    reveal_strlit("ClientHello");
    reveal_strlit("ClientGet");
    reveal_strlit("ClientPut");
    reveal_strlit("ListPeer");
    reveal_strlit("GenerateSSK");
    reveal_strlit("TestDDARequest");
    reveal_strlit("TestDDAResponse");
    reveal_strlit("SubscribeUSK");
    match a {
        MessageType::Node(NodeMessageType::NodeHello) => match b {
            MessageType::Node(NodeMessageType::NodeHello) => {},
            MessageType::Node(NodeMessageType::AllData) => assert(a.spec_name().len() != b.spec_name().len()),
            MessageType::Node(NodeMessageType::PutSuccessful) => assert(a.spec_name().len() != b.spec_name().len()),
            MessageType::Node(NodeMessageType::PutFailed) => assert(a.spec_name()[0] != b.spec_name()[0]),
            MessageType::Node(NodeMessageType::GetFailed) => assert(a.spec_name()[0] != b.spec_name()[0]),
            MessageType::Node(NodeMessageType::URIGenerated) => assert(a.spec_name().len() != b.spec_name().len()),
            MessageType::Node(NodeMessageType::SSKKeypair) => assert(a.spec_name().len() != b.spec_name().len()),
            MessageType::Node(NodeMessageType::TestDDAReply) => assert(a.spec_name().len() != b.spec_name().len()),
            MessageType::Node(NodeMessageType::TestDDAComplete) => assert(a.spec_name().len() != b.spec_name().len()),
            MessageType::Node(NodeMessageType::DataFound) => assert(a.spec_name()[0] != b.spec_name()[0]),
            MessageType::Node(NodeMessageType::ProtocolError) => assert(a.spec_name().len() != b.spec_name().len()),
            MessageType::Node(NodeMessageType::SubscribedUSKUpdate) => assert(a.spec_name().len() != b.spec_name().len()),
            MessageType::Client(ClientMessageType::ClientHello) => assert(a.spec_name().len() != b.spec_name().len()),
            MessageType::Client(ClientMessageType::ClientGet) => assert(a.spec_name()[0] != b.spec_name()[0]),
            MessageType::Client(ClientMessageType::ClientPut) => assert(a.spec_name()[0] != b.spec_name()[0]),
            MessageType::Client(ClientMessageType::ListPeer) => assert(a.spec_name().len() != b.spec_name().len()),
            MessageType::Client(ClientMessageType::GenerateSSK) => assert(a.spec_name().len() != b.spec_name().len()),
            MessageType::Client(ClientMessageType::TestDDARequest) => assert(a.spec_name().len() != b.spec_name().len()),
            MessageType::Client(ClientMessageType::TestDDAResponse) => assert(a.spec_name().len() != b.spec_name().len()),
            MessageType::Client(ClientMessageType::SubscribeUSK) => assert(a.spec_name().len() != b.spec_name().len()),
        },
        MessageType::Node(NodeMessageType::AllData) => match b {
            MessageType::Node(NodeMessageType::NodeHello) => assert(a.spec_name().len() != b.spec_name().len()),
            MessageType::Node(NodeMessageType::AllData) => {},
            MessageType::Node(NodeMessageType::PutSuccessful) => assert(a.spec_name().len() != b.spec_name().len()),
            MessageType::Node(NodeMessageType::PutFailed) => assert(a.spec_name().len() != b.spec_name().len()),
            MessageType::Node(NodeMessageType::GetFailed) => assert(a.spec_name().len() != b.spec_name().len()),
            MessageType::Node(NodeMessageType::URIGenerated) => assert(a.spec_name().len() != b.spec_name().len()),
            MessageType::Node(NodeMessageType::SSKKeypair) => assert(a.spec_name().len() != b.spec_name().len()),
            MessageType::Node(NodeMessageType::TestDDAReply) => assert(a.spec_name().len() != b.spec_name().len()),
            MessageType::Node(NodeMessageType::TestDDAComplete) => assert(a.spec_name().len() != b.spec_name().len()),
            MessageType::Node(NodeMessageType::DataFound) => assert(a.spec_name().len() != b.spec_name().len()),
            MessageType::Node(NodeMessageType::ProtocolError) => assert(a.spec_name().len() != b.spec_name().len()),
            MessageType::Node(NodeMessageType::SubscribedUSKUpdate) => assert(a.spec_name().len() != b.spec_name().len()),
            MessageType::Client(ClientMessageType::ClientHello) => assert(a.spec_name().len() != b.spec_name().len()),
            MessageType::Client(ClientMessageType::ClientGet) => assert(a.spec_name().len() != b.spec_name().len()),
            MessageType::Client(ClientMessageType::ClientPut) => assert(a.spec_name().len() != b.spec_name().len()),
            MessageType::Client(ClientMessageType::ListPeer) => assert(a.spec_name().len() != b.spec_name().len()),
            MessageType::Client(ClientMessageType::GenerateSSK) => assert(a.spec_name().len() != b.spec_name().len()),
            MessageType::Client(ClientMessageType::TestDDARequest) => assert(a.spec_name().len() != b.spec_name().len()),
            MessageType::Client(ClientMessageType::TestDDAResponse) => assert(a.spec_name().len() != b.spec_name().len()),
            MessageType::Client(ClientMessageType::SubscribeUSK) => assert(a.spec_name().len() != b.spec_name().len()),
        },
        MessageType::Node(NodeMessageType::PutSuccessful) => match b {
            MessageType::Node(NodeMessageType::NodeHello) => assert(a.spec_name().len() != b.spec_name().len()),
            MessageType::Node(NodeMessageType::AllData) => assert(a.spec_name().len() != b.spec_name().len()),
            MessageType::Node(NodeMessageType::PutSuccessful) => {},
            MessageType::Node(NodeMessageType::PutFailed) => assert(a.spec_name().len() != b.spec_name().len()),
            MessageType::Node(NodeMessageType::GetFailed) => assert(a.spec_name().len() != b.spec_name().len()),
            MessageType::Node(NodeMessageType::URIGenerated) => assert(a.spec_name().len() != b.spec_name().len()),
            MessageType::Node(NodeMessageType::SSKKeypair) => assert(a.spec_name().len() != b.spec_name().len()),
            MessageType::Node(NodeMessageType::TestDDAReply) => assert(a.spec_name().len() != b.spec_name().len()),
            MessageType::Node(NodeMessageType::TestDDAComplete) => assert(a.spec_name().len() != b.spec_name().len()),
            MessageType::Node(NodeMessageType::DataFound) => assert(a.spec_name().len() != b.spec_name().len()),
            MessageType::Node(NodeMessageType::ProtocolError) => assert(a.spec_name()[1] != b.spec_name()[1]),
            MessageType::Node(NodeMessageType::SubscribedUSKUpdate) => assert(a.spec_name().len() != b.spec_name().len()),
            MessageType::Client(ClientMessageType::ClientHello) => assert(a.spec_name().len() != b.spec_name().len()),
            MessageType::Client(ClientMessageType::ClientGet) => assert(a.spec_name().len() != b.spec_name().len()),
            MessageType::Client(ClientMessageType::ClientPut) => assert(a.spec_name().len() != b.spec_name().len()),
            MessageType::Client(ClientMessageType::ListPeer) => assert(a.spec_name().len() != b.spec_name().len()),
            MessageType::Client(ClientMessageType::GenerateSSK) => assert(a.spec_name().len() != b.spec_name().len()),
            MessageType::Client(ClientMessageType::TestDDARequest) => assert(a.spec_name().len() != b.spec_name().len()),
            MessageType::Client(ClientMessageType::TestDDAResponse) => assert(a.spec_name().len() != b.spec_name().len()),
            MessageType::Client(ClientMessageType::SubscribeUSK) => assert(a.spec_name().len() != b.spec_name().len()),
        },
        MessageType::Node(NodeMessageType::PutFailed) => match b {
            MessageType::Node(NodeMessageType::NodeHello) => assert(a.spec_name()[0] != b.spec_name()[0]),
            MessageType::Node(NodeMessageType::AllData) => assert(a.spec_name().len() != b.spec_name().len()),
            MessageType::Node(NodeMessageType::PutSuccessful) => assert(a.spec_name().len() != b.spec_name().len()),
            MessageType::Node(NodeMessageType::PutFailed) => {},
            MessageType::Node(NodeMessageType::GetFailed) => assert(a.spec_name()[0] != b.spec_name()[0]),
            MessageType::Node(NodeMessageType::URIGenerated) => assert(a.spec_name().len() != b.spec_name().len()),
            MessageType::Node(NodeMessageType::SSKKeypair) => assert(a.spec_name().len() != b.spec_name().len()),
            MessageType::Node(NodeMessageType::TestDDAReply) => assert(a.spec_name().len() != b.spec_name().len()),
            MessageType::Node(NodeMessageType::TestDDAComplete) => assert(a.spec_name().len() != b.spec_name().len()),
            MessageType::Node(NodeMessageType::DataFound) => assert(a.spec_name()[0] != b.spec_name()[0]),
            MessageType::Node(NodeMessageType::ProtocolError) => assert(a.spec_name().len() != b.spec_name().len()),
            MessageType::Node(NodeMessageType::SubscribedUSKUpdate) => assert(a.spec_name().len() != b.spec_name().len()),
            MessageType::Client(ClientMessageType::ClientHello) => assert(a.spec_name().len() != b.spec_name().len()),
            MessageType::Client(ClientMessageType::ClientGet) => assert(a.spec_name()[0] != b.spec_name()[0]),
            MessageType::Client(ClientMessageType::ClientPut) => assert(a.spec_name()[0] != b.spec_name()[0]),
            MessageType::Client(ClientMessageType::ListPeer) => assert(a.spec_name().len() != b.spec_name().len()),
            MessageType::Client(ClientMessageType::GenerateSSK) => assert(a.spec_name().len() != b.spec_name().len()),
            MessageType::Client(ClientMessageType::TestDDARequest) => assert(a.spec_name().len() != b.spec_name().len()),
            MessageType::Client(ClientMessageType::TestDDAResponse) => assert(a.spec_name().len() != b.spec_name().len()),
            MessageType::Client(ClientMessageType::SubscribeUSK) => assert(a.spec_name().len() != b.spec_name().len()),
        },
        MessageType::Node(NodeMessageType::GetFailed) => match b {
            MessageType::Node(NodeMessageType::NodeHello) => assert(a.spec_name()[0] != b.spec_name()[0]),
            MessageType::Node(NodeMessageType::AllData) => assert(a.spec_name().len() != b.spec_name().len()),
            MessageType::Node(NodeMessageType::PutSuccessful) => assert(a.spec_name().len() != b.spec_name().len()),
            MessageType::Node(NodeMessageType::PutFailed) => assert(a.spec_name()[0] != b.spec_name()[0]),
            MessageType::Node(NodeMessageType::GetFailed) => {},
            MessageType::Node(NodeMessageType::URIGenerated) => assert(a.spec_name().len() != b.spec_name().len()),
            MessageType::Node(NodeMessageType::SSKKeypair) => assert(a.spec_name().len() != b.spec_name().len()),
            MessageType::Node(NodeMessageType::TestDDAReply) => assert(a.spec_name().len() != b.spec_name().len()),
            MessageType::Node(NodeMessageType::TestDDAComplete) => assert(a.spec_name().len() != b.spec_name().len()),
            MessageType::Node(NodeMessageType::DataFound) => assert(a.spec_name()[0] != b.spec_name()[0]),
            MessageType::Node(NodeMessageType::ProtocolError) => assert(a.spec_name().len() != b.spec_name().len()),
            MessageType::Node(NodeMessageType::SubscribedUSKUpdate) => assert(a.spec_name().len() != b.spec_name().len()),
            MessageType::Client(ClientMessageType::ClientHello) => assert(a.spec_name().len() != b.spec_name().len()),
            MessageType::Client(ClientMessageType::ClientGet) => assert(a.spec_name()[0] != b.spec_name()[0]),
            MessageType::Client(ClientMessageType::ClientPut) => assert(a.spec_name()[0] != b.spec_name()[0]),
            MessageType::Client(ClientMessageType::ListPeer) => assert(a.spec_name().len() != b.spec_name().len()),
            MessageType::Client(ClientMessageType::GenerateSSK) => assert(a.spec_name().len() != b.spec_name().len()),
            MessageType::Client(ClientMessageType::TestDDARequest) => assert(a.spec_name().len() != b.spec_name().len()),
            MessageType::Client(ClientMessageType::TestDDAResponse) => assert(a.spec_name().len() != b.spec_name().len()),
            MessageType::Client(ClientMessageType::SubscribeUSK) => assert(a.spec_name().len() != b.spec_name().len()),
        },
        MessageType::Node(NodeMessageType::URIGenerated) => match b {
            MessageType::Node(NodeMessageType::NodeHello) => assert(a.spec_name().len() != b.spec_name().len()),
            MessageType::Node(NodeMessageType::AllData) => assert(a.spec_name().len() != b.spec_name().len()),
            MessageType::Node(NodeMessageType::PutSuccessful) => assert(a.spec_name().len() != b.spec_name().len()),
            MessageType::Node(NodeMessageType::PutFailed) => assert(a.spec_name().len() != b.spec_name().len()),
            MessageType::Node(NodeMessageType::GetFailed) => assert(a.spec_name().len() != b.spec_name().len()),
            MessageType::Node(NodeMessageType::URIGenerated) => {},
            MessageType::Node(NodeMessageType::SSKKeypair) => assert(a.spec_name().len() != b.spec_name().len()),
            MessageType::Node(NodeMessageType::TestDDAReply) => assert(a.spec_name()[0] != b.spec_name()[0]),
            MessageType::Node(NodeMessageType::TestDDAComplete) => assert(a.spec_name().len() != b.spec_name().len()),
            MessageType::Node(NodeMessageType::DataFound) => assert(a.spec_name().len() != b.spec_name().len()),
            MessageType::Node(NodeMessageType::ProtocolError) => assert(a.spec_name().len() != b.spec_name().len()),
            MessageType::Node(NodeMessageType::SubscribedUSKUpdate) => assert(a.spec_name().len() != b.spec_name().len()),
            MessageType::Client(ClientMessageType::ClientHello) => assert(a.spec_name().len() != b.spec_name().len()),
            MessageType::Client(ClientMessageType::ClientGet) => assert(a.spec_name().len() != b.spec_name().len()),
            MessageType::Client(ClientMessageType::ClientPut) => assert(a.spec_name().len() != b.spec_name().len()),
            MessageType::Client(ClientMessageType::ListPeer) => assert(a.spec_name().len() != b.spec_name().len()),
            MessageType::Client(ClientMessageType::GenerateSSK) => assert(a.spec_name().len() != b.spec_name().len()),
            MessageType::Client(ClientMessageType::TestDDARequest) => assert(a.spec_name().len() != b.spec_name().len()),
            MessageType::Client(ClientMessageType::TestDDAResponse) => assert(a.spec_name().len() != b.spec_name().len()),
            MessageType::Client(ClientMessageType::SubscribeUSK) => assert(a.spec_name()[0] != b.spec_name()[0]),
        },
        MessageType::Node(NodeMessageType::SSKKeypair) => match b {
            MessageType::Node(NodeMessageType::NodeHello) => assert(a.spec_name().len() != b.spec_name().len()),
            MessageType::Node(NodeMessageType::AllData) => assert(a.spec_name().len() != b.spec_name().len()),
            MessageType::Node(NodeMessageType::PutSuccessful) => assert(a.spec_name().len() != b.spec_name().len()),
            MessageType::Node(NodeMessageType::PutFailed) => assert(a.spec_name().len() != b.spec_name().len()),
            MessageType::Node(NodeMessageType::GetFailed) => assert(a.spec_name().len() != b.spec_name().len()),
            MessageType::Node(NodeMessageType::URIGenerated) => assert(a.spec_name().len() != b.spec_name().len()),
            MessageType::Node(NodeMessageType::SSKKeypair) => {},
            MessageType::Node(NodeMessageType::TestDDAReply) => assert(a.spec_name().len() != b.spec_name().len()),
            MessageType::Node(NodeMessageType::TestDDAComplete) => assert(a.spec_name().len() != b.spec_name().len()),
            MessageType::Node(NodeMessageType::DataFound) => assert(a.spec_name().len() != b.spec_name().len()),
            MessageType::Node(NodeMessageType::ProtocolError) => assert(a.spec_name().len() != b.spec_name().len()),
            MessageType::Node(NodeMessageType::SubscribedUSKUpdate) => assert(a.spec_name().len() != b.spec_name().len()),
            MessageType::Client(ClientMessageType::ClientHello) => assert(a.spec_name().len() != b.spec_name().len()),
            MessageType::Client(ClientMessageType::ClientGet) => assert(a.spec_name().len() != b.spec_name().len()),
            MessageType::Client(ClientMessageType::ClientPut) => assert(a.spec_name().len() != b.spec_name().len()),
            MessageType::Client(ClientMessageType::ListPeer) => assert(a.spec_name().len() != b.spec_name().len()),
            MessageType::Client(ClientMessageType::GenerateSSK) => assert(a.spec_name().len() != b.spec_name().len()),
            MessageType::Client(ClientMessageType::TestDDARequest) => assert(a.spec_name().len() != b.spec_name().len()),
            MessageType::Client(ClientMessageType::TestDDAResponse) => assert(a.spec_name().len() != b.spec_name().len()),
            MessageType::Client(ClientMessageType::SubscribeUSK) => assert(a.spec_name().len() != b.spec_name().len()),
        },
        MessageType::Node(NodeMessageType::TestDDAReply) => match b {
            MessageType::Node(NodeMessageType::NodeHello) => assert(a.spec_name().len() != b.spec_name().len()),
            MessageType::Node(NodeMessageType::AllData) => assert(a.spec_name().len() != b.spec_name().len()),
            MessageType::Node(NodeMessageType::PutSuccessful) => assert(a.spec_name().len() != b.spec_name().len()),
            MessageType::Node(NodeMessageType::PutFailed) => assert(a.spec_name().len() != b.spec_name().len()),
            MessageType::Node(NodeMessageType::GetFailed) => assert(a.spec_name().len() != b.spec_name().len()),
            MessageType::Node(NodeMessageType::URIGenerated) => assert(a.spec_name()[0] != b.spec_name()[0]),
            MessageType::Node(NodeMessageType::SSKKeypair) => assert(a.spec_name().len() != b.spec_name().len()),
            MessageType::Node(NodeMessageType::TestDDAReply) => {},
            MessageType::Node(NodeMessageType::TestDDAComplete) => assert(a.spec_name().len() != b.spec_name().len()),
            MessageType::Node(NodeMessageType::DataFound) => assert(a.spec_name().len() != b.spec_name().len()),
            MessageType::Node(NodeMessageType::ProtocolError) => assert(a.spec_name().len() != b.spec_name().len()),
            MessageType::Node(NodeMessageType::SubscribedUSKUpdate) => assert(a.spec_name().len() != b.spec_name().len()),
            MessageType::Client(ClientMessageType::ClientHello) => assert(a.spec_name().len() != b.spec_name().len()),
            MessageType::Client(ClientMessageType::ClientGet) => assert(a.spec_name().len() != b.spec_name().len()),
            MessageType::Client(ClientMessageType::ClientPut) => assert(a.spec_name().len() != b.spec_name().len()),
            MessageType::Client(ClientMessageType::ListPeer) => assert(a.spec_name().len() != b.spec_name().len()),
            MessageType::Client(ClientMessageType::GenerateSSK) => assert(a.spec_name().len() != b.spec_name().len()),
            MessageType::Client(ClientMessageType::TestDDARequest) => assert(a.spec_name().len() != b.spec_name().len()),
            MessageType::Client(ClientMessageType::TestDDAResponse) => assert(a.spec_name().len() != b.spec_name().len()),
            MessageType::Client(ClientMessageType::SubscribeUSK) => assert(a.spec_name()[0] != b.spec_name()[0]),
        },
        MessageType::Node(NodeMessageType::TestDDAComplete) => match b {
            MessageType::Node(NodeMessageType::NodeHello) => assert(a.spec_name().len() != b.spec_name().len()),
            MessageType::Node(NodeMessageType::AllData) => assert(a.spec_name().len() != b.spec_name().len()),
            MessageType::Node(NodeMessageType::PutSuccessful) => assert(a.spec_name().len() != b.spec_name().len()),
            MessageType::Node(NodeMessageType::PutFailed) => assert(a.spec_name().len() != b.spec_name().len()),
            MessageType::Node(NodeMessageType::GetFailed) => assert(a.spec_name().len() != b.spec_name().len()),
            MessageType::Node(NodeMessageType::URIGenerated) => assert(a.spec_name().len() != b.spec_name().len()),
            MessageType::Node(NodeMessageType::SSKKeypair) => assert(a.spec_name().len() != b.spec_name().len()),
            MessageType::Node(NodeMessageType::TestDDAReply) => assert(a.spec_name().len() != b.spec_name().len()),
            MessageType::Node(NodeMessageType::TestDDAComplete) => {},
            MessageType::Node(NodeMessageType::DataFound) => assert(a.spec_name().len() != b.spec_name().len()),
            MessageType::Node(NodeMessageType::ProtocolError) => assert(a.spec_name().len() != b.spec_name().len()),
            MessageType::Node(NodeMessageType::SubscribedUSKUpdate) => assert(a.spec_name().len() != b.spec_name().len()),
            MessageType::Client(ClientMessageType::ClientHello) => assert(a.spec_name().len() != b.spec_name().len()),
            MessageType::Client(ClientMessageType::ClientGet) => assert(a.spec_name().len() != b.spec_name().len()),
            MessageType::Client(ClientMessageType::ClientPut) => assert(a.spec_name().len() != b.spec_name().len()),
            MessageType::Client(ClientMessageType::ListPeer) => assert(a.spec_name().len() != b.spec_name().len()),
            MessageType::Client(ClientMessageType::GenerateSSK) => assert(a.spec_name().len() != b.spec_name().len()),
            MessageType::Client(ClientMessageType::TestDDARequest) => assert(a.spec_name().len() != b.spec_name().len()),
            MessageType::Client(ClientMessageType::TestDDAResponse) => assert(a.spec_name()[7] != b.spec_name()[7]),
            MessageType::Client(ClientMessageType::SubscribeUSK) => assert(a.spec_name().len() != b.spec_name().len()),
        },
        MessageType::Node(NodeMessageType::DataFound) => match b {
            MessageType::Node(NodeMessageType::NodeHello) => assert(a.spec_name()[0] != b.spec_name()[0]),
            MessageType::Node(NodeMessageType::AllData) => assert(a.spec_name().len() != b.spec_name().len()),
            MessageType::Node(NodeMessageType::PutSuccessful) => assert(a.spec_name().len() != b.spec_name().len()),
            MessageType::Node(NodeMessageType::PutFailed) => assert(a.spec_name()[0] != b.spec_name()[0]),
            MessageType::Node(NodeMessageType::GetFailed) => assert(a.spec_name()[0] != b.spec_name()[0]),
            MessageType::Node(NodeMessageType::URIGenerated) => assert(a.spec_name().len() != b.spec_name().len()),
            MessageType::Node(NodeMessageType::SSKKeypair) => assert(a.spec_name().len() != b.spec_name().len()),
            MessageType::Node(NodeMessageType::TestDDAReply) => assert(a.spec_name().len() != b.spec_name().len()),
            MessageType::Node(NodeMessageType::TestDDAComplete) => assert(a.spec_name().len() != b.spec_name().len()),
            MessageType::Node(NodeMessageType::DataFound) => {},
            MessageType::Node(NodeMessageType::ProtocolError) => assert(a.spec_name().len() != b.spec_name().len()),
            MessageType::Node(NodeMessageType::SubscribedUSKUpdate) => assert(a.spec_name().len() != b.spec_name().len()),
            MessageType::Client(ClientMessageType::ClientHello) => assert(a.spec_name().len() != b.spec_name().len()),
            MessageType::Client(ClientMessageType::ClientGet) => assert(a.spec_name()[0] != b.spec_name()[0]),
            MessageType::Client(ClientMessageType::ClientPut) => assert(a.spec_name()[0] != b.spec_name()[0]),
            MessageType::Client(ClientMessageType::ListPeer) => assert(a.spec_name().len() != b.spec_name().len()),
            MessageType::Client(ClientMessageType::GenerateSSK) => assert(a.spec_name().len() != b.spec_name().len()),
            MessageType::Client(ClientMessageType::TestDDARequest) => assert(a.spec_name().len() != b.spec_name().len()),
            MessageType::Client(ClientMessageType::TestDDAResponse) => assert(a.spec_name().len() != b.spec_name().len()),
            MessageType::Client(ClientMessageType::SubscribeUSK) => assert(a.spec_name().len() != b.spec_name().len()),
        },
        MessageType::Node(NodeMessageType::ProtocolError) => match b {
            MessageType::Node(NodeMessageType::NodeHello) => assert(a.spec_name().len() != b.spec_name().len()),
            MessageType::Node(NodeMessageType::AllData) => assert(a.spec_name().len() != b.spec_name().len()),
            MessageType::Node(NodeMessageType::PutSuccessful) => assert(a.spec_name()[1] != b.spec_name()[1]),
            MessageType::Node(NodeMessageType::PutFailed) => assert(a.spec_name().len() != b.spec_name().len()),
            MessageType::Node(NodeMessageType::GetFailed) => assert(a.spec_name().len() != b.spec_name().len()),
            MessageType::Node(NodeMessageType::URIGenerated) => assert(a.spec_name().len() != b.spec_name().len()),
            MessageType::Node(NodeMessageType::SSKKeypair) => assert(a.spec_name().len() != b.spec_name().len()),
            MessageType::Node(NodeMessageType::TestDDAReply) => assert(a.spec_name().len() != b.spec_name().len()),
            MessageType::Node(NodeMessageType::TestDDAComplete) => assert(a.spec_name().len() != b.spec_name().len()),
            MessageType::Node(NodeMessageType::DataFound) => assert(a.spec_name().len() != b.spec_name().len()),
            MessageType::Node(NodeMessageType::ProtocolError) => {},
            MessageType::Node(NodeMessageType::SubscribedUSKUpdate) => assert(a.spec_name().len() != b.spec_name().len()),
            MessageType::Client(ClientMessageType::ClientHello) => assert(a.spec_name().len() != b.spec_name().len()),
            MessageType::Client(ClientMessageType::ClientGet) => assert(a.spec_name().len() != b.spec_name().len()),
            MessageType::Client(ClientMessageType::ClientPut) => assert(a.spec_name().len() != b.spec_name().len()),
            MessageType::Client(ClientMessageType::ListPeer) => assert(a.spec_name().len() != b.spec_name().len()),
            MessageType::Client(ClientMessageType::GenerateSSK) => assert(a.spec_name().len() != b.spec_name().len()),
            MessageType::Client(ClientMessageType::TestDDARequest) => assert(a.spec_name().len() != b.spec_name().len()),
            MessageType::Client(ClientMessageType::TestDDAResponse) => assert(a.spec_name().len() != b.spec_name().len()),
            MessageType::Client(ClientMessageType::SubscribeUSK) => assert(a.spec_name().len() != b.spec_name().len()),
        },
        MessageType::Node(NodeMessageType::SubscribedUSKUpdate) => match b {
            MessageType::Node(NodeMessageType::NodeHello) => assert(a.spec_name().len() != b.spec_name().len()),
            MessageType::Node(NodeMessageType::AllData) => assert(a.spec_name().len() != b.spec_name().len()),
            MessageType::Node(NodeMessageType::PutSuccessful) => assert(a.spec_name().len() != b.spec_name().len()),
            MessageType::Node(NodeMessageType::PutFailed) => assert(a.spec_name().len() != b.spec_name().len()),
            MessageType::Node(NodeMessageType::GetFailed) => assert(a.spec_name().len() != b.spec_name().len()),
            MessageType::Node(NodeMessageType::URIGenerated) => assert(a.spec_name().len() != b.spec_name().len()),
            MessageType::Node(NodeMessageType::SSKKeypair) => assert(a.spec_name().len() != b.spec_name().len()),
            MessageType::Node(NodeMessageType::TestDDAReply) => assert(a.spec_name().len() != b.spec_name().len()),
            MessageType::Node(NodeMessageType::TestDDAComplete) => assert(a.spec_name().len() != b.spec_name().len()),
            MessageType::Node(NodeMessageType::DataFound) => assert(a.spec_name().len() != b.spec_name().len()),
            MessageType::Node(NodeMessageType::ProtocolError) => assert(a.spec_name().len() != b.spec_name().len()),
            MessageType::Node(NodeMessageType::SubscribedUSKUpdate) => {},
            MessageType::Client(ClientMessageType::ClientHello) => assert(a.spec_name().len() != b.spec_name().len()),
            MessageType::Client(ClientMessageType::ClientGet) => assert(a.spec_name().len() != b.spec_name().len()),
            MessageType::Client(ClientMessageType::ClientPut) => assert(a.spec_name().len() != b.spec_name().len()),
            MessageType::Client(ClientMessageType::ListPeer) => assert(a.spec_name().len() != b.spec_name().len()),
            MessageType::Client(ClientMessageType::GenerateSSK) => assert(a.spec_name().len() != b.spec_name().len()),
            MessageType::Client(ClientMessageType::TestDDARequest) => assert(a.spec_name().len() != b.spec_name().len()),
            MessageType::Client(ClientMessageType::TestDDAResponse) => assert(a.spec_name().len() != b.spec_name().len()),
            MessageType::Client(ClientMessageType::SubscribeUSK) => assert(a.spec_name().len() != b.spec_name().len()),
        },
        MessageType::Client(ClientMessageType::ClientHello) => match b {
            MessageType::Node(NodeMessageType::NodeHello) => assert(a.spec_name().len() != b.spec_name().len()),
            MessageType::Node(NodeMessageType::AllData) => assert(a.spec_name().len() != b.spec_name().len()),
            MessageType::Node(NodeMessageType::PutSuccessful) => assert(a.spec_name().len() != b.spec_name().len()),
            MessageType::Node(NodeMessageType::PutFailed) => assert(a.spec_name().len() != b.spec_name().len()),
            MessageType::Node(NodeMessageType::GetFailed) => assert(a.spec_name().len() != b.spec_name().len()),
            MessageType::Node(NodeMessageType::URIGenerated) => assert(a.spec_name().len() != b.spec_name().len()),
            MessageType::Node(NodeMessageType::SSKKeypair) => assert(a.spec_name().len() != b.spec_name().len()),
            MessageType::Node(NodeMessageType::TestDDAReply) => assert(a.spec_name().len() != b.spec_name().len()),
            MessageType::Node(NodeMessageType::TestDDAComplete) => assert(a.spec_name().len() != b.spec_name().len()),
            MessageType::Node(NodeMessageType::DataFound) => assert(a.spec_name().len() != b.spec_name().len()),
            MessageType::Node(NodeMessageType::ProtocolError) => assert(a.spec_name().len() != b.spec_name().len()),
            MessageType::Node(NodeMessageType::SubscribedUSKUpdate) => assert(a.spec_name().len() != b.spec_name().len()),
            MessageType::Client(ClientMessageType::ClientHello) => {},
            MessageType::Client(ClientMessageType::ClientGet) => assert(a.spec_name().len() != b.spec_name().len()),
            MessageType::Client(ClientMessageType::ClientPut) => assert(a.spec_name().len() != b.spec_name().len()),
            MessageType::Client(ClientMessageType::ListPeer) => assert(a.spec_name().len() != b.spec_name().len()),
            MessageType::Client(ClientMessageType::GenerateSSK) => assert(a.spec_name()[0] != b.spec_name()[0]),
            MessageType::Client(ClientMessageType::TestDDARequest) => assert(a.spec_name().len() != b.spec_name().len()),
            MessageType::Client(ClientMessageType::TestDDAResponse) => assert(a.spec_name().len() != b.spec_name().len()),
            MessageType::Client(ClientMessageType::SubscribeUSK) => assert(a.spec_name().len() != b.spec_name().len()),
        },
        MessageType::Client(ClientMessageType::ClientGet) => match b {
            MessageType::Node(NodeMessageType::NodeHello) => assert(a.spec_name()[0] != b.spec_name()[0]),
            MessageType::Node(NodeMessageType::AllData) => assert(a.spec_name().len() != b.spec_name().len()),
            MessageType::Node(NodeMessageType::PutSuccessful) => assert(a.spec_name().len() != b.spec_name().len()),
            MessageType::Node(NodeMessageType::PutFailed) => assert(a.spec_name()[0] != b.spec_name()[0]),
            MessageType::Node(NodeMessageType::GetFailed) => assert(a.spec_name()[0] != b.spec_name()[0]),
            MessageType::Node(NodeMessageType::URIGenerated) => assert(a.spec_name().len() != b.spec_name().len()),
            MessageType::Node(NodeMessageType::SSKKeypair) => assert(a.spec_name().len() != b.spec_name().len()),
            MessageType::Node(NodeMessageType::TestDDAReply) => assert(a.spec_name().len() != b.spec_name().len()),
            MessageType::Node(NodeMessageType::TestDDAComplete) => assert(a.spec_name().len() != b.spec_name().len()),
            MessageType::Node(NodeMessageType::DataFound) => assert(a.spec_name()[0] != b.spec_name()[0]),
            MessageType::Node(NodeMessageType::ProtocolError) => assert(a.spec_name().len() != b.spec_name().len()),
            MessageType::Node(NodeMessageType::SubscribedUSKUpdate) => assert(a.spec_name().len() != b.spec_name().len()),
            MessageType::Client(ClientMessageType::ClientHello) => assert(a.spec_name().len() != b.spec_name().len()),
            MessageType::Client(ClientMessageType::ClientGet) => {},
            MessageType::Client(ClientMessageType::ClientPut) => assert(a.spec_name()[6] != b.spec_name()[6]),
            MessageType::Client(ClientMessageType::ListPeer) => assert(a.spec_name().len() != b.spec_name().len()),
            MessageType::Client(ClientMessageType::GenerateSSK) => assert(a.spec_name().len() != b.spec_name().len()),
            MessageType::Client(ClientMessageType::TestDDARequest) => assert(a.spec_name().len() != b.spec_name().len()),
            MessageType::Client(ClientMessageType::TestDDAResponse) => assert(a.spec_name().len() != b.spec_name().len()),
            MessageType::Client(ClientMessageType::SubscribeUSK) => assert(a.spec_name().len() != b.spec_name().len()),
        },
        MessageType::Client(ClientMessageType::ClientPut) => match b {
            MessageType::Node(NodeMessageType::NodeHello) => assert(a.spec_name()[0] != b.spec_name()[0]),
            MessageType::Node(NodeMessageType::AllData) => assert(a.spec_name().len() != b.spec_name().len()),
            MessageType::Node(NodeMessageType::PutSuccessful) => assert(a.spec_name().len() != b.spec_name().len()),
            MessageType::Node(NodeMessageType::PutFailed) => assert(a.spec_name()[0] != b.spec_name()[0]),
            MessageType::Node(NodeMessageType::GetFailed) => assert(a.spec_name()[0] != b.spec_name()[0]),
            MessageType::Node(NodeMessageType::URIGenerated) => assert(a.spec_name().len() != b.spec_name().len()),
            MessageType::Node(NodeMessageType::SSKKeypair) => assert(a.spec_name().len() != b.spec_name().len()),
            MessageType::Node(NodeMessageType::TestDDAReply) => assert(a.spec_name().len() != b.spec_name().len()),
            MessageType::Node(NodeMessageType::TestDDAComplete) => assert(a.spec_name().len() != b.spec_name().len()),
            MessageType::Node(NodeMessageType::DataFound) => assert(a.spec_name()[0] != b.spec_name()[0]),
            MessageType::Node(NodeMessageType::ProtocolError) => assert(a.spec_name().len() != b.spec_name().len()),
            MessageType::Node(NodeMessageType::SubscribedUSKUpdate) => assert(a.spec_name().len() != b.spec_name().len()),
            MessageType::Client(ClientMessageType::ClientHello) => assert(a.spec_name().len() != b.spec_name().len()),
            MessageType::Client(ClientMessageType::ClientGet) => assert(a.spec_name()[6] != b.spec_name()[6]),
            MessageType::Client(ClientMessageType::ClientPut) => {},
            MessageType::Client(ClientMessageType::ListPeer) => assert(a.spec_name().len() != b.spec_name().len()),
            MessageType::Client(ClientMessageType::GenerateSSK) => assert(a.spec_name().len() != b.spec_name().len()),
            MessageType::Client(ClientMessageType::TestDDARequest) => assert(a.spec_name().len() != b.spec_name().len()),
            MessageType::Client(ClientMessageType::TestDDAResponse) => assert(a.spec_name().len() != b.spec_name().len()),
            MessageType::Client(ClientMessageType::SubscribeUSK) => assert(a.spec_name().len() != b.spec_name().len()),
        },
        MessageType::Client(ClientMessageType::ListPeer) => match b {
            MessageType::Node(NodeMessageType::NodeHello) => assert(a.spec_name().len() != b.spec_name().len()),
            MessageType::Node(NodeMessageType::AllData) => assert(a.spec_name().len() != b.spec_name().len()),
            MessageType::Node(NodeMessageType::PutSuccessful) => assert(a.spec_name().len() != b.spec_name().len()),
            MessageType::Node(NodeMessageType::PutFailed) => assert(a.spec_name().len() != b.spec_name().len()),
            MessageType::Node(NodeMessageType::GetFailed) => assert(a.spec_name().len() != b.spec_name().len()),
            MessageType::Node(NodeMessageType::URIGenerated) => assert(a.spec_name().len() != b.spec_name().len()),
            MessageType::Node(NodeMessageType::SSKKeypair) => assert(a.spec_name().len() != b.spec_name().len()),
            MessageType::Node(NodeMessageType::TestDDAReply) => assert(a.spec_name().len() != b.spec_name().len()),
            MessageType::Node(NodeMessageType::TestDDAComplete) => assert(a.spec_name().len() != b.spec_name().len()),
            MessageType::Node(NodeMessageType::DataFound) => assert(a.spec_name().len() != b.spec_name().len()),
            MessageType::Node(NodeMessageType::ProtocolError) => assert(a.spec_name().len() != b.spec_name().len()),
            MessageType::Node(NodeMessageType::SubscribedUSKUpdate) => assert(a.spec_name().len() != b.spec_name().len()),
            MessageType::Client(ClientMessageType::ClientHello) => assert(a.spec_name().len() != b.spec_name().len()),
            MessageType::Client(ClientMessageType::ClientGet) => assert(a.spec_name().len() != b.spec_name().len()),
            MessageType::Client(ClientMessageType::ClientPut) => assert(a.spec_name().len() != b.spec_name().len()),
            MessageType::Client(ClientMessageType::ListPeer) => {},
            MessageType::Client(ClientMessageType::GenerateSSK) => assert(a.spec_name().len() != b.spec_name().len()),
            MessageType::Client(ClientMessageType::TestDDARequest) => assert(a.spec_name().len() != b.spec_name().len()),
            MessageType::Client(ClientMessageType::TestDDAResponse) => assert(a.spec_name().len() != b.spec_name().len()),
            MessageType::Client(ClientMessageType::SubscribeUSK) => assert(a.spec_name().len() != b.spec_name().len()),
        },
        MessageType::Client(ClientMessageType::GenerateSSK) => match b {
            MessageType::Node(NodeMessageType::NodeHello) => assert(a.spec_name().len() != b.spec_name().len()),
            MessageType::Node(NodeMessageType::AllData) => assert(a.spec_name().len() != b.spec_name().len()),
            MessageType::Node(NodeMessageType::PutSuccessful) => assert(a.spec_name().len() != b.spec_name().len()),
            MessageType::Node(NodeMessageType::PutFailed) => assert(a.spec_name().len() != b.spec_name().len()),
            MessageType::Node(NodeMessageType::GetFailed) => assert(a.spec_name().len() != b.spec_name().len()),
            MessageType::Node(NodeMessageType::URIGenerated) => assert(a.spec_name().len() != b.spec_name().len()),
            MessageType::Node(NodeMessageType::SSKKeypair) => assert(a.spec_name().len() != b.spec_name().len()),
            MessageType::Node(NodeMessageType::TestDDAReply) => assert(a.spec_name().len() != b.spec_name().len()),
            MessageType::Node(NodeMessageType::TestDDAComplete) => assert(a.spec_name().len() != b.spec_name().len()),
            MessageType::Node(NodeMessageType::DataFound) => assert(a.spec_name().len() != b.spec_name().len()),
            MessageType::Node(NodeMessageType::ProtocolError) => assert(a.spec_name().len() != b.spec_name().len()),
            MessageType::Node(NodeMessageType::SubscribedUSKUpdate) => assert(a.spec_name().len() != b.spec_name().len()),
            MessageType::Client(ClientMessageType::ClientHello) => assert(a.spec_name()[0] != b.spec_name()[0]),
            MessageType::Client(ClientMessageType::ClientGet) => assert(a.spec_name().len() != b.spec_name().len()),
            MessageType::Client(ClientMessageType::ClientPut) => assert(a.spec_name().len() != b.spec_name().len()),
            MessageType::Client(ClientMessageType::ListPeer) => assert(a.spec_name().len() != b.spec_name().len()),
            MessageType::Client(ClientMessageType::GenerateSSK) => {},
            MessageType::Client(ClientMessageType::TestDDARequest) => assert(a.spec_name().len() != b.spec_name().len()),
            MessageType::Client(ClientMessageType::TestDDAResponse) => assert(a.spec_name().len() != b.spec_name().len()),
            MessageType::Client(ClientMessageType::SubscribeUSK) => assert(a.spec_name().len() != b.spec_name().len()),
        },
        MessageType::Client(ClientMessageType::TestDDARequest) => match b {
            MessageType::Node(NodeMessageType::NodeHello) => assert(a.spec_name().len() != b.spec_name().len()),
            MessageType::Node(NodeMessageType::AllData) => assert(a.spec_name().len() != b.spec_name().len()),
            MessageType::Node(NodeMessageType::PutSuccessful) => assert(a.spec_name().len() != b.spec_name().len()),
            MessageType::Node(NodeMessageType::PutFailed) => assert(a.spec_name().len() != b.spec_name().len()),
            MessageType::Node(NodeMessageType::GetFailed) => assert(a.spec_name().len() != b.spec_name().len()),
            MessageType::Node(NodeMessageType::URIGenerated) => assert(a.spec_name().len() != b.spec_name().len()),
            MessageType::Node(NodeMessageType::SSKKeypair) => assert(a.spec_name().len() != b.spec_name().len()),
            MessageType::Node(NodeMessageType::TestDDAReply) => assert(a.spec_name().len() != b.spec_name().len()),
            MessageType::Node(NodeMessageType::TestDDAComplete) => assert(a.spec_name().len() != b.spec_name().len()),
            MessageType::Node(NodeMessageType::DataFound) => assert(a.spec_name().len() != b.spec_name().len()),
            MessageType::Node(NodeMessageType::ProtocolError) => assert(a.spec_name().len() != b.spec_name().len()),
            MessageType::Node(NodeMessageType::SubscribedUSKUpdate) => assert(a.spec_name().len() != b.spec_name().len()),
            MessageType::Client(ClientMessageType::ClientHello) => assert(a.spec_name().len() != b.spec_name().len()),
            MessageType::Client(ClientMessageType::ClientGet) => assert(a.spec_name().len() != b.spec_name().len()),
            MessageType::Client(ClientMessageType::ClientPut) => assert(a.spec_name().len() != b.spec_name().len()),
            MessageType::Client(ClientMessageType::ListPeer) => assert(a.spec_name().len() != b.spec_name().len()),
            MessageType::Client(ClientMessageType::GenerateSSK) => assert(a.spec_name().len() != b.spec_name().len()),
            MessageType::Client(ClientMessageType::TestDDARequest) => {},
            MessageType::Client(ClientMessageType::TestDDAResponse) => assert(a.spec_name().len() != b.spec_name().len()),
            MessageType::Client(ClientMessageType::SubscribeUSK) => assert(a.spec_name().len() != b.spec_name().len()),
        },
        MessageType::Client(ClientMessageType::TestDDAResponse) => match b {
            MessageType::Node(NodeMessageType::NodeHello) => assert(a.spec_name().len() != b.spec_name().len()),
            MessageType::Node(NodeMessageType::AllData) => assert(a.spec_name().len() != b.spec_name().len()),
            MessageType::Node(NodeMessageType::PutSuccessful) => assert(a.spec_name().len() != b.spec_name().len()),
            MessageType::Node(NodeMessageType::PutFailed) => assert(a.spec_name().len() != b.spec_name().len()),
            MessageType::Node(NodeMessageType::GetFailed) => assert(a.spec_name().len() != b.spec_name().len()),
            MessageType::Node(NodeMessageType::URIGenerated) => assert(a.spec_name().len() != b.spec_name().len()),
            MessageType::Node(NodeMessageType::SSKKeypair) => assert(a.spec_name().len() != b.spec_name().len()),
            MessageType::Node(NodeMessageType::TestDDAReply) => assert(a.spec_name().len() != b.spec_name().len()),
            MessageType::Node(NodeMessageType::TestDDAComplete) => assert(a.spec_name()[7] != b.spec_name()[7]),
            MessageType::Node(NodeMessageType::DataFound) => assert(a.spec_name().len() != b.spec_name().len()),
            MessageType::Node(NodeMessageType::ProtocolError) => assert(a.spec_name().len() != b.spec_name().len()),
            MessageType::Node(NodeMessageType::SubscribedUSKUpdate) => assert(a.spec_name().len() != b.spec_name().len()),
            MessageType::Client(ClientMessageType::ClientHello) => assert(a.spec_name().len() != b.spec_name().len()),
            MessageType::Client(ClientMessageType::ClientGet) => assert(a.spec_name().len() != b.spec_name().len()),
            MessageType::Client(ClientMessageType::ClientPut) => assert(a.spec_name().len() != b.spec_name().len()),
            MessageType::Client(ClientMessageType::ListPeer) => assert(a.spec_name().len() != b.spec_name().len()),
            MessageType::Client(ClientMessageType::GenerateSSK) => assert(a.spec_name().len() != b.spec_name().len()),
            MessageType::Client(ClientMessageType::TestDDARequest) => assert(a.spec_name().len() != b.spec_name().len()),
            MessageType::Client(ClientMessageType::TestDDAResponse) => {},
            MessageType::Client(ClientMessageType::SubscribeUSK) => assert(a.spec_name().len() != b.spec_name().len()),
        },
        MessageType::Client(ClientMessageType::SubscribeUSK) => match b {
            MessageType::Node(NodeMessageType::NodeHello) => assert(a.spec_name().len() != b.spec_name().len()),
            MessageType::Node(NodeMessageType::AllData) => assert(a.spec_name().len() != b.spec_name().len()),
            MessageType::Node(NodeMessageType::PutSuccessful) => assert(a.spec_name().len() != b.spec_name().len()),
            MessageType::Node(NodeMessageType::PutFailed) => assert(a.spec_name().len() != b.spec_name().len()),
            MessageType::Node(NodeMessageType::GetFailed) => assert(a.spec_name().len() != b.spec_name().len()),
            MessageType::Node(NodeMessageType::URIGenerated) => assert(a.spec_name()[0] != b.spec_name()[0]),
            MessageType::Node(NodeMessageType::SSKKeypair) => assert(a.spec_name().len() != b.spec_name().len()),
            MessageType::Node(NodeMessageType::TestDDAReply) => assert(a.spec_name()[0] != b.spec_name()[0]),
            MessageType::Node(NodeMessageType::TestDDAComplete) => assert(a.spec_name().len() != b.spec_name().len()),
            MessageType::Node(NodeMessageType::DataFound) => assert(a.spec_name().len() != b.spec_name().len()),
            MessageType::Node(NodeMessageType::ProtocolError) => assert(a.spec_name().len() != b.spec_name().len()),
            MessageType::Node(NodeMessageType::SubscribedUSKUpdate) => assert(a.spec_name().len() != b.spec_name().len()),
            MessageType::Client(ClientMessageType::ClientHello) => assert(a.spec_name().len() != b.spec_name().len()),
            MessageType::Client(ClientMessageType::ClientGet) => assert(a.spec_name().len() != b.spec_name().len()),
            MessageType::Client(ClientMessageType::ClientPut) => assert(a.spec_name().len() != b.spec_name().len()),
            MessageType::Client(ClientMessageType::ListPeer) => assert(a.spec_name().len() != b.spec_name().len()),
            MessageType::Client(ClientMessageType::GenerateSSK) => assert(a.spec_name().len() != b.spec_name().len()),
            MessageType::Client(ClientMessageType::TestDDARequest) => assert(a.spec_name().len() != b.spec_name().len()),
            MessageType::Client(ClientMessageType::TestDDAResponse) => assert(a.spec_name().len() != b.spec_name().len()),
            MessageType::Client(ClientMessageType::SubscribeUSK) => {},
        },
    }
}

/// The message type a line names, as `MessageType::try_from_name` reads it: node types first.
pub open spec fn spec_type_named(s: Seq<char>) -> Option<MessageType> {
    if exists|n: NodeMessageType| n.spec_name() == s {
        Some(MessageType::Node(choose|n: NodeMessageType| n.spec_name() == s))
    } else if exists|c: ClientMessageType| c.spec_name() == s {
        Some(MessageType::Client(choose|c: ClientMessageType| c.spec_name() == s))
    } else {
        None
    }
}

/// Every message type is read back from its own name.
pub proof fn lemma_type_named_own_name(t: MessageType)
    ensures
        spec_type_named(t.spec_name()) == Some(t),
{
    let s = t.spec_name();
    match t {
        MessageType::Node(n) => {
            assert(exists|x: NodeMessageType| x.spec_name() == s);
            let x = choose|x: NodeMessageType| x.spec_name() == s;
            lemma_message_type_names_distinct(MessageType::Node(x), t);
        },
        MessageType::Client(c) => {
            if exists|x: NodeMessageType| x.spec_name() == s {
                let x = choose|x: NodeMessageType| x.spec_name() == s;
                lemma_message_type_names_distinct(MessageType::Node(x), t);
            }
            assert(exists|x: ClientMessageType| x.spec_name() == s);
            let x = choose|x: ClientMessageType| x.spec_name() == s;
            lemma_message_type_names_distinct(MessageType::Client(x), t);
        },
    }
}

/// Each message type goes on the wire under its FCP name, and a line holding that name is
/// read as that type.
pub proof fn lemma_fcp_wire_names()
    ensures
        MessageType::Node(NodeMessageType::NodeHello).spec_name() == "NodeHello"@,
        spec_type_named("NodeHello"@) == Some(MessageType::Node(NodeMessageType::NodeHello)),
        MessageType::Node(NodeMessageType::AllData).spec_name() == "AllData"@,
        spec_type_named("AllData"@) == Some(MessageType::Node(NodeMessageType::AllData)),
        MessageType::Node(NodeMessageType::PutSuccessful).spec_name() == "PutSuccessful"@,
        spec_type_named("PutSuccessful"@) == Some(MessageType::Node(NodeMessageType::PutSuccessful)),
        MessageType::Node(NodeMessageType::PutFailed).spec_name() == "PutFailed"@,
        spec_type_named("PutFailed"@) == Some(MessageType::Node(NodeMessageType::PutFailed)),
        MessageType::Node(NodeMessageType::GetFailed).spec_name() == "GetFailed"@,
        spec_type_named("GetFailed"@) == Some(MessageType::Node(NodeMessageType::GetFailed)),
        MessageType::Node(NodeMessageType::URIGenerated).spec_name() == "URIGenerated"@,
        spec_type_named("URIGenerated"@) == Some(MessageType::Node(NodeMessageType::URIGenerated)),
        MessageType::Node(NodeMessageType::SSKKeypair).spec_name() == "SSKKeypair"@,
        spec_type_named("SSKKeypair"@) == Some(MessageType::Node(NodeMessageType::SSKKeypair)),
        MessageType::Node(NodeMessageType::TestDDAReply).spec_name() == "TestDDAReply"@,
        spec_type_named("TestDDAReply"@) == Some(MessageType::Node(NodeMessageType::TestDDAReply)),
        MessageType::Node(NodeMessageType::TestDDAComplete).spec_name() == "TestDDAComplete"@,
        spec_type_named("TestDDAComplete"@) == Some(MessageType::Node(NodeMessageType::TestDDAComplete)),
        MessageType::Node(NodeMessageType::DataFound).spec_name() == "DataFound"@,
        spec_type_named("DataFound"@) == Some(MessageType::Node(NodeMessageType::DataFound)),
        MessageType::Node(NodeMessageType::ProtocolError).spec_name() == "ProtocolError"@,
        spec_type_named("ProtocolError"@) == Some(MessageType::Node(NodeMessageType::ProtocolError)),
        MessageType::Node(NodeMessageType::SubscribedUSKUpdate).spec_name() == "SubscribedUSKUpdate"@,
        spec_type_named("SubscribedUSKUpdate"@) == Some(MessageType::Node(NodeMessageType::SubscribedUSKUpdate)),
        MessageType::Client(ClientMessageType::ClientHello).spec_name() == "ClientHello"@,
        spec_type_named("ClientHello"@) == Some(MessageType::Client(ClientMessageType::ClientHello)),
        MessageType::Client(ClientMessageType::ClientGet).spec_name() == "ClientGet"@,
        spec_type_named("ClientGet"@) == Some(MessageType::Client(ClientMessageType::ClientGet)),
        MessageType::Client(ClientMessageType::ClientPut).spec_name() == "ClientPut"@,
        spec_type_named("ClientPut"@) == Some(MessageType::Client(ClientMessageType::ClientPut)),
        MessageType::Client(ClientMessageType::ListPeer).spec_name() == "ListPeer"@,
        spec_type_named("ListPeer"@) == Some(MessageType::Client(ClientMessageType::ListPeer)),
        MessageType::Client(ClientMessageType::GenerateSSK).spec_name() == "GenerateSSK"@,
        spec_type_named("GenerateSSK"@) == Some(MessageType::Client(ClientMessageType::GenerateSSK)),
        MessageType::Client(ClientMessageType::TestDDARequest).spec_name() == "TestDDARequest"@,
        spec_type_named("TestDDARequest"@) == Some(MessageType::Client(ClientMessageType::TestDDARequest)),
        MessageType::Client(ClientMessageType::TestDDAResponse).spec_name() == "TestDDAResponse"@,
        spec_type_named("TestDDAResponse"@) == Some(MessageType::Client(ClientMessageType::TestDDAResponse)),
        MessageType::Client(ClientMessageType::SubscribeUSK).spec_name() == "SubscribeUSK"@,
        spec_type_named("SubscribeUSK"@) == Some(MessageType::Client(ClientMessageType::SubscribeUSK)),
{
    lemma_type_named_own_name(MessageType::Node(NodeMessageType::NodeHello));
    lemma_type_named_own_name(MessageType::Node(NodeMessageType::AllData));
    lemma_type_named_own_name(MessageType::Node(NodeMessageType::PutSuccessful));
    lemma_type_named_own_name(MessageType::Node(NodeMessageType::PutFailed));
    lemma_type_named_own_name(MessageType::Node(NodeMessageType::GetFailed));
    lemma_type_named_own_name(MessageType::Node(NodeMessageType::URIGenerated));
    lemma_type_named_own_name(MessageType::Node(NodeMessageType::SSKKeypair));
    lemma_type_named_own_name(MessageType::Node(NodeMessageType::TestDDAReply));
    lemma_type_named_own_name(MessageType::Node(NodeMessageType::TestDDAComplete));
    lemma_type_named_own_name(MessageType::Node(NodeMessageType::DataFound));
    lemma_type_named_own_name(MessageType::Node(NodeMessageType::ProtocolError));
    lemma_type_named_own_name(MessageType::Node(NodeMessageType::SubscribedUSKUpdate));
    lemma_type_named_own_name(MessageType::Client(ClientMessageType::ClientHello));
    lemma_type_named_own_name(MessageType::Client(ClientMessageType::ClientGet));
    lemma_type_named_own_name(MessageType::Client(ClientMessageType::ClientPut));
    lemma_type_named_own_name(MessageType::Client(ClientMessageType::ListPeer));
    lemma_type_named_own_name(MessageType::Client(ClientMessageType::GenerateSSK));
    lemma_type_named_own_name(MessageType::Client(ClientMessageType::TestDDARequest));
    lemma_type_named_own_name(MessageType::Client(ClientMessageType::TestDDAResponse));
    lemma_type_named_own_name(MessageType::Client(ClientMessageType::SubscribeUSK));
}

/// `MessageType::try_from_name` reads exactly `spec_type_named`.
pub proof fn lemma_try_from_name_result(value: Seq<char>, res: Result<MessageType, DecodeError>)
    requires
        match res {
            Ok(MessageType::Node(t)) => t.spec_name() == value,
            Ok(MessageType::Client(t)) => t.spec_name() == value
                && forall|n: NodeMessageType| n.spec_name() != value,
            Err(e) => forall|t: MessageType| t.spec_name() != value,
        },
    ensures
        match res {
            Ok(t) => spec_type_named(value) == Some(t),
            Err(_) => spec_type_named(value) is None,
        },
{
    match res {
        Ok(t) => lemma_type_named_own_name(t),
        Err(_) => {
            if exists|n: NodeMessageType| n.spec_name() == value {
                let n = choose|n: NodeMessageType| n.spec_name() == value;
                assert(MessageType::Node(n).spec_name() == value);
            }
            if exists|c: ClientMessageType| c.spec_name() == value {
                let c = choose|c: ClientMessageType| c.spec_name() == value;
                assert(MessageType::Client(c).spec_name() == value);
            }
        },
    }
}


/// Whether `c` is an ASCII letter.
pub open spec fn is_ascii_letter(c: char) -> bool {
    ('A' <= c && c <= 'Z') || ('a' <= c && c <= 'z')
}

/// Message type names are non-empty and made of ASCII letters.
pub proof fn lemma_name_letters(t: MessageType)
    ensures
        t.spec_name().len() > 0,
        forall|i: int| 0 <= i < t.spec_name().len() ==> is_ascii_letter(#[trigger] t.spec_name()[i]),
{
    match t {
        MessageType::Node(NodeMessageType::NodeHello) => {
            reveal_strlit("NodeHello");
            assert(t.spec_name() =~= seq!['N', 'o', 'd', 'e', 'H', 'e', 'l', 'l', 'o']);
        },
        MessageType::Node(NodeMessageType::AllData) => {
            reveal_strlit("AllData");
            assert(t.spec_name() =~= seq!['A', 'l', 'l', 'D', 'a', 't', 'a']);
        },
        MessageType::Node(NodeMessageType::PutSuccessful) => {
            reveal_strlit("PutSuccessful");
            assert(t.spec_name() =~= seq!['P', 'u', 't', 'S', 'u', 'c', 'c', 'e', 's', 's', 'f', 'u', 'l']);
        },
        MessageType::Node(NodeMessageType::PutFailed) => {
            reveal_strlit("PutFailed");
            assert(t.spec_name() =~= seq!['P', 'u', 't', 'F', 'a', 'i', 'l', 'e', 'd']);
        },
        MessageType::Node(NodeMessageType::GetFailed) => {
            reveal_strlit("GetFailed");
            assert(t.spec_name() =~= seq!['G', 'e', 't', 'F', 'a', 'i', 'l', 'e', 'd']);
        },
        MessageType::Node(NodeMessageType::URIGenerated) => {
            reveal_strlit("URIGenerated");
            assert(t.spec_name() =~= seq!['U', 'R', 'I', 'G', 'e', 'n', 'e', 'r', 'a', 't', 'e', 'd']);
        },
        MessageType::Node(NodeMessageType::SSKKeypair) => {
            reveal_strlit("SSKKeypair");
            assert(t.spec_name() =~= seq!['S', 'S', 'K', 'K', 'e', 'y', 'p', 'a', 'i', 'r']);
        },
        MessageType::Node(NodeMessageType::TestDDAReply) => {
            reveal_strlit("TestDDAReply");
            assert(t.spec_name() =~= seq!['T', 'e', 's', 't', 'D', 'D', 'A', 'R', 'e', 'p', 'l', 'y']);
        },
        MessageType::Node(NodeMessageType::TestDDAComplete) => {
            reveal_strlit("TestDDAComplete");
            assert(t.spec_name() =~= seq!['T', 'e', 's', 't', 'D', 'D', 'A', 'C', 'o', 'm', 'p', 'l', 'e', 't', 'e']);
        },
        MessageType::Node(NodeMessageType::DataFound) => {
            reveal_strlit("DataFound");
            assert(t.spec_name() =~= seq!['D', 'a', 't', 'a', 'F', 'o', 'u', 'n', 'd']);
        },
        MessageType::Node(NodeMessageType::ProtocolError) => {
            reveal_strlit("ProtocolError");
            assert(t.spec_name() =~= seq!['P', 'r', 'o', 't', 'o', 'c', 'o', 'l', 'E', 'r', 'r', 'o', 'r']);
        },
        MessageType::Node(NodeMessageType::SubscribedUSKUpdate) => {
            reveal_strlit("SubscribedUSKUpdate");
            assert(t.spec_name() =~= seq!['S', 'u', 'b', 's', 'c', 'r', 'i', 'b', 'e', 'd', 'U', 'S', 'K', 'U', 'p', 'd', 'a', 't', 'e']);
        },
        MessageType::Client(ClientMessageType::ClientHello) => {
            reveal_strlit("ClientHello");
            assert(t.spec_name() =~= seq!['C', 'l', 'i', 'e', 'n', 't', 'H', 'e', 'l', 'l', 'o']);
        },
        MessageType::Client(ClientMessageType::ClientGet) => {
            reveal_strlit("ClientGet");
            assert(t.spec_name() =~= seq!['C', 'l', 'i', 'e', 'n', 't', 'G', 'e', 't']);
        },
        MessageType::Client(ClientMessageType::ClientPut) => {
            reveal_strlit("ClientPut");
            assert(t.spec_name() =~= seq!['C', 'l', 'i', 'e', 'n', 't', 'P', 'u', 't']);
        },
        MessageType::Client(ClientMessageType::ListPeer) => {
            reveal_strlit("ListPeer");
            assert(t.spec_name() =~= seq!['L', 'i', 's', 't', 'P', 'e', 'e', 'r']);
        },
        MessageType::Client(ClientMessageType::GenerateSSK) => {
            reveal_strlit("GenerateSSK");
            assert(t.spec_name() =~= seq!['G', 'e', 'n', 'e', 'r', 'a', 't', 'e', 'S', 'S', 'K']);
        },
        MessageType::Client(ClientMessageType::TestDDARequest) => {
            reveal_strlit("TestDDARequest");
            assert(t.spec_name() =~= seq!['T', 'e', 's', 't', 'D', 'D', 'A', 'R', 'e', 'q', 'u', 'e', 's', 't']);
        },
        MessageType::Client(ClientMessageType::TestDDAResponse) => {
            reveal_strlit("TestDDAResponse");
            assert(t.spec_name() =~= seq!['T', 'e', 's', 't', 'D', 'D', 'A', 'R', 'e', 's', 'p', 'o', 'n', 's', 'e']);
        },
        MessageType::Client(ClientMessageType::SubscribeUSK) => {
            reveal_strlit("SubscribeUSK");
            assert(t.spec_name() =~= seq!['S', 'u', 'b', 's', 'c', 'r', 'i', 'b', 'e', 'U', 'S', 'K']);
        },
    }
}

/// A message type name is not blank, holds no line break and no `=`.
pub proof fn lemma_name_shape(t: MessageType)
    ensures
        !t.spec_name().contains('\n'),
        !t.spec_name().contains('='),
        !is_blank(t.spec_name()),
{
    lemma_name_letters(t);
    let n = t.spec_name();
    if n.contains('\n') {
        let k = choose|k: int| 0 <= k < n.len() && n[k] == '\n';
        assert(is_ascii_letter(n[k]));
    }
    if n.contains('=') {
        let k = choose|k: int| 0 <= k < n.len() && n[k] == '=';
        assert(is_ascii_letter(n[k]));
    }
    assert(is_ascii_letter(n[0]));
    assert(!is_whitespace(n[0]));
}

} // verus!
