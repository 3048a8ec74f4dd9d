//! The older names of message types, each with its line break.

use vstd::prelude::*;

verus! {

/// Client messages the older parser knows.
#[derive(Copy, Clone, Debug, Eq, PartialEq, Structural)]
pub enum ClientMessageIdentifier {
    ClientHello,
    ClientGet,
}

/// Node messages the older parser knows.
#[derive(Copy, Clone, Debug, Eq, PartialEq, Structural)]
pub enum NodeMessageIdentifier {
    NodeHello,
}

/// A message type with its line on the wire.
pub trait MessageIdentifier {
    /// The line that names the message type, line break included.
    spec fn spec_name(&self) -> Seq<char>;

    /// Gets the str representing the MessageIdentifier (e.g. "ClientHello\n").
    fn name(&self) -> (res: &'static str)
        ensures
            res@ == self.spec_name(),
    ;
}

impl MessageIdentifier for NodeMessageIdentifier {
    open spec fn spec_name(&self) -> Seq<char> {
        match self {
            NodeMessageIdentifier::NodeHello => "NodeHello\n"@,
        }
    }

    fn name(&self) -> (res: &'static str) {
        match self {
            NodeMessageIdentifier::NodeHello => "NodeHello\n",
        }
    }
}

impl MessageIdentifier for ClientMessageIdentifier {
    open spec fn spec_name(&self) -> Seq<char> {
        match self {
            ClientMessageIdentifier::ClientHello => "ClientHello\n"@,
            ClientMessageIdentifier::ClientGet => "ClientGet\n"@,
        }
    }

    fn name(&self) -> (res: &'static str) {
        match self {
            ClientMessageIdentifier::ClientHello => "ClientHello\n",
            ClientMessageIdentifier::ClientGet => "ClientGet\n",
        }
    }
}

} // verus!
