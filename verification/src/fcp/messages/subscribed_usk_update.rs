//! A new edition of a subscribed USK.

use vstd::prelude::*;

use crate::fcp::decode_error::{unexpected_type, DecodeError, DecodeErrorView};
use crate::fcp::model::field_values::{
    field_bool, field_identifier, field_unsigned, read_bool, read_identifier, read_unsigned,
    read_uri,
};
use crate::fcp::model::fields::field_value;
use crate::fcp::model::message::{Message, MessageView};
use crate::fcp::model::message_type_identifier::{MessageType, NodeMessageType};
use crate::fcp::model::unique_identifier::UniqueIdentifier;
use crate::fcp::model::uri::URI;

verus! {

/// The subscription `identifier` found edition `edition` of the USK, under `uri`.
pub struct SubscribedUSKUpdateMessage {
    pub identifier: UniqueIdentifier,
    pub edition: u64,
    pub uri: URI,
    pub new_known_good: bool,
    pub new_slot_true: bool,
}

/// The mathematical value of a [`SubscribedUSKUpdateMessage`].
pub struct SubscribedUSKUpdateView {
    pub identifier: (Seq<char>, Seq<char>),
    pub edition: nat,
    pub uri: Seq<char>,
    pub new_known_good: bool,
    pub new_slot_true: bool,
}

impl View for SubscribedUSKUpdateMessage {
    type V = SubscribedUSKUpdateView;

    open spec fn view(&self) -> SubscribedUSKUpdateView {
        SubscribedUSKUpdateView {
            identifier: self.identifier@,
            edition: self.edition as nat,
            uri: self.uri@,
            new_known_good: self.new_known_good,
            new_slot_true: self.new_slot_true,
        }
    }
}

/// What decoding a message as a USK update gives: the type is checked, then
/// `Identifier`, `Edition`, `URI`, `NewKnownGood` and `NewSlotToo` are read in that order.
pub open spec fn spec_subscribed_usk_update(m: MessageView) -> Result<SubscribedUSKUpdateView, DecodeErrorView> {
    if m.message_type != MessageType::Node(NodeMessageType::SubscribedUSKUpdate) {
        Err(unexpected_type(NodeMessageType::SubscribedUSKUpdate, m.message_type))
    } else {
        match field_identifier(m.fields, "Identifier"@) {
            Err(e) => Err(e),
            Ok(identifier) => match field_unsigned(m.fields, "Edition"@, u64::MAX as nat) {
                Err(e) => Err(e),
                Ok(edition) => match field_value(m.fields, "URI"@) {
                    Err(e) => Err(e),
                    Ok(uri) => match field_bool(m.fields, "NewKnownGood"@) {
                        Err(e) => Err(e),
                        Ok(new_known_good) => match field_bool(m.fields, "NewSlotToo"@) {
                            Err(e) => Err(e),
                            Ok(new_slot_true) => Ok(
                                SubscribedUSKUpdateView {
                                    identifier,
                                    edition,
                                    uri,
                                    new_known_good,
                                    new_slot_true,
                                },
                            ),
                        },
                    },
                },
            },
        }
    }
}

impl SubscribedUSKUpdateMessage {
    /// Decodes a USK update (`TryFrom<Message>`).
    pub fn try_from_message(value: Message) -> (res: Result<SubscribedUSKUpdateMessage, DecodeError>)
        ensures
            match spec_subscribed_usk_update(value@) {
                Ok(v) => res matches Ok(r) && r@ == v,
                Err(e) => res matches Err(err) && err@ == e,
            },
    {
        if let Err(e) = value.message_type().expect_specific_node_message(
            NodeMessageType::SubscribedUSKUpdate,
        ) {
            return Err(e);
        }
        let fields = value.fields();
        let identifier = match read_identifier(fields, "Identifier") {
            Err(e) => return Err(e),
            Ok(v) => v,
        };
        let edition = match read_unsigned(fields, "Edition", u64::MAX) {
            Err(e) => return Err(e),
            Ok(v) => v,
        };
        let uri = match read_uri(fields, "URI") {
            Err(e) => return Err(e),
            Ok(v) => v,
        };
        let new_known_good = match read_bool(fields, "NewKnownGood") {
            Err(e) => return Err(e),
            Ok(v) => v,
        };
        let new_slot_true = match read_bool(fields, "NewSlotToo") {
            Err(e) => return Err(e),
            Ok(v) => v,
        };
        Ok(SubscribedUSKUpdateMessage { identifier, edition, uri, new_known_good, new_slot_true })
    }
}

} // verus!
