//! Why a message could not be decoded.

use vstd::prelude::*;

use crate::fcp::model::message_type_identifier::{MessageType, NodeMessageType};
use crate::text::{owned, push_str, IntErrorKind};

verus! {

/// The ways decoding an FCP message can fail.
#[allow(inconsistent_fields)]
#[derive(Debug, PartialEq, Eq)]
pub enum DecodeError {
    /// The peer broke the protocol in a way no other variant describes.
    ProtocolBreak(String),
    /// The message was of another type than the one expected.
    ExpectedDifferentMessageType { expected: MessageType, got: MessageType },
    /// The first line of a message names no known message type.
    UnknownMessageType { got: String },
    /// A value could not be read; the text says which and why.
    ParseError(String),
    /// The protocol version is unknown.
    InvalidVersion(String),
    /// A field the message must carry is absent; the text is its key.
    MissingField(String),
    /// The message carries no payload but one was expected.
    MissingPayload,
    /// The input ended inside a message.
    UnexpectedEOF,
}

/// The mathematical value of a [`DecodeError`].
#[allow(inconsistent_fields)]
pub enum DecodeErrorView {
    ProtocolBreak(Seq<char>),
    ExpectedDifferentMessageType { expected: MessageType, got: MessageType },
    UnknownMessageType { got: Seq<char> },
    ParseError(Seq<char>),
    InvalidVersion(Seq<char>),
    MissingField(Seq<char>),
    MissingPayload,
    UnexpectedEOF,
}

impl View for DecodeError {
    type V = DecodeErrorView;

    open spec fn view(&self) -> DecodeErrorView {
        match self {
            DecodeError::ProtocolBreak(s) => DecodeErrorView::ProtocolBreak(s@),
            DecodeError::ExpectedDifferentMessageType { expected, got } =>
                DecodeErrorView::ExpectedDifferentMessageType { expected: *expected, got: *got },
            DecodeError::UnknownMessageType { got } => DecodeErrorView::UnknownMessageType {
                got: got@,
            },
            DecodeError::ParseError(s) => DecodeErrorView::ParseError(s@),
            DecodeError::InvalidVersion(s) => DecodeErrorView::InvalidVersion(s@),
            DecodeError::MissingField(s) => DecodeErrorView::MissingField(s@),
            DecodeError::MissingPayload => DecodeErrorView::MissingPayload,
            DecodeError::UnexpectedEOF => DecodeErrorView::UnexpectedEOF,
        }
    }
}

/// The name `Debug` gives a kind of integer parse error.
pub open spec fn int_error_kind_name(k: IntErrorKind) -> Seq<char> {
    match k {
        IntErrorKind::Empty => "Empty"@,
        IntErrorKind::InvalidDigit => "InvalidDigit"@,
        IntErrorKind::PosOverflow => "PosOverflow"@,
    }
}

/// The message of the error for an integer that could not be read.
pub open spec fn int_error_text(k: IntErrorKind) -> Seq<char> {
    "Failed to parse integer (kind: "@ + int_error_kind_name(k) + ")"@
}

/// The error for a message of type `got` where the node message `expected` was expected.
pub open spec fn unexpected_type(expected: NodeMessageType, got: MessageType) -> DecodeErrorView {
    DecodeErrorView::ExpectedDifferentMessageType { expected: MessageType::Node(expected), got }
}

/// The message of the error for a boolean that could not be read (that of `ParseBoolError`).
pub open spec fn bool_error_text() -> Seq<char> {
    "provided string was not `true` or `false`"@
}

/// The text that describes an error to a person (what `Display` writes).
pub open spec fn spec_display(e: DecodeErrorView) -> Seq<char> {
    match e {
        DecodeErrorView::ExpectedDifferentMessageType { expected, got } => "Expected '"@
            + expected.spec_name() + "' but got '"@ + got.spec_name()
            + "' as FCP message type while decoding."@,
        DecodeErrorView::UnknownMessageType { got } => "Could not parse '"@ + got
            + "' as MessageType"@,
        DecodeErrorView::ParseError(inner) => "Parse error: "@ + inner,
        DecodeErrorView::InvalidVersion(inner) => "Version "@ + inner + " is unknown."@,
        DecodeErrorView::MissingField(inner) => "Field "@ + inner + " is missing in message."@,
        DecodeErrorView::ProtocolBreak(inner) => "Protocol Break: "@ + inner,
        DecodeErrorView::UnexpectedEOF => "Unexpected EOF"@,
        DecodeErrorView::MissingPayload => "Message is missing Payload"@,
    }
}

impl DecodeError {
    /// Describes the error to a person (`Display`).
    pub fn display_text(&self) -> (res: String)
        ensures
            res@ == spec_display(self@),
    {
        let mut text = String::new();
        match self {
            DecodeError::ExpectedDifferentMessageType { expected, got } => {
                push_str(&mut text, "Expected '");
                push_str(&mut text, expected.name());
                push_str(&mut text, "' but got '");
                push_str(&mut text, got.name());
                push_str(&mut text, "' as FCP message type while decoding.");
            },
            DecodeError::UnknownMessageType { got } => {
                push_str(&mut text, "Could not parse '");
                push_str(&mut text, got.as_str());
                push_str(&mut text, "' as MessageType");
            },
            DecodeError::ParseError(inner) => {
                push_str(&mut text, "Parse error: ");
                push_str(&mut text, inner.as_str());
            },
            DecodeError::InvalidVersion(inner) => {
                push_str(&mut text, "Version ");
                push_str(&mut text, inner.as_str());
                push_str(&mut text, " is unknown.");
            },
            DecodeError::MissingField(inner) => {
                push_str(&mut text, "Field ");
                push_str(&mut text, inner.as_str());
                push_str(&mut text, " is missing in message.");
            },
            DecodeError::ProtocolBreak(inner) => {
                push_str(&mut text, "Protocol Break: ");
                push_str(&mut text, inner.as_str());
            },
            DecodeError::UnexpectedEOF => push_str(&mut text, "Unexpected EOF"),
            DecodeError::MissingPayload => push_str(&mut text, "Message is missing Payload"),
        }
        text
    }

    /// The error for a boolean that could not be read (from `ParseBoolError`).
    pub fn from_bool_error() -> (res: DecodeError)
        ensures
            res@ == DecodeErrorView::ParseError(bool_error_text()),
    {
        DecodeError::ParseError(owned("provided string was not `true` or `false`"))
    }

    /// The error for an integer that could not be read (`From<ParseIntError>`).
    pub fn from_int_error(kind: IntErrorKind) -> (res: DecodeError)
        ensures
            res@ == DecodeErrorView::ParseError(int_error_text(kind)),
    {
        let mut msg = String::new();
        push_str(&mut msg, "Failed to parse integer (kind: ");
        match kind {
            IntErrorKind::Empty => push_str(&mut msg, "Empty"),
            IntErrorKind::InvalidDigit => push_str(&mut msg, "InvalidDigit"),
            IntErrorKind::PosOverflow => push_str(&mut msg, "PosOverflow"),
        }
        push_str(&mut msg, ")");
        DecodeError::ParseError(msg)
    }
}

} // verus!
