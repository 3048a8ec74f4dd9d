//! The failure of an insert.

use vstd::prelude::*;

use crate::fcp::decode_error::{unexpected_type, DecodeError, DecodeErrorView};
use crate::fcp::model::field_values::{
    field_bool, field_identifier, field_unsigned, read_bool, read_identifier, read_text,
    read_unsigned, read_uri,
};
use crate::fcp::model::fields::field_value;
use crate::fcp::model::message::{Message, MessageView};
use crate::fcp::model::message_type_identifier::{MessageType, NodeMessageType};
use crate::fcp::model::unique_identifier::UniqueIdentifier;
use crate::fcp::model::uri::URI;

verus! {

/// The insert `identifier` failed with `code`.
#[derive(Debug)]
pub struct PutFailedMessage {
    pub code: u32,
    pub identifier: UniqueIdentifier,
    pub expected_uri: URI,
    pub code_description: String,
    pub short_code_description: String,
    pub extra_description: String,
    pub fatal: bool,
}

/// The mathematical value of a [`PutFailedMessage`].
pub struct PutFailedView {
    pub code: nat,
    pub identifier: (Seq<char>, Seq<char>),
    pub expected_uri: Seq<char>,
    pub code_description: Seq<char>,
    pub short_code_description: Seq<char>,
    pub extra_description: Seq<char>,
    pub fatal: bool,
}

impl View for PutFailedMessage {
    type V = PutFailedView;

    open spec fn view(&self) -> PutFailedView {
        PutFailedView {
            code: self.code as nat,
            identifier: self.identifier@,
            expected_uri: self.expected_uri@,
            code_description: self.code_description@,
            short_code_description: self.short_code_description@,
            extra_description: self.extra_description@,
            fatal: self.fatal,
        }
    }
}

/// What decoding a message as a failed insert gives: the type is checked, then `Code`,
/// `Identifier`, `ExpectedURI`, `CodeDescription`, `ShortCodeDescription`,
/// `ExtraDescription` and `Fatal` are read in that order.
pub open spec fn spec_put_failed(m: MessageView) -> Result<PutFailedView, DecodeErrorView> {
    if m.message_type != MessageType::Node(NodeMessageType::PutFailed) {
        Err(unexpected_type(NodeMessageType::PutFailed, m.message_type))
    } else {
        match field_unsigned(m.fields, "Code"@, u32::MAX as nat) {
            Err(e) => Err(e),
            Ok(code) => match field_identifier(m.fields, "Identifier"@) {
                Err(e) => Err(e),
                Ok(identifier) => match field_value(m.fields, "ExpectedURI"@) {
                    Err(e) => Err(e),
                    Ok(expected_uri) => match field_value(m.fields, "CodeDescription"@) {
                        Err(e) => Err(e),
                        Ok(code_description) => match field_value(m.fields, "ShortCodeDescription"@) {
                            Err(e) => Err(e),
                            Ok(short_code_description) => match field_value(m.fields, "ExtraDescription"@) {
                                Err(e) => Err(e),
                                Ok(extra_description) => match field_bool(m.fields, "Fatal"@) {
                                    Err(e) => Err(e),
                                    Ok(fatal) => Ok(
                                        PutFailedView {
                                            code,
                                            identifier,
                                            expected_uri,
                                            code_description,
                                            short_code_description,
                                            extra_description,
                                            fatal,
                                        },
                                    ),
                                },
                            },
                        },
                    },
                },
            },
        }
    }
}

impl PutFailedMessage {
    /// Decodes a failed insert (`TryFrom<Message>`).
    pub fn try_from_message(value: Message) -> (res: Result<PutFailedMessage, DecodeError>)
        ensures
            match spec_put_failed(value@) {
                Ok(v) => res matches Ok(r) && r@ == v,
                Err(e) => res matches Err(err) && err@ == e,
            },
    {
        if let Err(e) = value.message_type().expect_specific_node_message(NodeMessageType::PutFailed) {
            return Err(e);
        }
        let fields = value.fields();
        let code = match read_unsigned(fields, "Code", u32::MAX as u64) {
            Err(e) => return Err(e),
            Ok(v) => v as u32,
        };
        let identifier = match read_identifier(fields, "Identifier") {
            Err(e) => return Err(e),
            Ok(v) => v,
        };
        let expected_uri = match read_uri(fields, "ExpectedURI") {
            Err(e) => return Err(e),
            Ok(v) => v,
        };
        let code_description = match read_text(fields, "CodeDescription") {
            Err(e) => return Err(e),
            Ok(v) => v,
        };
        let short_code_description = match read_text(fields, "ShortCodeDescription") {
            Err(e) => return Err(e),
            Ok(v) => v,
        };
        let extra_description = match read_text(fields, "ExtraDescription") {
            Err(e) => return Err(e),
            Ok(v) => v,
        };
        let fatal = match read_bool(fields, "Fatal") {
            Err(e) => return Err(e),
            Ok(v) => v,
        };
        Ok(
            PutFailedMessage {
                code,
                identifier,
                expected_uri,
                code_description,
                short_code_description,
                extra_description,
                fatal,
            },
        )
    }
}

} // verus!
