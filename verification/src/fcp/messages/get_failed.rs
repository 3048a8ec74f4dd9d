//! The failure of a fetch.

use vstd::prelude::*;

use crate::fcp::decode_error::{unexpected_type, DecodeError, DecodeErrorView};
use crate::fcp::model::content_type::ContentType;
use crate::fcp::model::field_values::{
    field_bool, field_identifier, field_unsigned, optional_bool, optional_content_type,
    optional_unsigned, optional_value, read_bool, read_identifier, read_optional_bool,
    read_optional_content_type, read_optional_text, read_optional_unsigned, read_text,
    read_unsigned,
};
use crate::fcp::model::fields::field_value;
use crate::fcp::model::message::{Message, MessageView};
use crate::fcp::model::message_type_identifier::{MessageType, NodeMessageType};
use crate::fcp::model::unique_identifier::UniqueIdentifier;
use crate::fcp::model::uri::URI;

verus! {

/// The code of a fetch that found no data.
pub const DATA_NOT_FOUND_CODE: u32 = 13;

/// The fetch `identifier` failed with `code`.
#[derive(Debug)]
pub struct GetFailedMessage {
    pub code: u32,
    pub identifier: UniqueIdentifier,
    pub code_description: String,
    pub short_code_description: String,
    pub extra_description: Option<String>,
    pub fatal: bool,
    pub redirect_uri: Option<URI>,
    pub expected_data_length: Option<usize>,
    pub expected_metadata_content_type: Option<ContentType>,
    pub finalized_expected: Option<bool>,
}

/// The mathematical value of a [`GetFailedMessage`].
pub struct GetFailedView {
    pub code: nat,
    pub identifier: (Seq<char>, Seq<char>),
    pub code_description: Seq<char>,
    pub short_code_description: Seq<char>,
    pub extra_description: Option<Seq<char>>,
    pub fatal: bool,
    pub redirect_uri: Option<Seq<char>>,
    pub expected_data_length: Option<nat>,
    pub expected_metadata_content_type: Option<Seq<char>>,
    pub finalized_expected: Option<bool>,
}

impl View for GetFailedMessage {
    type V = GetFailedView;

    open spec fn view(&self) -> GetFailedView {
        GetFailedView {
            code: self.code as nat,
            identifier: self.identifier@,
            code_description: self.code_description@,
            short_code_description: self.short_code_description@,
            extra_description: match self.extra_description {
                Some(s) => Some(s@),
                None => None,
            },
            fatal: self.fatal,
            redirect_uri: match self.redirect_uri {
                Some(u) => Some(u@),
                None => None,
            },
            expected_data_length: match self.expected_data_length {
                Some(n) => Some(n as nat),
                None => None,
            },
            expected_metadata_content_type: match self.expected_metadata_content_type {
                Some(c) => Some(c@),
                None => None,
            },
            finalized_expected: self.finalized_expected,
        }
    }
}

/// The optional part of a failed fetch: `ExpectedDataLength` and
/// `ExpectedMetadata.ContentType` are read where present, and may fail; the rest never
/// fails, and `FinalizedExpected` is dropped where it is no boolean.
pub open spec fn spec_get_failed_rest(
    fs: Seq<(Seq<char>, Seq<char>)>,
    code: nat,
    identifier: (Seq<char>, Seq<char>),
    code_description: Seq<char>,
    short_code_description: Seq<char>,
    fatal: bool,
) -> Result<GetFailedView, DecodeErrorView> {
    match optional_unsigned(fs, "ExpectedDataLength"@, usize::MAX as nat) {
        Err(e) => Err(e),
        Ok(expected_data_length) => match optional_content_type(fs, "ExpectedMetadata.ContentType"@) {
            Err(e) => Err(e),
            Ok(expected_metadata_content_type) => Ok(
                GetFailedView {
                    code,
                    identifier,
                    code_description,
                    short_code_description,
                    extra_description: optional_value(fs, "ExtraDescription"@),
                    fatal,
                    redirect_uri: optional_value(fs, "RedirectURI"@),
                    expected_data_length,
                    expected_metadata_content_type,
                    finalized_expected: optional_bool(fs, "FinalizedExpected"@),
                },
            ),
        },
    }
}

/// What decoding a message as a failed fetch gives: the type is checked, then `Code`,
/// `Identifier`, `CodeDescription`, `ShortCodeDescription` and `Fatal` are read in that
/// order, then the optional fields.
pub open spec fn spec_get_failed(m: MessageView) -> Result<GetFailedView, DecodeErrorView> {
    if m.message_type != MessageType::Node(NodeMessageType::GetFailed) {
        Err(unexpected_type(NodeMessageType::GetFailed, m.message_type))
    } else {
        match field_unsigned(m.fields, "Code"@, u32::MAX as nat) {
            Err(e) => Err(e),
            Ok(code) => match field_identifier(m.fields, "Identifier"@) {
                Err(e) => Err(e),
                Ok(identifier) => match field_value(m.fields, "CodeDescription"@) {
                    Err(e) => Err(e),
                    Ok(code_description) => match field_value(m.fields, "ShortCodeDescription"@) {
                        Err(e) => Err(e),
                        Ok(short_code_description) => match field_bool(m.fields, "Fatal"@) {
                            Err(e) => Err(e),
                            Ok(fatal) => spec_get_failed_rest(
                                m.fields,
                                code,
                                identifier,
                                code_description,
                                short_code_description,
                                fatal,
                            ),
                        },
                    },
                },
            },
        }
    }
}

/// The URI of an optional text.
fn optional_uri(text: Option<String>) -> (res: Option<URI>)
    ensures
        match text {
            Some(t) => res matches Some(u) && u@ == t@,
            None => res is None,
        },
{
    match text {
        Some(t) => match URI::try_from_str(t.as_str()) {
            Ok(u) => Some(u),
            Err(_) => None,
        },
        None => None,
    }
}

impl GetFailedMessage {
    /// Decodes a failed fetch (`TryFrom<Message>`).
    pub fn try_from_message(value: Message) -> (res: Result<GetFailedMessage, DecodeError>)
        ensures
            match spec_get_failed(value@) {
                Ok(v) => res matches Ok(r) && r@ == v,
                Err(e) => res matches Err(err) && err@ == e,
            },
    {
        if let Err(e) = value.message_type().expect_specific_node_message(NodeMessageType::GetFailed) {
            return Err(e);
        }
        let fields = value.fields();
        let code = match read_unsigned(fields, "Code", u32::MAX as u64) {
            Err(e) => return Err(e),
            Ok(v) => v as u32,
        };
        let identifier = match read_identifier(fields, "Identifier") {
            Err(e) => return Err(e),
            Ok(v) => v,
        };
        let code_description = match read_text(fields, "CodeDescription") {
            Err(e) => return Err(e),
            Ok(v) => v,
        };
        let short_code_description = match read_text(fields, "ShortCodeDescription") {
            Err(e) => return Err(e),
            Ok(v) => v,
        };
        let extra_description = read_optional_text(fields, "ExtraDescription");
        let fatal = match read_bool(fields, "Fatal") {
            Err(e) => return Err(e),
            Ok(v) => v,
        };
        let redirect_uri = optional_uri(read_optional_text(fields, "RedirectURI"));
        let expected_data_length = match read_optional_unsigned(
            fields,
            "ExpectedDataLength",
            usize::MAX as u64,
        ) {
            Err(e) => return Err(e),
            Ok(Some(n)) => Some(n as usize),
            Ok(None) => None,
        };
        let expected_metadata_content_type = match read_optional_content_type(
            fields,
            "ExpectedMetadata.ContentType",
        ) {
            Err(e) => return Err(e),
            Ok(c) => c,
        };
        let finalized_expected = read_optional_bool(fields, "FinalizedExpected");
        let res = GetFailedMessage {
            code,
            identifier,
            code_description,
            short_code_description,
            extra_description,
            fatal,
            redirect_uri,
            expected_data_length,
            expected_metadata_content_type,
            finalized_expected,
        };
        assert(res@ == spec_get_failed(value@)->Ok_0);
        Ok(res)
    }
}

} // verus!
