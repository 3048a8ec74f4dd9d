//! The protocol version a node speaks.

use vstd::prelude::*;

use crate::fcp::decode_error::{DecodeError, DecodeErrorView};
use crate::fcp::model::fields::Field;
use crate::text::{owned, push_str, str_equal};

verus! {

/// FCP versions this library knows.
#[derive(Copy, Clone, Debug, Eq, PartialEq, Structural)]
pub enum FCPVersion {
    V2_0,
}

/// The text of the only known version.
pub open spec fn version_text() -> Seq<char> {
    "2.0"@
}

/// The error text for a version that is not known.
pub open spec fn unknown_version_text(value: Seq<char>) -> Seq<char> {
    "Failed parsing "@ + value + " as a valid FCP version"@
}

/// What reading `value` as a version gives.
pub open spec fn version_of(value: Seq<char>) -> Result<FCPVersion, DecodeErrorView> {
    if value == version_text() {
        Ok(FCPVersion::V2_0)
    } else {
        Err(DecodeErrorView::ParseError(unknown_version_text(value)))
    }
}

impl FCPVersion {
    pub fn name(&self) -> (res: &'static str)
        ensures
            res@ == version_text(),
    {
        match self {
            FCPVersion::V2_0 => "2.0",
        }
    }

    /// Reads a version from its text (`TryFrom<&str>`).
    pub fn try_from_str(value: &str) -> (res: Result<FCPVersion, DecodeError>)
        ensures
            value@ == version_text() ==> res == Ok::<FCPVersion, DecodeError>(FCPVersion::V2_0),
            value@ != version_text() ==> (res matches Err(e) && e@ == DecodeErrorView::ParseError(
                unknown_version_text(value@),
            )),
    {
        if str_equal(value, "2.0") {
            Ok(FCPVersion::V2_0)
        } else {
            let mut msg = String::new();
            push_str(&mut msg, "Failed parsing ");
            push_str(&mut msg, value);
            push_str(&mut msg, " as a valid FCP version");
            Err(DecodeError::ParseError(msg))
        }
    }

    /// Reads a version from the field `FCPVersion` (`TryFrom<&Field>`).
    pub fn try_from_field(value: &Field) -> (res: Result<FCPVersion, DecodeError>)
        ensures
            value@.0 == "FCPVersion"@ && value@.1 == version_text() ==> res == Ok::<
                FCPVersion,
                DecodeError,
            >(FCPVersion::V2_0),
            value@.0 == "FCPVersion"@ && value@.1 != version_text() ==> (res matches Err(e) && e@
                == DecodeErrorView::ParseError(unknown_version_text(value@.1))),
            value@.0 != "FCPVersion"@ ==> (res matches Err(e) && e@ == DecodeErrorView::MissingField(
                "FCPVersion"@,
            )),
    {
        if str_equal(value.key(), "FCPVersion") {
            FCPVersion::try_from_str(value.value())
        } else {
            Err(DecodeError::MissingField(owned("FCPVersion")))
        }
    }
}

} // verus!
