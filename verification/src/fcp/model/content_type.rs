//! Media types of payloads.

use vstd::prelude::*;

use crate::fcp::decode_error::{DecodeError, DecodeErrorView};
use crate::text::push_str;

verus! {

/// What parsing `text` as a media type with the mime crate gives: the type as the crate
/// renders it (`Display`), or the text of the crate's error.
pub uninterp spec fn mime_parse(text: Seq<char>) -> Result<Seq<char>, Seq<char>>;

/// `text.parse::<mime::Mime>()`, then the rendering of the parsed type or of the error.
/// What the mime crate accepts, and how it renders it, is left to the name `mime_parse`.
#[verifier::external_body]
fn parse_mime(text: &str) -> (res: Result<String, String>)
    ensures
        match mime_parse(text@) {
            Ok(c) => res matches Ok(r) && r@ == c,
            Err(e) => res matches Err(r) && r@ == e,
        },
{
    match text.parse::<mime::Mime>() {
        Ok(m) => Ok(m.to_string()),
        Err(e) => Err(e.to_string()),
    }
}

/// A media type, kept as the mime crate renders it.
#[derive(Clone, Debug, Eq, PartialEq)]
pub struct ContentType {
    inner: String,
}

impl View for ContentType {
    type V = Seq<char>;

    closed spec fn view(&self) -> Seq<char> {
        self.inner@
    }
}

/// The error text for a media type that cannot be read.
pub open spec fn mime_error_text(text: Seq<char>, err: Seq<char>) -> Seq<char> {
    "Failed to parse "@ + text + " to MIME ("@ + err + ")"@
}

impl ContentType {
    /// Reads a media type (`FromStr`).
    pub fn from_str(s: &str) -> (res: Result<ContentType, DecodeError>)
        ensures
            match mime_parse(s@) {
                Ok(c) => res matches Ok(t) && t@ == c,
                Err(e) => res matches Err(err) && err@ == DecodeErrorView::ParseError(
                    mime_error_text(s@, e),
                ),
            },
    {
        match parse_mime(s) {
            Ok(inner) => Ok(ContentType { inner }),
            Err(e) => {
                let mut msg = String::new();
                push_str(&mut msg, "Failed to parse ");
                push_str(&mut msg, s);
                push_str(&mut msg, " to MIME (");
                push_str(&mut msg, e.as_str());
                push_str(&mut msg, ")");
                Err(DecodeError::ParseError(msg))
            },
        }
    }

    /// The text of the media type (`From<&ContentType> for Box<str>`).
    pub fn to_text(&self) -> (res: String)
        ensures
            res@ == self@,
    {
        self.inner.clone()
    }
}

} // verus!
