//! Freenet URIs.

use vstd::prelude::*;

use crate::fcp::decode_error::DecodeError;
use crate::text::owned;

verus! {

/// A Freenet URI, kept as its text.
#[derive(Eq, PartialEq, Debug, Clone)]
pub struct URI {
    uri: String,
}

impl View for URI {
    type V = Seq<char>;

    closed spec fn view(&self) -> Seq<char> {
        self.uri@
    }
}

impl URI {
    /// Reads a URI from its text (`TryFrom<&str>`); every text is accepted.
    pub fn try_from_str(value: &str) -> (res: Result<URI, DecodeError>)
        ensures
            res matches Ok(u) && u@ == value@,
    {
        Ok(URI { uri: owned(value) })
    }

    /// The text of the URI (`From<&URI> for Box<str>`).
    pub fn to_text(&self) -> (res: String)
        ensures
            res@ == self@,
    {
        self.uri.clone()
    }

    /// A copy of this URI.
    pub fn duplicate(&self) -> (res: URI)
        ensures
            res@ == self@,
    {
        URI { uri: self.uri.clone() }
    }
}

} // verus!
