//! The identifier a node gives a client connection.

use vstd::prelude::*;

use crate::text::owned;

verus! {

/// The identifier a node gives a client connection.
#[derive(Debug, Clone, Eq, PartialEq)]
pub struct ConnectionIdentifier(String);

impl View for ConnectionIdentifier {
    type V = Seq<char>;

    closed spec fn view(&self) -> Seq<char> {
        self.0@
    }
}

impl ConnectionIdentifier {
    /// The identifier with text `value` (`From<&str>`).
    pub fn from_str(value: &str) -> (res: ConnectionIdentifier)
        ensures
            res@ == value@,
    {
        ConnectionIdentifier(owned(value))
    }
}

} // verus!
