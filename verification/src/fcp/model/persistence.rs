//! How long the node keeps a request.

use vstd::prelude::*;

verus! {

/// How long the node keeps a request.
#[derive(Copy, Clone, Debug, Eq, PartialEq, Structural)]
pub enum Persistence {
    Connection,
    Reboot,
    Forever,
}

impl Persistence {
    /// The text of the value on the wire.
    pub open spec fn spec_text(self) -> Seq<char> {
        match self {
            Persistence::Connection => "connection"@,
            Persistence::Reboot => "reboot"@,
            Persistence::Forever => "forever"@,
        }
    }

    /// The text of the value on the wire (`From<&Persistence> for &str`).
    pub fn as_str(&self) -> (res: &'static str)
        ensures
            res@ == self.spec_text(),
    {
        match self {
            Persistence::Connection => "connection",
            Persistence::Reboot => "reboot",
            Persistence::Forever => "forever",
        }
    }
}

} // verus!
