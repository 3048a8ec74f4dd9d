//! Where the node delivers fetched data.

use vstd::prelude::*;

verus! {

/// Where the node delivers fetched data; a path is kept as its text.
#[derive(Clone, Debug, Eq, PartialEq)]
pub enum ReturnType {
    Direct,
    Disk { path: String },
    /// The node fetches the data but delivers none of it (`none` on the wire).
    Discard,
}

impl ReturnType {
    /// The text of the value on the wire.
    pub open spec fn spec_text(self) -> Seq<char> {
        match self {
            ReturnType::Direct => "direct"@,
            ReturnType::Disk { .. } => "disk"@,
            ReturnType::Discard => "none"@,
        }
    }

    /// The text of the value on the wire (`From<&ReturnType> for &str`).
    pub fn as_str(&self) -> (res: &'static str)
        ensures
            res@ == self.spec_text(),
    {
        match self {
            ReturnType::Direct => "direct",
            ReturnType::Disk { .. } => "disk",
            ReturnType::Discard => "none",
        }
    }
}

} // verus!
