//! Where the data of an insert comes from.

use vstd::prelude::*;

use crate::fcp::model::uri::URI;

verus! {

/// Where the data of an insert comes from; a path is kept as its text.
pub enum UploadType {
    Direct { data: Vec<u8> },
    Disk { path: String },
    Redirect { target: URI },
}

impl UploadType {
    /// The text of the value on the wire.
    pub open spec fn spec_text(&self) -> Seq<char> {
        match self {
            UploadType::Direct { .. } => "direct"@,
            UploadType::Disk { .. } => "disk"@,
            UploadType::Redirect { .. } => "redirect"@,
        }
    }

    /// The text of the value on the wire (`From<&UploadType> for &str`).
    pub fn as_str(&self) -> (res: &'static str)
        ensures
            res@ == self.spec_text(),
    {
        match self {
            UploadType::Direct { .. } => "direct",
            UploadType::Disk { .. } => "disk",
            UploadType::Redirect { .. } => "redirect",
        }
    }
}

} // verus!
