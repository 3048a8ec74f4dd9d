//! Someone an account talks to.

use vstd::prelude::*;

use crate::mycelink::connection_details::{ConnectionDetailsView, PublicMycelinkConnectionDetails};
use crate::mycelink::keys::{byte_strings, bytes_equal};

verus! {

/// A contact: the name it is shown under and the details it published.
pub struct MycelinkContact {
    display_name: String,
    connection_details: PublicMycelinkConnectionDetails,
}

/// Why a signed value from a contact is not accepted.
pub enum SignatureVerificationError {
    /// The signature itself does not hold; the text says why.
    SignedBoxError(String),
    /// The value is signed with a key the contact did not publish.
    NoMatchingKey,
}

impl MycelinkContact {
    /// The name the contact is shown under.
    pub closed spec fn spec_display_name(&self) -> Seq<char> {
        self.display_name@
    }

    /// The details the contact published.
    pub closed spec fn spec_connection_details(&self) -> ConnectionDetailsView {
        self.connection_details@
    }

    pub fn new(display_name: String, connection_details: PublicMycelinkConnectionDetails) -> (res: MycelinkContact)
        ensures
            res.spec_display_name() == display_name@,
            res.spec_connection_details() == connection_details@,
    {
        MycelinkContact { display_name, connection_details }
    }

    pub fn display_name(&self) -> (res: &str)
        ensures
            res@ == self.spec_display_name(),
    {
        self.display_name.as_str()
    }

    pub fn connection_details(&self) -> (res: &PublicMycelinkConnectionDetails)
        ensures
            res@ == self.spec_connection_details(),
    {
        &self.connection_details
    }

    /// The details the contact published (`From<MycelinkContact>`).
    pub fn into_connection_details(self) -> (res: PublicMycelinkConnectionDetails)
        ensures
            res@ == self.spec_connection_details(),
    {
        self.connection_details
    }

    /// Accepts a signature key only where the contact published it; a value signed with
    /// another key is refused before its signature is looked at.
    pub fn check_signing_key(&self, public_key: &Vec<u8>) -> (res: Result<(), SignatureVerificationError>)
        ensures
            (res is Ok) == self.spec_connection_details().public_signing_keys.contains(public_key@),
            res is Err ==> (res matches Err(SignatureVerificationError::NoMatchingKey)),
    {
        let keys = self.connection_details.public_signing_keys();
        let ghost published = self.spec_connection_details().public_signing_keys;
        let mut i: usize = 0;
        while i < keys.len()
            invariant
                i <= keys.len(),
                byte_strings(keys@) == published,
                published == self.spec_connection_details().public_signing_keys,
                forall|j: int| 0 <= j < i ==> published[j] != public_key@,
            decreases keys.len() - i,
        {
            if bytes_equal(&keys[i], public_key) {
                assert(published[i as int] == public_key@);
                assert(published.contains(public_key@));
                return Ok(());
            }
            i = i + 1;
        }
        Err(SignatureVerificationError::NoMatchingKey)
    }
}

} // verus!
