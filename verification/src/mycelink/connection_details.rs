//! What an account publishes so that others can reach it.

use vstd::prelude::*;

use crate::mycelink::keys::byte_strings;

verus! {

/// The public side of an account: where its details are fetched from, the name it goes
/// by, its public keys, and where channel requests are dropped.
pub struct PublicMycelinkConnectionDetails {
    account_request_key: String,
    display_name: String,
    public_signing_keys: Vec<Vec<u8>>,
    public_encryption_keys: Vec<Vec<u8>>,
    channel_request_droppoint: String,
}

/// The mathematical value of [`PublicMycelinkConnectionDetails`].
pub struct ConnectionDetailsView {
    pub account_request_key: Seq<char>,
    pub display_name: Seq<char>,
    pub public_signing_keys: Seq<Seq<u8>>,
    pub public_encryption_keys: Seq<Seq<u8>>,
    pub channel_request_droppoint: Seq<char>,
}

impl View for PublicMycelinkConnectionDetails {
    type V = ConnectionDetailsView;

    closed spec fn view(&self) -> ConnectionDetailsView {
        ConnectionDetailsView {
            account_request_key: self.account_request_key@,
            display_name: self.display_name@,
            public_signing_keys: byte_strings(self.public_signing_keys@),
            public_encryption_keys: byte_strings(self.public_encryption_keys@),
            channel_request_droppoint: self.channel_request_droppoint@,
        }
    }
}

impl PublicMycelinkConnectionDetails {
    pub fn new(
        account_request_key: String,
        display_name: String,
        public_signing_keys: Vec<Vec<u8>>,
        public_encryption_keys: Vec<Vec<u8>>,
        channel_request_droppoint: String,
    ) -> (res: PublicMycelinkConnectionDetails)
        ensures
            res@ == (ConnectionDetailsView {
                account_request_key: account_request_key@,
                display_name: display_name@,
                public_signing_keys: byte_strings(public_signing_keys@),
                public_encryption_keys: byte_strings(public_encryption_keys@),
                channel_request_droppoint: channel_request_droppoint@,
            }),
    {
        PublicMycelinkConnectionDetails {
            account_request_key,
            display_name,
            public_signing_keys,
            public_encryption_keys,
            channel_request_droppoint,
        }
    }

    pub fn account_request_key(&self) -> (res: &str)
        ensures
            res@ == self@.account_request_key,
    {
        self.account_request_key.as_str()
    }

    pub fn display_name(&self) -> (res: &str)
        ensures
            res@ == self@.display_name,
    {
        self.display_name.as_str()
    }

    pub fn public_signing_keys(&self) -> (res: &Vec<Vec<u8>>)
        ensures
            byte_strings(res@) == self@.public_signing_keys,
    {
        &self.public_signing_keys
    }

    pub fn public_encryption_keys(&self) -> (res: &Vec<Vec<u8>>)
        ensures
            byte_strings(res@) == self@.public_encryption_keys,
    {
        &self.public_encryption_keys
    }

    pub fn channel_request_droppoint(&self) -> (res: &str)
        ensures
            res@ == self@.channel_request_droppoint,
    {
        self.channel_request_droppoint.as_str()
    }
}

} // verus!
