//! The user's own Mycelink account.

use vstd::prelude::*;

use crate::fcp::model::uri::URI;
use crate::mycelink::connection_details::{ConnectionDetailsView, PublicMycelinkConnectionDetails};
use crate::mycelink::keys::{
    encryption_public_keys, public_encryption_keys, public_halves, public_signing_keys, signing_public_keys,
    KeyPairView, TaggedEncryptionKeyPair, TaggedSignatureKeyPair,
};
use crate::text::{decimal, push_decimal, push_str, replace_all, replace_str};

verus! {

/// An account: the SSK it publishes its details under, the dropbox where others leave
/// channel requests, how many of those requests were taken already, and its key pairs.
pub struct MycelinkAccount {
    request_ssk_key: String,
    insert_ssk_key: String,
    channel_request_dropbox_insert_key: String,
    channel_request_dropbox_request_key: String,
    channel_request_dropbox_known: u32,
    encryption_keys: Vec<TaggedEncryptionKeyPair>,
    signing_keys: Vec<TaggedSignatureKeyPair>,
}

/// The mathematical value of a [`MycelinkAccount`].
pub struct AccountView {
    pub request_ssk_key: Seq<char>,
    pub insert_ssk_key: Seq<char>,
    pub channel_request_dropbox_insert_key: Seq<char>,
    pub channel_request_dropbox_request_key: Seq<char>,
    pub channel_request_dropbox_known: u32,
    pub encryption_keys: Seq<KeyPairView>,
    pub signing_keys: Seq<KeyPairView>,
}

impl View for MycelinkAccount {
    type V = AccountView;

    closed spec fn view(&self) -> AccountView {
        AccountView {
            request_ssk_key: self.request_ssk_key@,
            insert_ssk_key: self.insert_ssk_key@,
            channel_request_dropbox_insert_key: self.channel_request_dropbox_insert_key@,
            channel_request_dropbox_request_key: self.channel_request_dropbox_request_key@,
            channel_request_dropbox_known: self.channel_request_dropbox_known,
            encryption_keys: self.encryption_keys@.map_values(|k: TaggedEncryptionKeyPair| k@),
            signing_keys: self.signing_keys@.map_values(|k: TaggedSignatureKeyPair| k@),
        }
    }
}

/// The key under which requests are fetched from a dropbox created with `request_uri`.
pub open spec fn dropbox_request_key(request_uri: Seq<char>) -> Seq<char> {
    request_uri + "/requests"@
}

/// The key under which the first request is left in a dropbox created with `insert_uri`:
/// the SSK becomes a USK, whose first edition is used.
pub open spec fn dropbox_insert_key(insert_uri: Seq<char>) -> Seq<char> {
    replace_all(insert_uri, "SSK@"@, "USK@"@) + "/requests/0"@
}

/// The URI of request number `known` in a dropbox.
pub open spec fn channel_request_uri_text(request_key: Seq<char>, known: u32) -> Seq<char> {
    request_key + "-"@ + decimal(known as nat)
}

/// Why no key pair of an account completes a key exchange.
pub struct NoMatchingKeyError();

impl MycelinkAccount {
    /// The account's encryption key pairs, in order.
    pub closed spec fn encryption_key_pairs(&self) -> Seq<TaggedEncryptionKeyPair> {
        self.encryption_keys@
    }

    pub fn new(
        request_ssk_key: String,
        insert_ssk_key: String,
        channel_request_dropbox_insert_key: String,
        channel_request_dropbox_request_key: String,
        encryption_keys: Vec<TaggedEncryptionKeyPair>,
        signing_keys: Vec<TaggedSignatureKeyPair>,
    ) -> (res: MycelinkAccount)
        ensures
            res@ == (AccountView {
                request_ssk_key: request_ssk_key@,
                insert_ssk_key: insert_ssk_key@,
                channel_request_dropbox_insert_key: channel_request_dropbox_insert_key@,
                channel_request_dropbox_request_key: channel_request_dropbox_request_key@,
                channel_request_dropbox_known: 0,
                encryption_keys: encryption_keys@.map_values(|k: TaggedEncryptionKeyPair| k@),
                signing_keys: signing_keys@.map_values(|k: TaggedSignatureKeyPair| k@),
            }),
            res.encryption_key_pairs() == encryption_keys@,
    {
        MycelinkAccount {
            request_ssk_key,
            insert_ssk_key,
            channel_request_dropbox_insert_key,
            channel_request_dropbox_request_key,
            channel_request_dropbox_known: 0,
            encryption_keys,
            signing_keys,
        }
    }

    /// A new account from the key pairs generated for it: the SSK pair of its details and
    /// the SSK pair of its dropbox, whose keys are turned into the dropbox's keys.
    pub fn from_generated_keys(
        ssk_request_uri: String,
        ssk_insert_uri: String,
        dropbox_request_uri: &str,
        dropbox_insert_uri: &str,
        encryption_keys: Vec<TaggedEncryptionKeyPair>,
        signing_keys: Vec<TaggedSignatureKeyPair>,
    ) -> (res: MycelinkAccount)
        ensures
            res@ == (AccountView {
                request_ssk_key: ssk_request_uri@,
                insert_ssk_key: ssk_insert_uri@,
                channel_request_dropbox_insert_key: dropbox_insert_key(dropbox_insert_uri@),
                channel_request_dropbox_request_key: dropbox_request_key(dropbox_request_uri@),
                channel_request_dropbox_known: 0,
                encryption_keys: encryption_keys@.map_values(|k: TaggedEncryptionKeyPair| k@),
                signing_keys: signing_keys@.map_values(|k: TaggedSignatureKeyPair| k@),
            }),
            res.encryption_key_pairs() == encryption_keys@,
    {
        let mut request_key = String::new();
        push_str(&mut request_key, dropbox_request_uri);
        push_str(&mut request_key, "/requests");
        proof {
            reveal_strlit("SSK@");
        }
        let mut insert_key = replace_str(dropbox_insert_uri, "SSK@", "USK@");
        push_str(&mut insert_key, "/requests/0");
        MycelinkAccount::new(
            ssk_request_uri,
            ssk_insert_uri,
            insert_key,
            request_key,
            encryption_keys,
            signing_keys,
        )
    }

    pub fn request_ssk_key(&self) -> (res: &str)
        ensures
            res@ == self@.request_ssk_key,
    {
        self.request_ssk_key.as_str()
    }

    pub fn insert_ssk_key(&self) -> (res: &str)
        ensures
            res@ == self@.insert_ssk_key,
    {
        self.insert_ssk_key.as_str()
    }

    pub fn channel_request_dropbox_insert_key(&self) -> (res: &str)
        ensures
            res@ == self@.channel_request_dropbox_insert_key,
    {
        self.channel_request_dropbox_insert_key.as_str()
    }

    pub fn channel_request_dropbox_request_key(&self) -> (res: &str)
        ensures
            res@ == self@.channel_request_dropbox_request_key,
    {
        self.channel_request_dropbox_request_key.as_str()
    }

    pub fn channel_request_dropbox_known(&self) -> (res: u32)
        ensures
            res == self@.channel_request_dropbox_known,
    {
        self.channel_request_dropbox_known
    }

    /// What the account publishes under the given name: its request key, the public
    /// halves of its key pairs, and its dropbox's insert key as the place for requests.
    pub fn generate_contact_info(&self, display_name: String) -> (res: PublicMycelinkConnectionDetails)
        ensures
            res@ == (ConnectionDetailsView {
                account_request_key: self@.request_ssk_key,
                display_name: display_name@,
                public_signing_keys: public_halves(self@.signing_keys),
                public_encryption_keys: public_halves(self@.encryption_keys),
                channel_request_droppoint: self@.channel_request_dropbox_insert_key,
            }),
    {
        assert(public_halves(self@.signing_keys) =~= public_signing_keys(self.signing_keys@));
        assert(public_halves(self@.encryption_keys) =~= public_encryption_keys(self.encryption_keys@));
        PublicMycelinkConnectionDetails::new(
            self.request_ssk_key.clone(),
            display_name,
            signing_public_keys(&self.signing_keys),
            encryption_public_keys(&self.encryption_keys),
            self.channel_request_dropbox_insert_key.clone(),
        )
    }

    /// The URI of the next channel request to fetch from the dropbox.
    pub fn channel_request_uri(&self) -> (res: URI)
        ensures
            res@ == channel_request_uri_text(
                self@.channel_request_dropbox_request_key,
                self@.channel_request_dropbox_known,
            ),
    {
        let mut text = String::new();
        push_str(&mut text, self.channel_request_dropbox_request_key.as_str());
        push_str(&mut text, "-");
        push_decimal(&mut text, self.channel_request_dropbox_known as u64);
        let uri = URI::try_from_str(text.as_str());
        uri.unwrap()
    }

    /// Notes that one more channel request was taken from the dropbox.
    pub fn record_channel_request(&mut self)
        requires
            old(self)@.channel_request_dropbox_known < u32::MAX,
        ensures
            final(self)@ == (AccountView {
                channel_request_dropbox_known: (old(self)@.channel_request_dropbox_known + 1) as u32,
                ..old(self)@
            }),
            final(self).encryption_key_pairs() == old(self).encryption_key_pairs(),
    {
        self.channel_request_dropbox_known = self.channel_request_dropbox_known + 1;
    }

    /// Whether two values are the same account: they share their request key.
    pub fn same_account(&self, other: &MycelinkAccount) -> (res: bool)
        ensures
            res == (self@.request_ssk_key == other@.request_ssk_key),
    {
        self.request_ssk_key == other.request_ssk_key
    }

    /// Completes a key exchange with the first key pair for which `complete` succeeds.
    pub fn try_complete<K, F: Fn(&TaggedEncryptionKeyPair) -> Option<K>>(&self, complete: F) -> (res: Result<K, NoMatchingKeyError>)
        requires
            forall|i: int| 0 <= i < self.encryption_key_pairs().len() ==> complete.requires(
                (&self.encryption_key_pairs()[i],),
            ),
        ensures
            res matches Ok(k) ==> exists|i: int|
                0 <= i < self.encryption_key_pairs().len() && complete.ensures(
                    (&self.encryption_key_pairs()[i],),
                    Some(k),
                ) && forall|j: int| 0 <= j < i ==> complete.ensures(
                    (&self.encryption_key_pairs()[j],),
                    None,
                ),
            res is Err ==> forall|i: int| 0 <= i < self.encryption_key_pairs().len() ==> complete.ensures(
                (&self.encryption_key_pairs()[i],),
                None,
            ),
    {
        let mut i: usize = 0;
        while i < self.encryption_keys.len()
            invariant
                i <= self.encryption_keys.len(),
                self.encryption_key_pairs() == self.encryption_keys@,
                forall|j: int| 0 <= j < self.encryption_keys@.len() ==> complete.requires(
                    (&self.encryption_keys@[j],),
                ),
                forall|j: int| 0 <= j < i ==> complete.ensures((&self.encryption_keys@[j],), None),
            decreases self.encryption_keys.len() - i,
        {
            match complete(&self.encryption_keys[i]) {
                Some(key) => {
                    return Ok(key);
                },
                None => {},
            }
            i = i + 1;
        }
        Err(NoMatchingKeyError())
    }
}

} // verus!
