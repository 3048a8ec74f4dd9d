//! Key pairs of an account, kept as the bytes of their halves.

use vstd::prelude::*;

verus! {

/// The mathematical value of a key pair.
pub struct KeyPairView {
    pub public_key: Seq<u8>,
    pub private_key: Seq<u8>,
}

/// A key pair for encryption.
pub struct TaggedEncryptionKeyPair {
    pub public_key: Vec<u8>,
    pub private_key: Vec<u8>,
}

/// A key pair for signatures.
pub struct TaggedSignatureKeyPair {
    pub public_key: Vec<u8>,
    pub private_key: Vec<u8>,
}

impl View for TaggedEncryptionKeyPair {
    type V = KeyPairView;

    open spec fn view(&self) -> KeyPairView {
        KeyPairView { public_key: self.public_key@, private_key: self.private_key@ }
    }
}

impl View for TaggedSignatureKeyPair {
    type V = KeyPairView;

    open spec fn view(&self) -> KeyPairView {
        KeyPairView { public_key: self.public_key@, private_key: self.private_key@ }
    }
}

/// A copy of a byte string.
pub fn copy_key(key: &Vec<u8>) -> (res: Vec<u8>)
    ensures
        res@ == key@,
{
    let mut res: Vec<u8> = Vec::new();
    let mut i: usize = 0;
    while i < key.len()
        invariant
            i <= key.len(),
            res@ == key@.take(i as int),
        decreases key.len() - i,
    {
        res.push(key[i]);
        assert(key@.take(i + 1) =~= key@.take(i as int).push(key@[i as int]));
        i = i + 1;
    }
    assert(key@.take(i as int) =~= key@);
    res
}

/// Whether two byte strings are equal.
pub fn bytes_equal(a: &Vec<u8>, b: &Vec<u8>) -> (res: bool)
    ensures
        res == (a@ == b@),
{
    if a.len() != b.len() {
        return false;
    }
    let mut i: usize = 0;
    while i < a.len()
        invariant
            a.len() == b.len(),
            i <= a.len(),
            forall|j: int| 0 <= j < i ==> a@[j] == b@[j],
        decreases a.len() - i,
    {
        if a[i] != b[i] {
            return false;
        }
        i = i + 1;
    }
    assert(a@ =~= b@);
    true
}

/// The public halves of key pairs, in order.
pub open spec fn public_halves(ks: Seq<KeyPairView>) -> Seq<Seq<u8>> {
    ks.map_values(|k: KeyPairView| k.public_key)
}

/// The public halves of encryption key pairs, in order.
pub open spec fn public_encryption_keys(ks: Seq<TaggedEncryptionKeyPair>) -> Seq<Seq<u8>> {
    ks.map_values(|k: TaggedEncryptionKeyPair| k.public_key@)
}

/// The public halves of signature key pairs, in order.
pub open spec fn public_signing_keys(ks: Seq<TaggedSignatureKeyPair>) -> Seq<Seq<u8>> {
    ks.map_values(|k: TaggedSignatureKeyPair| k.public_key@)
}

/// The byte strings held in a vector of byte vectors.
pub open spec fn byte_strings(v: Seq<Vec<u8>>) -> Seq<Seq<u8>> {
    v.map_values(|k: Vec<u8>| k@)
}

/// Copies of the public halves of encryption key pairs.
pub fn encryption_public_keys(ks: &Vec<TaggedEncryptionKeyPair>) -> (res: Vec<Vec<u8>>)
    ensures
        byte_strings(res@) == public_encryption_keys(ks@),
{
    let mut res: Vec<Vec<u8>> = Vec::new();
    let mut i: usize = 0;
    while i < ks.len()
        invariant
            i <= ks.len(),
            byte_strings(res@) == public_encryption_keys(ks@.take(i as int)),
        decreases ks.len() - i,
    {
        res.push(copy_key(&ks[i].public_key));
        assert(public_encryption_keys(ks@.take(i + 1)) =~= public_encryption_keys(ks@.take(i as int)).push(ks@[i as int].public_key@));
        assert(byte_strings(res@) =~= public_encryption_keys(ks@.take(i + 1)));
        i = i + 1;
    }
    assert(ks@.take(i as int) =~= ks@);
    res
}

/// Copies of the public halves of signature key pairs.
pub fn signing_public_keys(ks: &Vec<TaggedSignatureKeyPair>) -> (res: Vec<Vec<u8>>)
    ensures
        byte_strings(res@) == public_signing_keys(ks@),
{
    let mut res: Vec<Vec<u8>> = Vec::new();
    let mut i: usize = 0;
    while i < ks.len()
        invariant
            i <= ks.len(),
            byte_strings(res@) == public_signing_keys(ks@.take(i as int)),
        decreases ks.len() - i,
    {
        res.push(copy_key(&ks[i].public_key));
        assert(public_signing_keys(ks@.take(i + 1)) =~= public_signing_keys(ks@.take(i as int)).push(ks@[i as int].public_key@));
        assert(byte_strings(res@) =~= public_signing_keys(ks@.take(i + 1)));
        i = i + 1;
    }
    assert(ks@.take(i as int) =~= ks@);
    res
}

} // verus!
