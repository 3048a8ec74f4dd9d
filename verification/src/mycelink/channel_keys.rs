//! The texts a channel derives its keys and upload locations from.

use vstd::prelude::*;

use crate::fcp::model::uri::URI;
use crate::text::push_str;

verus! {

/// The lowercase hexadecimal digit of `d` (below 16).
pub open spec fn hex_digit(d: nat) -> char {
    if d < 10 {
        (48 + d) as char
    } else {
        (87 + d) as char
    }
}

/// Bytes in lowercase hexadecimal, two digits per byte, the high half first.
pub open spec fn hex_lower(bytes: Seq<u8>) -> Seq<char>
    decreases bytes.len(),
{
    if bytes.len() == 0 {
        Seq::empty()
    } else {
        hex_lower(bytes.drop_last()) + seq![
            hex_digit(bytes.last() as nat / 16),
            hex_digit(bytes.last() as nat % 16),
        ]
    }
}

/// `hex::encode`: the bytes in lowercase hexadecimal, two digits per byte, the high half
/// first (the crate's table `0123456789abcdef`).
#[verifier::external_body]
fn hex_encode(bytes: &[u8]) -> (res: String)
    ensures
        res@ == hex_lower(bytes@),
{
    hex::encode(bytes)
}

/// The text of the KSK under which a channel message is uploaded.
pub open spec fn message_ksk_text(upload_key: Seq<u8>) -> Seq<char> {
    "KSK@Mycelink_v1_channel_message_"@ + hex_lower(upload_key)
}

/// The text a channel's key for one direction is derived with.
pub open spec fn open_channel_text(public_key: Seq<u8>) -> Seq<char> {
    "Mycelink open-channel "@ + hex_lower(public_key)
}

/// The KSK under which the next channel message is uploaded, from the ratchet's current
/// upload key.
pub fn send_message_ksk(upload_key: &[u8]) -> (res: URI)
    ensures
        res@ == message_ksk_text(upload_key@),
{
    let mut text = String::new();
    push_str(&mut text, "KSK@Mycelink_v1_channel_message_");
    push_str(&mut text, hex_encode(upload_key).as_str());
    let uri = URI::try_from_str(text.as_str());
    uri.unwrap()
}

/// The text from which the key of the direction sent by the owner of `public_key` is
/// derived when a channel is opened.
pub fn open_channel_context(public_key: &[u8]) -> (res: String)
    ensures
        res@ == open_channel_text(public_key@),
{
    let mut text = String::new();
    push_str(&mut text, "Mycelink open-channel ");
    push_str(&mut text, hex_encode(public_key).as_str());
    text
}

} // verus!
