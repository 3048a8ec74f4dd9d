//! Identifiers that tell the node's replies to one request apart from another's.
//!
//! An identifier is written `[Mycelink] <name> - <nonce>`, where the nonce is 32 random
//! bytes in standard base64 (44 characters).

use base64::Engine;
use vstd::prelude::*;
use vstd::utf8::{encode_utf8, is_ascii_chars, is_ascii_chars_encode_utf8};

use crate::fcp::decode_error::{DecodeError, DecodeErrorView};
use crate::text::{
    decimal, lemma_first_occurrence_is, occurs_at, push_decimal, push_str, split_once_at,
    split_once_str, starts_with, starts_with_str, string_of_range, to_chars,
};

verus! {

/// The characters of the standard base64 alphabet, and the padding `=`.
pub open spec fn is_base64_char(c: char) -> bool {
    ||| ('A' <= c && c <= 'Z')
    ||| ('a' <= c && c <= 'z')
    ||| ('0' <= c && c <= '9')
    ||| c == '+'
    ||| c == '/'
    ||| c == '='
}

/// The character of a six-bit value in the standard base64 alphabet `A-Z`, `a-z`,
/// `0-9`, `+`, `/`.
pub open spec fn base64_digit(v: nat) -> char {
    if v < 26 {
        (65 + v) as char
    } else if v < 52 {
        (71 + v) as char
    } else if v < 62 {
        (v - 4) as char
    } else if v == 62 {
        '+'
    } else {
        '/'
    }
}

/// Standard base64 with padding (RFC 4648): each group of three bytes becomes four
/// characters of six bits each, high bits first; a last group of one or two bytes is
/// padded with `=` to four characters.
pub open spec fn base64_standard(data: Seq<u8>) -> Seq<char>
    decreases data.len(),
{
    if data.len() == 0 {
        Seq::empty()
    } else if data.len() == 1 {
        seq![base64_digit(data[0] as nat / 4), base64_digit((data[0] as nat % 4) * 16), '=', '=']
    } else if data.len() == 2 {
        seq![
            base64_digit(data[0] as nat / 4),
            base64_digit((data[0] as nat % 4) * 16 + data[1] as nat / 16),
            base64_digit((data[1] as nat % 16) * 4),
            '=',
        ]
    } else {
        seq![
            base64_digit(data[0] as nat / 4),
            base64_digit((data[0] as nat % 4) * 16 + data[1] as nat / 16),
            base64_digit((data[1] as nat % 16) * 4 + data[2] as nat / 64),
            base64_digit(data[2] as nat % 64),
        ] + base64_standard(data.skip(3))
    }
}

/// Encodes bytes in standard base64 with padding: `STANDARD.encode` of the base64 crate
/// (the standard alphabet, with padding).
#[verifier::external_body]
fn base64_encode(data: &[u8]) -> (res: String)
    requires
        data@.len() <= usize::MAX / 2,
    ensures
        res@ == base64_standard(data@),
{
    base64::engine::general_purpose::STANDARD.encode(data)
}

/// Base64 text is four characters for each started group of three bytes, all of them of
/// the standard alphabet or `=`.
pub proof fn lemma_base64_shape(data: Seq<u8>)
    ensures
        base64_standard(data).len() == 4 * ((data.len() + 2) / 3),
        forall|i: int|
            0 <= i < base64_standard(data).len() ==> is_base64_char(#[trigger] base64_standard(data)[i]),
    decreases data.len(),
{
    if data.len() >= 3 {
        lemma_base64_shape(data.skip(3));
        let head = seq![
            base64_digit(data[0] as nat / 4),
            base64_digit((data[0] as nat % 4) * 16 + data[1] as nat / 16),
            base64_digit((data[1] as nat % 16) * 4 + data[2] as nat / 64),
            base64_digit(data[2] as nat % 64),
        ];
        let rest = base64_standard(data.skip(3));
        assert forall|i: int| 0 <= i < head.len() + rest.len() implies is_base64_char(#[trigger] (head + rest)[i]) by {
            if i >= 4 {
                assert((head + rest)[i] == rest[i - 4]);
            }
        }
    }
}

/// 32 random bytes: `rand::random::<[u8; 32]>()`. Nothing is stated of their values.
#[verifier::external_body]
fn random_nonce_bytes() -> (res: [u8; 32]) {
    rand::random::<[u8; 32]>()
}

/// The text an identifier begins with.
pub open spec fn prefix_text() -> Seq<char> {
    "[Mycelink] "@
}

/// The text between the name and the nonce.
pub open spec fn separator_text() -> Seq<char> {
    " - "@
}

/// The length in bytes of an encoded nonce.
pub open spec fn encoded_nonce_length() -> nat {
    44
}

/// The text of an identifier with the given name and nonce.
pub open spec fn identifier_text(name: Seq<char>, nonce: Seq<char>) -> Seq<char> {
    prefix_text() + name + separator_text() + nonce
}

/// What reading `value` as an identifier gives: its name and nonce, or the error.
pub open spec fn spec_parse_identifier(value: Seq<char>) -> Result<(Seq<char>, Seq<char>), DecodeErrorView> {
    if !starts_with(value, prefix_text()) {
        Err(DecodeErrorView::ParseError(value + " is not a Mycelink identifier"@))
    } else {
        match split_once_at(value.skip(prefix_text().len() as int), separator_text()) {
            None => Err(
                DecodeErrorView::ParseError(
                    value + " doesn't contain the separator for nonce and name (' - ')"@,
                ),
            ),
            Some((name, nonce)) => if encode_utf8(nonce).len() != encoded_nonce_length() {
                Err(
                    DecodeErrorView::ParseError(
                        "Expected encoded nonce to be 44 bytes long, but is instead "@ + decimal(
                            encode_utf8(nonce).len(),
                        ) + " bytes long.\n                Read '"@ + nonce
                            + "' as nonce from identifier '"@ + value + "'"@,
                    ),
                )
            } else {
                Ok((name, nonce))
            },
        }
    }
}

/// An identifier for a request: a name and a random nonce.
#[derive(Clone, Debug, Eq, PartialEq, Hash)]
pub struct UniqueIdentifier {
    name: String,
    nonce: String,
}

impl View for UniqueIdentifier {
    type V = (Seq<char>, Seq<char>);

    closed spec fn view(&self) -> (Seq<char>, Seq<char>) {
        (self.name@, self.nonce@)
    }
}

impl UniqueIdentifier {
    /// The identifier's text.
    pub open spec fn spec_text(&self) -> Seq<char> {
        identifier_text(self@.0, self@.1)
    }

    /// A new identifier with the given name and a fresh nonce of 32 random bytes.
    pub fn new(name: String) -> (res: UniqueIdentifier)
        ensures
            res@.0 == name@,
            exists|bytes: Seq<u8>| bytes.len() == 32 && res@.1 == base64_standard(bytes),
            res@.1.len() == encoded_nonce_length(),
            forall|i: int| 0 <= i < res@.1.len() ==> is_base64_char(#[trigger] res@.1[i]),
    {
        UniqueIdentifier::from_nonce_bytes(name, random_nonce_bytes())
    }

    /// The identifier with the given name whose nonce is the base64 text of `bytes`.
    pub fn from_nonce_bytes(name: String, bytes: [u8; 32]) -> (res: UniqueIdentifier)
        ensures
            res@.0 == name@,
            res@.1 == base64_standard(bytes@),
            res@.1.len() == encoded_nonce_length(),
            forall|i: int| 0 <= i < res@.1.len() ==> is_base64_char(#[trigger] res@.1[i]),
    {
        let nonce = base64_encode(&bytes);
        proof {
            lemma_base64_shape(bytes@);
        }
        UniqueIdentifier { name, nonce }
    }

    /// The identifier's text (`From<&UniqueIdentifier> for Box<str>`, and `Display`).
    pub fn to_text(&self) -> (res: String)
        ensures
            res@ == identifier_text(self@.0, self@.1),
    {
        let mut builder = String::new();
        push_str(&mut builder, "[Mycelink] ");
        push_str(&mut builder, self.name.as_str());
        push_str(&mut builder, " - ");
        push_str(&mut builder, self.nonce.as_str());
        builder
    }

    /// A copy of this identifier.
    pub fn duplicate(&self) -> (res: UniqueIdentifier)
        ensures
            res@ == self@,
    {
        UniqueIdentifier { name: self.name.clone(), nonce: self.nonce.clone() }
    }

    /// Whether two identifiers are the same.
    pub fn same_as(&self, other: &UniqueIdentifier) -> (res: bool)
        ensures
            res == (self@ == other@),
    {
        let a = self.name == other.name;
        let b = self.nonce == other.nonce;
        a && b
    }

    /// Reads an identifier from its text (`TryFrom<&str>`, `FromStr`).
    pub fn try_from_str(value: &str) -> (res: Result<UniqueIdentifier, DecodeError>)
        ensures
            match spec_parse_identifier(value@) {
                Ok((name, nonce)) => res matches Ok(id) && id@ == (name, nonce),
                Err(e) => res matches Err(err) && err@ == e,
            },
    {
        proof {
            reveal_strlit("[Mycelink] ");
        }
        if !starts_with_str(value, "[Mycelink] ") {
            let mut msg = String::new();
            push_str(&mut msg, value);
            push_str(&mut msg, " is not a Mycelink identifier");
            return Err(DecodeError::ParseError(msg));
        }
        let cs = to_chars(value);
        let identifier = string_of_range(&cs, 11, cs.len());
        assert(identifier@ =~= value@.skip(prefix_text().len() as int));
        match split_once_str(identifier.as_str(), " - ") {
            None => {
                let mut msg = String::new();
                push_str(&mut msg, value);
                push_str(&mut msg, " doesn't contain the separator for nonce and name (' - ')");
                Err(DecodeError::ParseError(msg))
            },
            Some((name, nonce)) => {
                let nonce_len = nonce.as_str().as_bytes().len();
                if nonce_len != 44 {
                    let mut msg = String::new();
                    push_str(&mut msg, "Expected encoded nonce to be 44 bytes long, but is instead ");
                    push_decimal(&mut msg, nonce_len as u64);
                    push_str(&mut msg, " bytes long.\n                Read '");
                    push_str(&mut msg, nonce.as_str());
                    push_str(&mut msg, "' as nonce from identifier '");
                    push_str(&mut msg, value);
                    push_str(&mut msg, "'");
                    Err(DecodeError::ParseError(msg))
                } else {
                    Ok(UniqueIdentifier { name, nonce })
                }
            },
        }
    }
}

/// No separator starts inside `name`, so that the first separator of an identifier's text
/// is the one after the name.
pub open spec fn separator_free(name: Seq<char>) -> bool {
    forall|i: int| 0 <= i < name.len() ==> !occurs_at(name + separator_text(), separator_text(), i)
}

/// Reading the text of an identifier gives the identifier back, when no separator starts
/// inside its name and its nonce is 44 bytes long.
pub proof fn lemma_identifier_text_roundtrip(name: Seq<char>, nonce: Seq<char>)
    requires
        separator_free(name),
        encode_utf8(nonce).len() == encoded_nonce_length(),
    ensures
        spec_parse_identifier(identifier_text(name, nonce)) == Ok::<
            (Seq<char>, Seq<char>),
            DecodeErrorView,
        >((name, nonce)),
{
    reveal_strlit("[Mycelink] ");
    reveal_strlit(" - ");
    let text = identifier_text(name, nonce);
    let p = prefix_text();
    let sep = separator_text();
    assert(text.take(p.len() as int) =~= p);
    let rest = text.skip(p.len() as int);
    assert(rest =~= name + sep + nonce);
    assert(occurs_at(rest, sep, name.len() as int)) by {
        assert(rest.subrange(name.len() as int, name.len() as int + 3) =~= sep);
    }
    assert forall|j: int| 0 <= j < name.len() implies !occurs_at(rest, sep, j) by {
        assert(!occurs_at(name + sep, sep, j));
        if occurs_at(rest, sep, j) {
            assert((name + sep).subrange(j, j + 3) =~= rest.subrange(j, j + 3));
        }
    }
    lemma_first_occurrence_is(rest, sep, name.len() as int);
    assert(rest.take(name.len() as int) =~= name);
    assert(rest.skip(name.len() as int + sep.len() as int) =~= nonce);
}

/// A fresh identifier is read back from its text, when no separator starts inside its name.
pub proof fn lemma_new_identifier_roundtrip(id: (Seq<char>, Seq<char>))
    requires
        separator_free(id.0),
        id.1.len() == encoded_nonce_length(),
        forall|i: int| 0 <= i < id.1.len() ==> is_base64_char(#[trigger] id.1[i]),
    ensures
        spec_parse_identifier(identifier_text(id.0, id.1)) == Ok::<
            (Seq<char>, Seq<char>),
            DecodeErrorView,
        >(id),
{
    assert(is_ascii_chars(id.1)) by {
        assert forall|i: int| 0 <= i < id.1.len() implies '\0' <= #[trigger] id.1[i] <= '\u{7f}' by {
            assert(is_base64_char(id.1[i]));
        }
    }
    is_ascii_chars_encode_utf8(id.1);
    lemma_identifier_text_roundtrip(id.0, id.1);
}

} // verus!
