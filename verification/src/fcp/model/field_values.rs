//! Typed values read from the fields of a message.
//!
//! Each reader looks up the first field with the given key and reads its value; a
//! missing field gives `MissingField` with the key, a value that cannot be read gives
//! the error of the type read.

use vstd::prelude::*;

use crate::fcp::decode_error::{bool_error_text, int_error_text, DecodeError, DecodeErrorView};
use crate::fcp::model::content_type::{mime_error_text, mime_parse, ContentType};
use crate::fcp::model::fields::{field_value, first_with_key, Fields};
use crate::fcp::model::unique_identifier::{spec_parse_identifier, UniqueIdentifier};
use crate::fcp::model::uri::URI;
use crate::text::{owned, parse_bool, parse_bool_str, parse_unsigned, parse_unsigned_str};

verus! {

/// The value of the field `key` read as an unsigned integer no larger than `max`.
pub open spec fn field_unsigned(fs: Seq<(Seq<char>, Seq<char>)>, key: Seq<char>, max: nat) -> Result<nat, DecodeErrorView> {
    match field_value(fs, key) {
        Err(e) => Err(e),
        Ok(v) => match parse_unsigned(v, max) {
            Ok(n) => Ok(n),
            Err(k) => Err(DecodeErrorView::ParseError(int_error_text(k))),
        },
    }
}

/// The value of the field `key` read as a boolean.
pub open spec fn field_bool(fs: Seq<(Seq<char>, Seq<char>)>, key: Seq<char>) -> Result<bool, DecodeErrorView> {
    match field_value(fs, key) {
        Err(e) => Err(e),
        Ok(v) => match parse_bool(v) {
            Some(b) => Ok(b),
            None => Err(DecodeErrorView::ParseError(bool_error_text())),
        },
    }
}

/// The value of the field `key` read as a request identifier: its name and nonce.
pub open spec fn field_identifier(fs: Seq<(Seq<char>, Seq<char>)>, key: Seq<char>) -> Result<(Seq<char>, Seq<char>), DecodeErrorView> {
    match field_value(fs, key) {
        Err(e) => Err(e),
        Ok(v) => spec_parse_identifier(v),
    }
}

/// What reading `v` as a media type gives.
pub open spec fn content_type_of(v: Seq<char>) -> Result<Seq<char>, DecodeErrorView> {
    match mime_parse(v) {
        Ok(c) => Ok(c),
        Err(e) => Err(DecodeErrorView::ParseError(mime_error_text(v, e))),
    }
}

/// The value of the field `key` read as a media type.
pub open spec fn field_content_type(fs: Seq<(Seq<char>, Seq<char>)>, key: Seq<char>) -> Result<Seq<char>, DecodeErrorView> {
    match field_value(fs, key) {
        Err(e) => Err(e),
        Ok(v) => content_type_of(v),
    }
}

/// The value of the field `key`, where there is such a field.
pub open spec fn optional_value(fs: Seq<(Seq<char>, Seq<char>)>, key: Seq<char>) -> Option<Seq<char>> {
    match first_with_key(fs, key) {
        Some(i) => Some(fs[i].1),
        None => None,
    }
}

/// The value of the field `key` read as an unsigned integer no larger than `max`, where
/// there is such a field.
pub open spec fn optional_unsigned(fs: Seq<(Seq<char>, Seq<char>)>, key: Seq<char>, max: nat) -> Result<Option<nat>, DecodeErrorView> {
    match optional_value(fs, key) {
        None => Ok(None),
        Some(v) => match parse_unsigned(v, max) {
            Ok(n) => Ok(Some(n)),
            Err(k) => Err(DecodeErrorView::ParseError(int_error_text(k))),
        },
    }
}

/// The value of the field `key` read as a media type, where there is such a field.
pub open spec fn optional_content_type(fs: Seq<(Seq<char>, Seq<char>)>, key: Seq<char>) -> Result<Option<Seq<char>>, DecodeErrorView> {
    match optional_value(fs, key) {
        None => Ok(None),
        Some(v) => match content_type_of(v) {
            Ok(c) => Ok(Some(c)),
            Err(e) => Err(e),
        },
    }
}

/// The value of the field `key` read as a boolean, where there is such a field and it
/// reads as one.
pub open spec fn optional_bool(fs: Seq<(Seq<char>, Seq<char>)>, key: Seq<char>) -> Option<bool> {
    match optional_value(fs, key) {
        None => None,
        Some(v) => parse_bool(v),
    }
}

/// The value of the field `key` as an owned text.
pub fn read_text(fields: &Fields, key: &str) -> (res: Result<String, DecodeError>)
    ensures
        match field_value(fields@, key@) {
            Ok(v) => res matches Ok(s) && s@ == v,
            Err(e) => res matches Err(err) && err@ == e,
        },
{
    match fields.get_value(key) {
        Ok(v) => Ok(owned(v)),
        Err(e) => Err(e),
    }
}

/// The value of the field `key` read as an unsigned integer no larger than `max`.
pub fn read_unsigned(fields: &Fields, key: &str, max: u64) -> (res: Result<u64, DecodeError>)
    ensures
        match field_unsigned(fields@, key@, max as nat) {
            Ok(n) => res matches Ok(r) && r as nat == n,
            Err(e) => res matches Err(err) && err@ == e,
        },
        res matches Ok(r) ==> r <= max,
{
    match fields.get_value(key) {
        Err(e) => Err(e),
        Ok(v) => match parse_unsigned_str(v, max) {
            Ok(n) => Ok(n),
            Err(k) => Err(DecodeError::from_int_error(k)),
        },
    }
}

/// The value of the field `key` read as a boolean.
pub fn read_bool(fields: &Fields, key: &str) -> (res: Result<bool, DecodeError>)
    ensures
        match field_bool(fields@, key@) {
            Ok(b) => res matches Ok(r) && r == b,
            Err(e) => res matches Err(err) && err@ == e,
        },
{
    match fields.get_value(key) {
        Err(e) => Err(e),
        Ok(v) => match parse_bool_str(v) {
            Some(b) => Ok(b),
            None => Err(DecodeError::from_bool_error()),
        },
    }
}

/// The value of the field `key` read as a request identifier.
pub fn read_identifier(fields: &Fields, key: &str) -> (res: Result<UniqueIdentifier, DecodeError>)
    ensures
        match field_identifier(fields@, key@) {
            Ok(id) => res matches Ok(r) && r@ == id,
            Err(e) => res matches Err(err) && err@ == e,
        },
{
    match fields.get_value(key) {
        Err(e) => Err(e),
        Ok(v) => UniqueIdentifier::try_from_str(v),
    }
}

/// The value of the field `key` read as a media type.
pub fn read_content_type(fields: &Fields, key: &str) -> (res: Result<ContentType, DecodeError>)
    ensures
        match field_content_type(fields@, key@) {
            Ok(c) => res matches Ok(r) && r@ == c,
            Err(e) => res matches Err(err) && err@ == e,
        },
{
    match fields.get_value(key) {
        Err(e) => Err(e),
        Ok(v) => ContentType::from_str(v),
    }
}

/// The value of the field `key` read as a URI; every text is one.
pub fn read_uri(fields: &Fields, key: &str) -> (res: Result<URI, DecodeError>)
    ensures
        match field_value(fields@, key@) {
            Ok(v) => res matches Ok(r) && r@ == v,
            Err(e) => res matches Err(err) && err@ == e,
        },
{
    match fields.get_value(key) {
        Err(e) => Err(e),
        Ok(v) => URI::try_from_str(v),
    }
}

/// The value of the field `key`, where there is such a field.
pub fn read_optional_text(fields: &Fields, key: &str) -> (res: Option<String>)
    ensures
        match optional_value(fields@, key@) {
            Some(v) => res matches Some(s) && s@ == v,
            None => res is None,
        },
{
    match fields.get_value(key) {
        Ok(v) => Some(owned(v)),
        Err(_) => None,
    }
}

/// The value of the field `key` read as an unsigned integer no larger than `max`, where
/// there is such a field.
pub fn read_optional_unsigned(fields: &Fields, key: &str, max: u64) -> (res: Result<Option<u64>, DecodeError>)
    ensures
        match optional_unsigned(fields@, key@, max as nat) {
            Ok(Some(n)) => res matches Ok(Some(r)) && r as nat == n,
            Ok(None) => res matches Ok(None),
            Err(e) => res matches Err(err) && err@ == e,
        },
        res matches Ok(Some(r)) ==> r <= max,
{
    match fields.get_value(key) {
        Err(_) => Ok(None),
        Ok(v) => match parse_unsigned_str(v, max) {
            Ok(n) => Ok(Some(n)),
            Err(k) => Err(DecodeError::from_int_error(k)),
        },
    }
}

/// The value of the field `key` read as a media type, where there is such a field.
pub fn read_optional_content_type(fields: &Fields, key: &str) -> (res: Result<Option<ContentType>, DecodeError>)
    ensures
        match optional_content_type(fields@, key@) {
            Ok(Some(c)) => res matches Ok(Some(r)) && r@ == c,
            Ok(None) => res matches Ok(None),
            Err(e) => res matches Err(err) && err@ == e,
        },
{
    match fields.get_value(key) {
        Err(_) => Ok(None),
        Ok(v) => match ContentType::from_str(v) {
            Ok(c) => Ok(Some(c)),
            Err(e) => Err(e),
        },
    }
}

/// The value of the field `key` read as a boolean, where there is such a field and it
/// reads as one.
pub fn read_optional_bool(fields: &Fields, key: &str) -> (res: Option<bool>)
    ensures
        res == optional_bool(fields@, key@),
{
    match fields.get_value(key) {
        Err(_) => None,
        Ok(v) => parse_bool_str(v),
    }
}

} // verus!
