//! The `Key=Value` fields of an FCP message.

use vstd::prelude::*;
use vstd::std_specs::iter::IteratorSpec;

use crate::fcp::decode_error::DecodeError;
use crate::text::{contains_char, owned, push_str, split_once, split_once_char, str_equal};

verus! {

/// The line that ends a message without payload.
pub open spec fn end_message_text() -> Seq<char> {
    "EndMessage"@
}

/// The line after which the payload of a message follows.
pub open spec fn data_text() -> Seq<char> {
    "Data"@
}

/// The key of the field that gives the length of a payload.
pub open spec fn data_length_key() -> Seq<char> {
    "DataLength"@
}

/// The line ending a message without payload (`END_MESSAGE_LIT`).
pub fn end_message_lit() -> (res: &'static str)
    ensures
        res@ == end_message_text(),
{
    "EndMessage"
}

/// The line announcing a payload (`DATA_LIT`).
pub fn data_lit() -> (res: &'static str)
    ensures
        res@ == data_text(),
{
    "Data"
}

/// The key announcing the length of a payload.
pub fn data_length_lit() -> (res: &'static str)
    ensures
        res@ == data_length_key(),
{
    "DataLength"
}

/// A field is a key and a value.
#[derive(Debug)]
pub struct Field {
    key: String,
    value: String,
}

impl View for Field {
    type V = (Seq<char>, Seq<char>);

    closed spec fn view(&self) -> (Seq<char>, Seq<char>) {
        (self.key@, self.value@)
    }
}

/// Whether a line is a field: it contains `=`.
pub open spec fn spec_is_field(line: Seq<char>) -> bool {
    line.contains('=')
}

/// The field a line encodes: the text before the first `=` is the key, the rest the value.
pub open spec fn spec_parse_field(line: Seq<char>) -> Option<(Seq<char>, Seq<char>)> {
    split_once(line, '=')
}

impl Field {
    pub fn new(key: String, value: String) -> (res: Field)
        ensures
            res@ == (key@, value@),
    {
        Field { key, value }
    }

    pub fn key(&self) -> (res: &str)
        ensures
            res@ == self@.0,
    {
        self.key.as_str()
    }

    pub fn value(&self) -> (res: &str)
        ensures
            res@ == self@.1,
    {
        self.value.as_str()
    }

    pub fn is_field(line: &str) -> (res: bool)
        ensures
            res == spec_is_field(line@),
    {
        contains_char(line, '=')
    }

    /// Reads a field from its line (`TryFrom<&str>`).
    pub fn try_from_line(encoded: &str) -> (res: Result<Field, DecodeError>)
        ensures
            match spec_parse_field(encoded@) {
                Some(kv) => res matches Ok(f) && f@ == kv,
                None => res matches Err(DecodeError::ParseError(msg)) && msg@ == "'"@ + encoded@
                    + "' cannot be parsed as field as it contains no '='"@,
            },
    {
        match split_once_char(encoded, '=') {
            Some((key, value)) => Ok(Field { key, value }),
            None => {
                let mut msg = String::new();
                push_str(&mut msg, "'");
                push_str(&mut msg, encoded);
                push_str(&mut msg, "' cannot be parsed as field as it contains no '='");
                Err(DecodeError::ParseError(msg))
            },
        }
    }

    /// A copy of this field.
    pub fn duplicate(&self) -> (res: Field)
        ensures
            res@ == self@,
    {
        Field { key: self.key.clone(), value: self.value.clone() }
    }
}

/// The index of the first field whose key is `key`.
pub open spec fn first_with_key(fs: Seq<(Seq<char>, Seq<char>)>, key: Seq<char>) -> Option<int> {
    if exists|i: int| 0 <= i < fs.len() && fs[i].0 == key {
        Some(
            choose|i: int|
                0 <= i < fs.len() && fs[i].0 == key && forall|j: int| 0 <= j < i ==> fs[j].0 != key,
        )
    } else {
        None
    }
}

/// How many fields carry the key `key`.
pub open spec fn count_with_key(fs: Seq<(Seq<char>, Seq<char>)>, key: Seq<char>) -> nat
    decreases fs.len(),
{
    if fs.len() == 0 {
        0
    } else {
        count_with_key(fs.drop_last(), key) + if fs.last().0 == key {
            1nat
        } else {
            0nat
        }
    }
}

pub proof fn lemma_first_with_key(fs: Seq<(Seq<char>, Seq<char>)>, key: Seq<char>)
    ensures
        first_with_key(fs, key) matches Some(i) ==> {
            &&& 0 <= i < fs.len()
            &&& fs[i].0 == key
            &&& forall|j: int| 0 <= j < i ==> fs[j].0 != key
        },
        first_with_key(fs, key) is None ==> forall|j: int| 0 <= j < fs.len() ==> fs[j].0 != key,
{
    if exists|i: int| 0 <= i < fs.len() && fs[i].0 == key {
        let w = choose|i: int| 0 <= i < fs.len() && fs[i].0 == key;
        lemma_least_with_key(fs, key, w);
    }
}

proof fn lemma_least_with_key(fs: Seq<(Seq<char>, Seq<char>)>, key: Seq<char>, w: int)
    requires
        0 <= w < fs.len(),
        fs[w].0 == key,
    ensures
        exists|i: int|
            0 <= i < fs.len() && fs[i].0 == key && forall|j: int| 0 <= j < i ==> fs[j].0 != key,
    decreases w,
{
    if exists|j: int| 0 <= j < w && fs[j].0 == key {
        let j = choose|j: int| 0 <= j < w && fs[j].0 == key;
        lemma_least_with_key(fs, key, j);
    } else {
        assert(0 <= w < fs.len() && fs[w].0 == key && forall|j: int| 0 <= j < w ==> fs[j].0 != key);
    }
}

pub proof fn lemma_first_with_key_is(fs: Seq<(Seq<char>, Seq<char>)>, key: Seq<char>, i: int)
    requires
        0 <= i < fs.len(),
        fs[i].0 == key,
        forall|j: int| 0 <= j < i ==> fs[j].0 != key,
    ensures
        first_with_key(fs, key) == Some(i),
{
    lemma_first_with_key(fs, key);
    let k = first_with_key(fs, key)->0;
    if k < i {
        assert(fs[k].0 != key);
    } else if k > i {
        assert(fs[i].0 != key);
    }
}

/// The values of a sequence of fields.
pub open spec fn field_views(fs: Seq<Field>) -> Seq<(Seq<char>, Seq<char>)> {
    fs.map_values(|f: Field| f@)
}

/// Appends the field `key=value`.
pub fn push_field(fields: &mut Vec<Field>, key: &str, value: String)
    ensures
        field_views(final(fields)@) == field_views(old(fields)@).push((key@, value@)),
{
    fields.push(Field { key: owned(key), value });
    assert(field_views(fields@) =~= field_views(old(fields)@).push((key@, value@)));
}

/// The field `key=value` where there is a value, and no field where there is none.
pub open spec fn optional_field(key: Seq<char>, value: Option<Seq<char>>) -> Seq<(Seq<char>, Seq<char>)> {
    match value {
        Some(v) => seq![(key, v)],
        None => Seq::empty(),
    }
}

/// The value of the first field keyed `key`, or the error for its absence.
pub open spec fn field_value(fs: Seq<(Seq<char>, Seq<char>)>, key: Seq<char>) -> Result<Seq<char>, crate::fcp::decode_error::DecodeErrorView> {
    match first_with_key(fs, key) {
        Some(i) => Ok(fs[i].1),
        None => Err(crate::fcp::decode_error::DecodeErrorView::MissingField(key)),
    }
}

/// The fields of a message, in order.
#[derive(Debug)]
pub struct Fields {
    fields: Vec<Field>,
}

impl View for Fields {
    type V = Seq<(Seq<char>, Seq<char>)>;

    closed spec fn view(&self) -> Seq<(Seq<char>, Seq<char>)> {
        field_views(self.fields@)
    }
}

impl Fields {
    /// Fields holding `fields` in order (`From<Vec<Field>>`).
    pub fn from_vec(fields: Vec<Field>) -> (res: Fields)
        ensures
            res@ == field_views(fields@),
    {
        Fields { fields }
    }

    /// The number of fields.
    pub fn len(&self) -> (res: usize)
        ensures
            res == self@.len(),
    {
        self.fields.len()
    }

    /// The field at `index`.
    pub fn at(&self, index: usize) -> (res: &Field)
        requires
            index < self@.len(),
        ensures
            res@ == self@[index as int],
    {
        &self.fields[index]
    }

    /// Iterates over the fields in order.
    pub fn iter(&self) -> (res: std::slice::Iter<'_, Field>)
        ensures
            res.remaining().map_values(|f: &Field| f@) == self@,
    {
        broadcast use vstd::std_specs::slice::axiom_spec_slice_iter;

        let it = self.fields.iter();
        assert(it.remaining().map_values(|f: &Field| f@) =~= self@);
        it
    }

    /// The first field whose key is `key`.
    pub fn get(&self, key: &str) -> (res: Result<&Field, DecodeError>)
        ensures
            match first_with_key(self@, key@) {
                Some(i) => res matches Ok(f) && f@ == self@[i] && f@.0 == key@,
                None => res matches Err(DecodeError::MissingField(k)) && k@ == key@,
            },
    {
        let mut i: usize = 0;
        while i < self.fields.len()
            invariant
                i <= self.fields.len(),
                forall|j: int| 0 <= j < i ==> self@[j].0 != key@,
            decreases self.fields.len() - i,
        {
            if str_equal(self.fields[i].key.as_str(), key) {
                proof {
                    lemma_first_with_key_is(self@, key@, i as int);
                }
                return Ok(&self.fields[i]);
            }
            i = i + 1;
        }
        proof {
            lemma_first_with_key(self@, key@);
        }
        Err(DecodeError::MissingField(owned(key)))
    }

    /// The value of the first field keyed `key`.
    pub fn get_value(&self, key: &str) -> (res: Result<&str, DecodeError>)
        ensures
            match field_value(self@, key@) {
                Ok(v) => res matches Ok(r) && r@ == v,
                Err(e) => res matches Err(err) && err@ == e,
            },
    {
        match self.get(key) {
            Ok(f) => Ok(f.value()),
            Err(e) => Err(e),
        }
    }

    /// The field that announces the payload's length: the one field keyed `DataLength`.
    pub fn get_payload_size_hint(&self) -> (res: Result<&Field, DecodeError>)
        requires
            count_with_key(self@, data_length_key()) <= 1,
        ensures
            match first_with_key(self@, data_length_key()) {
                Some(i) => res matches Ok(f) && f@ == self@[i],
                None => res matches Err(DecodeError::MissingField(k)) && k@ == "PAYLOAD LENGTH HINT"@,
            },
    {
        match self.get(data_length_lit()) {
            Ok(f) => Ok(f),
            Err(_) => Err(DecodeError::MissingField(owned("PAYLOAD LENGTH HINT"))),
        }
    }

    /// How many fields are keyed `DataLength`, up to two.
    pub fn count_payload_size_hints(&self) -> (res: usize)
        ensures
            res == if count_with_key(self@, data_length_key()) <= 2 {
                count_with_key(self@, data_length_key())
            } else {
                2
            },
    {
        let key = data_length_lit();
        let mut n: usize = 0;
        let mut i: usize = 0;
        while i < self.fields.len()
            invariant
                i <= self.fields.len(),
                key@ == data_length_key(),
                n == if count_with_key(self@.take(i as int), key@) <= 2 {
                    count_with_key(self@.take(i as int), key@)
                } else {
                    2
                },
            decreases self.fields.len() - i,
        {
            assert(self@.take(i + 1).drop_last() =~= self@.take(i as int));
            if str_equal(self.fields[i].key.as_str(), key) && n < 2 {
                n = n + 1;
            }
            i = i + 1;
        }
        assert(self@.take(i as int) =~= self@);
        n
    }
}

} // verus!
