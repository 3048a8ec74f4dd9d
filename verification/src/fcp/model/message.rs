//! An FCP message and its encoding on the wire.

use vstd::prelude::*;
use vstd::utf8::encode_utf8;

use crate::fcp::model::fields::{data_lit, data_text, end_message_lit, end_message_text, Fields};
use crate::fcp::model::message_type_identifier::MessageType;
use crate::text::{decimal, push_char, push_decimal, push_str};

verus! {

/// The mathematical value of a payload: its bytes and the key of the field announcing its length.
pub struct PayloadView {
    pub data: Seq<u8>,
    pub data_len_identifier: Seq<char>,
}

/// The mathematical value of a message.
pub struct MessageView {
    pub message_type: MessageType,
    pub fields: Seq<(Seq<char>, Seq<char>)>,
    pub payload: Option<PayloadView>,
}

/// The bytes that follow the header of a message, and the key announcing their length.
#[derive(Debug)]
pub struct MessagePayload {
    pub data: Vec<u8>,
    pub data_len_identifier: String,
}

impl View for MessagePayload {
    type V = PayloadView;

    open spec fn view(&self) -> PayloadView {
        PayloadView { data: self.data@, data_len_identifier: self.data_len_identifier@ }
    }
}

/// An FCP message: a type, fields, and perhaps a payload.
#[derive(Debug)]
pub struct Message {
    message_type: MessageType,
    fields: Fields,
    payload: Option<MessagePayload>,
}

impl View for Message {
    type V = MessageView;

    closed spec fn view(&self) -> MessageView {
        MessageView {
            message_type: self.message_type,
            fields: self.fields@,
            payload: match self.payload {
                Some(p) => Some(p@),
                None => None,
            },
        }
    }
}

/// The line of a field: `key=value` and a line break.
pub open spec fn field_line(f: (Seq<char>, Seq<char>)) -> Seq<char> {
    f.0 + seq!['='] + f.1 + seq!['\n']
}

/// The lines of all fields, in order.
pub open spec fn fields_text(fs: Seq<(Seq<char>, Seq<char>)>) -> Seq<char>
    decreases fs.len(),
{
    if fs.len() == 0 {
        Seq::empty()
    } else {
        fields_text(fs.drop_last()) + field_line(fs.last())
    }
}

/// The text that ends a message: `EndMessage` and a line break without payload; with payload
/// the length field and the line `Data`, after which the payload's bytes follow.
pub open spec fn trailer_text(payload: Option<PayloadView>) -> Seq<char> {
    match payload {
        None => end_message_text() + seq!['\n'],
        Some(p) => p.data_len_identifier + seq!['='] + decimal(p.data.len()) + seq!['\n']
            + data_text() + seq!['\n'],
    }
}

/// The text part of an encoded message: the type's name, the fields, the trailer.
pub open spec fn header_text(m: MessageView) -> Seq<char> {
    m.message_type.spec_name() + seq!['\n'] + fields_text(m.fields) + trailer_text(m.payload)
}

/// The bytes of an encoded message: the UTF-8 encoding of its text, then the payload.
pub open spec fn spec_encode(m: MessageView) -> Seq<u8> {
    encode_utf8(header_text(m)) + match m.payload {
        Some(p) => p.data,
        None => Seq::empty(),
    }
}

/// Values that are sent to the node as a message.
pub trait FCPEncodable: Sized {
    /// The message the value becomes.
    spec fn spec_message(&self) -> MessageView;

    /// The value as a message.
    fn to_message(self) -> (res: Message)
        ensures
            res@ == self.spec_message(),
    ;
}

impl Message {
    pub fn new(message_type: MessageType, fields: Fields, payload: Option<MessagePayload>) -> (res:
        Message)
        ensures
            res@.message_type == message_type,
            res@.fields == fields@,
            res@.payload == match payload {
                Some(p) => Some(p@),
                None => None::<PayloadView>,
            },
    {
        Message { message_type, fields, payload }
    }

    pub fn message_type(&self) -> (res: MessageType)
        ensures
            res == self@.message_type,
    {
        self.message_type
    }

    pub fn fields(&self) -> (res: &Fields)
        ensures
            res@ == self@.fields,
    {
        &self.fields
    }

    /// Takes the payload out of the message.
    pub fn payload(self) -> (res: Option<MessagePayload>)
        ensures
            match res {
                Some(p) => self@.payload == Some(p@),
                None => self@.payload is None,
            },
    {
        self.payload
    }

    /// The message as bytes on the wire.
    pub fn encode(&self) -> (res: Vec<u8>)
        ensures
            res@ == spec_encode(self@),
    {
        let mut builder = String::new();
        push_str(&mut builder, self.message_type.name());
        push_char(&mut builder, '\n');
        let ghost start = builder@;
        let fields = &self.fields;
        let n = fields.len();
        let mut i: usize = 0;
        while i < n
            invariant
                n == fields@.len(),
                i <= n,
                builder@ == start + fields_text(fields@.take(i as int)),
            decreases n - i,
        {
            let field = fields.at(i);
            push_str(&mut builder, field.key());
            push_char(&mut builder, '=');
            push_str(&mut builder, field.value());
            push_char(&mut builder, '\n');
            assert(fields@.take(i + 1).drop_last() =~= fields@.take(i as int));
            assert(builder@ =~= start + fields_text(fields@.take(i + 1)));
            i = i + 1;
        }
        assert(fields@.take(n as int) =~= fields@);
        match &self.payload {
            None => {
                push_str(&mut builder, end_message_lit());
                push_char(&mut builder, '\n');
            },
            Some(payload) => {
                push_str(&mut builder, payload.data_len_identifier.as_str());
                push_char(&mut builder, '=');
                push_decimal(&mut builder, payload.data.len() as u64);
                push_char(&mut builder, '\n');
                push_str(&mut builder, data_lit());
                push_char(&mut builder, '\n');
            },
        }
        assert(builder@ =~= header_text(self@));
        let text = builder.as_str().as_bytes();
        let mut buf: Vec<u8> = Vec::new();
        let mut j: usize = 0;
        while j < text.len()
            invariant
                j <= text@.len(),
                buf@ == text@.take(j as int),
            decreases text@.len() - j,
        {
            buf.push(text[j]);
            assert(text@.take(j + 1) =~= text@.take(j as int).push(text@[j as int]));
            j = j + 1;
        }
        assert(text@.take(j as int) =~= text@);
        let ghost header_bytes = buf@;
        match &self.payload {
            None => {
                assert(buf@ =~= spec_encode(self@));
            },
            Some(payload) => {
                let mut k: usize = 0;
                while k < payload.data.len()
                    invariant
                        k <= payload.data@.len(),
                        buf@ == header_bytes + payload.data@.take(k as int),
                    decreases payload.data@.len() - k,
                {
                    buf.push(payload.data[k]);
                    assert(payload.data@.take(k + 1) =~= payload.data@.take(k as int).push(
                        payload.data@[k as int],
                    ));
                    k = k + 1;
                }
                assert(payload.data@.take(k as int) =~= payload.data@);
                assert(buf@ =~= spec_encode(self@));
            },
        }
        buf
    }
}

} // verus!
