//! Decoding FCP messages line by line.
//!
//! A message is read from a stream of lines: the first line that is not blank names
//! the message type; the following non-blank lines that contain `=` are fields; then
//! `EndMessage` ends the message, or `Data` announces a payload whose length the field
//! `DataLength` gives. [`MessageDecoder`] makes these decisions one line at a time, so
//! that the caller can do the reading: it asks for lines and, at the end, for the
//! payload's bytes.

use vstd::prelude::*;

use crate::fcp::decode_error::{int_error_text, DecodeError, DecodeErrorView};
use crate::fcp::model::fields::{
    count_with_key, data_length_key, data_length_lit, data_lit, data_text, end_message_lit,
    end_message_text, field_views, first_with_key, lemma_first_with_key, lemma_first_with_key_is,
    spec_is_field, spec_parse_field, Field, Fields,
};
use crate::fcp::model::message::{Message, MessagePayload, MessageView, PayloadView};
use crate::fcp::model::message_type_identifier::{
    lemma_try_from_name_result, spec_type_named, MessageType,
};
use crate::text::{
    is_blank, lemma_first_index_of, line_is_blank, owned, parse_unsigned, parse_unsigned_str,
    push_str, str_equal,
};

verus! {

/// What a sequence of lines decodes to.
pub enum DecodeOutcome {
    /// The lines so far start a message but do not finish it.
    Pending,
    /// The header is complete and announces a payload of `length` bytes.
    AwaitingPayload {
        message_type: MessageType,
        fields: Seq<(Seq<char>, Seq<char>)>,
        length: nat,
    },
    /// A message without payload is complete.
    Done(MessageView),
    /// The lines are not a message.
    Failed(DecodeErrorView),
}

/// The lines that are not blank, in order.
pub open spec fn contentful(lines: Seq<Seq<char>>) -> Seq<Seq<char>>
    decreases lines.len(),
{
    if lines.len() == 0 {
        Seq::empty()
    } else if is_blank(lines.last()) {
        contentful(lines.drop_last())
    } else {
        contentful(lines.drop_last()).push(lines.last())
    }
}

/// The error text for a line that is neither a field nor ends the fields.
pub open spec fn not_a_field_text(line: Seq<char>) -> Seq<char> {
    "'"@ + line + "' neither indicates the end of a Fields nor is a field itself."@
}

/// The outcome of a `Data` line after the fields `fields`.
pub open spec fn payload_outcome(
    message_type: MessageType,
    fields: Seq<(Seq<char>, Seq<char>)>,
) -> DecodeOutcome {
    match first_with_key(fields, data_length_key()) {
        None => DecodeOutcome::Failed(DecodeErrorView::MissingField("PAYLOAD LENGTH HINT"@)),
        Some(i) => match parse_unsigned(fields[i].1, usize::MAX as nat) {
            Ok(n) => DecodeOutcome::AwaitingPayload { message_type, fields, length: n },
            Err(k) => DecodeOutcome::Failed(DecodeErrorView::ParseError(int_error_text(k))),
        },
    }
}

/// Decodes the non-blank lines `rest` that follow the type line and the fields `acc`.
pub open spec fn decode_fields(
    message_type: MessageType,
    rest: Seq<Seq<char>>,
    acc: Seq<(Seq<char>, Seq<char>)>,
) -> DecodeOutcome
    decreases rest.len(),
{
    if rest.len() == 0 {
        DecodeOutcome::Pending
    } else if spec_is_field(rest[0]) {
        decode_fields(message_type, rest.drop_first(), acc.push(spec_parse_field(rest[0])->0))
    } else if rest[0] == end_message_text() {
        DecodeOutcome::Done(MessageView { message_type, fields: acc, payload: None })
    } else if rest[0] == data_text() {
        payload_outcome(message_type, acc)
    } else {
        DecodeOutcome::Failed(DecodeErrorView::ParseError(not_a_field_text(rest[0])))
    }
}

/// Decodes non-blank lines: a type line, then fields, then the end.
pub open spec fn decode_lines(cl: Seq<Seq<char>>) -> DecodeOutcome {
    if cl.len() == 0 {
        DecodeOutcome::Pending
    } else {
        match spec_type_named(cl[0]) {
            None => DecodeOutcome::Failed(DecodeErrorView::UnknownMessageType { got: cl[0] }),
            Some(t) => decode_fields(t, cl.drop_first(), Seq::empty()),
        }
    }
}

/// What the lines `lines` decode to; `at_end` says that the input ends after them.
pub open spec fn spec_decode(lines: Seq<Seq<char>>, at_end: bool) -> DecodeOutcome {
    let o = decode_lines(contentful(lines));
    if at_end && o is Pending {
        DecodeOutcome::Failed(DecodeErrorView::UnexpectedEOF)
    } else {
        o
    }
}

/// What the decoder asks of its caller, or hands back.
pub enum DecodeStep {
    /// Hand over the next line (`None` at the end of the input).
    NeedLine,
    /// Hand over the next `length` bytes of the input.
    NeedPayload { length: usize },
    /// A message without payload was decoded.
    Complete(Message),
    /// The input is not a message.
    Failed(DecodeError),
}

enum Stage {
    Reading,
    AwaitingPayload { length: usize },
    Finished,
}

/// Decodes one message from lines handed to it one at a time.
pub struct MessageDecoder {
    message_type: Option<MessageType>,
    fields: Vec<Field>,
    stage: Stage,
    lines: Ghost<Seq<Seq<char>>>,
}

/// The index of the first field keyed `key`.
fn find_key(fields: &Vec<Field>, key: &str) -> (res: Option<usize>)
    ensures
        res matches Some(i) ==> i < fields.len() && first_with_key(field_views(fields@), key@)
            == Some(i as int),
        res is None ==> first_with_key(field_views(fields@), key@) is None,
{
    let ghost fs = field_views(fields@);
    let mut i: usize = 0;
    while i < fields.len()
        invariant
            i <= fields.len(),
            fs == field_views(fields@),
            forall|j: int| 0 <= j < i ==> fs[j].0 != key@,
        decreases fields.len() - i,
    {
        if str_equal(fields[i].key(), key) {
            proof {
                lemma_first_with_key_is(fs, key@, i as int);
            }
            return Some(i);
        }
        i = i + 1;
    }
    proof {
        lemma_first_with_key(fs, key@);
    }
    None
}

impl MessageDecoder {
    /// The lines handed over so far, blank ones included.
    pub closed spec fn fed(&self) -> Seq<Seq<char>> {
        self.lines@
    }

    /// The fields read so far.
    pub closed spec fn spec_fields(&self) -> Seq<(Seq<char>, Seq<char>)> {
        field_views(self.fields@)
    }

    /// Whether the decoder waits for a line.
    pub closed spec fn is_reading(&self) -> bool {
        self.stage is Reading
    }

    /// The length of the payload the decoder waits for, if it waits for one.
    pub closed spec fn awaited_payload(&self) -> Option<nat> {
        match self.stage {
            Stage::AwaitingPayload { length } => Some(length as nat),
            _ => None,
        }
    }

    /// Decoding the fed lines from here on continues as `decode_fields` from the
    /// current type and fields.
    closed spec fn resumes(&self) -> bool {
        match self.message_type {
            None => contentful(self.lines@).len() == 0 && self.fields@.len() == 0,
            Some(t) => forall|rest: Seq<Seq<char>>|
                #[trigger] decode_lines(contentful(self.lines@) + rest) == decode_fields(
                    t,
                    rest,
                    self.spec_fields(),
                ),
        }
    }

    /// The decoder's state agrees with the lines fed to it.
    pub closed spec fn wf(&self) -> bool {
        match self.stage {
            Stage::Reading => {
                &&& decode_lines(contentful(self.lines@)) is Pending
                &&& self.resumes()
            },
            Stage::AwaitingPayload { length } => {
                &&& self.message_type is Some
                &&& decode_lines(contentful(self.lines@)) == DecodeOutcome::AwaitingPayload {
                    message_type: self.message_type->0,
                    fields: self.spec_fields(),
                    length: length as nat,
                }
            },
            Stage::Finished => true,
        }
    }

    /// A decoder that has read nothing yet.
    pub fn new() -> (res: MessageDecoder)
        ensures
            res.wf(),
            res.is_reading(),
            res.fed() == Seq::<Seq<char>>::empty(),
            res.spec_fields() == Seq::<(Seq<char>, Seq<char>)>::empty(),
    {
        let res = MessageDecoder {
            message_type: None,
            fields: Vec::new(),
            stage: Stage::Reading,
            lines: Ghost(Seq::empty()),
        };
        assert(res.spec_fields() =~= Seq::<(Seq<char>, Seq<char>)>::empty());
        res
    }

    /// Whether the decoder waits for a line.
    pub fn needs_line(&self) -> (res: bool)
        ensures
            res == self.is_reading(),
    {
        match self.stage {
            Stage::Reading => true,
            _ => false,
        }
    }

    /// Whether the fields read so far announce the payload's length more than once, so that
    /// a `Data` line could not be decoded.
    pub fn has_ambiguous_payload_hint(&self) -> (res: bool)
        ensures
            res == (count_with_key(self.spec_fields(), data_length_key()) > 1),
    {
        let mut n: usize = 0;
        let mut i: usize = 0;
        let key = data_length_lit();
        while i < self.fields.len()
            invariant
                i <= self.fields.len(),
                key@ == data_length_key(),
                n == if count_with_key(self.spec_fields().take(i as int), key@) <= 2 {
                    count_with_key(self.spec_fields().take(i as int), key@)
                } else {
                    2
                },
            decreases self.fields.len() - i,
        {
            assert(self.spec_fields().take(i + 1).drop_last() =~= self.spec_fields().take(
                i as int,
            ));
            if str_equal(self.fields[i].key(), key) && n < 2 {
                n = n + 1;
            }
            i = i + 1;
        }
        assert(self.spec_fields().take(i as int) =~= self.spec_fields());
        n > 1
    }

    /// The step `res` and the decoder `after` report the outcome `o`.
    pub open spec fn reports(res: DecodeStep, after: MessageDecoder, o: DecodeOutcome) -> bool {
        match o {
            DecodeOutcome::Pending => res is NeedLine && after.is_reading(),
            DecodeOutcome::AwaitingPayload { message_type, fields, length } => {
                &&& res matches DecodeStep::NeedPayload { length: n }
                &&& n == length
                &&& after.awaited_payload() == Some(length)
            },
            DecodeOutcome::Done(m) => res matches DecodeStep::Complete(msg) && msg@ == m
                && !after.is_reading() && after.awaited_payload() is None,
            DecodeOutcome::Failed(e) => res matches DecodeStep::Failed(err) && err@ == e
                && !after.is_reading() && after.awaited_payload() is None,
        }
    }

    /// Hands over the next line, or `None` at the end of the input.
    pub fn feed(&mut self, line: Option<&str>) -> (res: DecodeStep)
        requires
            old(self).wf(),
            old(self).is_reading(),
            line matches Some(l) && l@ == data_text() ==> count_with_key(
                old(self).spec_fields(),
                data_length_key(),
            ) <= 1,
        ensures
            final(self).wf(),
            final(self).fed() == match line {
                Some(l) => old(self).fed().push(l@),
                None => old(self).fed(),
            },
            Self::reports(res, *final(self), spec_decode(final(self).fed(), line is None)),
    {
        let line = match line {
            None => {
                self.stage = Stage::Finished;
                return DecodeStep::Failed(DecodeError::UnexpectedEOF);
            },
            Some(l) => l,
        };
        let ghost old_lines = self.lines@;
        self.lines = Ghost(self.lines@.push(line@));
        assert(self.lines@.drop_last() =~= old_lines);
        if line_is_blank(line) {
            assert(contentful(self.lines@) == contentful(old_lines));
            return DecodeStep::NeedLine;
        }
        assert(contentful(self.lines@) == contentful(old_lines).push(line@));
        assert(contentful(old_lines).push(line@) =~= contentful(old_lines) + seq![line@]);
        match self.message_type {
            None => self.accept_type_line(line, Ghost(old_lines)),
            Some(t) => self.accept_after_type(t, line, Ghost(old_lines)),
        }
    }

    fn accept_type_line(&mut self, line: &str, Ghost(old_lines): Ghost<Seq<Seq<char>>>) -> (res: DecodeStep)
        requires
            old(self).stage is Reading,
            old(self).message_type is None,
            old(self).fields@.len() == 0,
            contentful(old_lines).len() == 0,
            contentful(old(self).lines@) == contentful(old_lines) + seq![line@],
        ensures
            final(self).wf(),
            final(self).lines@ == old(self).lines@,
            Self::reports(res, *final(self), decode_lines(contentful(final(self).lines@))),
    {
        assert(contentful(old_lines) + seq![line@] =~= seq![line@]);
        let parsed = MessageType::try_from_name(line);
        proof {
            lemma_try_from_name_result(line@, parsed);
        }
        match parsed {
            Err(e) => {
                self.stage = Stage::Finished;
                DecodeStep::Failed(e)
            },
            Ok(t) => {
                self.message_type = Some(t);
                assert(self.spec_fields() =~= Seq::<(Seq<char>, Seq<char>)>::empty());
                assert forall|rest: Seq<Seq<char>>|
                    #[trigger] decode_lines(contentful(self.lines@) + rest) == decode_fields(
                        t,
                        rest,
                        self.spec_fields(),
                    ) by {
                    assert((seq![line@] + rest)[0] == line@);
                    assert((seq![line@] + rest).drop_first() =~= rest);
                }
                assert(decode_lines(contentful(self.lines@)) == decode_fields(t, Seq::empty(), self.spec_fields())) by {
                    assert(contentful(self.lines@) + Seq::<Seq<char>>::empty() =~= contentful(self.lines@));
                }
                DecodeStep::NeedLine
            },
        }
    }

    fn accept_after_type(&mut self, t: MessageType, line: &str, Ghost(old_lines): Ghost<Seq<Seq<char>>>) -> (res: DecodeStep)
        requires
            old(self).stage is Reading,
            old(self).message_type == Some(t),
            old(self).lines@.drop_last() == old_lines,
            forall|rest: Seq<Seq<char>>|
                #[trigger] decode_lines(contentful(old_lines) + rest) == decode_fields(
                    t,
                    rest,
                    old(self).spec_fields(),
                ),
            contentful(old(self).lines@) == contentful(old_lines) + seq![line@],
            line@ == data_text() ==> count_with_key(old(self).spec_fields(), data_length_key()) <= 1,
        ensures
            final(self).wf(),
            final(self).lines@ == old(self).lines@,
            Self::reports(res, *final(self), decode_lines(contentful(final(self).lines@))),
    {
        let ghost acc = self.spec_fields();
        let ghost cl = contentful(old_lines);
        assert(decode_lines(cl + seq![line@]) == decode_fields(t, seq![line@], acc));
        assert(seq![line@][0] == line@);
        assert(seq![line@].drop_first() =~= Seq::<Seq<char>>::empty());
        if Field::is_field(line) {
            proof {
                lemma_first_index_of(line@, '=');
            }
            let parsed = Field::try_from_line(line);
            let field = parsed.unwrap();
            let ghost f = field@;
            self.fields.push(field);
            assert(self.spec_fields() =~= acc.push(f));
            assert forall|rest: Seq<Seq<char>>|
                #[trigger] decode_lines(contentful(self.lines@) + rest) == decode_fields(
                    t,
                    rest,
                    self.spec_fields(),
                ) by {
                assert(contentful(self.lines@) + rest =~= cl + (seq![line@] + rest));
                assert((seq![line@] + rest)[0] == line@);
                assert((seq![line@] + rest).drop_first() =~= rest);
            }
            assert(decode_lines(contentful(self.lines@)) == decode_fields(t, Seq::empty(), self.spec_fields())) by {
                assert(contentful(self.lines@) + Seq::<Seq<char>>::empty() =~= contentful(self.lines@));
            }
            DecodeStep::NeedLine
        } else if str_equal(line, end_message_lit()) {
            self.stage = Stage::Finished;
            let mut fields: Vec<Field> = Vec::new();
            std::mem::swap(&mut fields, &mut self.fields);
            let fs = Fields::from_vec(fields);
            let msg = Message::new(t, fs, None);
            DecodeStep::Complete(msg)
        } else if str_equal(line, data_lit()) {
            self.accept_data_line(t, Ghost(cl + seq![line@]))
        } else {
            self.stage = Stage::Finished;
            let mut msg = String::new();
            push_str(&mut msg, "'");
            push_str(&mut msg, line);
            push_str(&mut msg, "' neither indicates the end of a Fields nor is a field itself.");
            DecodeStep::Failed(DecodeError::ParseError(msg))
        }
    }

    #[verifier::rlimit(50)]
    fn accept_data_line(&mut self, t: MessageType, Ghost(cl): Ghost<Seq<Seq<char>>>) -> (res: DecodeStep)
        requires
            old(self).stage is Reading,
            old(self).message_type == Some(t),
            contentful(old(self).lines@) == cl,
            decode_lines(cl) == payload_outcome(t, old(self).spec_fields()),
            count_with_key(old(self).spec_fields(), data_length_key()) <= 1,
        ensures
            final(self).wf(),
            final(self).lines@ == old(self).lines@,
            final(self).fields@ == old(self).fields@,
            Self::reports(res, *final(self), decode_lines(cl)),
    {
        let ghost acc = self.spec_fields();
        let fs_ref = &self.fields;
        let i = match find_key(fs_ref, data_length_lit()) {
            None => {
                self.stage = Stage::Finished;
                return DecodeStep::Failed(DecodeError::MissingField(owned("PAYLOAD LENGTH HINT")));
            },
            Some(i) => i,
        };
        assert(acc == field_views(fs_ref@));
        assert(first_with_key(acc, data_length_key()) == Some(i as int));
        assert(decode_lines(cl) == payload_outcome(t, acc));
        assert(acc[i as int] == fs_ref@[i as int]@);
        let value = fs_ref[i].value();
        assert(value@ == acc[i as int].1);
        let parsed = parse_unsigned_str(value, usize::MAX as u64);
        assert((usize::MAX as u64) as nat == usize::MAX as nat);
        assert(decode_lines(cl) == match parse_unsigned(acc[i as int].1, usize::MAX as nat) {
            Ok(n) => DecodeOutcome::AwaitingPayload { message_type: t, fields: acc, length: n },
            Err(k) => DecodeOutcome::Failed(DecodeErrorView::ParseError(int_error_text(k))),
        });
        match parsed {
            Err(k) => {
                self.stage = Stage::Finished;
                assert(decode_lines(cl) == DecodeOutcome::Failed(DecodeErrorView::ParseError(int_error_text(k))));
                DecodeStep::Failed(DecodeError::from_int_error(k))
            },
            Ok(n) => {
                assert(decode_lines(cl) == DecodeOutcome::AwaitingPayload { message_type: t, fields: acc, length: n as nat });
                let length = n as usize;
                self.stage = Stage::AwaitingPayload { length };
                DecodeStep::NeedPayload { length }
            },
        }
    }

    /// Hands over the payload the decoder asked for, and takes the decoded message.
    pub fn finish_with_payload(&mut self, data: Vec<u8>) -> (res: Message)
        requires
            old(self).wf(),
            old(self).awaited_payload() == Some(data@.len()),
        ensures
            !final(self).is_reading(),
            final(self).awaited_payload() is None,
            final(self).fed() == old(self).fed(),
            decode_lines(contentful(old(self).fed())) matches DecodeOutcome::AwaitingPayload {
                message_type,
                fields,
                length,
            } && res@ == (MessageView {
                message_type,
                fields,
                payload: Some(PayloadView { data: data@, data_len_identifier: data_length_key() }),
            }),
    {
        let t = self.message_type.unwrap();
        self.stage = Stage::Finished;
        let mut fields: Vec<Field> = Vec::new();
        std::mem::swap(&mut fields, &mut self.fields);
        let fs = Fields::from_vec(fields);
        let payload = MessagePayload { data, data_len_identifier: owned(data_length_lit()) };
        Message::new(t, fs, Some(payload))
    }
}

} // verus!
