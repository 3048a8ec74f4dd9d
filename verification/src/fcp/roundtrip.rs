//! What decoding gives back of an encoded message.

use vstd::prelude::*;

use crate::fcp::decoder::{
    contentful, decode_fields, decode_lines, payload_outcome, spec_decode, DecodeOutcome,
};
use crate::fcp::model::fields::{
    data_length_key, data_text, end_message_text, lemma_first_with_key_is, spec_is_field,
    spec_parse_field,
};
use crate::fcp::model::message::{field_line, fields_text, header_text, MessageView, PayloadView};
use crate::fcp::model::message_type_identifier::{lemma_name_shape, lemma_type_named_own_name, MessageType};
use crate::text::{decimal, is_blank, is_whitespace, lemma_parse_decimal, lemma_split_once_concat};

verus! {

/// The line of a field without its line break: `key=value`.
pub open spec fn field_text(f: (Seq<char>, Seq<char>)) -> Seq<char> {
    f.0 + seq!['='] + f.1
}

/// The lines of the fields.
pub open spec fn field_lines(fs: Seq<(Seq<char>, Seq<char>)>) -> Seq<Seq<char>> {
    fs.map_values(|f: (Seq<char>, Seq<char>)| field_text(f))
}

/// The lines of a message without payload: the type's name, a line per field, `EndMessage`.
pub open spec fn message_lines(m: MessageView) -> Seq<Seq<char>> {
    seq![m.message_type.spec_name()] + field_lines(m.fields) + seq![end_message_text()]
}

/// Lines joined into text, each followed by a line break.
pub open spec fn join_lines(ls: Seq<Seq<char>>) -> Seq<char>
    decreases ls.len(),
{
    if ls.len() == 0 {
        Seq::empty()
    } else {
        join_lines(ls.drop_last()) + ls.last() + seq!['\n']
    }
}

/// A message whose fields can be told apart on the wire: no key holds `=` or a line
/// break, no value holds a line break, and it has no payload.
pub open spec fn is_line_encodable(m: MessageView) -> bool {
    &&& m.payload is None
    &&& forall|i: int|
        0 <= i < m.fields.len() ==> !(#[trigger] m.fields[i]).0.contains('=') && !m.fields[i].0.contains(
            '\n',
        ) && !m.fields[i].1.contains('\n')
}

proof fn lemma_join_lines_append(a: Seq<Seq<char>>, b: Seq<Seq<char>>)
    ensures
        join_lines(a + b) == join_lines(a) + join_lines(b),
    decreases b.len(),
{
    if b.len() == 0 {
        assert(a + b =~= a);
        assert(join_lines(b) =~= Seq::<char>::empty());
        assert(join_lines(a) + join_lines(b) =~= join_lines(a));
    } else {
        lemma_join_lines_append(a, b.drop_last());
        assert((a + b).drop_last() =~= a + b.drop_last());
        assert((a + b).last() == b.last());
        assert(join_lines(a + b) =~= join_lines(a) + join_lines(b));
    }
}

proof fn lemma_join_field_lines(fs: Seq<(Seq<char>, Seq<char>)>)
    ensures
        join_lines(field_lines(fs)) == fields_text(fs),
    decreases fs.len(),
{
    if fs.len() > 0 {
        lemma_join_field_lines(fs.drop_last());
        assert(field_lines(fs).drop_last() =~= field_lines(fs.drop_last()));
        assert(field_lines(fs).last() == field_text(fs.last()));
        assert(field_text(fs.last()) + seq!['\n'] =~= field_line(fs.last()));
        assert(join_lines(field_lines(fs)) =~= fields_text(fs));
    } else {
        assert(field_lines(fs) =~= Seq::<Seq<char>>::empty());
    }
}

/// The text of an encoded message without payload is its lines, each ended by a line break.
pub proof fn lemma_header_text_is_lines(m: MessageView)
    requires
        m.payload is None,
    ensures
        header_text(m) == join_lines(message_lines(m)),
{
    let name = seq![m.message_type.spec_name()];
    let fl = field_lines(m.fields);
    let end = seq![end_message_text()];
    lemma_join_lines_append(name + fl, end);
    lemma_join_lines_append(name, fl);
    lemma_join_field_lines(m.fields);
    assert(name.drop_last() =~= Seq::<Seq<char>>::empty());
    assert(end.drop_last() =~= Seq::<Seq<char>>::empty());
    assert(join_lines(name.drop_last()) =~= Seq::<char>::empty());
    assert(join_lines(end.drop_last()) =~= Seq::<char>::empty());
    assert(join_lines(name) =~= m.message_type.spec_name() + seq!['\n']);
    assert(join_lines(end) =~= end_message_text() + seq!['\n']);
    assert(message_lines(m) =~= name + fl + end);
    assert(header_text(m) =~= join_lines(message_lines(m)));
}

/// No line of an encodable message holds a line break, so the text splits back into them.
pub proof fn lemma_message_lines_unbroken(m: MessageView)
    requires
        is_line_encodable(m),
    ensures
        forall|i: int|
            0 <= i < message_lines(m).len() ==> !(#[trigger] message_lines(m)[i]).contains('\n'),
{
    reveal_strlit("EndMessage");
    lemma_names_unbroken(m.message_type);
    let ls = message_lines(m);
    assert forall|i: int| 0 <= i < ls.len() implies !(#[trigger] ls[i]).contains('\n') by {
        if i == 0 {
        } else if i < ls.len() - 1 {
            let f = m.fields[i - 1];
            assert(ls[i] == field_text(f));
            if field_text(f).contains('\n') {
                let k = choose|k: int| 0 <= k < field_text(f).len() && field_text(f)[k] == '\n';
                if k < f.0.len() {
                    assert(f.0[k] == '\n');
                } else if k > f.0.len() {
                    assert(f.1[k - f.0.len() - 1] == '\n');
                }
            }
        } else {
            assert(ls[i] == end_message_text());
            if end_message_text().contains('\n') {
                let k = choose|k: int| 0 <= k < end_message_text().len() && end_message_text()[k] == '\n';
                assert(false);
            }
        }
    }
}

proof fn lemma_names_unbroken(t: MessageType)
    ensures
        !t.spec_name().contains('\n'),
        !is_blank(t.spec_name()),
        !spec_is_field(t.spec_name()),
{
    lemma_name_shape(t);
}

proof fn lemma_contentful_all(ls: Seq<Seq<char>>)
    requires
        forall|i: int| 0 <= i < ls.len() ==> !is_blank(#[trigger] ls[i]),
    ensures
        contentful(ls) == ls,
    decreases ls.len(),
{
    if ls.len() > 0 {
        lemma_contentful_all(ls.drop_last());
        assert(!is_blank(ls[ls.len() - 1]));
        assert(ls.drop_last().push(ls.last()) =~= ls);
    }
}

proof fn lemma_field_line_parses(f: (Seq<char>, Seq<char>))
    requires
        !f.0.contains('='),
    ensures
        spec_is_field(field_text(f)),
        spec_parse_field(field_text(f)) == Some(f),
{
    assert forall|j: int| 0 <= j < f.0.len() implies f.0[j] != '=' by {
        if f.0[j] == '=' {
            assert(f.0.contains('='));
        }
    }
    lemma_split_once_concat(f.0, '=', f.1);
    assert(field_text(f)[f.0.len() as int] == '=');
}

proof fn lemma_decode_field_lines(
    t: MessageType,
    fs: Seq<(Seq<char>, Seq<char>)>,
    tail: Seq<Seq<char>>,
    acc: Seq<(Seq<char>, Seq<char>)>,
)
    requires
        forall|i: int| 0 <= i < fs.len() ==> !(#[trigger] fs[i]).0.contains('='),
    ensures
        decode_fields(t, field_lines(fs) + tail, acc) == decode_fields(t, tail, acc + fs),
    decreases fs.len(),
{
    let rest = field_lines(fs) + tail;
    if fs.len() == 0 {
        assert(rest =~= tail);
        assert(acc + fs =~= acc);
    } else {
        let f = fs[0];
        let others = fs.drop_first();
        assert(rest[0] == field_text(f));
        lemma_field_line_parses(f);
        assert(rest.drop_first() =~= field_lines(others) + tail);
        assert(decode_fields(t, rest, acc) == decode_fields(t, rest.drop_first(), acc.push(f)));
        assert forall|i: int| 0 <= i < others.len() implies !(#[trigger] others[i]).0.contains('=') by {
            assert(others[i] == fs[i + 1]);
        }
        lemma_decode_field_lines(t, others, tail, acc.push(f));
        assert(acc.push(f) + others =~= acc + fs);
    }
}

proof fn lemma_end_line()
    ensures
        !is_blank(end_message_text()),
        !spec_is_field(end_message_text()),
        end_message_text() != data_text(),
{
    reveal_strlit("EndMessage");
    reveal_strlit("Data");
    let end = end_message_text();
    assert(end[0] == 'E');
    assert(!is_whitespace(end[0]));
    if end.contains('=') {
        let k = choose|k: int| 0 <= k < end.len() && end[k] == '=';
        assert(false);
    }
    assert(end.len() != data_text().len());
}

proof fn lemma_lines_not_blank(m: MessageView)
    requires
        is_line_encodable(m),
    ensures
        forall|i: int| 0 <= i < message_lines(m).len() ==> !is_blank(#[trigger] message_lines(m)[i]),
{
    lemma_end_line();
    lemma_names_unbroken(m.message_type);
    let ls = message_lines(m);
    assert forall|i: int| 0 <= i < ls.len() implies !is_blank(#[trigger] ls[i]) by {
        if i == 0 {
        } else if i < ls.len() - 1 {
            let f = m.fields[i - 1];
            assert(ls[i] == field_text(f));
            assert(field_text(f)[f.0.len() as int] == '=');
            assert(!is_whitespace('='));
        } else {
            assert(ls[i] == end_message_text());
        }
    }
}

/// Decoding the lines of an encoded message gives the message back.
pub proof fn lemma_decode_message_lines(m: MessageView)
    requires
        is_line_encodable(m),
    ensures
        decode_lines(contentful(message_lines(m))) == DecodeOutcome::Done(m),
        spec_decode(message_lines(m), false) == DecodeOutcome::Done(m),
        spec_decode(message_lines(m), true) == DecodeOutcome::Done(m),
{
    let ls = message_lines(m);
    let end = end_message_text();
    lemma_end_line();
    lemma_lines_not_blank(m);
    lemma_contentful_all(ls);
    lemma_type_named_own_name(m.message_type);
    assert(ls[0] == m.message_type.spec_name());
    assert(ls.drop_first() =~= field_lines(m.fields) + seq![end]);
    assert forall|i: int| 0 <= i < m.fields.len() implies !(#[trigger] m.fields[i]).0.contains('=') by {}
    lemma_decode_field_lines(m.message_type, m.fields, seq![end], Seq::empty());
    assert(Seq::<(Seq<char>, Seq<char>)>::empty() + m.fields =~= m.fields);
    assert(seq![end][0] == end);
    assert(seq![end].drop_first() =~= Seq::<Seq<char>>::empty());
}

/// Decoding the lines of an encoded message finishes only at its last line: every shorter
/// run of them still waits for more. A reader that hands the lines over one by one and
/// stops when the message is done has taken exactly the message's lines, and leaves the
/// lines after them in place.
pub proof fn lemma_decode_needs_every_line(m: MessageView, k: int)
    requires
        is_line_encodable(m),
        0 <= k < message_lines(m).len(),
    ensures
        spec_decode(message_lines(m).take(k), false) == DecodeOutcome::Pending,
{
    let ls = message_lines(m);
    let pre = ls.take(k);
    lemma_lines_not_blank(m);
    assert forall|i: int| 0 <= i < pre.len() implies !is_blank(#[trigger] pre[i]) by {
        assert(pre[i] == ls[i]);
    }
    lemma_contentful_all(pre);
    if k > 0 {
        lemma_type_named_own_name(m.message_type);
        assert(pre[0] == m.message_type.spec_name());
        let fs = m.fields.take(k - 1);
        assert(pre.drop_first() =~= field_lines(fs) + Seq::<Seq<char>>::empty());
        assert forall|i: int| 0 <= i < fs.len() implies !(#[trigger] fs[i]).0.contains('=') by {
            assert(fs[i] == m.fields[i]);
        }
        lemma_decode_field_lines(m.message_type, fs, Seq::empty(), Seq::empty());
    }
}

/// The header lines of a message with payload: the type's name, a line per field, the
/// field announcing the payload's length, and `Data`.
pub open spec fn payload_lines(m: MessageView, p: PayloadView) -> Seq<Seq<char>> {
    seq![m.message_type.spec_name()] + field_lines(m.fields) + seq![
        field_text((p.data_len_identifier, decimal(p.data.len()))),
        data_text(),
    ]
}

/// The text of an encoded message with payload is its header lines, each ended by a line
/// break; the payload's bytes follow it.
pub proof fn lemma_header_text_is_payload_lines(m: MessageView, p: PayloadView)
    requires
        m.payload == Some(p),
    ensures
        header_text(m) == join_lines(payload_lines(m, p)),
{
    let name = seq![m.message_type.spec_name()];
    let fl = field_lines(m.fields);
    let len_line = field_text((p.data_len_identifier, decimal(p.data.len())));
    let tail = seq![len_line, data_text()];
    lemma_join_lines_append(name + fl, tail);
    lemma_join_lines_append(name, fl);
    lemma_join_field_lines(m.fields);
    assert(name.drop_last() =~= Seq::<Seq<char>>::empty());
    assert(join_lines(name.drop_last()) =~= Seq::<char>::empty());
    assert(join_lines(name) =~= m.message_type.spec_name() + seq!['\n']);
    assert(tail.drop_last() =~= seq![len_line]);
    assert(seq![len_line].drop_last() =~= Seq::<Seq<char>>::empty());
    assert(join_lines(seq![len_line].drop_last()) =~= Seq::<char>::empty());
    assert(join_lines(seq![len_line]) =~= len_line + seq!['\n']);
    assert(join_lines(tail) =~= len_line + seq!['\n'] + data_text() + seq!['\n']);
    assert(payload_lines(m, p) =~= name + fl + tail);
    assert(header_text(m) =~= join_lines(payload_lines(m, p)));
}

/// Decoding the header lines of an encoded message with payload asks for the payload:
/// the fields come back with the length field after them, and the length is the payload's,
/// when the fields can be told apart, none of them is keyed `DataLength`, and the length
/// is announced by `DataLength`.
pub proof fn lemma_decode_payload_lines(m: MessageView, p: PayloadView)
    requires
        m.payload == Some(p),
        p.data_len_identifier == data_length_key(),
        p.data.len() <= usize::MAX,
        forall|i: int|
            0 <= i < m.fields.len() ==> !(#[trigger] m.fields[i]).0.contains('=') && !m.fields[i].0.contains(
                '\n',
            ) && !m.fields[i].1.contains('\n') && m.fields[i].0 != data_length_key(),
    ensures
        spec_decode(payload_lines(m, p), false) == (DecodeOutcome::AwaitingPayload {
            message_type: m.message_type,
            fields: m.fields.push((data_length_key(), decimal(p.data.len()))),
            length: p.data.len(),
        }),
{
    reveal_strlit("Data");
    reveal_strlit("DataLength");
    let ls = payload_lines(m, p);
    let n = p.data.len();
    let dl = (data_length_key(), decimal(n));
    let data = data_text();
    let fs = m.fields;
    lemma_end_line();
    lemma_names_unbroken(m.message_type);
    assert(data[0] == 'D');
    assert(!is_whitespace(data[0]));
    assert(!spec_is_field(data)) by {
        if data.contains('=') {
            let k = choose|k: int| 0 <= k < data.len() && data[k] == '=';
            assert(false);
        }
    }
    assert(!dl.0.contains('=')) by {
        if dl.0.contains('=') {
            let k = choose|k: int| 0 <= k < dl.0.len() && dl.0[k] == '=';
            assert(false);
        }
    }
    assert forall|i: int| 0 <= i < ls.len() implies !is_blank(#[trigger] ls[i]) by {
        if i == 0 {
        } else if i < ls.len() - 1 {
            let f = if i < ls.len() - 2 { fs[i - 1] } else { dl };
            assert(ls[i] == field_text(f));
            assert(field_text(f)[f.0.len() as int] == '=');
            assert(!is_whitespace('='));
        } else {
            assert(ls[i] == data);
        }
    }
    lemma_contentful_all(ls);
    lemma_type_named_own_name(m.message_type);
    let all = fs.push(dl);
    assert(ls[0] == m.message_type.spec_name());
    assert(ls.drop_first() =~= field_lines(all) + seq![data]);
    assert forall|i: int| 0 <= i < all.len() implies !(#[trigger] all[i]).0.contains('=') by {
        if i < fs.len() {
            assert(all[i] == fs[i]);
        }
    }
    lemma_decode_field_lines(m.message_type, all, seq![data], Seq::empty());
    assert(Seq::<(Seq<char>, Seq<char>)>::empty() + all =~= all);
    assert(seq![data][0] == data);
    assert(seq![data].drop_first() =~= Seq::<Seq<char>>::empty());
    assert(decode_fields(m.message_type, seq![data], all) == payload_outcome(m.message_type, all));
    lemma_first_with_key_is(all, data_length_key(), fs.len() as int);
    lemma_parse_decimal(n, usize::MAX as nat);
}

} // verus!
