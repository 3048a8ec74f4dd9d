//! Character-level helpers on strings, with their mathematical models.
//!
//! Text is modelled by its view, a `Seq<char>`; the wire form of text is its
//! UTF-8 encoding (`vstd::utf8::encode_utf8`).

use vstd::prelude::*;
use vstd::std_specs::iter::IteratorSpec;

verus! {

// ---------------------------------------------------------------------------
// Models
// ---------------------------------------------------------------------------

/// The character of a decimal digit `d < 10`.
pub open spec fn digit_char(d: nat) -> char {
    (48 + d) as char
}

/// The decimal representation of `n`, without sign or leading zeros ("0" for zero).
pub open spec fn decimal(n: nat) -> Seq<char>
    decreases n,
{
    if n < 10 {
        seq![digit_char(n)]
    } else {
        decimal(n / 10).push(digit_char(n % 10))
    }
}

/// The decimal representation of an integer, with `-` before a negative one.
pub open spec fn signed_decimal(i: int) -> Seq<char> {
    if i < 0 {
        seq!['-'] + decimal((-i) as nat)
    } else {
        decimal(i as nat)
    }
}

/// The text `Display` gives a boolean.
pub open spec fn bool_text(b: bool) -> Seq<char> {
    if b {
        seq!['t', 'r', 'u', 'e']
    } else {
        seq!['f', 'a', 'l', 's', 'e']
    }
}

/// Whether `c` is an ASCII decimal digit.
pub open spec fn is_digit(c: char) -> bool {
    '0' <= c && c <= '9'
}

/// The value of the ASCII digit `c`.
pub open spec fn digit_value(c: char) -> nat {
    (c as int - 48) as nat
}

/// Why a decimal integer could not be read (the kinds `str::parse` reports).
#[derive(Debug, Clone, Copy, PartialEq, Eq, Structural)]
pub enum IntErrorKind {
    Empty,
    InvalidDigit,
    PosOverflow,
}

/// Reads the digits `ds` left to right onto `acc`, failing at the first
/// non-digit or at the first step whose value exceeds `max`.
pub open spec fn scan_digits(ds: Seq<char>, acc: nat, max: nat) -> Result<nat, IntErrorKind>
    decreases ds.len(),
{
    if ds.len() == 0 {
        Ok(acc)
    } else if !is_digit(ds[0]) {
        Err(IntErrorKind::InvalidDigit)
    } else if acc * 10 + digit_value(ds[0]) > max {
        Err(IntErrorKind::PosOverflow)
    } else {
        scan_digits(ds.drop_first(), acc * 10 + digit_value(ds[0]), max)
    }
}

/// `str::parse` for an unsigned integer type whose largest value is `max`:
/// an optional leading `+`, then at least one decimal digit.
pub open spec fn parse_unsigned(s: Seq<char>, max: nat) -> Result<nat, IntErrorKind> {
    if s.len() == 0 {
        Err(IntErrorKind::Empty)
    } else {
        let ds = if s[0] == '+' { s.drop_first() } else { s };
        if ds.len() == 0 {
            Err(IntErrorKind::InvalidDigit)
        } else {
            scan_digits(ds, 0, max)
        }
    }
}

/// `bool::from_str`: exactly "true" or "false".
pub open spec fn parse_bool(s: Seq<char>) -> Option<bool> {
    if s == bool_text(true) {
        Some(true)
    } else if s == bool_text(false) {
        Some(false)
    } else {
        None
    }
}

/// The index of the first occurrence of `c` in `s`, if any.
#[verifier::opaque]
pub open spec fn first_index_of(s: Seq<char>, c: char) -> Option<int> {
    if exists|i: int| 0 <= i < s.len() && s[i] == c {
        Some(choose|i: int| 0 <= i < s.len() && s[i] == c && forall|j: int| 0 <= j < i ==> s[j] != c)
    } else {
        None
    }
}

/// `str::split_once` at a character: the text before and after the first `c`.
pub open spec fn split_once(s: Seq<char>, c: char) -> Option<(Seq<char>, Seq<char>)> {
    match first_index_of(s, c) {
        Some(i) => Some((s.take(i), s.skip(i + 1))),
        None => None,
    }
}

/// `char::is_whitespace`: the Unicode `White_Space` property.
pub open spec fn is_whitespace(c: char) -> bool {
    ||| ('\u{9}' <= c && c <= '\u{d}')
    ||| c == ' '
    ||| c == '\u{85}'
    ||| c == '\u{a0}'
    ||| c == '\u{1680}'
    ||| ('\u{2000}' <= c && c <= '\u{200a}')
    ||| c == '\u{2028}'
    ||| c == '\u{2029}'
    ||| c == '\u{202f}'
    ||| c == '\u{205f}'
    ||| c == '\u{3000}'
}

/// A line is blank when trimming its end leaves nothing (`trim_end() == ""`).
pub open spec fn is_blank(s: Seq<char>) -> bool {
    forall|i: int| 0 <= i < s.len() ==> is_whitespace(#[trigger] s[i])
}


/// Whether `sep` occurs in `s` starting at index `i`.
pub open spec fn occurs_at(s: Seq<char>, sep: Seq<char>, i: int) -> bool {
    0 <= i && i + sep.len() <= s.len() && s.subrange(i, i + sep.len()) == sep
}

/// The index where `sep` first occurs in `s`, if it does.
#[verifier::opaque]
pub open spec fn first_occurrence(s: Seq<char>, sep: Seq<char>) -> Option<int> {
    if exists|i: int| occurs_at(s, sep, i) {
        Some(choose|i: int| occurs_at(s, sep, i) && forall|j: int| 0 <= j < i ==> !occurs_at(s, sep, j))
    } else {
        None
    }
}

/// `str::split_once` at a separator: the text before and after its first occurrence.
pub open spec fn split_once_at(s: Seq<char>, sep: Seq<char>) -> Option<(Seq<char>, Seq<char>)> {
    match first_occurrence(s, sep) {
        Some(i) => Some((s.take(i), s.skip(i + sep.len()))),
        None => None,
    }
}

/// `str::replace`: the occurrences of `from`, found left to right without overlapping,
/// each replaced by `to`.
pub open spec fn replace_all(s: Seq<char>, from: Seq<char>, to: Seq<char>) -> Seq<char>
    decreases s.len(),
{
    if s.len() == 0 || from.len() == 0 {
        s
    } else if occurs_at(s, from, 0) {
        to + replace_all(s.skip(from.len() as int), from, to)
    } else {
        seq![s[0]] + replace_all(s.drop_first(), from, to)
    }
}

/// Whether `s` begins with `prefix` (`str::starts_with`).
pub open spec fn starts_with(s: Seq<char>, prefix: Seq<char>) -> bool {
    prefix.len() <= s.len() && s.take(prefix.len() as int) == prefix
}

// ---------------------------------------------------------------------------
// Lemmas
// ---------------------------------------------------------------------------

pub proof fn lemma_first_index_of(s: Seq<char>, c: char)
    ensures
        first_index_of(s, c) matches Some(i) ==> {
            &&& 0 <= i < s.len()
            &&& s[i] == c
            &&& forall|j: int| 0 <= j < i ==> s[j] != c
        },
        first_index_of(s, c) is None ==> forall|j: int| 0 <= j < s.len() ==> s[j] != c,
{
    reveal(first_index_of);
    if exists|i: int| 0 <= i < s.len() && s[i] == c {
        let w = choose|i: int| 0 <= i < s.len() && s[i] == c;
        lemma_least_index(s, c, w);
    }
}

proof fn lemma_least_index(s: Seq<char>, c: char, w: int)
    requires
        0 <= w < s.len(),
        s[w] == c,
    ensures
        exists|i: int| 0 <= i < s.len() && s[i] == c && forall|j: int| 0 <= j < i ==> s[j] != c,
    decreases w,
{
    if exists|j: int| 0 <= j < w && s[j] == c {
        let j = choose|j: int| 0 <= j < w && s[j] == c;
        lemma_least_index(s, c, j);
    } else {
        assert(0 <= w < s.len() && s[w] == c && forall|j: int| 0 <= j < w ==> s[j] != c);
    }
}

/// `first_index_of` is determined by any index that holds `c` with no earlier `c`.
pub proof fn lemma_first_index_of_is(s: Seq<char>, c: char, i: int)
    requires
        0 <= i < s.len(),
        s[i] == c,
        forall|j: int| 0 <= j < i ==> s[j] != c,
    ensures
        first_index_of(s, c) == Some(i),
{
    lemma_first_index_of(s, c);
    let k = first_index_of(s, c)->0;
    if k < i {
        assert(s[k] != c);
    } else if k > i {
        assert(s[i] != c);
    }
}

/// Splitting `a + [c] + b` at `c`, when `a` holds no `c`, gives back `a` and `b`.
pub proof fn lemma_split_once_concat(a: Seq<char>, c: char, b: Seq<char>)
    requires
        forall|j: int| 0 <= j < a.len() ==> a[j] != c,
    ensures
        split_once(a + seq![c] + b, c) == Some((a, b)),
{
    let s = a + seq![c] + b;
    lemma_first_index_of_is(s, c, a.len() as int);
    assert(s.take(a.len() as int) =~= a);
    assert(s.skip(a.len() as int + 1) =~= b);
}

pub proof fn lemma_first_occurrence(s: Seq<char>, sep: Seq<char>)
    ensures
        first_occurrence(s, sep) matches Some(i) ==> {
            &&& occurs_at(s, sep, i)
            &&& forall|j: int| 0 <= j < i ==> !occurs_at(s, sep, j)
        },
        first_occurrence(s, sep) is None ==> forall|j: int| !occurs_at(s, sep, j),
{
    reveal(first_occurrence);
    if exists|i: int| occurs_at(s, sep, i) {
        let w = choose|i: int| occurs_at(s, sep, i);
        lemma_least_occurrence(s, sep, w);
    }
}

proof fn lemma_least_occurrence(s: Seq<char>, sep: Seq<char>, w: int)
    requires
        occurs_at(s, sep, w),
    ensures
        exists|i: int| occurs_at(s, sep, i) && forall|j: int| 0 <= j < i ==> !occurs_at(s, sep, j),
    decreases w,
{
    if exists|j: int| 0 <= j < w && occurs_at(s, sep, j) {
        let j = choose|j: int| 0 <= j < w && occurs_at(s, sep, j);
        lemma_least_occurrence(s, sep, j);
    } else {
        assert(occurs_at(s, sep, w) && forall|j: int| 0 <= j < w ==> !occurs_at(s, sep, j));
    }
}

pub proof fn lemma_first_occurrence_is(s: Seq<char>, sep: Seq<char>, i: int)
    requires
        occurs_at(s, sep, i),
        forall|j: int| 0 <= j < i ==> !occurs_at(s, sep, j),
    ensures
        first_occurrence(s, sep) == Some(i),
{
    lemma_first_occurrence(s, sep);
    let k = first_occurrence(s, sep)->0;
    if k < i {
        assert(!occurs_at(s, sep, k));
    } else if k > i {
        assert(!occurs_at(s, sep, i));
    }
}

pub proof fn lemma_decimal_digits(n: nat)
    ensures
        decimal(n).len() >= 1,
        forall|i: int| 0 <= i < decimal(n).len() ==> is_digit(#[trigger] decimal(n)[i]),
    decreases n,
{
    if n >= 10 {
        lemma_decimal_digits(n / 10);
    }
}

proof fn lemma_scan_push(a: Seq<char>, c: char, acc: nat, max: nat)
    ensures
        scan_digits(a.push(c), acc, max) == match scan_digits(a, acc, max) {
            Err(e) => Err(e),
            Ok(v) => if !is_digit(c) {
                Err(IntErrorKind::InvalidDigit)
            } else if v * 10 + digit_value(c) > max {
                Err(IntErrorKind::PosOverflow)
            } else {
                Ok(v * 10 + digit_value(c))
            },
        },
    decreases a.len(),
{
    if a.len() == 0 {
        assert(a.push(c) =~= seq![c]);
        assert(seq![c].drop_first() =~= Seq::<char>::empty());
        assert(scan_digits(a, acc, max) == Ok::<nat, IntErrorKind>(acc));
        assert(scan_digits(Seq::<char>::empty(), acc * 10 + digit_value(c), max) == Ok::<
            nat,
            IntErrorKind,
        >(acc * 10 + digit_value(c)));
    } else {
        let ap = a.push(c);
        assert(ap[0] == a[0]);
        assert(ap.drop_first() =~= a.drop_first().push(c));
        let next = acc * 10 + digit_value(a[0]);
        if is_digit(a[0]) && next <= max {
            lemma_scan_push(a.drop_first(), c, next, max);
            assert(scan_digits(ap, acc, max) == scan_digits(ap.drop_first(), next, max));
            assert(scan_digits(a, acc, max) == scan_digits(a.drop_first(), next, max));
        }
    }
}

proof fn lemma_scan_decimal(n: nat, max: nat)
    requires
        n <= max,
    ensures
        scan_digits(decimal(n), 0, max) == Ok::<nat, IntErrorKind>(n),
    decreases n,
{
    if n < 10 {
        let c = digit_char(n);
        assert(digit_value(c) == n);
        assert(is_digit(c));
        assert(decimal(n) == seq![c]);
        lemma_scan_push(Seq::<char>::empty(), c, 0, max);
        assert(Seq::<char>::empty().push(c) =~= seq![c]);
        assert(scan_digits(Seq::<char>::empty(), 0, max) == Ok::<nat, IntErrorKind>(0));
    } else {
        lemma_scan_decimal(n / 10, max);
        lemma_scan_push(decimal(n / 10), digit_char(n % 10), 0, max);
        assert(digit_value(digit_char(n % 10)) == n % 10);
        assert(is_digit(digit_char(n % 10)));
        assert((n / 10) * 10 + n % 10 == n);
    }
}

/// Reading back the decimal text of a number gives the number, wherever it fits the type
/// read: what `push_decimal` writes, `parse_unsigned_str` reads.
pub proof fn lemma_parse_decimal(n: nat, max: nat)
    requires
        n <= max,
    ensures
        parse_unsigned(decimal(n), max) == Ok::<nat, IntErrorKind>(n),
{
    lemma_decimal_digits(n);
    lemma_scan_decimal(n, max);
    assert(is_digit(decimal(n)[0]));
}

// ---------------------------------------------------------------------------
// Executable helpers
// ---------------------------------------------------------------------------

/// Appends one character to a `String` (`String::push`).
#[verifier::external_body]
pub fn push_char(s: &mut String, c: char)
    ensures
        final(s)@ == old(s)@.push(c),
{
    s.push(c);
}

/// Appends a string slice to a `String`.
pub fn push_str(s: &mut String, t: &str)
    ensures
        final(s)@ == old(s)@ + t@,
{
    s.append(t);
}

/// An owned copy of a string slice.
pub fn owned(s: &str) -> (res: String)
    ensures
        res@ == s@,
{
    String::from_str(s)
}

/// The characters of a string slice, in order.
pub fn to_chars(s: &str) -> (res: Vec<char>)
    ensures
        res@ == s@,
{
    let mut res: Vec<char> = Vec::new();
    let mut it = s.chars();
    for c in iter: it
        invariant
            res@ == iter.seq().take(iter.index() as int),
            iter.seq() == s@,
    {
        res.push(c);
    }
    res
}

/// A `String` holding the characters `cs[from..to]`.
pub fn string_of_range(cs: &Vec<char>, from: usize, to: usize) -> (res: String)
    requires
        from <= to <= cs.len(),
    ensures
        res@ == cs@.subrange(from as int, to as int),
{
    let mut res = String::new();
    let mut i = from;
    while i < to
        invariant
            from <= i <= to <= cs.len(),
            res@ == cs@.subrange(from as int, i as int),
        decreases to - i,
    {
        push_char(&mut res, cs[i]);
        assert(cs@.subrange(from as int, i + 1) =~= cs@.subrange(from as int, i as int).push(cs@[i as int]));
        i = i + 1;
    }
    res
}

/// The character of the digit `d`.
pub fn digit_to_char(d: u64) -> (c: char)
    requires
        d < 10,
    ensures
        c == digit_char(d as nat),
{
    match d {
        0 => '0',
        1 => '1',
        2 => '2',
        3 => '3',
        4 => '4',
        5 => '5',
        6 => '6',
        7 => '7',
        8 => '8',
        _ => '9',
    }
}

/// Appends the decimal representation of `n`.
pub fn push_decimal(s: &mut String, n: u64)
    ensures
        final(s)@ == old(s)@ + decimal(n as nat),
    decreases n,
{
    if n < 10 {
        push_char(s, digit_to_char(n));
    } else {
        push_decimal(s, n / 10);
        push_char(s, digit_to_char(n % 10));
    }
}

/// The decimal representation of `n` (`n.to_string()`).
pub fn decimal_string(n: u64) -> (res: String)
    ensures
        res@ == decimal(n as nat),
{
    let mut s = String::new();
    push_decimal(&mut s, n);
    s
}

/// The decimal representation of a byte.
pub fn decimal_string_u8(n: u8) -> (res: String)
    ensures
        res@ == decimal(n as nat),
{
    decimal_string(n as u64)
}

/// The decimal representation of a signed integer (`i.to_string()`).
pub fn signed_decimal_string(i: i32) -> (res: String)
    ensures
        res@ == signed_decimal(i as int),
{
    let mut s = String::new();
    if i < 0 {
        push_char(&mut s, '-');
        let magnitude: u64 = (0i64 - (i as i64)) as u64;
        push_decimal(&mut s, magnitude);
    } else {
        push_decimal(&mut s, i as u64);
    }
    s
}

/// A copy of a byte vector.
pub fn copy_bytes(v: &Vec<u8>) -> (res: Vec<u8>)
    ensures
        res@ == v@,
{
    let mut res: Vec<u8> = Vec::new();
    let mut i: usize = 0;
    while i < v.len()
        invariant
            i <= v.len(),
            res@ == v@.take(i as int),
        decreases v.len() - i,
    {
        res.push(v[i]);
        assert(v@.take(i + 1) =~= v@.take(i as int).push(v@[i as int]));
        i = i + 1;
    }
    assert(v@.take(i as int) =~= v@);
    res
}

/// The text of a boolean (`b.to_string()`).
pub fn bool_string(b: bool) -> (res: String)
    ensures
        res@ == bool_text(b),
{
    let mut s = String::new();
    if b {
        push_char(&mut s, 't');
        push_char(&mut s, 'r');
        push_char(&mut s, 'u');
        push_char(&mut s, 'e');
    } else {
        push_char(&mut s, 'f');
        push_char(&mut s, 'a');
        push_char(&mut s, 'l');
        push_char(&mut s, 's');
        push_char(&mut s, 'e');
    }
    assert(s@ =~= bool_text(b));
    s
}

/// Whether two character sequences are equal.
pub fn chars_equal(a: &Vec<char>, b: &Vec<char>) -> (res: bool)
    ensures
        res == (a@ == b@),
{
    if a.len() != b.len() {
        return false;
    }
    let mut i: usize = 0;
    while i < a.len()
        invariant
            a.len() == b.len(),
            i <= a.len(),
            forall|j: int| 0 <= j < i ==> a@[j] == b@[j],
        decreases a.len() - i,
    {
        if a[i] != b[i] {
            return false;
        }
        i = i + 1;
    }
    assert(a@ =~= b@);
    true
}

/// Whether two strings are equal.
pub fn str_equal(a: &str, b: &str) -> (res: bool)
    ensures
        res == (a@ == b@),
{
    let ac = to_chars(a);
    let bc = to_chars(b);
    chars_equal(&ac, &bc)
}

/// The index of the first `c` in `cs`, if any.
pub fn find_char(cs: &Vec<char>, c: char) -> (res: Option<usize>)
    ensures
        res matches Some(i) ==> first_index_of(cs@, c) == Some(i as int),
        res is None ==> first_index_of(cs@, c) is None,
{
    let mut i: usize = 0;
    while i < cs.len()
        invariant
            i <= cs.len(),
            forall|j: int| 0 <= j < i ==> cs@[j] != c,
        decreases cs.len() - i,
    {
        if cs[i] == c {
            proof {
                lemma_first_index_of_is(cs@, c, i as int);
            }
            return Some(i);
        }
        i = i + 1;
    }
    proof {
        lemma_first_index_of(cs@, c);
    }
    None
}

/// Whether `s` contains the character `c` (`str::contains` with a `char`).
pub fn contains_char(s: &str, c: char) -> (res: bool)
    ensures
        res == s@.contains(c),
{
    let cs = to_chars(s);
    let r = find_char(&cs, c);
    proof {
        lemma_first_index_of(s@, c);
        if r is None {
            assert(!s@.contains(c));
        }
    }
    r.is_some()
}

/// `str::split_once` at a character.
pub fn split_once_char(s: &str, c: char) -> (res: Option<(String, String)>)
    ensures
        res matches Some((a, b)) ==> split_once(s@, c) == Some((a@, b@)),
        res is None ==> split_once(s@, c) is None,
{
    let cs = to_chars(s);
    let found = find_char(&cs, c);
    proof {
        lemma_first_index_of(cs@, c);
    }
    match found {
        Some(i) => {
            let a = string_of_range(&cs, 0, i);
            let b = string_of_range(&cs, i + 1, cs.len());
            assert(a@ =~= s@.take(i as int));
            assert(b@ =~= s@.skip(i + 1));
            Some((a, b))
        },
        None => None,
    }
}

/// Whether `c` is white space (`char::is_whitespace`).
pub fn char_is_whitespace(c: char) -> (res: bool)
    ensures
        res == is_whitespace(c),
{
    ('\u{9}' <= c && c <= '\u{d}') || c == ' ' || c == '\u{85}' || c == '\u{a0}' || c
        == '\u{1680}' || ('\u{2000}' <= c && c <= '\u{200a}') || c == '\u{2028}' || c
        == '\u{2029}' || c == '\u{202f}' || c == '\u{205f}' || c == '\u{3000}'
}

/// Whether `s` begins with `prefix` (`str::starts_with`).
pub fn starts_with_str(s: &str, prefix: &str) -> (res: bool)
    ensures
        res == starts_with(s@, prefix@),
{
    let cs = to_chars(s);
    let ps = to_chars(prefix);
    if ps.len() > cs.len() {
        return false;
    }
    let mut i: usize = 0;
    while i < ps.len()
        invariant
            cs@ == s@,
            ps@ == prefix@,
            ps.len() <= cs.len(),
            i <= ps.len(),
            forall|j: int| 0 <= j < i ==> cs@[j] == ps@[j],
        decreases ps.len() - i,
    {
        if cs[i] != ps[i] {
            assert(s@.take(prefix@.len() as int)[i as int] != prefix@[i as int]);
            return false;
        }
        i = i + 1;
    }
    assert(s@.take(prefix@.len() as int) =~= prefix@);
    true
}

/// Whether `sep` occurs in `cs` at index `i`.
fn occurs_at_exec(cs: &Vec<char>, sep: &Vec<char>, i: usize) -> (res: bool)
    ensures
        res == occurs_at(cs@, sep@, i as int),
{
    if sep.len() > cs.len() || i > cs.len() - sep.len() {
        return false;
    }
    let mut j: usize = 0;
    while j < sep.len()
        invariant
            i + sep.len() <= cs.len(),
            j <= sep.len(),
            forall|k: int| 0 <= k < j ==> cs@[i + k] == sep@[k],
        decreases sep.len() - j,
    {
        if cs[i + j] != sep[j] {
            assert(cs@.subrange(i as int, i + sep@.len())[j as int] != sep@[j as int]);
            return false;
        }
        j = j + 1;
    }
    assert(cs@.subrange(i as int, i + sep@.len()) =~= sep@);
    true
}

fn split_found(cs: &Vec<char>, ss: &Vec<char>, i: usize, Ghost(s): Ghost<Seq<char>>, Ghost(sep): Ghost<Seq<char>>) -> (res: (String, String))
    requires
        cs@ == s,
        ss@ == sep,
        occurs_at(s, sep, i as int),
        forall|j: int| 0 <= j < i ==> !occurs_at(s, sep, j),
    ensures
        split_once_at(s, sep) == Some((res.0@, res.1@)),
{
    proof {
        lemma_first_occurrence_is(s, sep, i as int);
    }
    assert(i + ss.len() <= cs.len());
    let a = string_of_range(cs, 0, i);
    let b = string_of_range(cs, i + ss.len(), cs.len());
    assert(a@ =~= s.take(i as int));
    assert(b@ =~= s.skip(i + sep.len()));
    (a, b)
}

/// `str::split_once` at a separator.
pub fn split_once_str(s: &str, sep: &str) -> (res: Option<(String, String)>)
    ensures
        res matches Some((a, b)) ==> split_once_at(s@, sep@) == Some((a@, b@)),
        res is None ==> split_once_at(s@, sep@) is None,
{
    let cs = to_chars(s);
    let ss = to_chars(sep);
    let mut i: usize = 0;
    while i < cs.len()
        invariant
            cs@ == s@,
            ss@ == sep@,
            i <= cs.len(),
            forall|j: int| 0 <= j < i ==> !occurs_at(s@, sep@, j),
        decreases cs.len() - i,
    {
        if occurs_at_exec(&cs, &ss, i) {
            return Some(split_found(&cs, &ss, i, Ghost(s@), Ghost(sep@)));
        }
        i = i + 1;
    }
    if occurs_at_exec(&cs, &ss, i) {
        return Some(split_found(&cs, &ss, i, Ghost(s@), Ghost(sep@)));
    }
    proof {
        lemma_first_occurrence(s@, sep@);
        assert forall|j: int| !occurs_at(s@, sep@, j) by {
            if j > s@.len() {
            }
        }
    }
    None
}

/// `str::replace` with a pattern that is not empty.
pub fn replace_str(s: &str, from: &str, to: &str) -> (res: String)
    requires
        from@.len() > 0,
    ensures
        res@ == replace_all(s@, from@, to@),
{
    let cs = to_chars(s);
    let fs = to_chars(from);
    let mut out = String::new();
    let mut i: usize = 0;
    assert(s@.skip(0) =~= s@);
    while i < cs.len()
        invariant
            cs@ == s@,
            fs@ == from@,
            from@.len() > 0,
            i <= cs.len(),
            replace_all(s@, from@, to@) == out@ + replace_all(s@.skip(i as int), from@, to@),
        decreases cs.len() - i,
    {
        let ghost rest = s@.skip(i as int);
        if occurs_at_exec(&cs, &fs, i) {
            assert(rest.subrange(0, from@.len() as int) =~= s@.subrange(i as int, i + from@.len()));
            assert(rest.skip(from@.len() as int) =~= s@.skip(i + from@.len()));
            let ghost before = out@;
            push_str(&mut out, to);
            assert(before + (to@ + replace_all(s@.skip(i + from@.len()), from@, to@)) =~= out@
                + replace_all(s@.skip(i + from@.len()), from@, to@));
            i = i + fs.len();
        } else {
            proof {
                if occurs_at(rest, from@, 0int) {
                    assert(rest.subrange(0, from@.len() as int) =~= s@.subrange(i as int, i + from@.len()));
                }
            }
            assert(rest.drop_first() =~= s@.skip(i + 1));
            assert(rest[0] == cs@[i as int]);
            let ghost before = out@;
            push_char(&mut out, cs[i]);
            assert(before + (seq![cs@[i as int]] + replace_all(s@.skip(i + 1), from@, to@)) =~= out@
                + replace_all(s@.skip(i + 1), from@, to@));
            i = i + 1;
        }
    }
    assert(s@.skip(i as int).len() == 0);
    assert(out@ + s@.skip(i as int) =~= out@);
    out
}

/// Whether a line is blank (`line.trim_end() == ""`).
pub fn line_is_blank(line: &str) -> (res: bool)
    ensures
        res == is_blank(line@),
{
    let cs = to_chars(line);
    let mut i: usize = 0;
    while i < cs.len()
        invariant
            cs@ == line@,
            i <= cs.len(),
            forall|j: int| 0 <= j < i ==> is_whitespace(#[trigger] cs@[j]),
        decreases cs.len() - i,
    {
        if !char_is_whitespace(cs[i]) {
            return false;
        }
        i = i + 1;
    }
    true
}

/// `str::parse` for an unsigned integer no larger than `max`.
pub fn parse_unsigned_str(s: &str, max: u64) -> (res: Result<u64, IntErrorKind>)
    ensures
        res matches Ok(v) ==> v <= max,
        match parse_unsigned(s@, max as nat) {
            Ok(v) => res matches Ok(r) && r as nat == v,
            Err(k) => res == Err::<u64, IntErrorKind>(k),
        },
{
    let cs = to_chars(s);
    if cs.len() == 0 {
        return Err(IntErrorKind::Empty);
    }
    let start: usize = if cs[0] == '+' { 1 } else { 0 };
    if start == cs.len() {
        return Err(IntErrorKind::InvalidDigit);
    }
    let ghost ds = if s@[0] == '+' { s@.drop_first() } else { s@ };
    assert(ds =~= cs@.skip(start as int));
    assert(parse_unsigned(s@, max as nat) == scan_digits(ds, 0, max as nat));
    let mut acc: u64 = 0;
    let mut i = start;
    while i < cs.len()
        invariant
            start <= i <= cs.len(),
            cs@ == s@,
            acc <= max,
            parse_unsigned(s@, max as nat) == scan_digits(cs@.skip(i as int), acc as nat, max as nat),
        decreases cs.len() - i,
    {
        let c = cs[i];
        assert(cs@.skip(i as int)[0] == c);
        assert(cs@.skip(i as int).drop_first() =~= cs@.skip(i + 1));
        if !('0' <= c && c <= '9') {
            assert(scan_digits(cs@.skip(i as int), acc as nat, max as nat) == Err::<nat, IntErrorKind>(IntErrorKind::InvalidDigit));
            return Err(IntErrorKind::InvalidDigit);
        }
        let d: u64 = (c as u32 - 48) as u64;
        assert(d == digit_value(c));
        if d > max || acc > (max - d) / 10 {
            assert(acc * 10 + d > max) by (nonlinear_arith)
                requires d > max || acc > (max - d) / 10;
            return Err(IntErrorKind::PosOverflow);
        }
        assert(acc * 10 + d <= max) by (nonlinear_arith)
            requires acc <= (max - d) / 10, d <= 9;
        acc = acc * 10 + d;
        i = i + 1;
    }
    assert(cs@.skip(i as int).len() == 0);
    Ok(acc)
}

/// `bool::from_str`.
pub fn parse_bool_str(s: &str) -> (res: Option<bool>)
    ensures
        res == parse_bool(s@),
{
    let t = bool_string(true);
    let f = bool_string(false);
    if str_equal(s, t.as_str()) {
        Some(true)
    } else if str_equal(s, f.as_str()) {
        Some(false)
    } else {
        None
    }
}

} // verus!
