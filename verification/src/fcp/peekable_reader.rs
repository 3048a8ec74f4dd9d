//! Looking ahead at the lines of a stream without consuming them.
//!
//! The lines read from the stream but not consumed yet are kept in a [`PeekBuffer`].
//! Peeking at a line that is not buffered yet reads one more line from the stream and
//! buffers it; reading consumes the first buffered line, or a fresh one from the stream.
//! The stream itself is read by the caller, which hands the lines it read to the buffer.

use vstd::prelude::*;

verus! {

/// The lines that were read from the stream for peeking and not consumed yet, in order.
pub struct PeekBuffer {
    lines: Vec<String>,
}

impl View for PeekBuffer {
    type V = Seq<Seq<char>>;

    closed spec fn view(&self) -> Seq<Seq<char>> {
        self.lines@.map_values(|l: String| l@)
    }
}

/// A reader as a whole: the buffered lines and the lines the stream has yet to give.
pub struct ReaderState {
    pub buffer: Seq<Seq<char>>,
    pub rest: Seq<Seq<char>>,
}

/// The lines a reader will give, in order: the buffered ones, then those of the stream.
pub open spec fn pending(s: ReaderState) -> Seq<Seq<char>> {
    s.buffer + s.rest
}

/// Peeking at line `index`: a buffered line is returned as it is; otherwise one more line
/// is read from the stream, buffered and returned.
pub open spec fn peek_step(s: ReaderState, index: int) -> (Option<Seq<char>>, ReaderState) {
    if 0 <= index < s.buffer.len() {
        (Some(s.buffer[index]), s)
    } else if s.rest.len() > 0 {
        (Some(s.rest[0]), ReaderState { buffer: s.buffer.push(s.rest[0]), rest: s.rest.drop_first() })
    } else {
        (None, s)
    }
}

/// Reading a line: the first buffered line is consumed, or else a line of the stream.
pub open spec fn read_step(s: ReaderState) -> (Option<Seq<char>>, ReaderState) {
    if s.buffer.len() > 0 {
        (Some(s.buffer[0]), ReaderState { buffer: s.buffer.drop_first(), rest: s.rest })
    } else if s.rest.len() > 0 {
        (Some(s.rest[0]), ReaderState { buffer: s.buffer, rest: s.rest.drop_first() })
    } else {
        (None, s)
    }
}

impl PeekBuffer {
    pub fn new() -> (res: PeekBuffer)
        ensures
            res@ == Seq::<Seq<char>>::empty(),
    {
        let res = PeekBuffer { lines: Vec::new() };
        assert(res@ =~= Seq::<Seq<char>>::empty());
        res
    }

    pub fn len(&self) -> (res: usize)
        ensures
            res == self@.len(),
    {
        self.lines.len()
    }

    /// The buffered line at `index`, if there is one.
    pub fn cached(&self, index: usize) -> (res: Option<String>)
        ensures
            index < self@.len() ==> (res matches Some(l) && l@ == self@[index as int]),
            index >= self@.len() ==> res is None,
    {
        if index < self.lines.len() {
            Some(self.lines[index].clone())
        } else {
            None
        }
    }

    /// Buffers the line just read from the stream for a peek, and hands it back; the end
    /// of the stream buffers nothing.
    pub fn store_fetched(&mut self, line: Option<String>) -> (res: Option<String>)
        ensures
            match line {
                Some(l) => final(self)@ == old(self)@.push(l@) && (res matches Some(r) && r@ == l@),
                None => final(self)@ == old(self)@ && res is None,
            },
    {
        match line {
            Some(l) => {
                let copy = l.clone();
                self.lines.push(l);
                assert(self@ =~= old(self)@.push(copy@));
                Some(copy)
            },
            None => None,
        }
    }

    /// Consumes the first buffered line, if there is one.
    pub fn pop_front(&mut self) -> (res: Option<String>)
        ensures
            old(self)@.len() > 0 ==> (res matches Some(l) && l@ == old(self)@[0]) && final(self)@
                == old(self)@.drop_first(),
            old(self)@.len() == 0 ==> res is None && final(self)@ == old(self)@,
    {
        if self.lines.len() > 0 {
            let l = self.lines.remove(0);
            assert(self@ =~= old(self)@.drop_first());
            Some(l)
        } else {
            None
        }
    }

    /// Drops the lines a peeker has gone past (`advance_to_peeker_stats`).
    pub fn advance_to_peeker_stats(&mut self, stats: PeekerStats)
        requires
            stats.current_line <= old(self)@.len(),
        ensures
            final(self)@ == old(self)@.skip(stats.current_line as int),
    {
        let mut i: usize = 0;
        while i < stats.current_line
            invariant
                i <= stats.current_line <= old(self)@.len(),
                self@ == old(self)@.skip(i as int),
            decreases stats.current_line - i,
        {
            let ghost before = self@;
            assert(self.lines@.len() == self@.len());
            self.lines.remove(0);
            assert(self@ =~= before.drop_first());
            assert(old(self)@.skip(i as int).drop_first() =~= old(self)@.skip(i + 1));
            i = i + 1;
        }
    }
}

/// How far a peeker has looked: the number of lines it has gone past.
pub struct PeekerStats {
    pub current_line: usize,
}

impl PeekerStats {
    /// The stats of a peeker that is `rhs` lines less far (`Sub<usize>`).
    pub fn sub(self, rhs: usize) -> (res: PeekerStats)
        requires
            rhs <= self.current_line,
        ensures
            res.current_line == self.current_line - rhs,
    {
        PeekerStats { current_line: self.current_line - rhs }
    }
}

/// The position of a peeker: the index of the next line it looks at.
pub struct PeekCursor {
    pub next_line: usize,
}

impl PeekCursor {
    /// A peeker that has looked at nothing yet.
    pub fn new() -> (res: PeekCursor)
        ensures
            res.next_line == 0,
    {
        PeekCursor { next_line: 0 }
    }

    /// Moves on by one line and gives the index of the line to look at.
    pub fn advance(&mut self) -> (res: usize)
        requires
            old(self).next_line < usize::MAX,
        ensures
            final(self).next_line == old(self).next_line + 1,
            res == old(self).next_line,
    {
        self.next_line = self.next_line + 1;
        self.next_line - 1
    }

    /// The index of the line the peeker looked at last; a peeker that looked at nothing
    /// has none.
    pub fn current_index(&self) -> (res: usize)
        requires
            self.next_line > 0,
        ensures
            res == self.next_line - 1,
    {
        self.next_line - 1
    }

    /// How far the peeker has looked (`From<Peeker>`).
    pub fn stats(&self) -> (res: PeekerStats)
        ensures
            res.current_line == self.next_line,
    {
        PeekerStats { current_line: self.next_line }
    }
}

/// Peeking consumes nothing: the lines the reader will give stay the same.
pub proof fn lemma_peek_keeps_pending(s: ReaderState, index: int)
    ensures
        pending(peek_step(s, index).1) == pending(s),
{
    if !(0 <= index < s.buffer.len()) && s.rest.len() > 0 {
        assert(s.buffer.push(s.rest[0]) + s.rest.drop_first() =~= s.buffer + s.rest);
    }
}

/// Peeking at the lines in order, from the first unbuffered one on, shows the lines the
/// reader will give: a peek at `index` shows line `index` of them.
pub proof fn lemma_peek_shows_pending(s: ReaderState, index: int)
    requires
        0 <= index <= s.buffer.len(),
    ensures
        index < pending(s).len() ==> peek_step(s, index).0 == Some(pending(s)[index]),
        index >= pending(s).len() ==> peek_step(s, index).0 is None,
{
}

/// A read gives the first line the reader will give, and the reader then gives the rest.
pub proof fn lemma_read_takes_first(s: ReaderState)
    ensures
        pending(s).len() > 0 ==> read_step(s).0 == Some(pending(s)[0]),
        pending(s).len() == 0 ==> read_step(s).0 is None,
        pending(s).len() > 0 ==> pending(read_step(s).1) == pending(s).drop_first(),
        pending(s).len() == 0 ==> pending(read_step(s).1) == pending(s),
{
    if s.buffer.len() > 0 {
        assert(s.buffer.drop_first() + s.rest =~= (s.buffer + s.rest).drop_first());
    } else if s.rest.len() > 0 {
        assert(s.buffer + s.rest.drop_first() =~= (s.buffer + s.rest).drop_first());
    }
}

/// A read after a peek at the first line gives the line the peek showed.
pub proof fn lemma_read_after_peek(s: ReaderState)
    ensures
        read_step(peek_step(s, 0).1).0 == peek_step(s, 0).0,
{
    lemma_peek_keeps_pending(s, 0);
    lemma_read_takes_first(s);
    lemma_read_takes_first(peek_step(s, 0).1);
    if s.buffer.len() == 0 && s.rest.len() > 0 {
        assert(pending(s)[0] == s.rest[0]);
    }
}

/// Dropping the lines a peeker has gone past leaves the lines after them.
pub proof fn lemma_advance_skips(s: ReaderState, n: int)
    requires
        0 <= n <= s.buffer.len(),
    ensures
        pending(ReaderState { buffer: s.buffer.skip(n), rest: s.rest }) == pending(s).skip(n),
{
    assert(s.buffer.skip(n) + s.rest =~= (s.buffer + s.rest).skip(n));
}

} // verus!
