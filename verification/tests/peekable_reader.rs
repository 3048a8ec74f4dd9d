use mycelink::fcp::peekable_reader::{PeekBuffer, PeekCursor, PeekerStats};
use mycelink::text::line_is_blank;
use std::collections::VecDeque;

/// A reader over fixed lines, driving the buffer as a stream reader would.
struct Reader {
    stream: VecDeque<String>,
    buffer: PeekBuffer,
}

impl Reader {
    fn new(text: &str) -> Reader {
        Reader { stream: text.lines().map(String::from).collect(), buffer: PeekBuffer::new() }
    }

    fn get_peeked_line(&mut self, index: usize) -> Option<String> {
        match self.buffer.cached(index) {
            Some(line) => Some(line),
            None => {
                let fetched = self.stream.pop_front();
                self.buffer.store_fetched(fetched)
            }
        }
    }

    fn read_line(&mut self) -> Option<String> {
        match self.buffer.pop_front() {
            Some(line) => Some(line),
            None => self.stream.pop_front(),
        }
    }
}

struct Peeker<'a> {
    reader: &'a mut Reader,
    cursor: PeekCursor,
}

impl<'a> Peeker<'a> {
    fn new(reader: &'a mut Reader) -> Peeker<'a> {
        Peeker { reader, cursor: PeekCursor::new() }
    }

    fn next_line(&mut self) -> Option<String> {
        let index = self.cursor.advance();
        self.reader.get_peeked_line(index)
    }

    fn next_contentful_line(&mut self) -> Option<String> {
        let mut res = self.next_line();
        while res.as_deref().map(line_is_blank).unwrap_or(false) {
            res = self.next_line();
        }
        res
    }
}

#[test]
fn test_multiple_peeker() {
    let mut reader = Reader::new("Line One\nLine Two\n");
    let mut peeker = Peeker::new(&mut reader);
    assert_eq!(peeker.next_line().as_deref(), Some("Line One"));
    assert_eq!(peeker.next_line().as_deref(), Some("Line Two"));
    let mut peeker = Peeker::new(&mut reader);
    assert_eq!(peeker.next_line().as_deref(), Some("Line One"));
    assert_eq!(peeker.next_line().as_deref(), Some("Line Two"));
}

#[test]
fn test_peek_and_read() {
    let mut reader = Reader::new("Line One\nLine Two\n");
    let mut peeker = Peeker::new(&mut reader);
    assert_eq!(peeker.next_line().as_deref(), Some("Line One"));
    assert_eq!(reader.read_line().as_deref(), Some("Line One"));
    assert_eq!(reader.read_line().as_deref(), Some("Line Two"));
}

#[test]
fn test_read_and_peek() {
    let mut reader = Reader::new("Line One\nLine Two\n");
    assert_eq!(reader.read_line().as_deref(), Some("Line One"));
    let mut peeker = Peeker::new(&mut reader);
    assert_eq!(peeker.next_line().as_deref(), Some("Line Two"));
}

#[test]
fn test_peek_read_peek() {
    let mut reader = Reader::new("Line One\nLine Two\n");
    let mut peeker = Peeker::new(&mut reader);
    assert_eq!(peeker.next_line().as_deref(), Some("Line One"));
    assert_eq!(reader.read_line().as_deref(), Some("Line One"));
    let mut peeker = Peeker::new(&mut reader);
    assert_eq!(peeker.next_line().as_deref(), Some("Line Two"));
}

#[test]
fn test_next_contentful_line() {
    let mut reader = Reader::new("Line One\n\n\nLine Two\n");
    let mut peeker = Peeker::new(&mut reader);
    assert_eq!(peeker.next_contentful_line().as_deref(), Some("Line One"));
    assert_eq!(peeker.next_contentful_line().as_deref(), Some("Line Two"));
    assert_eq!(peeker.next_contentful_line(), None);
    assert_eq!(reader.read_line().as_deref(), Some("Line One"));
}

#[test]
fn advancing_drops_the_lines_a_peeker_went_past() {
    let mut reader = Reader::new("a\nb\nc\n");
    let mut peeker = Peeker::new(&mut reader);
    peeker.next_line();
    peeker.next_line();
    let stats = peeker.cursor.stats();
    assert_eq!(stats.current_line, 2);
    let stats = stats.sub(1);
    assert_eq!(stats.current_line, 1);
    reader.buffer.advance_to_peeker_stats(stats);
    assert_eq!(reader.buffer.len(), 1);
    assert_eq!(reader.read_line().as_deref(), Some("b"));
    assert_eq!(reader.read_line().as_deref(), Some("c"));
    assert_eq!(reader.read_line(), None);
}

#[test]
fn cursor_and_stats() {
    let mut cursor = PeekCursor::new();
    assert_eq!(cursor.advance(), 0);
    assert_eq!(cursor.advance(), 1);
    assert_eq!(cursor.current_index(), 1);
    assert_eq!(PeekerStats { current_line: 5 }.sub(5).current_line, 0);
}
