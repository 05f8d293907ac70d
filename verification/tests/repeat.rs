use regex::Regex;
use rubigo_yes::{build_buffer, fill, newline_terminate, next_step, Step, BUFSIZE};
use std::io::{self, Write};

#[test]
fn string_newline_terminate_works() {
    assert_eq!(newline_terminate("word"), "word\n");
    assert_eq!(newline_terminate("myname"), "myname\n");
}

#[test]
fn newline_terminate_of_empty_and_of_lines() {
    assert_eq!(newline_terminate(""), "\n");
    assert_eq!(newline_terminate("a\n"), "a\n\n");
    assert_eq!(newline_terminate("\u{e9}t\u{e9}"), "\u{e9}t\u{e9}\n");
}

#[test]
fn string_fill_works() {
    let max = 1500;
    let buf = fill("myword\n", max);

    // make sure string isn't too long
    assert!(buf.len() <= max);

    // make sure buf only contains the word followed by a newline
    let re = Regex::new(r"^(myword\n)+$").unwrap();
    assert!(re.is_match(&buf));
}

#[test]
fn fill_takes_the_largest_count_that_fits() {
    assert_eq!(fill("myword\n", 1500), "myword\n".repeat(214));
    assert_eq!(fill("myword\n", 1500).len(), 1498);
    assert_eq!(fill("ab", 5), "abab");
    assert_eq!(fill("ab", 4), "abab");
    assert_eq!(fill("ab", 1), "");
    assert_eq!(fill("ab", 0), "");
    assert_eq!(fill("x", 3), "xxx");
}

#[test]
fn fill_counts_bytes_not_characters() {
    // two bytes each, so three of them fit into seven bytes
    assert_eq!(fill("\u{e9}", 7), "\u{e9}\u{e9}\u{e9}");
    assert_eq!(fill("\u{20ac}\n", 8), "\u{20ac}\n\u{20ac}\n");
}

#[test]
fn build_buffer_fits_and_is_largest() {
    for (s, c) in [("y", 16384usize), ("myword", 1500), ("a b", 4), ("a b", 9), ("", 3), ("\u{e9}", 10)] {
        let unit = format!("{}\n", s);
        let buf = build_buffer(s, c);
        let k = c / unit.len();
        assert!(buf.len() <= c);
        assert_eq!(buf, unit.repeat(k));
        assert!(k * unit.len() <= c);
        assert!((k + 1) * unit.len() > c);
    }
}

#[test]
fn build_buffer_gives_the_same_for_the_same() {
    assert_eq!(build_buffer("some words", 100), build_buffer("some words", 100));
    assert_eq!(build_buffer("y", BUFSIZE), build_buffer("y", BUFSIZE));
}

#[test]
fn build_buffer_at_the_boundary() {
    // exactly one line fits
    assert_eq!(build_buffer("word", 5), "word\n");
    // one byte short of a line: nothing
    assert_eq!(build_buffer("word", 4), "");
    assert_eq!(build_buffer("word", 0), "");
    // one byte short of two lines
    assert_eq!(build_buffer("word", 9), "word\n");
    assert_eq!(build_buffer("word", 10), "word\nword\n");
}

#[test]
fn build_buffer_of_default_size() {
    let buf = build_buffer("y", BUFSIZE);
    assert_eq!(BUFSIZE, 16384);
    assert_eq!(buf.len(), 16384);
    assert_eq!(buf, "y\n".repeat(8192));
    let buf = build_buffer("yes", BUFSIZE);
    assert_eq!(buf.len(), 16384);
    let buf = build_buffer("hello", BUFSIZE);
    assert_eq!(buf.len(), 16380);
}

#[test]
fn next_step_goes_on_after_success_and_stops_on_failure() {
    assert_eq!(next_step::<u8>(Ok(())), Step::WriteAgain);
    assert_eq!(next_step(Err::<(), u8>(7)), Step::Stop(7));
    assert_eq!(next_step(Err::<(), &str>("closed")), Step::Stop("closed"));
}

/// Writes `data` to `sink` until a write fails, as the library decides.
fn write_repeat<W: Write>(sink: &mut W, data: &[u8]) -> io::Error {
    loop {
        match next_step(sink.write_all(data)) {
            Step::WriteAgain => continue,
            Step::Stop(failure) => return failure,
        }
    }
}

struct Full {
    attempts: usize,
}

impl Full {
    fn new() -> Self {
        Full { attempts: 0 }
    }
}

impl Write for Full {
    fn write(&mut self, _: &[u8]) -> io::Result<usize> {
        self.attempts += 1;
        Err(io::Error::new(io::ErrorKind::BrokenPipe, "full"))
    }

    fn flush(&mut self) -> io::Result<()> {
        Ok(())
    }
}

/// Takes whole chunks until its room is used up, and keeps them.
struct Limited {
    room: usize,
    chunks: Vec<Vec<u8>>,
}

impl Write for Limited {
    fn write(&mut self, data: &[u8]) -> io::Result<usize> {
        if self.room == 0 {
            return Err(io::Error::new(io::ErrorKind::WriteZero, "no room"));
        }
        self.room -= 1;
        self.chunks.push(data.to_vec());
        Ok(data.len())
    }

    fn flush(&mut self) -> io::Result<()> {
        Ok(())
    }
}

#[test]
fn write_repeat_stops_on_error() {
    assert_eq!(write_repeat(&mut Full::new(), "some data".as_bytes()).kind(),
               io::ErrorKind::BrokenPipe);
}

#[test]
fn write_repeat_makes_one_attempt_on_a_full_sink() {
    let mut sink = Full::new();
    let failure = write_repeat(&mut sink, "some data".as_bytes());
    assert_eq!(sink.attempts, 1);
    assert_eq!(failure.kind(), io::ErrorKind::BrokenPipe);
    assert_eq!(failure.to_string(), "full");
}

#[test]
fn write_repeat_writes_whole_lines_until_the_sink_fails() {
    let re = Regex::new(r"^(word\n)+$").unwrap();
    let data = build_buffer("word", 64);
    let mut sink = Limited { room: 5, chunks: Vec::new() };
    let failure = write_repeat(&mut sink, data.as_bytes());
    assert_eq!(failure.kind(), io::ErrorKind::WriteZero);
    assert_eq!(sink.chunks.len(), 5);
    for chunk in &sink.chunks {
        assert!(re.is_match(std::str::from_utf8(chunk).unwrap()));
        assert_eq!(chunk.as_slice(), data.as_bytes());
    }
}
