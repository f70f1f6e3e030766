use zeevum_client::framing::{too_long_text, LineReader, LineStep};

/// Reads one line off chunks; what is left of the chunk that ended it comes
/// back too.
fn read(max: usize, chunks: &[&[u8]]) -> (Option<Result<String, String>>, Vec<u8>) {
    let mut reader = LineReader::new();
    for chunk in chunks {
        let (used, step) = reader.read_frame(max, chunk);
        match step {
            LineStep::More => assert_eq!(used, chunk.len()),
            LineStep::Line(l) => return (Some(Ok(l)), chunk[used..].to_vec()),
            LineStep::TooLong => return (Some(Err(too_long_text())), chunk[used..].to_vec()),
        }
    }
    (None, Vec::new())
}

#[test]
fn line_in_one_chunk() {
    let (line, rest) = read(100, &[b"hello\nrest"]);
    assert_eq!(line, Some(Ok("hello\n".to_string())));
    assert_eq!(rest, b"rest");
}

#[test]
fn chunks_do_not_matter() {
    let stream = "привет, мир\nдальше".as_bytes();
    let expected = read(100, &[stream]).0;
    for cut in 1..stream.len() {
        assert_eq!(read(100, &[&stream[..cut], &stream[cut..]]).0, expected);
    }
    let bytes: Vec<&[u8]> = stream.chunks(1).collect();
    assert_eq!(read(100, &bytes).0, expected);
}

#[test]
fn end_of_stream_gives_what_there_is() {
    assert_eq!(read(100, &[b"half", b""]).0, Some(Ok("half".to_string())));
    assert_eq!(read(100, &[b""]).0, Some(Ok("".to_string())));
    assert_eq!(read(100, &[b"half"]).0, None);
}

#[test]
fn long_lines_are_refused() {
    assert_eq!(read(6, &[b"hello\n"]).0, Some(Ok("hello\n".to_string())));
    let error = Some(Err("frame exceeds MAX_LINE_BYTES".to_string()));
    assert_eq!(read(5, &[b"hello\n"]).0, error);
    assert_eq!(read(5, &[b"hello!"]).0, error);
    assert_eq!(read(5, &[b"hel", b"lo!"]).0, error);
    assert_eq!(read(5, &[b"hello"]).0, None);
}

#[test]
fn invalid_bytes_are_replaced() {
    let (line, _) = read(100, &[b"a\xffb\n"]);
    assert_eq!(line, Some(Ok("a\u{fffd}b\n".to_string())));
}

#[test]
fn reader_holds_what_it_took() {
    let mut reader = LineReader::new();
    assert!(matches!(reader.read_frame(10, b"ab"), (2, LineStep::More)));
    assert!(matches!(reader.read_frame(10, b"c\nd"), (2, LineStep::Line(_))));
    assert_eq!(reader.held, b"abc\n");
}

#[test]
fn invalid_bytes_make_and_take_no_newline() {
    for bytes in [&b"\xff\n"[..], b"\xc3\n", b"\xe2\x82\n", b"a\xf0\x9f\x98\n"] {
        match read(100, &[bytes]).0 {
            Some(Ok(line)) => assert_eq!(line.find('\n'), Some(line.len() - 1)),
            other => panic!("{:?}", other),
        }
    }
    for bytes in [&b"\xff"[..], b"\xc0\x8a", b"\xe0\x80\x8a", b"\xf0\x9f"] {
        match read(100, &[bytes, b""]).0 {
            Some(Ok(line)) => assert!(!line.contains('\n')),
            other => panic!("{:?}", other),
        }
    }
}
