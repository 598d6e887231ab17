use parrun::lines::{format_line, trim_trailing, LineBuffer};

#[test]
fn output_fidelity_with_label() {
    let mut buffer = LineBuffer::new();
    let lines = buffer.feed(b"hello\nworld\n");
    assert_eq!(lines.len(), 2);
    let prefix = b"x".to_vec();
    let first = format_line(Some(&prefix), &lines[0]);
    let second = format_line(Some(&prefix), &lines[1]);
    assert_eq!(first, b"[x] hello\r\n".to_vec());
    assert_eq!(second, b"[x] world\r\n".to_vec());
}

#[test]
fn lines_split_at_newlines() {
    let mut buffer = LineBuffer::new();
    let lines = buffer.feed(b"one\ntwo\nthr");
    assert_eq!(lines, vec![b"one".to_vec(), b"two".to_vec()]);
    let lines = buffer.feed(b"ee\n");
    assert_eq!(lines, vec![b"three".to_vec()]);
}

#[test]
fn chunk_boundaries_do_not_matter() {
    let mut whole = LineBuffer::new();
    let expect = whole.feed(b"alpha\nbeta\ngamma\n");
    let mut pieces = LineBuffer::new();
    let mut got = Vec::new();
    got.extend(pieces.feed(b"alp"));
    got.extend(pieces.feed(b"ha\nbeta"));
    got.extend(pieces.feed(b"\ngamma\n"));
    assert_eq!(got, expect);
}

#[test]
fn empty_lines_are_kept() {
    let mut buffer = LineBuffer::new();
    let lines = buffer.feed(b"\n\n");
    assert_eq!(lines, vec![Vec::new(), Vec::new()]);
}

#[test]
fn finish_hands_out_unterminated_tail() {
    let mut buffer = LineBuffer::new();
    let lines = buffer.feed(b"done\npart");
    assert_eq!(lines, vec![b"done".to_vec()]);
    assert_eq!(buffer.finish(), b"part".to_vec());
    // The buffer is empty again and keeps working.
    assert_eq!(buffer.finish(), Vec::<u8>::new());
    let lines = buffer.feed(b"next\n");
    assert_eq!(lines, vec![b"next".to_vec()]);
}

#[test]
fn trim_removes_trailing_whitespace() {
    assert_eq!(trim_trailing(b"abc \t\r"), b"abc".to_vec());
    assert_eq!(trim_trailing(b"  abc"), b"  abc".to_vec());
    assert_eq!(trim_trailing(b"   "), Vec::<u8>::new());
    assert_eq!(trim_trailing(b""), Vec::<u8>::new());
}

#[test]
fn format_without_prefix() {
    let rendered = format_line(None, b"hello\r");
    assert_eq!(rendered, b"hello\r\n".to_vec());
}

#[test]
fn carriage_return_before_newline_is_trimmed() {
    let mut buffer = LineBuffer::new();
    let lines = buffer.feed(b"hi\r\n");
    assert_eq!(lines, vec![b"hi\r".to_vec()]);
    let rendered = format_line(None, &lines[0]);
    assert_eq!(rendered, b"hi\r\n".to_vec());
}
