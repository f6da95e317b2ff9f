use arcrelay_desktop::action_output::{
    line_entry, output_text, shell_outcome, OutputCapture, MAX_CAPTURE_BYTES, MAX_PENDING_LINE,
};

#[test]
fn lines_are_streamed_as_they_complete() {
    let mut c = OutputCapture::new();
    assert!(c.take_chunk(b"hel").is_empty());
    let lines = c.take_chunk(b"lo\nwor");
    assert_eq!(lines, vec![b"hello\n".to_vec()]);
    let lines = c.take_chunk(b"ld\n\nend");
    assert_eq!(lines, vec![b"world\n".to_vec(), b"\n".to_vec()]);
    let (captured, rest) = c.finish();
    assert_eq!(captured, b"hello\nworld\n\nend".to_vec());
    assert_eq!(rest, Some(b"end".to_vec()));
}

#[test]
fn long_unfinished_lines_are_flushed_and_output_is_bounded() {
    let mut c = OutputCapture::new();
    let block = vec![b'x'; MAX_PENDING_LINE];
    let lines = c.take_chunk(&block);
    assert_eq!(lines.len(), 1);
    assert_eq!(lines[0].len(), MAX_PENDING_LINE);
    assert!(c.pending.is_empty());
    let big = vec![b'y'; MAX_CAPTURE_BYTES];
    c.take_chunk(&big);
    let (captured, rest) = c.finish();
    assert_eq!(captured.len(), MAX_CAPTURE_BYTES);
    assert!(captured[..MAX_PENDING_LINE].iter().all(|b| *b == b'x'));
    assert!(captured[MAX_PENDING_LINE..].iter().all(|b| *b == b'y'));
    assert_eq!(rest, None);
}

#[test]
fn entries_and_results_read_as_text() {
    assert_eq!(line_entry("[stderr] ", b"oops  \n", true), "[stderr] oops");
    assert_eq!(line_entry("", b"half ", false), "half ");
    assert_eq!(line_entry("", &[0x66, 0xff, 0x0a], true), "f\u{fffd}");
    assert_eq!(output_text(b"ok"), "ok");
    assert_eq!(shell_outcome(true, String::new(), "", "0"), Ok("OK".to_string()));
    assert_eq!(shell_outcome(true, "out".into(), "", "0"), Ok("out".to_string()));
    assert_eq!(
        shell_outcome(false, "out".into(), "bad", "exit status: 2"),
        Err("Exit exit status: 2: bad".to_string())
    );
}
