use process_console::streamer::LineStreamer;

#[test]
fn three_lines_arrive_in_order() {
    let mut st = LineStreamer::new(false);
    let events = st.push_chunk(b"A\nB\nC\n");
    assert_eq!(events.len(), 3);
    assert_eq!(events[0].message, b"A".to_vec());
    assert_eq!(events[1].message, b"B".to_vec());
    assert_eq!(events[2].message, b"C".to_vec());
    assert!(events.iter().all(|e| !e.is_error));
    assert!(st.end_of_stream().is_none());
}

#[test]
fn lines_split_across_chunks() {
    let mut st = LineStreamer::new(false);
    assert_eq!(st.push_chunk(b"hel").len(), 0);
    let events = st.push_chunk(b"lo\nwor");
    assert_eq!(events.len(), 1);
    assert_eq!(events[0].message, b"hello".to_vec());
    let last = st.end_of_stream().expect("an unterminated final line is emitted");
    assert_eq!(last.message, b"wor".to_vec());
    assert!(!last.is_error);
}

#[test]
fn carriage_returns_are_stripped_with_the_terminator() {
    let mut st = LineStreamer::new(false);
    let events = st.push_chunk(b"line1\r\nline2\r\n");
    assert_eq!(events.len(), 2);
    assert_eq!(events[0].message, b"line1".to_vec());
    assert_eq!(events[1].message, b"line2".to_vec());
}

#[test]
fn interior_carriage_returns_are_kept() {
    let mut st = LineStreamer::new(false);
    let events = st.push_chunk(b"a\rb\n");
    assert_eq!(events.len(), 1);
    assert_eq!(events[0].message, b"a\rb".to_vec());
}

#[test]
fn empty_lines_are_emitted() {
    let mut st = LineStreamer::new(false);
    let events = st.push_chunk(b"\n\n");
    assert_eq!(events.len(), 2);
    assert_eq!(events[0].message, b"".to_vec());
    assert_eq!(events[1].message, b"".to_vec());
}

#[test]
fn error_channel_tag_is_fixed_at_construction() {
    let mut st = LineStreamer::new(true);
    let events = st.push_chunk(b"warning: low memory\n");
    assert_eq!(events.len(), 1);
    assert!(events[0].is_error);
    assert_eq!(events[0].message, b"warning: low memory".to_vec());
}

#[test]
fn empty_stream_yields_nothing() {
    let mut st = LineStreamer::new(false);
    assert_eq!(st.push_chunk(b"").len(), 0);
    assert!(st.end_of_stream().is_none());
}

#[test]
fn terminator_split_across_chunks() {
    let mut st = LineStreamer::new(false);
    assert_eq!(st.push_chunk(b"split\r").len(), 0);
    let events = st.push_chunk(b"\nrest\n");
    assert_eq!(events.len(), 2);
    assert_eq!(events[0].message, b"split".to_vec());
    assert_eq!(events[1].message, b"rest".to_vec());
}

#[test]
fn final_line_with_bare_carriage_return() {
    let mut st = LineStreamer::new(false);
    assert_eq!(st.push_chunk(b"x\r").len(), 0);
    let last = st.end_of_stream().expect("the pending line is emitted at end of stream");
    assert_eq!(last.message, b"x".to_vec());
}
