use mistral_ollama_proxy::frame::{BufferOverflow, FrameReassembler};

fn feed_all(chunks: &[&[u8]], ceiling: usize) -> Result<Vec<Vec<u8>>, BufferOverflow> {
    let mut reassembler = FrameReassembler::new(ceiling);
    let mut frames: Vec<Vec<u8>> = Vec::new();
    for chunk in chunks {
        frames.extend(reassembler.feed(chunk)?);
    }
    Ok(frames)
}

#[test]
fn frames_are_identical_for_every_split_point() {
    let stream = b"data: one\ndata: two\n  data: three  \n";
    let whole = feed_all(&[stream.as_slice()], 1_000_000).unwrap();
    assert_eq!(
        whole,
        vec![
            b"data: one".to_vec(),
            b"data: two".to_vec(),
            b"data: three".to_vec()
        ]
    );
    for split in 0..=stream.len() {
        let (a, b) = stream.split_at(split);
        let frames = feed_all(&[a, b], 1_000_000).unwrap();
        assert_eq!(frames, whole, "split at {split} changed the frames");
    }
}

#[test]
fn oversized_chunk_overflows_before_any_frame() {
    let mut reassembler = FrameReassembler::new(10);
    let result = reassembler.feed(b"data: x\ndata: y\n");
    assert_eq!(result, Err(BufferOverflow));
}

#[test]
fn overflow_counts_previously_buffered_bytes() {
    let mut reassembler = FrameReassembler::new(10);
    assert_eq!(reassembler.feed(b"12345678").unwrap(), Vec::<Vec<u8>>::new());
    assert_eq!(reassembler.feed(b"123"), Err(BufferOverflow));
}

#[test]
fn partial_line_stays_buffered_until_terminated() {
    let mut reassembler = FrameReassembler::new(100);
    assert_eq!(reassembler.feed(b"ab").unwrap(), Vec::<Vec<u8>>::new());
    assert_eq!(reassembler.feed(b"c\nd").unwrap(), vec![b"abc".to_vec()]);
    assert_eq!(reassembler.feed(b"e\n").unwrap(), vec![b"de".to_vec()]);
}

#[test]
fn blank_and_whitespace_lines_are_dropped() {
    let mut reassembler = FrameReassembler::new(100);
    let frames = reassembler.feed(b"\n \t\r\n x \n").unwrap();
    assert_eq!(frames, vec![b"x".to_vec()]);
}

#[test]
fn draining_frames_frees_buffer_space() {
    let mut reassembler = FrameReassembler::new(10);
    assert_eq!(
        reassembler.feed(b"123456789\n").unwrap(),
        vec![b"123456789".to_vec()]
    );
    assert_eq!(
        reassembler.feed(b"abcdefgh\n").unwrap(),
        vec![b"abcdefgh".to_vec()]
    );
}
