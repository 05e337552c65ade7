use docker_api::error::Error;
use docker_api::tty::{demux, TtyChunk, TtyDecoder};

fn frame(kind: u8, payload: &[u8]) -> Vec<u8> {
    let n = payload.len() as u32;
    let mut v = vec![kind, 0, 0, 0];
    v.extend_from_slice(&n.to_be_bytes());
    v.extend_from_slice(payload);
    v
}

#[test]
fn stdout_then_stderr_frames() {
    let mut bytes = frame(1, b"hello");
    bytes.extend(frame(2, b"err"));
    let (items, used) = demux(&bytes);
    assert_eq!(
        items,
        vec![Ok(TtyChunk::StdOut(b"hello".to_vec())), Ok(TtyChunk::StdErr(b"err".to_vec()))]
    );
    assert_eq!(used, bytes.len());
}

#[test]
fn stdin_frame_is_a_protocol_violation() {
    let mut bytes = frame(0, b"x");
    bytes.extend(frame(1, b"after"));
    let (items, used) = demux(&bytes);
    assert_eq!(items, vec![Err(Error::ProtocolViolation)]);
    assert_eq!(used, 9);
}

#[test]
fn unknown_stream_type_is_reported_and_skipped() {
    let mut bytes = frame(7, b"??");
    bytes.extend(frame(1, b"ok"));
    let (items, used) = demux(&bytes);
    assert_eq!(
        items,
        vec![Err(Error::InvalidStreamType(7)), Ok(TtyChunk::StdOut(b"ok".to_vec()))]
    );
    assert_eq!(used, bytes.len());
}

#[test]
fn incomplete_frame_is_left_over() {
    let mut bytes = frame(1, b"ab");
    bytes.extend(&frame(2, b"cdef")[..9]);
    let (items, used) = demux(&bytes);
    assert_eq!(items, vec![Ok(TtyChunk::StdOut(b"ab".to_vec()))]);
    assert_eq!(used, 10);
    let (none, zero) = demux(&[1, 0, 0]);
    assert!(none.is_empty());
    assert_eq!(zero, 0);
}

#[test]
fn empty_payload_frame() {
    let (items, used) = demux(&frame(2, b""));
    assert_eq!(items, vec![Ok(TtyChunk::StdErr(vec![]))]);
    assert_eq!(used, 8);
}

#[test]
fn decoder_joins_frames_split_across_reads() {
    let mut bytes = frame(1, b"hello");
    bytes.extend(frame(2, b"err"));
    let mut d = TtyDecoder::new(true);
    assert!(d.feed(&bytes[..3]).is_empty());
    assert_eq!(d.feed(&bytes[3..15]), vec![Ok(TtyChunk::StdOut(b"hello".to_vec()))]);
    assert_eq!(d.feed(&bytes[15..]), vec![Ok(TtyChunk::StdErr(b"err".to_vec()))]);
    assert!(!d.closed());
}

#[test]
fn decoder_stops_after_protocol_violation() {
    let mut d = TtyDecoder::new(true);
    assert_eq!(d.feed(&frame(0, b"in")), vec![Err(Error::ProtocolViolation)]);
    assert!(d.closed());
    assert!(d.feed(&frame(1, b"more")).is_empty());
}

#[test]
fn raw_stream_is_standard_output() {
    let mut d = TtyDecoder::new(false);
    assert_eq!(d.feed(b"\x01abc"), vec![Ok(TtyChunk::StdOut(b"\x01abc".to_vec()))]);
    assert!(d.feed(b"").is_empty());
}
