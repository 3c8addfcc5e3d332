use codex_onlysq::sse::classify_line;
use codex_onlysq::sse::SseLine;
use codex_onlysq::sse::SseLineBuffer;

#[test]
fn lines_are_split_at_newlines_and_partial_lines_wait() {
    let mut buf = SseLineBuffer::new();
    buf.push_bytes(b"data: a\r\ndata: b");
    assert_eq!(buf.next_line(), Some(b"data: a\r\n".to_vec()));
    assert_eq!(buf.next_line(), None);
    buf.push_bytes(b"\n\n");
    assert_eq!(buf.next_line(), Some(b"data: b\n".to_vec()));
    assert_eq!(buf.next_line(), Some(b"\n".to_vec()));
    assert_eq!(buf.next_line(), None);
}

#[test]
fn data_lines_give_their_payload() {
    assert_eq!(classify_line(b"data: {\"id\":\"x\"}\n"), SseLine::Data("{\"id\":\"x\"}".to_string()));
    assert_eq!(classify_line(b"  data:{\"a\":1}  \r\n"), SseLine::Data("{\"a\":1}".to_string()));
    assert_eq!(classify_line(b"data:\t\xc2\xa0payload\n"), SseLine::Data("payload".to_string()));
}

#[test]
fn done_marker_ends_the_stream() {
    assert_eq!(classify_line(b"data: [DONE]\n"), SseLine::Done);
    assert_eq!(classify_line(b"data:[DONE]\r\n"), SseLine::Done);
    assert_eq!(classify_line(b"data: [DONE] x\n"), SseLine::Data("[DONE] x".to_string()));
}

#[test]
fn other_lines_are_skipped() {
    assert_eq!(classify_line(b"\n"), SseLine::Skip);
    assert_eq!(classify_line(b"   \r\n"), SseLine::Skip);
    assert_eq!(classify_line(b": keep-alive\n"), SseLine::Skip);
    assert_eq!(classify_line(b"event: message\n"), SseLine::Skip);
    assert_eq!(classify_line(b"data: \xff\xfe\n"), SseLine::Skip);
    assert_eq!(classify_line(b"DATA: x\n"), SseLine::Skip);
}

#[test]
fn empty_payload_is_data() {
    assert_eq!(classify_line(b"data:\n"), SseLine::Data(String::new()));
}
