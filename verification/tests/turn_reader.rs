use codex_onlysq::chat_stream::ChatChoice;
use codex_onlysq::chat_stream::ChatChunk;
use codex_onlysq::chat_stream::ChatDelta;
use codex_onlysq::chat_stream::StreamEvent;
use codex_onlysq::chat_stream::STREAM_CUT_SHORT;
use codex_onlysq::fallback::FallbackArguments;
use codex_onlysq::string_set::StringSet;
use codex_onlysq::turn_reader::ReadOutcome;
use codex_onlysq::turn_reader::TurnReader;
use codex_onlysq::turn_reader::TurnStep;

/// A toy reading of payloads: `stop` ends the message, `bad` reads as
/// nothing, anything else is a text delta.
fn parse(payload: &str) -> Option<ChatChunk> {
    if payload == "bad" {
        return None;
    }
    let (content, finish) = if payload == "stop" { (None, Some("stop".to_string())) } else { (Some(payload.to_string()), None) };
    Some(ChatChunk {
        id: Some("resp_1".to_string()),
        choices: vec![ChatChoice { delta: ChatDelta { content, tool_calls: None }, finish_reason: finish }],
        usage: None,
    })
}

/// Runs a whole turn over the given reads, as the transport does, and
/// returns the payloads handed out and the events, printed.
fn run(reads: Vec<ReadOutcome>, consumer_gone_after: Option<usize>) -> (Vec<String>, Vec<String>) {
    let (mut reader, created) = TurnReader::start();
    let mut events = vec![format!("{created:?}")];
    let mut payloads = Vec::new();
    for (k, outcome) in reads.into_iter().enumerate() {
        let gone = consumer_gone_after.map_or(false, |n| k >= n);
        match reader.after_read(gone, outcome) {
            TurnStep::ReadOn => {}
            TurnStep::Finish => break,
            TurnStep::Fail(ev) => {
                events.push(format!("{ev:?}"));
                return (payloads, events);
            }
        }
        while let Some(p) = reader.next_payload() {
            payloads.push(p.clone());
            if let Some(chunk) = parse(&p) {
                for ev in reader.apply_chunk(&chunk) {
                    events.push(format!("{ev:?}"));
                }
            }
        }
        if reader.is_done() {
            break;
        }
    }
    for ev in reader.finish(&FallbackArguments::new(), &StringSet::new()) {
        events.push(format!("{ev:?}"));
    }
    (payloads, events)
}

fn bytes(chunks: &[&str]) -> Vec<ReadOutcome> {
    let mut v: Vec<ReadOutcome> = chunks.iter().map(|c| ReadOutcome::Bytes(c.as_bytes().to_vec())).collect();
    v.push(ReadOutcome::End);
    v
}

#[test]
fn chunking_and_line_form_do_not_change_the_turn() {
    let whole = run(bytes(&["data: Hel\ndata: lo\ndata: stop\ndata: [DONE]\n"]), None);
    let split = run(bytes(&["da", "ta: Hel\r", "\n: ping\n\n   data:  lo  \r\ndata: bad\nevent: x\ndata: st", "op\nda", "ta: [DONE]\r\n"]), None);
    assert_eq!(whole.1, split.1);
    assert_eq!(whole.0, vec!["Hel", "lo", "stop"]);
    assert_eq!(split.0, vec!["Hel", "lo", "bad", "stop"]);
    assert_eq!(whole.1.first().map(String::as_str), Some("Created"));
    assert!(whole.1.last().unwrap().starts_with("Completed"));
    assert_eq!(whole.1.iter().filter(|e| e.starts_with("OutputTextDelta")).count(), 2);
}

#[test]
fn nothing_after_done_is_read() {
    let (payloads, events) = run(bytes(&["data: a\ndata: [DONE]\ndata: b\n", "data: c\n"]), None);
    assert_eq!(payloads, vec!["a"]);
    assert!(!events.iter().any(|e| e.contains("\"b\"") || e.contains("\"c\"")));
}

#[test]
fn a_line_waits_for_its_newline() {
    let (mut reader, _) = TurnReader::start();
    reader.receive(b"data: par");
    assert_eq!(reader.next_payload(), None);
    reader.receive(b"tial\n");
    assert_eq!(reader.next_payload(), Some("partial".to_string()));
    assert_eq!(reader.next_payload(), None);
    assert!(!reader.is_done());
}

#[test]
fn a_read_error_fails_the_turn() {
    let (mut reader, _) = TurnReader::start();
    match reader.after_read(false, ReadOutcome::Error("connection reset".to_string())) {
        TurnStep::Fail(StreamEvent::Failed(m)) => assert_eq!(m, "sse read error: connection reset"),
        other => panic!("unexpected {other:?}"),
    }
    let (_, events) = run(vec![ReadOutcome::Bytes(b"data: a\n".to_vec()), ReadOutcome::Error("eof".to_string())], None);
    assert_eq!(events.last().map(String::as_str), Some("Failed(\"sse read error: eof\")"));
    assert!(!events.iter().any(|e| e.starts_with("Completed")));
}

#[test]
fn a_gone_consumer_stops_the_reading_and_the_end_finishes() {
    let (mut reader, _) = TurnReader::start();
    assert!(matches!(reader.after_read(true, ReadOutcome::Bytes(b"data: a\n".to_vec())), TurnStep::Finish));
    assert_eq!(reader.next_payload(), None);
    assert!(matches!(reader.after_read(false, ReadOutcome::End), TurnStep::Finish));
    let (payloads, events) = run(bytes(&["data: a\n", "data: b\n"]), Some(1));
    assert_eq!(payloads, vec!["a"]);
    assert_eq!(events.last(), Some(&format!("Failed({:?})", STREAM_CUT_SHORT)));
}
