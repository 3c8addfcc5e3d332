use codex_onlysq::chat_messages::ContentItem;
use codex_onlysq::chat_messages::ResponseItem;
use codex_onlysq::chat_stream::completion_event;
use codex_onlysq::chat_stream::end_turn_for;
use codex_onlysq::chat_stream::freeform_body;
use codex_onlysq::chat_stream::http_failure_message;
use codex_onlysq::chat_stream::needs_fallback;
use codex_onlysq::chat_stream::resolve_arguments;
use codex_onlysq::chat_stream::ChatChoice;
use codex_onlysq::chat_stream::ChatChunk;
use codex_onlysq::chat_stream::ChatDelta;
use codex_onlysq::chat_stream::ChatFnDelta;
use codex_onlysq::chat_stream::ChatStreamState;
use codex_onlysq::chat_stream::ChatToolCallDelta;
use codex_onlysq::chat_stream::ChatUsage;
use codex_onlysq::chat_stream::StreamEvent;
use codex_onlysq::chat_stream::TokenUsage;
use codex_onlysq::chat_stream::STREAM_CUT_SHORT;
use codex_onlysq::fallback::FallbackArguments;
use codex_onlysq::fallback::FallbackToolCall;
use codex_onlysq::string_set::StringSet;

fn text_chunk(id: Option<&str>, text: &str, finish: Option<&str>) -> ChatChunk {
    ChatChunk {
        id: id.map(str::to_string),
        choices: vec![ChatChoice {
            delta: ChatDelta { content: Some(text.to_string()), tool_calls: None },
            finish_reason: finish.map(str::to_string),
        }],
        usage: None,
    }
}

fn tool_chunk(index: u32, id: Option<&str>, name: Option<&str>, args: Option<&str>) -> ChatChunk {
    ChatChunk {
        id: None,
        choices: vec![ChatChoice {
            delta: ChatDelta {
                content: None,
                tool_calls: Some(vec![ChatToolCallDelta {
                    index,
                    id: id.map(str::to_string),
                    function: Some(ChatFnDelta {
                        name: name.map(str::to_string),
                        arguments: args.map(str::to_string),
                    }),
                }]),
            },
            finish_reason: None,
        }],
        usage: None,
    }
}

fn message_text(item: &ResponseItem) -> Option<(Option<String>, String)> {
    match item {
        ResponseItem::Message { id, role, content } if role == "assistant" && content.len() == 1 => match &content[0] {
            ContentItem::OutputText { text } => Some((id.clone(), text.clone())),
            _ => None,
        },
        _ => None,
    }
}

#[test]
fn start_emits_created() {
    let (_state, event) = ChatStreamState::start();
    assert!(matches!(event, StreamEvent::Created));
}

#[test]
fn text_is_announced_once_then_streamed_then_completed() {
    let mut state = ChatStreamState::new();
    let ev = state.apply_chunk(&text_chunk(Some("resp_1"), "Hel", None));
    assert_eq!(ev.len(), 2);
    match &ev[0] {
        StreamEvent::OutputItemAdded(item) => {
            assert_eq!(message_text(item), Some((Some("resp_1".to_string()), String::new())));
        }
        other => panic!("unexpected {other:?}"),
    }
    assert!(matches!(&ev[1], StreamEvent::OutputTextDelta(t) if t == "Hel"));

    let ev = state.apply_chunk(&text_chunk(Some("resp_2"), "lo", None));
    assert_eq!(ev.len(), 1);
    assert!(matches!(&ev[0], StreamEvent::OutputTextDelta(t) if t == "lo"));

    let ev = state.apply_chunk(&text_chunk(None, "", Some("stop")));
    assert!(ev.is_empty());

    let mut usage_chunk = ChatChunk { id: None, choices: Vec::new(), usage: Some(ChatUsage { prompt_tokens: 10, completion_tokens: 3, total_tokens: 13 }) };
    assert!(state.apply_chunk(&usage_chunk).is_empty());
    usage_chunk.usage = None;
    assert!(state.apply_chunk(&usage_chunk).is_empty());

    let ev = state.finish(false, &FallbackArguments::new(), &StringSet::new());
    assert_eq!(ev.len(), 2);
    match &ev[0] {
        StreamEvent::OutputItemDone(item) => {
            assert_eq!(message_text(item), Some((Some("resp_1".to_string()), "Hello".to_string())));
        }
        other => panic!("unexpected {other:?}"),
    }
    match &ev[1] {
        StreamEvent::Completed { response_id, token_usage, end_turn } => {
            assert_eq!(response_id, "resp_1");
            assert_eq!(
                *token_usage,
                Some(TokenUsage { input_tokens: 10, cached_input_tokens: 0, output_tokens: 3, reasoning_output_tokens: 0, total_tokens: 13 })
            );
            assert_eq!(*end_turn, Some(true));
        }
        other => panic!("unexpected {other:?}"),
    }
}

#[test]
fn stream_cut_short_fails_and_done_without_reason_completes() {
    let state = ChatStreamState::new();
    let ev = state.finish(false, &FallbackArguments::new(), &StringSet::new());
    assert_eq!(ev.len(), 1);
    assert!(matches!(&ev[0], StreamEvent::Failed(m) if m == STREAM_CUT_SHORT));
    assert_eq!(STREAM_CUT_SHORT, "chat-completions stream ended without finish_reason or [DONE]");

    let state = ChatStreamState::new();
    let ev = state.finish(true, &FallbackArguments::new(), &StringSet::new());
    assert_eq!(ev.len(), 1);
    match &ev[0] {
        StreamEvent::Completed { response_id, token_usage, end_turn } => {
            assert_eq!(response_id, "");
            assert_eq!(*token_usage, None);
            assert_eq!(*end_turn, None);
        }
        other => panic!("unexpected {other:?}"),
    }
}

#[test]
fn finish_reasons_map_to_end_turn() {
    assert_eq!(end_turn_for("stop"), Some(true));
    assert_eq!(end_turn_for("content_filter"), Some(true));
    assert_eq!(end_turn_for("tool_calls"), Some(false));
    assert_eq!(end_turn_for("length"), Some(false));
    assert_eq!(end_turn_for("other"), None);
    assert_eq!(end_turn_for(""), None);
    match completion_event(&Some("length".to_string()), false, &Some("r".to_string()), None) {
        StreamEvent::Completed { response_id, end_turn, .. } => {
            assert_eq!(response_id, "r");
            assert_eq!(end_turn, Some(false));
        }
        other => panic!("unexpected {other:?}"),
    }
}

#[test]
fn tool_call_fragments_accumulate_by_index_and_come_out_in_index_order() {
    let mut state = ChatStreamState::new();
    assert!(state.apply_chunk(&tool_chunk(1, Some("call_b"), Some("sh"), Some("{\"cmd\":"))).is_empty());
    assert!(state.apply_chunk(&tool_chunk(0, Some("call_a"), Some("read"), Some("{\"path\":\"x\"}"))).is_empty());
    assert!(state.apply_chunk(&tool_chunk(1, None, Some("ell"), Some("\"ls\"}"))).is_empty());
    let finish = ChatChunk {
        id: None,
        choices: vec![ChatChoice { delta: ChatDelta { content: None, tool_calls: None }, finish_reason: Some("tool_calls".to_string()) }],
        usage: None,
    };
    assert!(state.apply_chunk(&finish).is_empty());
    let ev = state.finish(true, &FallbackArguments::new(), &StringSet::new());
    assert_eq!(ev.len(), 5);
    let expect = [("call_a", "read", "{\"path\":\"x\"}"), ("call_b", "shell", "{\"cmd\":\"ls\"}")];
    for (k, (id, name, args)) in expect.iter().enumerate() {
        match (&ev[2 * k], &ev[2 * k + 1]) {
            (
                StreamEvent::OutputItemAdded(ResponseItem::FunctionCall { id: None, namespace: None, name: n1, arguments: a1, call_id: c1 }),
                StreamEvent::OutputItemDone(ResponseItem::FunctionCall { id: None, namespace: None, name: n2, arguments: a2, call_id: c2 }),
            ) => {
                assert_eq!((n1.as_str(), a1.as_str(), c1.as_str()), (*name, "", *id));
                assert_eq!((n2.as_str(), a2.as_str(), c2.as_str()), (*name, *args, *id));
            }
            other => panic!("unexpected {other:?}"),
        }
    }
    match &ev[4] {
        StreamEvent::Completed { end_turn, .. } => assert_eq!(*end_turn, Some(false)),
        other => panic!("unexpected {other:?}"),
    }
}

#[test]
fn empty_streamed_arguments_are_recovered_and_freeform_calls_unwrapped() {
    let mut state = ChatStreamState::new();
    state.apply_chunk(&tool_chunk(0, Some("c1"), Some("apply_patch"), Some("{}")));
    state.apply_chunk(&tool_chunk(1, None, Some("shell"), Some(" ")));
    state.apply_chunk(&tool_chunk(2, Some("c3"), Some("missing"), Some("")));
    let fallback = FallbackArguments::from_tool_calls(&vec![
        FallbackToolCall { name: Some("apply_patch".to_string()), arguments: Some("{\"input\":\"old\"}".to_string()) },
        FallbackToolCall { name: Some("shell".to_string()), arguments: None },
        FallbackToolCall { name: None, arguments: Some("{\"a\":1}".to_string()) },
        FallbackToolCall { name: Some("apply_patch".to_string()), arguments: Some("{\"input\":\"*** Begin Patch\"}".to_string()) },
    ]);
    let mut freeform = StringSet::new();
    freeform.insert("apply_patch".to_string());
    let ev = state.finish(true, &fallback, &freeform);
    assert_eq!(ev.len(), 7);
    match (&ev[0], &ev[1]) {
        (
            StreamEvent::OutputItemAdded(ResponseItem::CustomToolCall { id: None, status: None, call_id, name, input }),
            StreamEvent::OutputItemDone(ResponseItem::CustomToolCall { id: None, status: None, call_id: c2, name: n2, input: i2 }),
        ) => {
            assert_eq!((call_id.as_str(), name.as_str(), input.as_str()), ("c1", "apply_patch", ""));
            assert_eq!((c2.as_str(), n2.as_str(), i2.as_str()), ("c1", "apply_patch", "*** Begin Patch"));
        }
        other => panic!("unexpected {other:?}"),
    }
    match &ev[3] {
        StreamEvent::OutputItemDone(ResponseItem::FunctionCall { id: None, namespace: None, name, arguments, call_id }) => {
            assert_eq!((name.as_str(), arguments.as_str(), call_id.as_str()), ("shell", "{}", ""));
        }
        other => panic!("unexpected {other:?}"),
    }
    match &ev[5] {
        StreamEvent::OutputItemDone(ResponseItem::FunctionCall { id: None, namespace: None, name, arguments, call_id }) => {
            assert_eq!((name.as_str(), arguments.as_str(), call_id.as_str()), ("missing", "", "c3"));
        }
        other => panic!("unexpected {other:?}"),
    }
}

#[test]
fn argument_resolution() {
    assert!(needs_fallback(""));
    assert!(needs_fallback("  {}\n"));
    assert!(!needs_fallback("{ }"));
    assert!(!needs_fallback("{\"a\":1}"));

    let mut fallback = FallbackArguments::new();
    fallback.insert("t".to_string(), "{\"x\":2}".to_string());
    assert_eq!(resolve_arguments(&"{}".to_string(), &"t".to_string(), &fallback), "{\"x\":2}");
    assert_eq!(resolve_arguments(&"{\"y\":3}".to_string(), &"t".to_string(), &fallback), "{\"y\":3}");
    assert_eq!(resolve_arguments(&"{}".to_string(), &"u".to_string(), &fallback), "{}");
    assert_eq!(resolve_arguments(&"{\"input\":\"body\"}".to_string(), &"u".to_string(), &fallback), "body");
    assert_eq!(resolve_arguments(&"{\"input\":\"body\",\"more\":1}".to_string(), &"u".to_string(), &fallback), "{\"input\":\"body\",\"more\":1}");
    assert_eq!(resolve_arguments(&"{\"input\":7}".to_string(), &"u".to_string(), &fallback), "{\"input\":7}");
    assert_eq!(resolve_arguments(&"\"input\"".to_string(), &"u".to_string(), &fallback), "\"input\"");
    assert_eq!(resolve_arguments(&"not json".to_string(), &"u".to_string(), &fallback), "not json");
    assert_eq!(resolve_arguments(&"{\"other\":\"x\"}".to_string(), &"u".to_string(), &fallback), "{\"other\":\"x\"}");
    assert_eq!(resolve_arguments(&"{\"input\":\"a\",\"input\":\"b\"}".to_string(), &"u".to_string(), &fallback), "b");
}

fn members(m: &[(&str, Option<&str>)]) -> Option<Vec<(String, Option<String>)>> {
    Some(m.iter().map(|(k, v)| (k.to_string(), v.map(str::to_string))).collect())
}

#[test]
fn freeform_body_needs_a_sole_input_member() {
    assert_eq!(freeform_body(members(&[("input", Some("x"))])), Some("x".to_string()));
    assert_eq!(freeform_body(members(&[("input", Some("x")), ("more", None)])), None);
    assert_eq!(freeform_body(members(&[("input", None)])), None);
    assert_eq!(freeform_body(members(&[("body", Some("x"))])), None);
    assert_eq!(freeform_body(members(&[])), None);
    assert_eq!(freeform_body(None), None);
}

#[test]
fn fallback_lookup_takes_the_last_recorded_arguments() {
    let fallback = FallbackArguments::from_tool_calls(&vec![
        FallbackToolCall { name: Some("a".to_string()), arguments: Some("1".to_string()) },
        FallbackToolCall { name: Some("".to_string()), arguments: Some("2".to_string()) },
        FallbackToolCall { name: Some("a".to_string()), arguments: Some("3".to_string()) },
        FallbackToolCall { name: Some("b".to_string()), arguments: None },
    ]);
    assert_eq!(fallback.get("a").map(String::as_str), Some("3"));
    assert_eq!(fallback.get("b").map(String::as_str), Some("{}"));
    assert_eq!(fallback.get(""), None);
    assert_eq!(fallback.get("c"), None);
}

#[test]
fn http_failure_message_names_status_and_body() {
    assert_eq!(http_failure_message("404 Not Found", "nope"), "chat-completions HTTP 404 Not Found: nope");
}
