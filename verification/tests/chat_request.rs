use codex_onlysq::chat_messages::convert_input_to_messages;
use codex_onlysq::chat_messages::ChatMessage;
use codex_onlysq::chat_messages::ContentItem;
use codex_onlysq::chat_messages::ResponseItem;
use codex_onlysq::chat_request::build_chat_request;
use codex_onlysq::chat_request::chat_completions_url;
use codex_onlysq::chat_request::Prompt;
use codex_onlysq::chat_tools::convert_tools;
use codex_onlysq::chat_tools::ToolSpec;
use codex_onlysq::json_value::get;
use codex_onlysq::json_value::get_string;
use codex_onlysq::json_value::JsonValue;

fn text_message(role: &str, parts: Vec<ContentItem>) -> ResponseItem {
    ResponseItem::Message { id: None, role: role.to_string(), content: parts }
}

#[test]
fn messages_join_text_parts_and_drop_images() {
    let input = vec![text_message(
        "user",
        vec![
            ContentItem::InputText { text: "Hello, ".to_string() },
            ContentItem::InputImage { image_url: "data:image/png;base64,AAAA".to_string() },
            ContentItem::OutputText { text: "world".to_string() },
        ],
    )];
    let out = convert_input_to_messages(&input);
    assert_eq!(out.len(), 1);
    match &out[0] {
        ChatMessage::Text { role, content } => {
            assert_eq!(role, "user");
            assert_eq!(content, "Hello, world");
        }
        other => panic!("unexpected message {other:?}"),
    }
}

#[test]
fn calls_and_outputs_become_tool_messages_and_other_items_are_skipped() {
    let input = vec![
        ResponseItem::FunctionCall {
            id: Some("fc_1".to_string()),
            name: "shell".to_string(),
            namespace: None,
            arguments: "{\"cmd\":\"ls\"}".to_string(),
            call_id: "call_1".to_string(),
        },
        ResponseItem::FunctionCallOutput { call_id: "call_1".to_string(), output: "a b".to_string() },
        ResponseItem::Other,
        ResponseItem::CustomToolCall {
            id: None,
            status: Some("completed".to_string()),
            call_id: "call_2".to_string(),
            name: "apply_patch".to_string(),
            input: "*** Begin Patch".to_string(),
        },
        ResponseItem::CustomToolCallOutput { call_id: "call_2".to_string(), output: "ok".to_string() },
    ];
    let out = convert_input_to_messages(&input);
    assert_eq!(out.len(), 4);
    match &out[0] {
        ChatMessage::ToolCall { call_id, name, arguments } => {
            assert_eq!((call_id.as_str(), name.as_str(), arguments.as_str()), ("call_1", "shell", "{\"cmd\":\"ls\"}"));
        }
        other => panic!("unexpected message {other:?}"),
    }
    match &out[1] {
        ChatMessage::ToolResult { call_id, content } => {
            assert_eq!((call_id.as_str(), content.as_str()), ("call_1", "a b"));
        }
        other => panic!("unexpected message {other:?}"),
    }
    match &out[2] {
        ChatMessage::ToolCall { call_id, name, arguments } => {
            assert_eq!((call_id.as_str(), name.as_str(), arguments.as_str()), ("call_2", "apply_patch", "*** Begin Patch"));
        }
        other => panic!("unexpected message {other:?}"),
    }
    match &out[3] {
        ChatMessage::ToolResult { call_id, content } => {
            assert_eq!((call_id.as_str(), content.as_str()), ("call_2", "ok"));
        }
        other => panic!("unexpected message {other:?}"),
    }
}

#[test]
fn freeform_tools_are_declared_as_functions_with_an_input_string() {
    let tools = vec![
        ToolSpec::Function {
            name: "shell".to_string(),
            description: "Run a command".to_string(),
            parameters: JsonValue::Object(vec![
                ("type".to_string(), JsonValue::Str("object".to_string())),
                ("properties".to_string(), JsonValue::Object(vec![])),
            ]),
        },
        ToolSpec::Other,
        ToolSpec::Freeform { name: "apply_patch".to_string(), description: "Patch files".to_string() },
    ];
    let (out, freeform) = convert_tools(&tools);
    assert_eq!(out.len(), 2);
    assert_eq!(out[0].name, "shell");
    assert_eq!(out[0].description, "Run a command");
    assert_eq!(
        format!("{:?}", out[0].parameters),
        "Object([(\"type\", Str(\"object\")), (\"properties\", Object([]))])"
    );
    assert_eq!(out[1].name, "apply_patch");
    assert_eq!(
        out[1].description,
        "Patch files\n\nThis is a freeform tool. Call it by passing the entire body (including any grammar markers required by the tool) as a JSON string in the single argument named `input`."
    );
    let schema = &out[1].parameters;
    assert_eq!(get_string(schema, "type"), Some("object".to_string()));
    assert!(matches!(get(schema, "additionalProperties"), Some(JsonValue::Bool(false))));
    match get(schema, "required") {
        Some(JsonValue::Array(items)) => {
            assert_eq!(items.len(), 1);
            assert!(matches!(&items[0], JsonValue::Str(s) if s == "input"));
        }
        other => panic!("unexpected {other:?}"),
    }
    let input = get(get(schema, "properties").unwrap(), "input").unwrap();
    assert_eq!(get_string(input, "type"), Some("string".to_string()));
    assert_eq!(get_string(input, "description"), Some("Raw freeform body for the tool.".to_string()));
    match schema {
        JsonValue::Object(members) => assert_eq!(members.len(), 4),
        other => panic!("unexpected {other:?}"),
    }
    assert!(freeform.contains("apply_patch"));
    assert!(!freeform.contains("shell"));
    assert_eq!(freeform.len(), 1);
}

#[test]
fn url_drops_trailing_slashes() {
    assert_eq!(chat_completions_url("https://api.onlysq.ru/ai/openai"), "https://api.onlysq.ru/ai/openai/chat/completions");
    assert_eq!(chat_completions_url("https://api.onlysq.ru/ai/openai//"), "https://api.onlysq.ru/ai/openai/chat/completions");
    assert_eq!(chat_completions_url(""), "/chat/completions");
}

#[test]
fn request_declares_tools_only_when_there_are_some() {
    let prompt = Prompt {
        input: vec![text_message("user", vec![ContentItem::InputText { text: "hi".to_string() }])],
        tools: vec![ToolSpec::Other],
        parallel_tool_calls: true,
    };
    let (req, freeform) = build_chat_request(&prompt, "gpt-4o", true);
    assert_eq!(req.model, "gpt-4o");
    assert!(req.stream);
    assert!(req.tools.is_none());
    assert!(!req.parallel_tool_calls);
    assert_eq!(req.messages.len(), 1);
    assert_eq!(freeform.len(), 0);

    let prompt = Prompt {
        input: Vec::new(),
        tools: vec![ToolSpec::Freeform { name: "apply_patch".to_string(), description: String::new() }],
        parallel_tool_calls: true,
    };
    let (req, freeform) = build_chat_request(&prompt, "m", true);
    assert_eq!(req.tools.as_ref().map(|t| t.len()), Some(1));
    assert!(req.parallel_tool_calls);
    assert!(freeform.contains("apply_patch"));
    let non_streaming = req.into_non_streaming();
    assert!(!non_streaming.stream);
    assert_eq!(non_streaming.model, "m");
    assert!(non_streaming.parallel_tool_calls);

    let prompt = Prompt { input: Vec::new(), tools: vec![ToolSpec::Freeform { name: "x".to_string(), description: String::new() }], parallel_tool_calls: false };
    let (req, _) = build_chat_request(&prompt, "m", false);
    assert!(!req.stream);
    assert!(!req.parallel_tool_calls);
}
