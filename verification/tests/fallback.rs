use codex_onlysq::fallback::fallback_tool_calls;
use codex_onlysq::fallback::FallbackArguments;
use codex_onlysq::json_value::get;
use codex_onlysq::json_value::get_string;
use codex_onlysq::json_value::JsonValue;

fn s(text: &str) -> JsonValue {
    JsonValue::Str(text.to_string())
}

fn obj(members: Vec<(&str, JsonValue)>) -> JsonValue {
    JsonValue::Object(members.into_iter().map(|(k, v)| (k.to_string(), v)).collect())
}

fn tool_call(name: JsonValue, arguments: Option<JsonValue>) -> JsonValue {
    let mut function = vec![("name", name)];
    if let Some(a) = arguments {
        function.push(("arguments", a));
    }
    obj(vec![("id", s("call_1")), ("function", obj(function))])
}

fn reply(choices: Vec<JsonValue>) -> JsonValue {
    obj(vec![("id", s("resp")), ("choices", JsonValue::Array(choices))])
}

fn choice_with_calls(calls: Vec<JsonValue>) -> JsonValue {
    obj(vec![
        ("index", JsonValue::Number("0".to_string())),
        ("message", obj(vec![("role", s("assistant")), ("tool_calls", JsonValue::Array(calls))])),
    ])
}

#[test]
fn object_member_lookup() {
    let v = obj(vec![("a", s("x")), ("b", JsonValue::Bool(true))]);
    assert!(matches!(get(&v, "b"), Some(JsonValue::Bool(true))));
    assert!(get(&v, "c").is_none());
    assert_eq!(get_string(&v, "a"), Some("x".to_string()));
    assert_eq!(get_string(&v, "b"), None);
    assert!(get(&s("a"), "a").is_none());
}

#[test]
fn reply_calls_come_out_in_order_across_choices() {
    let r = reply(vec![
        choice_with_calls(vec![
            tool_call(s("shell"), Some(s("{\"cmd\":\"ls\"}"))),
            tool_call(s("apply_patch"), Some(JsonValue::Number("3".to_string()))),
        ]),
        obj(vec![("message", obj(vec![("content", s("hi"))]))]),
        choice_with_calls(vec![obj(vec![("id", s("no_function"))]), tool_call(s("read"), None)]),
    ]);
    let calls = fallback_tool_calls(&r);
    assert_eq!(calls.len(), 3);
    assert_eq!(calls[0].name, Some("shell".to_string()));
    assert_eq!(calls[0].arguments, Some("{\"cmd\":\"ls\"}".to_string()));
    assert_eq!(calls[1].name, Some("apply_patch".to_string()));
    assert_eq!(calls[1].arguments, None);
    assert_eq!(calls[2].name, Some("read".to_string()));
    assert_eq!(calls[2].arguments, None);
}

#[test]
fn reply_without_choices_gives_no_calls() {
    assert!(fallback_tool_calls(&obj(vec![("error", s("x"))])).is_empty());
    assert!(fallback_tool_calls(&obj(vec![("choices", s("x"))])).is_empty());
    assert!(fallback_tool_calls(&JsonValue::Null).is_empty());
}

#[test]
fn recovered_arguments_from_a_reply() {
    let r = reply(vec![choice_with_calls(vec![
        tool_call(s("shell"), Some(s("{\"cmd\":\"ls\"}"))),
        tool_call(s(""), Some(s("{\"x\":1}"))),
        tool_call(JsonValue::Null, Some(s("{\"y\":2}"))),
        tool_call(s("read"), None),
        tool_call(s("shell"), Some(s("{\"cmd\":\"pwd\"}"))),
    ])]);
    let args = FallbackArguments::from_reply(&r);
    assert_eq!(args.get("shell"), Some(&"{\"cmd\":\"pwd\"}".to_string()));
    assert_eq!(args.get("read"), Some(&"{}".to_string()));
    assert_eq!(args.get(""), None);
    assert_eq!(args.get("write"), None);
}

#[test]
fn a_cloned_json_value_is_the_same_value() {
    let v = obj(vec![("a", JsonValue::Array(vec![JsonValue::Null, JsonValue::Number("1.5".to_string())])), ("b", obj(vec![("c", s("d"))]))]);
    let c = v.clone();
    assert_eq!(format!("{c:?}"), format!("{v:?}"));
}
