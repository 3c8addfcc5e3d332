//! The decisions of a streamed chat-completions turn: how each chunk of the
//! stream updates the turn's state and which events it emits, and what is
//! emitted when the stream ends.
use std::collections::BTreeMap;
use vstd::prelude::*;
use vstd::std_specs::iter::IteratorSpec;

use crate::chat_messages::{ContentItem, ContentItemView, ResponseItem, ResponseItemView};
use crate::chat_tools::FREEFORM_INPUT_FIELD;
use crate::fallback::{fallback_lookup, FallbackArguments};
use crate::index_order::{lemma_increasing_keys, lemma_u32_keys_are_ordered};
use crate::string_set::StringSet;
use crate::text::{str_eq, str_trim, trim_spec};

verus! {

/// Token counts of a turn.
#[derive(Debug, Clone, Copy, PartialEq, Eq, Structural)]
pub struct TokenUsage {
    pub input_tokens: i64,
    pub cached_input_tokens: i64,
    pub output_tokens: i64,
    pub reasoning_output_tokens: i64,
    pub total_tokens: i64,
}

/// The `usage` object of a chunk.
#[derive(Debug, Clone, Copy, PartialEq, Eq, Structural)]
pub struct ChatUsage {
    pub prompt_tokens: i64,
    pub completion_tokens: i64,
    pub total_tokens: i64,
}

/// The `function` object of a streamed tool call: fragments of its name and
/// arguments.
#[derive(Debug, Clone)]
pub struct ChatFnDelta {
    pub name: Option<String>,
    pub arguments: Option<String>,
}

/// A streamed fragment of a tool call; `index` says which call it continues.
#[derive(Debug, Clone)]
pub struct ChatToolCallDelta {
    pub index: u32,
    pub id: Option<String>,
    pub function: Option<ChatFnDelta>,
}

/// The `delta` of a choice: a text fragment and tool-call fragments.
#[derive(Debug, Clone)]
pub struct ChatDelta {
    pub content: Option<String>,
    pub tool_calls: Option<Vec<ChatToolCallDelta>>,
}

/// One entry of a chunk's `choices`.
#[derive(Debug, Clone)]
pub struct ChatChoice {
    pub delta: ChatDelta,
    pub finish_reason: Option<String>,
}

/// One `data:` chunk of the stream.
#[derive(Debug, Clone)]
pub struct ChatChunk {
    pub id: Option<String>,
    pub choices: Vec<ChatChoice>,
    pub usage: Option<ChatUsage>,
}

/// What the turn reports to the session, in order.
#[derive(Debug, Clone)]
pub enum StreamEvent {
    /// The response was created.
    Created,
    /// An output item begins.
    OutputItemAdded(ResponseItem),
    /// A fragment of assistant text.
    OutputTextDelta(String),
    /// An output item is complete.
    OutputItemDone(ResponseItem),
    /// The turn is over.
    Completed { response_id: String, token_usage: Option<TokenUsage>, end_turn: Option<bool> },
    /// The stream failed; the session should retry.
    Failed(String),
}

/// An event, with its texts as characters.
pub enum StreamEventView {
    Created,
    OutputItemAdded(ResponseItemView),
    OutputTextDelta(Seq<char>),
    OutputItemDone(ResponseItemView),
    Completed { response_id: Seq<char>, token_usage: Option<TokenUsage>, end_turn: Option<bool> },
    Failed(Seq<char>),
}

impl View for StreamEvent {
    type V = StreamEventView;

    open spec fn view(&self) -> StreamEventView {
        match self {
            StreamEvent::Created => StreamEventView::Created,
            StreamEvent::OutputItemAdded(item) => StreamEventView::OutputItemAdded(item@),
            StreamEvent::OutputTextDelta(t) => StreamEventView::OutputTextDelta(t@),
            StreamEvent::OutputItemDone(item) => StreamEventView::OutputItemDone(item@),
            StreamEvent::Completed { response_id, token_usage, end_turn } =>
                StreamEventView::Completed {
                response_id: response_id@,
                token_usage: *token_usage,
                end_turn: *end_turn,
            },
            StreamEvent::Failed(m) => StreamEventView::Failed(m@),
        }
    }
}

/// The views of a sequence of events.
pub open spec fn event_views(s: Seq<StreamEvent>) -> Seq<StreamEventView> {
    s.map_values(|e: StreamEvent| e@)
}

/// A tool call as assembled so far from its fragments.
#[derive(Debug)]
pub struct ToolCallAccumulator {
    id: Option<String>,
    name: String,
    arguments: String,
}

/// A tool call as assembled so far, with its texts as characters.
#[verifier::ext_equal]
pub struct AccumulatedCall {
    pub id: Option<Seq<char>>,
    pub name: Seq<char>,
    pub arguments: Seq<char>,
}

impl View for ToolCallAccumulator {
    type V = AccumulatedCall;

    closed spec fn view(&self) -> AccumulatedCall {
        AccumulatedCall { id: self.id.deep_view(), name: self.name@, arguments: self.arguments@ }
    }
}

/// The state of a turn while its stream is read.
#[verifier::ext_equal]
pub struct StreamView {
    /// The id of the first chunk that had one.
    pub response_id: Option<Seq<char>>,
    /// The last finish reason received.
    pub finish_reason: Option<Seq<char>>,
    /// The last usage received.
    pub token_usage: Option<TokenUsage>,
    /// All assistant text received.
    pub assistant_text: Seq<char>,
    /// The tool calls, by index.
    pub tool_calls: Map<u32, AccumulatedCall>,
    /// Whether the assistant message item has been announced.
    pub message_item_added: bool,
}

/// The usage of a turn as reported by a chunk.
pub open spec fn usage_from(u: ChatUsage) -> TokenUsage {
    TokenUsage {
        input_tokens: u.prompt_tokens,
        cached_input_tokens: 0,
        output_tokens: u.completion_tokens,
        reasoning_output_tokens: 0,
        total_tokens: u.total_tokens,
    }
}

/// The role of the model's messages.
pub const ASSISTANT_ROLE: &'static str = "assistant";

/// An assistant message holding one output text.
pub open spec fn assistant_message(id: Option<Seq<char>>, text: Seq<char>) -> ResponseItemView {
    ResponseItemView::Message {
        id,
        role: ASSISTANT_ROLE@,
        content: seq![ContentItemView::OutputText(text)],
    }
}

/// A call with nothing received yet.
pub open spec fn empty_call() -> AccumulatedCall {
    AccumulatedCall { id: None, name: Seq::empty(), arguments: Seq::empty() }
}

/// A call after one more fragment: a new id replaces the old one; name and
/// argument fragments are appended.
pub open spec fn apply_tool_delta(acc: AccumulatedCall, d: ChatToolCallDelta) -> AccumulatedCall {
    AccumulatedCall {
        id: match d.id {
            Some(id) => Some(id@),
            None => acc.id,
        },
        name: match d.function {
            Some(f) => match f.name {
                Some(n) => acc.name + n@,
                None => acc.name,
            },
            None => acc.name,
        },
        arguments: match d.function {
            Some(f) => match f.arguments {
                Some(a) => acc.arguments + a@,
                None => acc.arguments,
            },
            None => acc.arguments,
        },
    }
}

/// The calls after one fragment: the call with its index is continued, or
/// started.
pub open spec fn with_tool_delta(calls: Map<u32, AccumulatedCall>, d: ChatToolCallDelta) -> Map<
    u32,
    AccumulatedCall,
> {
    let before = if calls.contains_key(d.index) {
        calls[d.index]
    } else {
        empty_call()
    };
    calls.insert(d.index, apply_tool_delta(before, d))
}

/// The calls after a sequence of fragments.
pub open spec fn with_tool_deltas(
    calls: Map<u32, AccumulatedCall>,
    ds: Seq<ChatToolCallDelta>,
) -> Map<u32, AccumulatedCall>
    decreases ds.len(),
{
    if ds.len() == 0 {
        calls
    } else {
        with_tool_delta(with_tool_deltas(calls, ds.drop_last()), ds.last())
    }
}

/// The tool-call fragments of a delta (`null` and absent mean none).
pub open spec fn tool_deltas_of(delta: ChatDelta) -> Seq<ChatToolCallDelta> {
    match delta.tool_calls {
        Some(v) => v@,
        None => Seq::empty(),
    }
}

/// The state and the events after a choice. A non-empty text fragment is
/// appended and reported, announced first by an empty assistant message if
/// none was announced yet; tool-call fragments are only accumulated.
pub open spec fn after_choice(s: StreamView, c: ChatChoice) -> (StreamView, Seq<StreamEventView>) {
    let s1 = StreamView {
        finish_reason: match c.finish_reason {
            Some(f) => Some(f@),
            None => s.finish_reason,
        },
        ..s
    };
    let (s2, events) = match c.delta.content {
        Some(t) => if t@.len() > 0 {
            let added: Seq<StreamEventView> = if s1.message_item_added {
                Seq::empty()
            } else {
                seq![
                    StreamEventView::OutputItemAdded(
                        assistant_message(s1.response_id, Seq::empty()),
                    ),
                ]
            };
            (
                StreamView {
                    assistant_text: s1.assistant_text + t@,
                    message_item_added: true,
                    ..s1
                },
                added.push(StreamEventView::OutputTextDelta(t@)),
            )
        } else {
            (s1, Seq::empty())
        },
        None => (s1, Seq::empty()),
    };
    (
        StreamView { tool_calls: with_tool_deltas(s2.tool_calls, tool_deltas_of(c.delta)), ..s2 },
        events,
    )
}

/// The state and the events after a sequence of choices.
pub open spec fn after_choices(s: StreamView, cs: Seq<ChatChoice>) -> (
    StreamView,
    Seq<StreamEventView>,
)
    decreases cs.len(),
{
    if cs.len() == 0 {
        (s, Seq::empty())
    } else {
        let prev = after_choices(s, cs.drop_last());
        let last = after_choice(prev.0, cs.last());
        (last.0, prev.1 + last.1)
    }
}

/// The state and the events after a chunk: the first id received becomes the
/// response id, a usage replaces the earlier one, then the choices apply in
/// order.
pub open spec fn after_chunk(s: StreamView, chunk: ChatChunk) -> (StreamView, Seq<StreamEventView>) {
    let s1 = StreamView {
        response_id: if s.response_id is None {
            chunk.id.deep_view()
        } else {
            s.response_id
        },
        token_usage: match chunk.usage {
            Some(u) => Some(usage_from(u)),
            None => s.token_usage,
        },
        ..s
    };
    after_choices(s1, chunk.choices@)
}

/// The calls in increasing index order.
pub open spec fn calls_in_order(calls: Map<u32, AccumulatedCall>) -> Seq<(u32, AccumulatedCall)>
    decreases calls.dom().len(),
    when calls.dom().finite()
{
    let k = choose|k: u32| calls.contains_key(k) && forall|j: u32| calls.contains_key(j) ==> j <= k;
    if calls.dom().len() > 0 && calls.contains_key(k) {
        calls_in_order(calls.remove(k)).push((k, calls[k]))
    } else {
        Seq::empty()
    }
}

/// The members of a JSON object, with their texts as characters: each key,
/// and the member's value when that value is a string.
pub open spec fn member_views(m: Seq<(String, Option<String>)>) -> Seq<(Seq<char>, Option<Seq<char>>)> {
    m.map_values(|e: (String, Option<String>)| (e.0@, e.1.deep_view()))
}

/// What `serde_json` reads from `text` as a JSON object (a
/// `serde_json::Map<String, serde_json::Value>`): its members in the order
/// the map yields them, each key with the member's value when that value is
/// a JSON string. `None` when `text` is not JSON or its value is not an
/// object.
pub uninterp spec fn json_object_members(text: Seq<char>) -> Option<
    Seq<(Seq<char>, Option<Seq<char>>)>,
>;

/// Calls `serde_json::from_str::<serde_json::Map<String, serde_json::Value>>`
/// on `text`, which succeeds exactly on a JSON object, and hands back its
/// members: each key, with `serde_json::Value::as_str` of its value. The
/// contract names the result and claims nothing more about JSON parsing.
#[verifier::external_body]
fn parse_json_object_members(text: &str) -> (r: Option<Vec<(String, Option<String>)>>)
    ensures
        match r {
            Some(m) => json_object_members(text@) == Some(member_views(m@)),
            None => json_object_members(text@) is None,
        },
{
    match serde_json::from_str::<serde_json::Map<String, serde_json::Value>>(text) {
        Ok(map) => {
            let mut members: Vec<(String, Option<String>)> = Vec::new();
            for (key, value) in map {
                members.push((key, value.as_str().map(str::to_string)));
            }
            Some(members)
        },
        Err(_) => None,
    }
}

/// The raw body wrapped in the arguments of a freeform tool: the string value
/// of the member `input` of an object whose only member it is.
pub open spec fn freeform_body_of(members: Option<Seq<(Seq<char>, Option<Seq<char>>)>>) -> Option<
    Seq<char>,
> {
    match members {
        Some(m) => if m.len() == 1 && m[0].0 == FREEFORM_INPUT_FIELD@ {
            m[0].1
        } else {
            None
        },
        None => None,
    }
}

/// The raw body wrapped in the arguments of a freeform tool, given the
/// members of the arguments as a JSON object: the string value of `input`
/// when `input` is the object's only member.
pub fn freeform_body(members: Option<Vec<(String, Option<String>)>>) -> (r: Option<String>)
    ensures
        r.deep_view() == freeform_body_of(
            match members {
                Some(m) => Some(member_views(m@)),
                None => None,
            },
        ),
{
    match members {
        Some(m) => {
            if m.len() == 1 && str_eq(m[0].0.as_str(), FREEFORM_INPUT_FIELD) {
                match &m[0].1 {
                    Some(body) => Some(body.clone()),
                    None => None,
                }
            } else {
                None
            }
        },
        None => None,
    }
}

/// Arguments that the provider sent empty in streaming mode: blank, or `{}`
/// once trimmed.
pub open spec fn arguments_missing(args: Seq<char>) -> bool {
    trim_spec(args).len() == 0 || trim_spec(args) == "{}"@
}

/// Whether streamed arguments are missing and should be replaced by the
/// arguments of the non-streaming response.
pub fn needs_fallback(args: &str) -> (r: bool)
    ensures
        r == arguments_missing(args@),
{
    let trimmed = str_trim(args);
    trimmed.is_empty() || str_eq(trimmed, "{}")
}

/// The arguments a call is emitted with: streamed arguments that are missing
/// are replaced by the ones last recovered for the tool, when there are any;
/// then arguments that wrap a freeform body as `{"input": ...}` are unwrapped.
pub open spec fn resolved_arguments(
    acc: AccumulatedCall,
    fallback: Seq<(Seq<char>, Seq<char>)>,
) -> Seq<char> {
    let args = if arguments_missing(acc.arguments) && fallback_lookup(fallback, acc.name) is Some {
        fallback_lookup(fallback, acc.name)->0
    } else {
        acc.arguments
    };
    match freeform_body_of(json_object_members(args)) {
        Some(body) => body,
        None => args,
    }
}

/// The arguments a call with name `name` and streamed arguments `streamed` is
/// emitted with.
pub fn resolve_arguments(streamed: &String, name: &String, fallback: &FallbackArguments) -> (r:
    String)
    ensures
        r@ == resolved_arguments(
            AccumulatedCall { id: None, name: name@, arguments: streamed@ },
            fallback@,
        ),
{
    let mut args = streamed.clone();
    if needs_fallback(args.as_str()) {
        match fallback.get(name.as_str()) {
            Some(recovered) => {
                args = recovered.clone();
            },
            None => {},
        }
    }
    match freeform_body(parse_json_object_members(args.as_str())) {
        Some(inner) => inner,
        None => args,
    }
}

/// The two events of a completed call: announced with empty arguments, then
/// done with its resolved arguments. Calls of freeform tools are reported as
/// freeform calls, others as function calls; a call without id gets an empty
/// one.
pub open spec fn call_events(
    acc: AccumulatedCall,
    fallback: Seq<(Seq<char>, Seq<char>)>,
    freeform: Set<Seq<char>>,
) -> Seq<StreamEventView> {
    let args = resolved_arguments(acc, fallback);
    let call_id = match acc.id {
        Some(id) => id,
        None => Seq::empty(),
    };
    if freeform.contains(acc.name) {
        seq![
            StreamEventView::OutputItemAdded(
                ResponseItemView::CustomToolCall {
                    id: None,
                    status: None,
                    call_id,
                    name: acc.name,
                    input: Seq::empty(),
                },
            ),
            StreamEventView::OutputItemDone(
                ResponseItemView::CustomToolCall {
                    id: None,
                    status: None,
                    call_id,
                    name: acc.name,
                    input: args,
                },
            ),
        ]
    } else {
        seq![
            StreamEventView::OutputItemAdded(
                ResponseItemView::FunctionCall {
                    id: None,
                    name: acc.name,
                    namespace: None,
                    arguments: Seq::empty(),
                    call_id,
                },
            ),
            StreamEventView::OutputItemDone(
                ResponseItemView::FunctionCall {
                    id: None,
                    name: acc.name,
                    namespace: None,
                    arguments: args,
                    call_id,
                },
            ),
        ]
    }
}

/// The events of all calls, in index order.
pub open spec fn tool_call_events(
    calls: Seq<(u32, AccumulatedCall)>,
    fallback: Seq<(Seq<char>, Seq<char>)>,
    freeform: Set<Seq<char>>,
) -> Seq<StreamEventView>
    decreases calls.len(),
{
    if calls.len() == 0 {
        Seq::empty()
    } else {
        tool_call_events(calls.drop_last(), fallback, freeform) + call_events(
            calls.last().1,
            fallback,
            freeform,
        )
    }
}

/// The reason a stream that ends without a finish reason or `[DONE]` fails.
pub const STREAM_CUT_SHORT: &'static str =
    "chat-completions stream ended without finish_reason or [DONE]";

/// Whether the turn ends, by finish reason: `stop` and `content_filter` end
/// it; `tool_calls` and `length` do not (a tool must run, or the answer was
/// cut at the token limit); any other reason says nothing.
pub open spec fn end_turn_of(finish_reason: Seq<char>) -> Option<bool> {
    if finish_reason == "stop"@ || finish_reason == "content_filter"@ {
        Some(true)
    } else if finish_reason == "tool_calls"@ || finish_reason == "length"@ {
        Some(false)
    } else {
        None
    }
}

/// The last event of a turn. Without a finish reason, a stream that did not
/// reach `[DONE]` was cut short and fails, so that the session retries;
/// otherwise the turn completes, with the response id (empty if none came).
pub open spec fn completion_of(
    finish_reason: Option<Seq<char>>,
    done: bool,
    response_id: Option<Seq<char>>,
    token_usage: Option<TokenUsage>,
) -> StreamEventView {
    let id = match response_id {
        Some(id) => id,
        None => Seq::empty(),
    };
    match finish_reason {
        None => if !done {
            StreamEventView::Failed(STREAM_CUT_SHORT@)
        } else {
            StreamEventView::Completed { response_id: id, token_usage, end_turn: None }
        },
        Some(fr) => StreamEventView::Completed {
            response_id: id,
            token_usage,
            end_turn: end_turn_of(fr),
        },
    }
}

/// The events when the stream ends: the complete assistant message if any
/// text came, then each tool call in increasing index order, then the
/// completion.
pub open spec fn final_events(
    s: StreamView,
    done: bool,
    fallback: Seq<(Seq<char>, Seq<char>)>,
    freeform: Set<Seq<char>>,
) -> Seq<StreamEventView> {
    let message: Seq<StreamEventView> = if s.assistant_text.len() > 0 {
        seq![StreamEventView::OutputItemDone(assistant_message(s.response_id, s.assistant_text))]
    } else {
        Seq::empty()
    };
    message + tool_call_events(calls_in_order(s.tool_calls), fallback, freeform) + seq![
        completion_of(s.finish_reason, done, s.response_id, s.token_usage),
    ]
}

/// Whether the turn ends, by finish reason.
pub fn end_turn_for(finish_reason: &str) -> (r: Option<bool>)
    ensures
        r == end_turn_of(finish_reason@),
{
    if str_eq(finish_reason, "stop") || str_eq(finish_reason, "content_filter") {
        Some(true)
    } else if str_eq(finish_reason, "tool_calls") || str_eq(finish_reason, "length") {
        Some(false)
    } else {
        None
    }
}

/// The last event of a turn.
pub fn completion_event(
    finish_reason: &Option<String>,
    done: bool,
    response_id: &Option<String>,
    token_usage: Option<TokenUsage>,
) -> (r: StreamEvent)
    ensures
        r@ == completion_of(finish_reason.deep_view(), done, response_id.deep_view(), token_usage),
{
    let id = match response_id {
        Some(id) => id.clone(),
        None => String::new(),
    };
    match finish_reason {
        None => if !done {
            StreamEvent::Failed(STREAM_CUT_SHORT.to_string())
        } else {
            StreamEvent::Completed { response_id: id, token_usage, end_turn: None }
        },
        Some(fr) => StreamEvent::Completed {
            response_id: id,
            token_usage,
            end_turn: end_turn_for(fr.as_str()),
        },
    }
}

/// The message of a stream that failed with an HTTP error status.
pub fn http_failure_message(status: &str, body: &str) -> (r: String)
    ensures
        r@ == "chat-completions HTTP "@ + status@ + ": "@ + body@,
{
    let mut m = "chat-completions HTTP ".to_string();
    m.append(status);
    m.append(": ");
    m.append(body);
    m
}

/// A copy of an optional string.
fn clone_text(o: &Option<String>) -> (r: Option<String>)
    ensures
        r == *o,
{
    match o {
        Some(t) => Some(t.clone()),
        None => None,
    }
}

impl ToolCallAccumulator {
    /// A call with nothing received yet.
    fn empty() -> (r: ToolCallAccumulator)
        ensures
            r@ == empty_call(),
    {
        ToolCallAccumulator { id: None, name: String::new(), arguments: String::new() }
    }

    /// Takes in one more fragment of the call.
    fn apply(&mut self, d: &ChatToolCallDelta)
        ensures
            final(self)@ == apply_tool_delta(old(self)@, *d),
    {
        match &d.id {
            Some(id) => {
                self.id = Some(id.clone());
            },
            None => {},
        }
        match &d.function {
            Some(f) => {
                match &f.name {
                    Some(n) => self.name.append(n.as_str()),
                    None => {},
                }
                match &f.arguments {
                    Some(a) => self.arguments.append(a.as_str()),
                    None => {},
                }
            },
            None => {},
        }
    }
}

/// A finite map with some key has a greatest key.
proof fn lemma_greatest_key_exists(m: Map<u32, AccumulatedCall>)
    requires
        m.dom().finite(),
        m.dom().len() > 0,
    ensures
        exists|k: u32| m.contains_key(k) && forall|j: u32| m.contains_key(j) ==> j <= k,
    decreases m.dom().len(),
{
    let x = m.dom().choose();
    assert(m.dom().contains(x));
    if m.dom().len() == 1 {
        assert forall|j: u32| m.contains_key(j) implies j <= x by {
            if j != x {
                assert(m.dom().remove(x).contains(j));
                assert(m.dom().remove(x).len() == 0);
            }
        }
        assert(m.contains_key(x) && forall|j: u32| m.contains_key(j) ==> j <= x);
    } else {
        let rest = m.remove(x);
        assert(rest.dom() =~= m.dom().remove(x));
        lemma_greatest_key_exists(rest);
        let y = choose|k: u32| rest.contains_key(k) && forall|j: u32| rest.contains_key(j) ==> j <= k;
        if x <= y {
            assert forall|j: u32| m.contains_key(j) implies j <= y by {
                if j != x {
                    assert(rest.contains_key(j));
                }
            }
            assert(m.contains_key(y) && forall|j: u32| m.contains_key(j) ==> j <= y);
        } else {
            assert forall|j: u32| m.contains_key(j) implies j <= x by {
                if j != x {
                    assert(rest.contains_key(j));
                }
            }
            assert(m.contains_key(x) && forall|j: u32| m.contains_key(j) ==> j <= x);
        }
    }
}

/// `s` lists each call of `m` once, with its index, in increasing index order.
pub open spec fn lists_calls_in_order(s: Seq<(u32, AccumulatedCall)>, m: Map<u32, AccumulatedCall>) -> bool {
    &&& s.len() == m.dom().len()
    &&& forall|i: int, j: int| 0 <= i < j < s.len() ==> s[i].0 < s[j].0
    &&& forall|i: int| 0 <= i < s.len() ==> m.contains_key((#[trigger] s[i]).0) && m[s[i].0] == s[i].1
    &&& forall|k: u32| #[trigger] m.contains_key(k) ==> exists|i: int| 0 <= i < s.len() && s[i].0 == k
}

/// Listing the greatest call after the others lists all of them.
proof fn lemma_list_greatest_last(
    p: Seq<(u32, AccumulatedCall)>,
    m: Map<u32, AccumulatedCall>,
    k: u32,
)
    requires
        m.dom().finite(),
        m.contains_key(k),
        forall|j: u32| m.contains_key(j) ==> j <= k,
        lists_calls_in_order(p, m.remove(k)),
    ensures
        lists_calls_in_order(p.push((k, m[k])), m),
{
    let rest = m.remove(k);
    let r = p.push((k, m[k]));
    assert(rest.dom() =~= m.dom().remove(k));
    assert forall|i: int, j: int| 0 <= i < j < r.len() implies r[i].0 < r[j].0 by {
        if j < p.len() {
            assert(r[i] == p[i] && r[j] == p[j]);
        } else {
            assert(r[i] == p[i]);
            assert(rest.contains_key(p[i].0));
        }
    }
    assert forall|i: int| 0 <= i < r.len() implies m.contains_key((#[trigger] r[i]).0) && m[r[i].0]
        == r[i].1 by {
        if i < p.len() {
            assert(r[i] == p[i]);
            assert(rest.contains_key(p[i].0));
        }
    }
    assert forall|j: u32| #[trigger] m.contains_key(j) implies exists|i: int|
        0 <= i < r.len() && r[i].0 == j by {
        if j == k {
            assert(r[r.len() - 1].0 == k);
        } else {
            assert(rest.contains_key(j));
            let i = choose|i: int| 0 <= i < p.len() && p[i].0 == j;
            assert(r[i] == p[i]);
        }
    }
}

/// The calls of a map, in increasing index order, are each call once.
pub proof fn lemma_calls_in_order_lists_each_call_once(m: Map<u32, AccumulatedCall>)
    requires
        m.dom().finite(),
    ensures
        lists_calls_in_order(calls_in_order(m), m),
    decreases m.dom().len(),
{
    if m.dom().len() > 0 {
        lemma_greatest_key_exists(m);
        let k = choose|k: u32| m.contains_key(k) && forall|j: u32| m.contains_key(j) ==> j <= k;
        let rest = m.remove(k);
        assert(rest.dom() =~= m.dom().remove(k));
        lemma_calls_in_order_lists_each_call_once(rest);
        assert(calls_in_order(m) == calls_in_order(rest).push((k, m[k])));
        lemma_list_greatest_last(calls_in_order(rest), m, k);
    } else {
        let r = calls_in_order(m);
        assert(r =~= Seq::<(u32, AccumulatedCall)>::empty());
        assert forall|j: u32| #[trigger] m.contains_key(j) implies exists|i: int|
            0 <= i < r.len() && r[i].0 == j by {
            assert(m.dom().contains(j));
        }
    }
}

/// Entries listed once each in increasing index order are the calls in order.
proof fn lemma_entries_in_order(s: Seq<(u32, AccumulatedCall)>, m: Map<u32, AccumulatedCall>)
    requires
        m.dom().finite(),
        forall|i: int, j: int| 0 <= i < j < s.len() ==> s[i].0 < s[j].0,
        forall|i: int| 0 <= i < s.len() ==> m.contains_key((#[trigger] s[i]).0) && m[s[i].0] == s[i].1,
        forall|k: u32| m.contains_key(k) ==> exists|i: int| 0 <= i < s.len() && (#[trigger] s[i]).0 == k,
    ensures
        s == calls_in_order(m),
    decreases s.len(),
{
    if s.len() == 0 {
        if m.dom().len() > 0 {
            let k = m.dom().choose();
            assert(m.contains_key(k));
        }
        assert(calls_in_order(m) =~= s);
    } else {
        let last = s.last();
        let k = last.0;
        assert(m.contains_key(k));
        assert forall|j: u32| m.contains_key(j) implies j <= k by {
            let i = choose|i: int| 0 <= i < s.len() && (#[trigger] s[i]).0 == j;
            if i < s.len() - 1 {
                assert(s[i].0 < s[s.len() - 1].0);
            }
        }
        let c = choose|c: u32| m.contains_key(c) && forall|j: u32| m.contains_key(j) ==> j <= c;
        assert(c == k) by {
            assert(c <= k);
            assert(k <= c);
        }
        let rest = m.remove(k);
        assert(rest.dom() =~= m.dom().remove(k));
        let t = s.drop_last();
        assert forall|i: int| 0 <= i < t.len() implies rest.contains_key((#[trigger] t[i]).0) && rest[t[i].0]
            == t[i].1 by {
            assert(t[i] == s[i]);
            assert(s[i].0 < s[s.len() - 1].0);
        }
        assert forall|j: u32| rest.contains_key(j) implies exists|i: int|
            0 <= i < t.len() && (#[trigger] t[i]).0 == j by {
            let i = choose|i: int| 0 <= i < s.len() && (#[trigger] s[i]).0 == j;
            assert(i != s.len() - 1);
            assert(t[i] == s[i]);
        }
        lemma_entries_in_order(t, rest);
        assert(calls_in_order(m) == calls_in_order(rest).push((k, m[k])));
        assert(s =~= t.push(last));
    }
}

/// The state of a turn while its stream is read.
pub struct ChatStreamState {
    response_id: Option<String>,
    finish_reason: Option<String>,
    token_usage: Option<TokenUsage>,
    assistant_text: String,
    tool_calls: BTreeMap<u32, ToolCallAccumulator>,
    message_item_added: bool,
}

/// The views of indexed calls.
pub open spec fn call_views(m: Map<u32, ToolCallAccumulator>) -> Map<u32, AccumulatedCall> {
    m.map_values(|a: ToolCallAccumulator| a@)
}

impl View for ChatStreamState {
    type V = StreamView;

    closed spec fn view(&self) -> StreamView {
        StreamView {
            response_id: self.response_id.deep_view(),
            finish_reason: self.finish_reason.deep_view(),
            token_usage: self.token_usage,
            assistant_text: self.assistant_text@,
            tool_calls: call_views(self.tool_calls@),
            message_item_added: self.message_item_added,
        }
    }
}

/// The state before any chunk.
pub open spec fn initial_stream() -> StreamView {
    StreamView {
        response_id: None,
        finish_reason: None,
        token_usage: None,
        assistant_text: Seq::empty(),
        tool_calls: Map::empty(),
        message_item_added: false,
    }
}

impl ChatStreamState {
    /// The state of a turn before its stream starts.
    pub fn new() -> (r: ChatStreamState)
        ensures
            r@ == initial_stream(),
    {
        let r = ChatStreamState {
            response_id: None,
            finish_reason: None,
            token_usage: None,
            assistant_text: String::new(),
            tool_calls: BTreeMap::new(),
            message_item_added: false,
        };
        assert(r@ =~= initial_stream());
        r
    }

    /// The state of a turn whose stream starts, and the event that opens it.
    pub fn start() -> (r: (ChatStreamState, StreamEvent))
        ensures
            r.0@ == initial_stream(),
            r.1@ == StreamEventView::Created,
    {
        (ChatStreamState::new(), StreamEvent::Created)
    }

    /// Takes in one tool-call fragment.
    fn apply_tool_delta(&mut self, d: &ChatToolCallDelta)
        ensures
            final(self)@ == (StreamView {
                tool_calls: with_tool_delta(old(self)@.tool_calls, *d),
                ..old(self)@
            }),
    {
        broadcast use vstd::std_specs::btree::group_btree_axioms;

        proof {
            lemma_u32_keys_are_ordered();
        }
        let ghost old_calls = self.tool_calls@;
        let mut acc = match self.tool_calls.remove(&d.index) {
            Some(acc) => acc,
            None => ToolCallAccumulator::empty(),
        };
        acc.apply(d);
        self.tool_calls.insert(d.index, acc);
        proof {
            assert(call_views(self.tool_calls@) =~= with_tool_delta(call_views(old_calls), *d));
        }
    }

    /// Takes in the tool-call fragments of a delta, in order.
    fn apply_tool_deltas(&mut self, delta: &ChatDelta)
        ensures
            final(self)@ == (StreamView {
                tool_calls: with_tool_deltas(old(self)@.tool_calls, tool_deltas_of(*delta)),
                ..old(self)@
            }),
    {
        match &delta.tool_calls {
            Some(ds) => {
                let mut j: usize = 0;
                while j < ds.len()
                    invariant
                        j <= ds@.len(),
                        self@ == (StreamView {
                            tool_calls: with_tool_deltas(old(self)@.tool_calls, ds@.take(j as int)),
                            ..old(self)@
                        }),
                    decreases ds@.len() - j,
                {
                    proof {
                        let next = ds@.take(j + 1);
                        assert(next.drop_last() =~= ds@.take(j as int));
                        assert(next.last() == ds@[j as int]);
                    }
                    self.apply_tool_delta(&ds[j]);
                    j = j + 1;
                }
                proof {
                    assert(ds@.take(j as int) =~= ds@);
                }
            },
            None => {
                assert(old(self)@ =~= (StreamView {
                    tool_calls: with_tool_deltas(old(self)@.tool_calls, tool_deltas_of(*delta)),
                    ..old(self)@
                }));
            },
        }
    }

    /// Takes in one choice of a chunk, appending the events it causes.
    fn apply_choice(&mut self, c: &ChatChoice, events: &mut Vec<StreamEvent>)
        ensures
            final(self)@ == after_choice(old(self)@, *c).0,
            event_views(final(events)@) == event_views(old(events)@) + after_choice(old(self)@, *c).1,
    {
        let ghost old_events = event_views(events@);
        match &c.finish_reason {
            Some(f) => {
                self.finish_reason = Some(f.clone());
            },
            None => {},
        }
        match &c.delta.content {
            Some(t) => {
                if !t.as_str().is_empty() {
                    let ghost before = event_views(events@);
                    if !self.message_item_added {
                        let content = vec![ContentItem::OutputText { text: String::new() }];
                        let item = ResponseItem::Message {
                            id: clone_text(&self.response_id),
                            role: ASSISTANT_ROLE.to_string(),
                            content,
                        };
                        proof {
                            assert(crate::chat_messages::content_views(content@) =~= seq![
                                ContentItemView::OutputText(Seq::empty()),
                            ]);
                            assert(item@ == assistant_message(self@.response_id, Seq::empty()));
                        }
                        events.push(StreamEvent::OutputItemAdded(item));
                        self.message_item_added = true;
                    }
                    let ghost mid = event_views(events@);
                    self.assistant_text.append(t.as_str());
                    events.push(StreamEvent::OutputTextDelta(t.clone()));
                    proof {
                        assert(event_views(events@) =~= mid.push(StreamEventView::OutputTextDelta(t@)));
                    }
                }
            },
            None => {},
        }
        proof {
            let s1 = after_choice(old(self)@, *c);
            assert(event_views(events@) =~= old_events + s1.1);
        }
        self.apply_tool_deltas(&c.delta);
    }

    /// Takes in one chunk of the stream; returns the events it causes, in
    /// order.
    pub fn apply_chunk(&mut self, chunk: &ChatChunk) -> (r: Vec<StreamEvent>)
        ensures
            final(self)@ == after_chunk(old(self)@, *chunk).0,
            event_views(r@) == after_chunk(old(self)@, *chunk).1,
    {
        let mut events: Vec<StreamEvent> = Vec::new();
        if self.response_id.is_none() {
            self.response_id = clone_text(&chunk.id);
        }
        match &chunk.usage {
            Some(u) => {
                self.token_usage = Some(
                    TokenUsage {
                        input_tokens: u.prompt_tokens,
                        cached_input_tokens: 0,
                        output_tokens: u.completion_tokens,
                        reasoning_output_tokens: 0,
                        total_tokens: u.total_tokens,
                    },
                );
            },
            None => {},
        }
        let ghost s1 = self@;
        let mut i: usize = 0;
        assert(event_views(events@) =~= Seq::<StreamEventView>::empty());
        while i < chunk.choices.len()
            invariant
                i <= chunk.choices@.len(),
                self@ == after_choices(s1, chunk.choices@.take(i as int)).0,
                event_views(events@) == after_choices(s1, chunk.choices@.take(i as int)).1,
            decreases chunk.choices@.len() - i,
        {
            proof {
                let next = chunk.choices@.take(i + 1);
                assert(next.drop_last() =~= chunk.choices@.take(i as int));
                assert(next.last() == chunk.choices@[i as int]);
            }
            self.apply_choice(&chunk.choices[i], &mut events);
            i = i + 1;
        }
        proof {
            assert(chunk.choices@.take(i as int) =~= chunk.choices@);
        }
        events
    }

    /// The events of one completed call.
    fn emit_call(
        acc: &ToolCallAccumulator,
        fallback: &FallbackArguments,
        freeform: &StringSet,
        events: &mut Vec<StreamEvent>,
    )
        ensures
            event_views(final(events)@) == event_views(old(events)@) + call_events(
                acc@,
                fallback@,
                freeform@,
            ),
    {
        let ghost before = event_views(events@);
        let args = resolve_arguments(&acc.arguments, &acc.name, fallback);
        proof {
            assert(resolved_arguments(
                AccumulatedCall { id: None, name: acc@.name, arguments: acc@.arguments },
                fallback@,
            ) == resolved_arguments(acc@, fallback@));
        }
        let call_id = match &acc.id {
            Some(id) => id.clone(),
            None => String::new(),
        };
        if freeform.contains(acc.name.as_str()) {
            events.push(
                StreamEvent::OutputItemAdded(
                    ResponseItem::CustomToolCall {
                        id: None,
                        status: None,
                        call_id: call_id.clone(),
                        name: acc.name.clone(),
                        input: String::new(),
                    },
                ),
            );
            events.push(
                StreamEvent::OutputItemDone(
                    ResponseItem::CustomToolCall {
                        id: None,
                        status: None,
                        call_id,
                        name: acc.name.clone(),
                        input: args,
                    },
                ),
            );
        } else {
            events.push(
                StreamEvent::OutputItemAdded(
                    ResponseItem::FunctionCall {
                        id: None,
                        name: acc.name.clone(),
                        namespace: None,
                        arguments: String::new(),
                        call_id: call_id.clone(),
                    },
                ),
            );
            events.push(
                StreamEvent::OutputItemDone(
                    ResponseItem::FunctionCall {
                        id: None,
                        name: acc.name.clone(),
                        namespace: None,
                        arguments: args,
                        call_id,
                    },
                ),
            );
        }
        proof {
            assert(event_views(events@) =~= before + call_events(acc@, fallback@, freeform@));
        }
    }

    /// The events when the stream ends. `done` says whether `[DONE]` arrived;
    /// `fallback` holds the arguments recovered from the non-streaming copy of
    /// the request; `freeform` names the freeform tools.
    pub fn finish(self, done: bool, fallback: &FallbackArguments, freeform: &StringSet) -> (r: Vec<
        StreamEvent,
    >)
        ensures
            event_views(r@) == final_events(self@, done, fallback@, freeform@),
    {
        let mut events: Vec<StreamEvent> = Vec::new();
        if !self.assistant_text.as_str().is_empty() {
            let content = vec![ContentItem::OutputText { text: self.assistant_text.clone() }];
            let item = ResponseItem::Message {
                id: clone_text(&self.response_id),
                role: ASSISTANT_ROLE.to_string(),
                content,
            };
            proof {
                assert(crate::chat_messages::content_views(content@) =~= seq![
                    ContentItemView::OutputText(self@.assistant_text),
                ]);
            }
            events.push(StreamEvent::OutputItemDone(item));
        }
        let ghost message = event_views(events@);
        assert(message =~= (if self@.assistant_text.len() > 0 {
            seq![StreamEventView::OutputItemDone(assistant_message(self@.response_id, self@.assistant_text))]
        } else {
            Seq::empty()
        }));
        let iter = self.tool_calls.iter();
        let ghost items = iter.remaining();
        let ghost ordered = items.map_values(
            |kv: (&u32, &ToolCallAccumulator)| (*kv.0, kv.1@),
        );
        assert(ordered == calls_in_order(self@.tool_calls)) by {
            broadcast use vstd::std_specs::btree::group_btree_axioms;

            lemma_u32_keys_are_ordered();
            lemma_increasing_keys(items);
            let m = self@.tool_calls;
            assert(m.dom() =~= self.tool_calls@.dom());
            assert forall|i: int| 0 <= i < ordered.len() implies m.contains_key(
                (#[trigger] ordered[i]).0,
            ) && m[ordered[i].0] == ordered[i].1 by {
                assert(self.tool_calls@.contains_key(*items[i].0));
            }
            assert forall|k: u32| m.contains_key(k) implies exists|i: int|
                0 <= i < ordered.len() && (#[trigger] ordered[i]).0 == k by {
                assert(self.tool_calls@.contains_key(k));
                assert(items.contains((&k, &self.tool_calls@[k])));
                let i = choose|i: int| 0 <= i < items.len() && items[i] == (&k, &self.tool_calls@[k]);
                assert(ordered[i].0 == k);
            }
            lemma_entries_in_order(ordered, m);
        }
        for kv in it: iter
            invariant
                it.seq() == items,
                ordered == items.map_values(|kv: (&u32, &ToolCallAccumulator)| (*kv.0, kv.1@)),
                event_views(events@) == message + tool_call_events(
                    ordered.take(it.index() as int),
                    fallback@,
                    freeform@,
                ),
        {
            proof {
                let next = ordered.take(it.index() + 1);
                assert(next.drop_last() =~= ordered.take(it.index() as int));
                assert(next.last() == (*kv.0, kv.1@));
            }
            ChatStreamState::emit_call(kv.1, fallback, freeform, &mut events);
        }
        proof {
            assert(ordered.take(ordered.len() as int) =~= ordered);
        }
        events.push(
            completion_event(
                &self.finish_reason,
                done,
                &self.response_id,
                self.token_usage,
            ),
        );
        events
    }
}

} // verus!
