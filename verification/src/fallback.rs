//! Tool-call arguments recovered from a non-streaming copy of the request.
//!
//! In streaming mode the provider sends tool-call arguments empty (`""` or
//! `"{}"`); the non-streaming response carries the real ones. They are kept by
//! tool name; a later call of the same tool replaces an earlier one.
use vstd::prelude::*;

use crate::json_value::{get, get_string, json_get, string_member, JsonValue};
use crate::text::str_eq;

verus! {

/// A `function` object of a tool call in the non-streaming response: its
/// `name` and `arguments` when they are strings.
#[derive(Debug, Clone)]
pub struct FallbackToolCall {
    pub name: Option<String>,
    pub arguments: Option<String>,
}

/// The arguments a tool call gets when the response gives no string for them.
pub const DEFAULT_FALLBACK_ARGUMENTS: &'static str = "{}";

/// Recovered arguments, by tool name.
pub struct FallbackArguments {
    entries: Vec<(String, String)>,
}

/// The recorded (name, arguments) pairs, in the order they were recorded.
pub open spec fn pair_views(s: Seq<(String, String)>) -> Seq<(Seq<char>, Seq<char>)> {
    s.map_values(|p: (String, String)| (p.0@, p.1@))
}

impl View for FallbackArguments {
    type V = Seq<(Seq<char>, Seq<char>)>;

    closed spec fn view(&self) -> Seq<(Seq<char>, Seq<char>)> {
        pair_views(self.entries@)
    }
}

/// The arguments last recorded for `name`.
pub open spec fn fallback_lookup(pairs: Seq<(Seq<char>, Seq<char>)>, name: Seq<char>) -> Option<
    Seq<char>,
>
    decreases pairs.len(),
{
    if pairs.len() == 0 {
        None
    } else if pairs.last().0 == name {
        Some(pairs.last().1)
    } else {
        fallback_lookup(pairs.drop_last(), name)
    }
}

/// The pairs recorded from the tool calls of a non-streaming response: calls
/// with no name (or an empty one) are skipped, and arguments default to `{}`.
pub open spec fn fallback_pairs(calls: Seq<FallbackToolCall>) -> Seq<(Seq<char>, Seq<char>)>
    decreases calls.len(),
{
    if calls.len() == 0 {
        Seq::empty()
    } else {
        let rest = fallback_pairs(calls.drop_last());
        let call = calls.last();
        let name = match call.name {
            Some(n) => n@,
            None => Seq::empty(),
        };
        let arguments = match call.arguments {
            Some(a) => a@,
            None => DEFAULT_FALLBACK_ARGUMENTS@,
        };
        if name.len() > 0 {
            rest.push((name, arguments))
        } else {
            rest
        }
    }
}

/// What a tool call of the response gives: its `function` object, read as a
/// name and arguments, or nothing when it has no `function` member.
pub open spec fn call_of_tool_call(tc: JsonValue) -> Seq<FallbackToolCall> {
    match json_get(tc, "function"@) {
        Some(f) => seq![
            FallbackToolCall {
                name: string_member(f, "name"@),
                arguments: string_member(f, "arguments"@),
            },
        ],
        None => Seq::empty(),
    }
}

/// What a list of tool calls gives, in order.
pub open spec fn calls_of_tool_calls(tcs: Seq<JsonValue>) -> Seq<FallbackToolCall>
    decreases tcs.len(),
{
    if tcs.len() == 0 {
        Seq::empty()
    } else {
        calls_of_tool_calls(tcs.drop_last()) + call_of_tool_call(tcs.last())
    }
}

/// What a choice gives: the tool calls of its `message`, when that message
/// has a `tool_calls` array.
pub open spec fn calls_of_choice(choice: JsonValue) -> Seq<FallbackToolCall> {
    match json_get(choice, "message"@) {
        Some(message) => match json_get(message, "tool_calls"@) {
            Some(JsonValue::Array(tcs)) => calls_of_tool_calls(tcs@),
            _ => Seq::empty(),
        },
        None => Seq::empty(),
    }
}

/// What a list of choices gives, in order.
pub open spec fn calls_of_choices(choices: Seq<JsonValue>) -> Seq<FallbackToolCall>
    decreases choices.len(),
{
    if choices.len() == 0 {
        Seq::empty()
    } else {
        calls_of_choices(choices.drop_last()) + calls_of_choice(choices.last())
    }
}

/// The tool calls of a non-streaming response: those of each choice of its
/// `choices` array, in order; none when it has no such array.
pub open spec fn reply_tool_calls(reply: JsonValue) -> Seq<FallbackToolCall> {
    match json_get(reply, "choices"@) {
        Some(JsonValue::Array(choices)) => calls_of_choices(choices@),
        _ => Seq::empty(),
    }
}

/// Appends what the tool calls `tcs` give to `out`.
fn push_calls_of_tool_calls(tcs: &Vec<JsonValue>, out: &mut Vec<FallbackToolCall>)
    ensures
        final(out)@ == old(out)@ + calls_of_tool_calls(tcs@),
{
    let ghost start = out@;
    let mut i: usize = 0;
    assert(start =~= start + calls_of_tool_calls(tcs@.take(0)));
    while i < tcs.len()
        invariant
            i <= tcs@.len(),
            out@ == start + calls_of_tool_calls(tcs@.take(i as int)),
        decreases tcs@.len() - i,
    {
        proof {
            let next = tcs@.take(i + 1);
            assert(next.drop_last() =~= tcs@.take(i as int));
            assert(next.last() == tcs@[i as int]);
        }
        let ghost before = out@;
        match get(&tcs[i], "function") {
            Some(f) => {
                let call = FallbackToolCall {
                    name: get_string(f, "name"),
                    arguments: get_string(f, "arguments"),
                };
                out.push(call);
                proof {
                    assert(call_of_tool_call(tcs@[i as int]) =~= seq![call]);
                    assert(out@ =~= before + call_of_tool_call(tcs@[i as int]));
                }
            },
            None => {
                proof {
                    assert(call_of_tool_call(tcs@[i as int]) =~= Seq::<FallbackToolCall>::empty());
                    assert(out@ =~= before + call_of_tool_call(tcs@[i as int]));
                }
            },
        }
        i = i + 1;
    }
    proof {
        assert(tcs@.take(i as int) =~= tcs@);
    }
}

/// The tool calls of a non-streaming response, in the order it lists them.
pub fn fallback_tool_calls(reply: &JsonValue) -> (r: Vec<FallbackToolCall>)
    ensures
        r@ == reply_tool_calls(*reply),
{
    let mut out: Vec<FallbackToolCall> = Vec::new();
    let choices = match get(reply, "choices") {
        Some(JsonValue::Array(choices)) => choices,
        _ => {
            assert(out@ =~= reply_tool_calls(*reply));
            return out;
        },
    };
    let mut i: usize = 0;
    assert(out@ =~= calls_of_choices(choices@.take(0)));
    while i < choices.len()
        invariant
            i <= choices@.len(),
            reply_tool_calls(*reply) == calls_of_choices(choices@),
            out@ == calls_of_choices(choices@.take(i as int)),
        decreases choices@.len() - i,
    {
        proof {
            let next = choices@.take(i + 1);
            assert(next.drop_last() =~= choices@.take(i as int));
            assert(next.last() == choices@[i as int]);
        }
        let ghost before = out@;
        let tool_calls = match get(&choices[i], "message") {
            Some(message) => get(message, "tool_calls"),
            None => None,
        };
        match tool_calls {
            Some(JsonValue::Array(tcs)) => {
                push_calls_of_tool_calls(tcs, &mut out);
            },
            _ => {
                assert(out@ =~= before + calls_of_choice(choices@[i as int]));
            },
        }
        i = i + 1;
    }
    proof {
        assert(choices@.take(i as int) =~= choices@);
    }
    out
}

impl FallbackArguments {
    /// No recovered arguments (the non-streaming request failed or has not
    /// answered in time).
    pub fn new() -> (r: FallbackArguments)
        ensures
            r@ == Seq::<(Seq<char>, Seq<char>)>::empty(),
    {
        let r = FallbackArguments { entries: Vec::new() };
        assert(r@ =~= Seq::<(Seq<char>, Seq<char>)>::empty());
        r
    }

    /// Records `arguments` for the tool `name`, replacing earlier ones.
    pub fn insert(&mut self, name: String, arguments: String)
        ensures
            final(self)@ == old(self)@.push((name@, arguments@)),
    {
        let ghost v = (name@, arguments@);
        self.entries.push((name, arguments));
        proof {
            assert(self@ =~= old(self)@.push(v));
        }
    }

    /// The arguments last recorded for `name`, if any.
    pub fn get(&self, name: &str) -> (r: Option<&String>)
        ensures
            match r {
                Some(a) => fallback_lookup(self@, name@) == Some(a@),
                None => fallback_lookup(self@, name@) is None,
            },
    {
        let mut i: usize = self.entries.len();
        assert(self@.take(i as int) =~= self@);
        while i > 0
            invariant
                i <= self.entries@.len(),
                fallback_lookup(self@, name@) == fallback_lookup(self@.take(i as int), name@),
            decreases i,
        {
            let ghost prefix = self@.take(i as int);
            proof {
                assert(prefix.drop_last() =~= self@.take(i - 1));
                assert(prefix.last() == (self.entries@[i - 1].0@, self.entries@[i - 1].1@));
            }
            if str_eq(self.entries[i - 1].0.as_str(), name) {
                return Some(&self.entries[i - 1].1);
            }
            i = i - 1;
        }
        None
    }

    /// The recovered arguments of a non-streaming response.
    pub fn from_reply(reply: &JsonValue) -> (r: FallbackArguments)
        ensures
            r@ == fallback_pairs(reply_tool_calls(*reply)),
    {
        let calls = fallback_tool_calls(reply);
        FallbackArguments::from_tool_calls(&calls)
    }

    /// The recovered arguments of the tool calls of a non-streaming response,
    /// in the order the response lists them.
    pub fn from_tool_calls(calls: &Vec<FallbackToolCall>) -> (r: FallbackArguments)
        ensures
            r@ == fallback_pairs(calls@),
    {
        let mut r = FallbackArguments::new();
        let mut i: usize = 0;
        while i < calls.len()
            invariant
                i <= calls@.len(),
                r@ == fallback_pairs(calls@.take(i as int)),
            decreases calls@.len() - i,
        {
            proof {
                let next = calls@.take(i + 1);
                assert(next.drop_last() =~= calls@.take(i as int));
                assert(next.last() == calls@[i as int]);
            }
            let name = match &calls[i].name {
                Some(n) => n.clone(),
                None => String::new(),
            };
            let arguments = match &calls[i].arguments {
                Some(a) => a.clone(),
                None => DEFAULT_FALLBACK_ARGUMENTS.to_string(),
            };
            if !name.as_str().is_empty() {
                r.insert(name, arguments);
            }
            i = i + 1;
        }
        proof {
            assert(calls@.take(i as int) =~= calls@);
        }
        r
    }
}

/// The arguments last recorded for a name win: recording `(name, a)` makes
/// `a` the arguments of `name`, and leaves every other name as it was; with
/// nothing recorded, no name has arguments.
pub proof fn lemma_last_recorded_arguments_win(
    pairs: Seq<(Seq<char>, Seq<char>)>,
    name: Seq<char>,
    arguments: Seq<char>,
    other: Seq<char>,
)
    ensures
        fallback_lookup(pairs.push((name, arguments)), name) == Some(arguments),
        other != name ==> fallback_lookup(pairs.push((name, arguments)), other) == fallback_lookup(
            pairs,
            other,
        ),
        fallback_lookup(Seq::empty(), other) is None,
{
    assert(pairs.push((name, arguments)).drop_last() =~= pairs);
}

/// A tool call of the response is recorded when it has a non-empty name,
/// with its arguments, or `{}` when it gives none as a string; calls without
/// a name are passed over; calls are recorded in order.
pub proof fn lemma_recorded_calls(calls: Seq<FallbackToolCall>, call: FallbackToolCall)
    ensures
        fallback_pairs(Seq::empty()) == Seq::<(Seq<char>, Seq<char>)>::empty(),
        (call.name matches Some(n) && n@.len() > 0) ==> fallback_pairs(calls.push(call))
            == fallback_pairs(calls).push(
            (
                call.name->0@,
                if call.arguments is Some {
                    call.arguments->0@
                } else {
                    "{}"@
                },
            ),
        ),
        !(call.name matches Some(n) && n@.len() > 0) ==> fallback_pairs(calls.push(call))
            == fallback_pairs(calls),
{
    assert(calls.push(call).drop_last() =~= calls);
    assert(calls.push(call).last() == call);
}

/// The calls of two runs of tool calls are those of the first run followed
/// by those of the second.
pub proof fn lemma_tool_call_lists_concatenate(a: Seq<JsonValue>, b: Seq<JsonValue>)
    ensures
        calls_of_tool_calls(a + b) == calls_of_tool_calls(a) + calls_of_tool_calls(b),
    decreases b.len(),
{
    if b.len() == 0 {
        assert(a + b =~= a);
        assert(calls_of_tool_calls(a) + Seq::<FallbackToolCall>::empty() =~= calls_of_tool_calls(a));
    } else {
        lemma_tool_call_lists_concatenate(a, b.drop_last());
        assert((a + b).drop_last() =~= a + b.drop_last());
        assert((a + b).last() == b.last());
        assert(calls_of_tool_calls(a) + calls_of_tool_calls(b.drop_last()) + call_of_tool_call(b.last())
            =~= calls_of_tool_calls(a) + (calls_of_tool_calls(b.drop_last()) + call_of_tool_call(b.last())));
    }
}

/// The calls of two runs of choices are those of the first run followed by
/// those of the second.
pub proof fn lemma_choice_lists_concatenate(a: Seq<JsonValue>, b: Seq<JsonValue>)
    ensures
        calls_of_choices(a + b) == calls_of_choices(a) + calls_of_choices(b),
    decreases b.len(),
{
    if b.len() == 0 {
        assert(a + b =~= a);
        assert(calls_of_choices(a) + Seq::<FallbackToolCall>::empty() =~= calls_of_choices(a));
    } else {
        lemma_choice_lists_concatenate(a, b.drop_last());
        assert((a + b).drop_last() =~= a + b.drop_last());
        assert((a + b).last() == b.last());
        assert(calls_of_choices(a) + calls_of_choices(b.drop_last()) + calls_of_choice(b.last())
            =~= calls_of_choices(a) + (calls_of_choices(b.drop_last()) + calls_of_choice(b.last())));
    }
}

/// One tool call gives one recovered call when it has a `function` member:
/// that function's `name` and `arguments`, each when it is a string; it gives
/// none without a `function` member.
pub proof fn lemma_one_tool_call(tc: JsonValue)
    ensures
        json_get(tc, "function"@) matches Some(f) ==> calls_of_tool_calls(seq![tc]) == seq![
            (FallbackToolCall {
                name: string_member(f, "name"@),
                arguments: string_member(f, "arguments"@),
            }),
        ],
        json_get(tc, "function"@) is None ==> calls_of_tool_calls(seq![tc]) == Seq::<
            FallbackToolCall,
        >::empty(),
{
    let one = seq![tc];
    assert(one.drop_last() =~= Seq::<JsonValue>::empty());
    assert(one.last() == tc);
    assert(calls_of_tool_calls(one) == calls_of_tool_calls(one.drop_last()) + call_of_tool_call(tc));
    assert(Seq::<FallbackToolCall>::empty() + call_of_tool_call(tc) =~= call_of_tool_call(tc));
}

} // verus!
