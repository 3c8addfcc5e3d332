//! What holds of every streamed turn, over any sequence of chunks.
use vstd::prelude::*;

use crate::chat_stream::{
    after_choice, after_choices, after_chunk, apply_tool_delta, assistant_message, calls_in_order,
    completion_of, end_turn_of, final_events, initial_stream, tool_call_events, with_tool_delta,
    with_tool_deltas, AccumulatedCall, ChatChoice, ChatChunk, ChatToolCallDelta, StreamEventView,
    StreamView, TokenUsage, STREAM_CUT_SHORT, call_events, resolved_arguments, arguments_missing,
    freeform_body_of, json_object_members,
};
use crate::chat_messages::ResponseItemView;
use crate::chat_tools::FREEFORM_INPUT_FIELD;
use crate::fallback::fallback_lookup;
use crate::text::trim_spec;

verus! {

/// The text of the text-delta events, joined in order.
pub open spec fn delta_text(ev: Seq<StreamEventView>) -> Seq<char>
    decreases ev.len(),
{
    if ev.len() == 0 {
        Seq::empty()
    } else {
        delta_text(ev.drop_last()) + match ev.last() {
            StreamEventView::OutputTextDelta(t) => t,
            _ => Seq::empty(),
        }
    }
}

/// Every text delta follows an announcement of the output item, unless the
/// item was announced before these events.
pub open spec fn deltas_announced(ev: Seq<StreamEventView>, already: bool) -> bool {
    forall|i: int|
        #![trigger ev[i]]
        0 <= i < ev.len() && ev[i] is OutputTextDelta ==> already || exists|j: int|
            0 <= j < i && (#[trigger] ev[j]) is OutputItemAdded
}

/// Some event announces an output item.
pub open spec fn has_announcement(ev: Seq<StreamEventView>) -> bool {
    exists|j: int| 0 <= j < ev.len() && (#[trigger] ev[j]) is OutputItemAdded
}

/// The state and the events after a sequence of chunks.
pub open spec fn after_chunks(s: StreamView, chunks: Seq<ChatChunk>) -> (
    StreamView,
    Seq<StreamEventView>,
)
    decreases chunks.len(),
{
    if chunks.len() == 0 {
        (s, Seq::empty())
    } else {
        let prev = after_chunks(s, chunks.drop_last());
        let last = after_chunk(prev.0, chunks.last());
        (last.0, prev.1 + last.1)
    }
}

proof fn lemma_delta_text_append(a: Seq<StreamEventView>, b: Seq<StreamEventView>)
    ensures
        delta_text(a + b) == delta_text(a) + delta_text(b),
    decreases b.len(),
{
    if b.len() == 0 {
        assert(a + b =~= a);
    } else {
        lemma_delta_text_append(a, b.drop_last());
        assert((a + b).drop_last() =~= a + b.drop_last());
        assert((a + b).last() == b.last());
    }
}

proof fn lemma_choice_laws(s: StreamView, c: ChatChoice)
    ensures
        after_choice(s, c).0.assistant_text == s.assistant_text + delta_text(after_choice(s, c).1),
        deltas_announced(after_choice(s, c).1, s.message_item_added),
        after_choice(s, c).0.message_item_added ==> s.message_item_added || has_announcement(
            after_choice(s, c).1,
        ),
{
    let r = after_choice(s, c);
    let ev = r.1;
    reveal_with_fuel(delta_text, 3);
    match c.delta.content {
        Some(t) => {
            if t@.len() > 0 {
                if s.message_item_added {
                    assert(ev.len() == 1);
                    assert(ev.drop_last().len() == 0);
                } else {
                    assert(ev.len() == 2);
                    assert(ev[0] is OutputItemAdded);
                    assert(ev.drop_last().drop_last().len() == 0);
                }
            } else {
                assert(ev.len() == 0);
            }
        },
        None => {
            assert(ev.len() == 0);
        },
    }
}

proof fn lemma_choices_laws(s: StreamView, cs: Seq<ChatChoice>)
    ensures
        after_choices(s, cs).0.assistant_text == s.assistant_text + delta_text(after_choices(s, cs).1),
        deltas_announced(after_choices(s, cs).1, s.message_item_added),
        after_choices(s, cs).0.message_item_added ==> s.message_item_added || has_announcement(
            after_choices(s, cs).1,
        ),
    decreases cs.len(),
{
    if cs.len() == 0 {
        assert(s.assistant_text + Seq::<char>::empty() =~= s.assistant_text);
    } else {
        let prev = after_choices(s, cs.drop_last());
        lemma_choices_laws(s, cs.drop_last());
        lemma_choice_laws(prev.0, cs.last());
        let last = after_choice(prev.0, cs.last());
        let ev = prev.1 + last.1;
        lemma_delta_text_append(prev.1, last.1);
        assert(s.assistant_text + delta_text(prev.1) + delta_text(last.1) =~= s.assistant_text
            + delta_text(ev));
        assert forall|i: int|
            #![trigger ev[i]]
            0 <= i < ev.len() && ev[i] is OutputTextDelta implies s.message_item_added || exists|
                j: int,
            | 0 <= j < i && (#[trigger] ev[j]) is OutputItemAdded by {
            if i < prev.1.len() {
                assert(ev[i] == prev.1[i]);
                if !s.message_item_added {
                    let j = choose|j: int| 0 <= j < i && (#[trigger] prev.1[j]) is OutputItemAdded;
                    assert(ev[j] == prev.1[j]);
                }
            } else {
                assert(ev[i] == last.1[i - prev.1.len()]);
                if !s.message_item_added {
                    if prev.0.message_item_added {
                        let j = choose|j: int|
                            0 <= j < prev.1.len() && (#[trigger] prev.1[j]) is OutputItemAdded;
                        assert(ev[j] == prev.1[j]);
                    } else {
                        let k = i - prev.1.len();
                        assert(last.1[k] is OutputTextDelta);
                        let j = choose|j: int| 0 <= j < k && (#[trigger] last.1[j]) is OutputItemAdded;
                        assert(ev[j + prev.1.len()] == last.1[j]);
                    }
                }
            }
        }
        if last.0.message_item_added && !s.message_item_added {
            if prev.0.message_item_added {
                let j = choose|j: int| 0 <= j < prev.1.len() && (#[trigger] prev.1[j]) is OutputItemAdded;
                assert(ev[j] == prev.1[j]);
            } else {
                let j = choose|j: int| 0 <= j < last.1.len() && (#[trigger] last.1[j]) is OutputItemAdded;
                assert(ev[j + prev.1.len()] == last.1[j]);
            }
        }
    }
}

/// Over any sequence of chunks read from the start of a turn: the assistant
/// text accumulated is exactly the text of the deltas emitted, in order; every
/// delta follows the announcement of the assistant message; and the message
/// counts as announced only once an announcement was emitted.
pub proof fn lemma_streamed_text_is_announced_and_complete(chunks: Seq<ChatChunk>)
    ensures
        after_chunks(initial_stream(), chunks).0.assistant_text == delta_text(
            after_chunks(initial_stream(), chunks).1,
        ),
        deltas_announced(after_chunks(initial_stream(), chunks).1, false),
        after_chunks(initial_stream(), chunks).0.message_item_added ==> has_announcement(
            after_chunks(initial_stream(), chunks).1,
        ),
    decreases chunks.len(),
{
    if chunks.len() > 0 {
        let s0 = initial_stream();
        let prev = after_chunks(s0, chunks.drop_last());
        lemma_streamed_text_is_announced_and_complete(chunks.drop_last());
        let c = chunks.last();
        let s1 = StreamView {
            response_id: if prev.0.response_id is None {
                c.id.deep_view()
            } else {
                prev.0.response_id
            },
            token_usage: match c.usage {
                Some(u) => Some(crate::chat_stream::usage_from(u)),
                None => prev.0.token_usage,
            },
            ..prev.0
        };
        lemma_choices_laws(s1, c.choices@);
        let last = after_chunk(prev.0, c);
        let ev = prev.1 + last.1;
        lemma_delta_text_append(prev.1, last.1);
        assert forall|i: int|
            #![trigger ev[i]]
            0 <= i < ev.len() && ev[i] is OutputTextDelta implies exists|j: int|
                0 <= j < i && (#[trigger] ev[j]) is OutputItemAdded by {
            if i < prev.1.len() {
                assert(ev[i] == prev.1[i]);
                let j = choose|j: int| 0 <= j < i && (#[trigger] prev.1[j]) is OutputItemAdded;
                assert(ev[j] == prev.1[j]);
            } else {
                assert(ev[i] == last.1[i - prev.1.len()]);
                if prev.0.message_item_added {
                    let j = choose|j: int| 0 <= j < prev.1.len() && (#[trigger] prev.1[j]) is OutputItemAdded;
                    assert(ev[j] == prev.1[j]);
                } else {
                    let k = i - prev.1.len();
                    assert(last.1[k] is OutputTextDelta);
                    let j = choose|j: int| 0 <= j < k && (#[trigger] last.1[j]) is OutputItemAdded;
                    assert(ev[j + prev.1.len()] == last.1[j]);
                }
            }
        }
        if last.0.message_item_added {
            if prev.0.message_item_added {
                let j = choose|j: int| 0 <= j < prev.1.len() && (#[trigger] prev.1[j]) is OutputItemAdded;
                assert(ev[j] == prev.1[j]);
            } else {
                let j = choose|j: int| 0 <= j < last.1.len() && (#[trigger] last.1[j]) is OutputItemAdded;
                assert(ev[j + prev.1.len()] == last.1[j]);
            }
        }
    }
}

/// When a turn ends after any sequence of chunks, the first event is the
/// complete assistant message, carrying exactly the text of the deltas
/// streamed before, whenever any text was streamed; when none was, no message
/// is reported.
pub proof fn lemma_final_message_carries_streamed_text(
    chunks: Seq<ChatChunk>,
    done: bool,
    fallback: Seq<(Seq<char>, Seq<char>)>,
    freeform: Set<Seq<char>>,
)
    ensures
        ({
            let streamed = after_chunks(initial_stream(), chunks);
            let text = delta_text(streamed.1);
            let ev = final_events(streamed.0, done, fallback, freeform);
            &&& text.len() > 0 ==> ev[0] == StreamEventView::OutputItemDone(
                assistant_message(streamed.0.response_id, text),
            )
            &&& text.len() == 0 ==> ev == tool_call_events(calls_in_order(streamed.0.tool_calls), fallback, freeform)
                + seq![
                completion_of(
                    streamed.0.finish_reason,
                    done,
                    streamed.0.response_id,
                    streamed.0.token_usage,
                ),
            ]
        }),
{
    lemma_streamed_text_is_announced_and_complete(chunks);
    let streamed = after_chunks(initial_stream(), chunks);
    if delta_text(streamed.1).len() == 0 {
        assert(Seq::<StreamEventView>::empty() + tool_call_events(calls_in_order(streamed.0.tool_calls), fallback, freeform) =~= tool_call_events(calls_in_order(streamed.0.tool_calls), fallback, freeform));
    }
}

/// An event that ends a turn.
pub open spec fn is_terminal(e: StreamEventView) -> bool {
    e is Completed || e is Failed
}

/// An event that reports progress within a turn: an item announced or done,
/// or a text fragment.
pub open spec fn is_progress(e: StreamEventView) -> bool {
    e is OutputItemAdded || e is OutputItemDone || e is OutputTextDelta
}

/// Every event reports progress.
pub open spec fn all_progress(ev: Seq<StreamEventView>) -> bool {
    forall|i: int| 0 <= i < ev.len() ==> is_progress(#[trigger] ev[i])
}

/// The events of a whole turn: the opening event, the events of each chunk,
/// then the events of the stream's end.
pub open spec fn turn_events(
    chunks: Seq<ChatChunk>,
    done: bool,
    fallback: Seq<(Seq<char>, Seq<char>)>,
    freeform: Set<Seq<char>>,
) -> Seq<StreamEventView> {
    let streamed = after_chunks(initial_stream(), chunks);
    seq![StreamEventView::Created] + streamed.1 + final_events(streamed.0, done, fallback, freeform)
}

proof fn lemma_all_progress_append(a: Seq<StreamEventView>, b: Seq<StreamEventView>)
    requires
        all_progress(a),
        all_progress(b),
    ensures
        all_progress(a + b),
{
    assert forall|i: int| 0 <= i < (a + b).len() implies is_progress(#[trigger] (a + b)[i]) by {
        if i < a.len() {
            assert((a + b)[i] == a[i]);
        } else {
            assert((a + b)[i] == b[i - a.len()]);
        }
    }
}

proof fn lemma_choices_progress(s: StreamView, cs: Seq<ChatChoice>)
    ensures
        all_progress(after_choices(s, cs).1),
    decreases cs.len(),
{
    if cs.len() > 0 {
        let prev = after_choices(s, cs.drop_last());
        lemma_choices_progress(s, cs.drop_last());
        let last = after_choice(prev.0, cs.last());
        assert(all_progress(last.1));
        lemma_all_progress_append(prev.1, last.1);
    }
}

proof fn lemma_chunks_progress(chunks: Seq<ChatChunk>)
    ensures
        all_progress(after_chunks(initial_stream(), chunks).1),
    decreases chunks.len(),
{
    if chunks.len() > 0 {
        let prev = after_chunks(initial_stream(), chunks.drop_last());
        lemma_chunks_progress(chunks.drop_last());
        let c = chunks.last();
        let s1 = StreamView {
            response_id: if prev.0.response_id is None {
                c.id.deep_view()
            } else {
                prev.0.response_id
            },
            token_usage: match c.usage {
                Some(u) => Some(crate::chat_stream::usage_from(u)),
                None => prev.0.token_usage,
            },
            ..prev.0
        };
        lemma_choices_progress(s1, c.choices@);
        lemma_all_progress_append(prev.1, after_chunk(prev.0, c).1);
    }
}

proof fn lemma_tool_call_events_progress(
    calls: Seq<(u32, crate::chat_stream::AccumulatedCall)>,
    fallback: Seq<(Seq<char>, Seq<char>)>,
    freeform: Set<Seq<char>>,
)
    ensures
        all_progress(tool_call_events(calls, fallback, freeform)),
    decreases calls.len(),
{
    if calls.len() > 0 {
        lemma_tool_call_events_progress(calls.drop_last(), fallback, freeform);
        lemma_all_progress_append(
            tool_call_events(calls.drop_last(), fallback, freeform),
            crate::chat_stream::call_events(calls.last().1, fallback, freeform),
        );
    }
}

/// A turn opens with `Created`, ends with exactly one event that ends it
/// (`Completed`, or `Failed` for a stream cut short), and reports only
/// progress in between.
pub proof fn lemma_turn_opens_once_and_ends_once(
    chunks: Seq<ChatChunk>,
    done: bool,
    fallback: Seq<(Seq<char>, Seq<char>)>,
    freeform: Set<Seq<char>>,
)
    ensures
        ({
            let ev = turn_events(chunks, done, fallback, freeform);
            &&& ev.len() >= 2
            &&& ev[0] is Created
            &&& is_terminal(ev.last())
            &&& forall|i: int| 0 < i < ev.len() - 1 ==> is_progress(#[trigger] ev[i])
        }),
{
    let streamed = after_chunks(initial_stream(), chunks);
    let s = streamed.0;
    lemma_chunks_progress(chunks);
    lemma_tool_call_events_progress(calls_in_order(s.tool_calls), fallback, freeform);
    let message: Seq<StreamEventView> = if s.assistant_text.len() > 0 {
        seq![StreamEventView::OutputItemDone(assistant_message(s.response_id, s.assistant_text))]
    } else {
        Seq::empty()
    };
    assert(all_progress(message));
    let tools = tool_call_events(calls_in_order(s.tool_calls), fallback, freeform);
    lemma_all_progress_append(message, tools);
    lemma_all_progress_append(streamed.1, message + tools);
    let middle = streamed.1 + (message + tools);
    let done_event = completion_of(s.finish_reason, done, s.response_id, s.token_usage);
    let ev = turn_events(chunks, done, fallback, freeform);
    assert(ev =~= seq![StreamEventView::Created] + middle + seq![done_event]);
    assert forall|i: int| 0 < i < ev.len() - 1 implies is_progress(#[trigger] ev[i]) by {
        assert(ev[i] == middle[i - 1]);
    }
}

/// The text a choice carries: its delta's content, or nothing.
pub open spec fn choice_text(c: ChatChoice) -> Seq<char> {
    match c.delta.content {
        Some(t) => t@,
        None => Seq::empty(),
    }
}

/// The texts of a run of choices, joined in order.
pub open spec fn choices_text(cs: Seq<ChatChoice>) -> Seq<char>
    decreases cs.len(),
{
    if cs.len() == 0 {
        Seq::empty()
    } else {
        choices_text(cs.drop_last()) + choice_text(cs.last())
    }
}

/// The texts of a run of chunks, joined in order.
pub open spec fn chunks_text(chunks: Seq<ChatChunk>) -> Seq<char>
    decreases chunks.len(),
{
    if chunks.len() == 0 {
        Seq::empty()
    } else {
        chunks_text(chunks.drop_last()) + choices_text(chunks.last().choices@)
    }
}

/// A choice's text is kept as received: the assistant text grows by exactly
/// that text, and a non-empty text is reported, unchanged, as the choice's
/// last event; a choice without text reports nothing.
pub proof fn lemma_choice_text_is_kept(s: StreamView, c: ChatChoice)
    ensures
        after_choice(s, c).0.assistant_text == s.assistant_text + choice_text(c),
        choice_text(c).len() > 0 ==> after_choice(s, c).1.len() > 0 && after_choice(s, c).1.last()
            == StreamEventView::OutputTextDelta(choice_text(c)),
        choice_text(c).len() == 0 ==> after_choice(s, c).1.len() == 0,
{
    assert(s.assistant_text + Seq::<char>::empty() =~= s.assistant_text);
}

proof fn lemma_choices_text_is_kept(s: StreamView, cs: Seq<ChatChoice>)
    ensures
        after_choices(s, cs).0.assistant_text == s.assistant_text + choices_text(cs),
    decreases cs.len(),
{
    if cs.len() == 0 {
        assert(s.assistant_text + Seq::<char>::empty() =~= s.assistant_text);
    } else {
        lemma_choices_text_is_kept(s, cs.drop_last());
        let prev = after_choices(s, cs.drop_last());
        lemma_choice_text_is_kept(prev.0, cs.last());
        assert(s.assistant_text + choices_text(cs.drop_last()) + choice_text(cs.last())
            =~= s.assistant_text + (choices_text(cs.drop_last()) + choice_text(cs.last())));
    }
}

/// Over a whole stream, no fragment of text is lost, changed or reordered:
/// the assistant text, the text of the deltas reported, and the text of the
/// final assistant message are all the received content fragments joined in
/// order.
pub proof fn lemma_streamed_text_is_the_received_text(
    chunks: Seq<ChatChunk>,
    done: bool,
    fallback: Seq<(Seq<char>, Seq<char>)>,
    freeform: Set<Seq<char>>,
)
    ensures
        after_chunks(initial_stream(), chunks).0.assistant_text == chunks_text(chunks),
        delta_text(after_chunks(initial_stream(), chunks).1) == chunks_text(chunks),
        chunks_text(chunks).len() > 0 ==> final_events(
            after_chunks(initial_stream(), chunks).0,
            done,
            fallback,
            freeform,
        )[0] == StreamEventView::OutputItemDone(
            assistant_message(after_chunks(initial_stream(), chunks).0.response_id, chunks_text(chunks)),
        ),
    decreases chunks.len(),
{
    if chunks.len() > 0 {
        lemma_streamed_text_is_the_received_text(chunks.drop_last(), done, fallback, freeform);
        let prev = after_chunks(initial_stream(), chunks.drop_last());
        let c = chunks.last();
        let s1 = StreamView {
            response_id: if prev.0.response_id is None {
                c.id.deep_view()
            } else {
                prev.0.response_id
            },
            token_usage: match c.usage {
                Some(u) => Some(crate::chat_stream::usage_from(u)),
                None => prev.0.token_usage,
            },
            ..prev.0
        };
        lemma_choices_text_is_kept(s1, c.choices@);
    }
    lemma_streamed_text_is_announced_and_complete(chunks);
    lemma_final_message_carries_streamed_text(chunks, done, fallback, freeform);
}

/// Whether a fragment continues the call with index `k`.
pub open spec fn is_fragment_of(d: ChatToolCallDelta, k: u32) -> bool {
    d.index == k
}

/// The argument text the fragments of the call `k` carry, joined in order.
pub open spec fn fragment_arguments(ds: Seq<ChatToolCallDelta>, k: u32) -> Seq<char>
    decreases ds.len(),
{
    if ds.len() == 0 {
        Seq::empty()
    } else {
        let d = ds.last();
        fragment_arguments(ds.drop_last(), k) + if d.index == k && d.function is Some
            && d.function->0.arguments is Some {
            d.function->0.arguments->0@
        } else {
            Seq::<char>::empty()
        }
    }
}

/// The name text the fragments of the call `k` carry, joined in order.
pub open spec fn fragment_names(ds: Seq<ChatToolCallDelta>, k: u32) -> Seq<char>
    decreases ds.len(),
{
    if ds.len() == 0 {
        Seq::empty()
    } else {
        let d = ds.last();
        fragment_names(ds.drop_last(), k) + if d.index == k && d.function is Some
            && d.function->0.name is Some {
            d.function->0.name->0@
        } else {
            Seq::<char>::empty()
        }
    }
}

/// The id the fragments of the call `k` last gave, if any.
pub open spec fn fragment_id(ds: Seq<ChatToolCallDelta>, k: u32) -> Option<Seq<char>>
    decreases ds.len(),
{
    if ds.len() == 0 {
        None
    } else {
        let d = ds.last();
        if d.index == k && d.id is Some {
            Some(d.id->0@)
        } else {
            fragment_id(ds.drop_last(), k)
        }
    }
}

/// Tool calls are assembled from their fragments by index: after a run of
/// fragments, a call is known exactly when it was known before or a fragment
/// has its index; its arguments and its name are what it had, followed by the
/// argument and name texts of its fragments joined in order; its id is the
/// last one a fragment gave, or the one it had. Calls with other indices are
/// untouched.
pub proof fn lemma_tool_calls_assemble_their_fragments(
    calls: Map<u32, AccumulatedCall>,
    ds: Seq<ChatToolCallDelta>,
    k: u32,
)
    ensures
        with_tool_deltas(calls, ds).contains_key(k) <==> (calls.contains_key(k) || exists|i: int|
            0 <= i < ds.len() && is_fragment_of(#[trigger] ds[i], k)),
        with_tool_deltas(calls, ds).contains_key(k) ==> ({
            let before = if calls.contains_key(k) {
                calls[k]
            } else {
                AccumulatedCall { id: None, name: Seq::empty(), arguments: Seq::empty() }
            };
            let after = with_tool_deltas(calls, ds)[k];
            &&& after.arguments == before.arguments + fragment_arguments(ds, k)
            &&& after.name == before.name + fragment_names(ds, k)
            &&& after.id == match fragment_id(ds, k) {
                Some(id) => Some(id),
                None => before.id,
            }
        }),
    decreases ds.len(),
{
    if ds.len() == 0 {
        if calls.contains_key(k) {
            assert(calls[k].arguments + Seq::<char>::empty() =~= calls[k].arguments);
            assert(calls[k].name + Seq::<char>::empty() =~= calls[k].name);
        }
    } else {
        let prev = ds.drop_last();
        let d = ds.last();
        lemma_tool_calls_assemble_their_fragments(calls, prev, k);
        let m = with_tool_deltas(calls, prev);
        assert(with_tool_deltas(calls, ds) == with_tool_delta(m, d));
        if exists|i: int| 0 <= i < prev.len() && is_fragment_of(#[trigger] prev[i], k) {
            let i = choose|i: int| 0 <= i < prev.len() && is_fragment_of(#[trigger] prev[i], k);
            assert(ds[i] == prev[i]);
        }
        if exists|i: int| 0 <= i < ds.len() && is_fragment_of(#[trigger] ds[i], k) {
            let i = choose|i: int| 0 <= i < ds.len() && is_fragment_of(#[trigger] ds[i], k);
            if i < prev.len() {
                assert(prev[i] == ds[i]);
            } else {
                assert(d == ds[i]);
            }
        }
        let before = if calls.contains_key(k) {
            calls[k]
        } else {
            AccumulatedCall { id: None, name: Seq::empty(), arguments: Seq::empty() }
        };
        if d.index == k {
            if m.contains_key(k) {
                assert(before.arguments + fragment_arguments(prev, k) + fragment_arguments(ds, k).skip(
                    fragment_arguments(prev, k).len() as int,
                ) =~= before.arguments + fragment_arguments(ds, k));
                assert(before.name + fragment_names(prev, k) + fragment_names(ds, k).skip(
                    fragment_names(prev, k).len() as int,
                ) =~= before.name + fragment_names(ds, k));
            } else {
                assert(!calls.contains_key(k));
                assert(fragment_arguments(prev, k) =~= Seq::<char>::empty()) by {
                    lemma_no_fragments_carry_nothing(prev, k);
                }
                assert(fragment_names(prev, k) =~= Seq::<char>::empty()) by {
                    lemma_no_fragments_carry_nothing(prev, k);
                }
                assert(fragment_id(prev, k) is None) by {
                    lemma_no_fragments_carry_nothing(prev, k);
                }
                assert(Seq::<char>::empty() + fragment_arguments(ds, k) =~= fragment_arguments(ds, k));
                assert(Seq::<char>::empty() + fragment_names(ds, k) =~= fragment_names(ds, k));
            }
        } else {
            assert(fragment_arguments(ds, k) =~= fragment_arguments(prev, k));
            assert(fragment_names(ds, k) =~= fragment_names(prev, k));
        }
    }
}

/// Without fragments of the call `k`, there is no text and no id for it.
proof fn lemma_no_fragments_carry_nothing(ds: Seq<ChatToolCallDelta>, k: u32)
    requires
        forall|i: int| 0 <= i < ds.len() ==> !is_fragment_of(#[trigger] ds[i], k),
    ensures
        fragment_arguments(ds, k) == Seq::<char>::empty(),
        fragment_names(ds, k) == Seq::<char>::empty(),
        fragment_id(ds, k) is None,
    decreases ds.len(),
{
    if ds.len() > 0 {
        assert(ds.last() == ds[ds.len() - 1]);
        assert forall|i: int| 0 <= i < ds.drop_last().len() implies !is_fragment_of(
            #[trigger] ds.drop_last()[i],
            k,
        ) by {
            assert(ds.drop_last()[i] == ds[i]);
        }
        lemma_no_fragments_carry_nothing(ds.drop_last(), k);
        assert(Seq::<char>::empty() + Seq::<char>::empty() =~= Seq::<char>::empty());
    }
}

/// How a finish reason ends the turn: `stop` and `content_filter` end it,
/// `tool_calls` and `length` do not, and any other reason says nothing.
pub proof fn lemma_end_turn_by_finish_reason(reason: Seq<char>)
    ensures
        end_turn_of("stop"@) == Some(true),
        end_turn_of("content_filter"@) == Some(true),
        end_turn_of("tool_calls"@) == Some(false),
        end_turn_of("length"@) == Some(false),
        !(reason == "stop"@ || reason == "content_filter"@ || reason == "tool_calls"@ || reason
            == "length"@) ==> end_turn_of(reason) is None,
{
    reveal_strlit("stop");
    reveal_strlit("content_filter");
    reveal_strlit("tool_calls");
    reveal_strlit("length");
    assert("tool_calls"@.len() != "stop"@.len() && "tool_calls"@.len() != "content_filter"@.len());
    assert("length"@.len() != "stop"@.len() && "length"@.len() != "content_filter"@.len());
}

/// The last event fails the turn exactly when no finish reason came and the
/// stream ended before `[DONE]`; otherwise it completes the turn with the
/// response id (empty when none came), the usage, and whether the finish
/// reason ends the turn.
pub proof fn lemma_completion_by_outcome(
    finish_reason: Option<Seq<char>>,
    done: bool,
    response_id: Option<Seq<char>>,
    token_usage: Option<TokenUsage>,
)
    ensures
        (finish_reason is None && !done) ==> completion_of(finish_reason, done, response_id, token_usage)
            == StreamEventView::Failed(STREAM_CUT_SHORT@),
        !(finish_reason is None && !done) ==> completion_of(
            finish_reason,
            done,
            response_id,
            token_usage,
        ) == (StreamEventView::Completed {
            response_id: if response_id is Some {
                response_id->0
            } else {
                Seq::empty()
            },
            token_usage,
            end_turn: if finish_reason is Some {
                end_turn_of(finish_reason->0)
            } else {
                None
            },
        }),
{
}

/// The finish reason last given by a run of choices, or `before` if none gave one.
pub open spec fn last_reason(cs: Seq<ChatChoice>, before: Option<Seq<char>>) -> Option<Seq<char>>
    decreases cs.len(),
{
    if cs.len() == 0 {
        before
    } else {
        match cs.last().finish_reason {
            Some(f) => Some(f@),
            None => last_reason(cs.drop_last(), before),
        }
    }
}

/// The first id given by a run of chunks, if any.
pub open spec fn first_chunk_id(chunks: Seq<ChatChunk>) -> Option<Seq<char>>
    decreases chunks.len(),
{
    if chunks.len() == 0 {
        None
    } else {
        match first_chunk_id(chunks.drop_last()) {
            Some(id) => Some(id),
            None => chunks.last().id.deep_view(),
        }
    }
}

/// The finish reason last given by any choice of a run of chunks, if any.
pub open spec fn last_chunk_reason(chunks: Seq<ChatChunk>) -> Option<Seq<char>>
    decreases chunks.len(),
{
    if chunks.len() == 0 {
        None
    } else {
        last_reason(chunks.last().choices@, last_chunk_reason(chunks.drop_last()))
    }
}

/// The usage last reported by a run of chunks, if any.
pub open spec fn last_chunk_usage(chunks: Seq<ChatChunk>) -> Option<TokenUsage>
    decreases chunks.len(),
{
    if chunks.len() == 0 {
        None
    } else {
        match chunks.last().usage {
            Some(u) => Some(crate::chat_stream::usage_from(u)),
            None => last_chunk_usage(chunks.drop_last()),
        }
    }
}

proof fn lemma_choices_keep_id_and_usage(s: StreamView, cs: Seq<ChatChoice>)
    ensures
        after_choices(s, cs).0.response_id == s.response_id,
        after_choices(s, cs).0.token_usage == s.token_usage,
        after_choices(s, cs).0.finish_reason == last_reason(cs, s.finish_reason),
    decreases cs.len(),
{
    if cs.len() > 0 {
        lemma_choices_keep_id_and_usage(s, cs.drop_last());
    }
}

/// Over a whole stream, the response id is the first id any chunk gave, the
/// finish reason is the last one any choice gave, and the usage is the last
/// one any chunk reported.
pub proof fn lemma_stream_keeps_first_id_last_reason_and_last_usage(chunks: Seq<ChatChunk>)
    ensures
        after_chunks(initial_stream(), chunks).0.response_id == first_chunk_id(chunks),
        after_chunks(initial_stream(), chunks).0.finish_reason == last_chunk_reason(chunks),
        after_chunks(initial_stream(), chunks).0.token_usage == last_chunk_usage(chunks),
    decreases chunks.len(),
{
    if chunks.len() > 0 {
        lemma_stream_keeps_first_id_last_reason_and_last_usage(chunks.drop_last());
        let prev = after_chunks(initial_stream(), chunks.drop_last());
        let c = chunks.last();
        let s1 = StreamView {
            response_id: if prev.0.response_id is None {
                c.id.deep_view()
            } else {
                prev.0.response_id
            },
            token_usage: match c.usage {
                Some(u) => Some(crate::chat_stream::usage_from(u)),
                None => prev.0.token_usage,
            },
            ..prev.0
        };
        lemma_choices_keep_id_and_usage(s1, c.choices@);
    }
}

/// Streamed arguments count as missing exactly when, trimmed, they are empty
/// or `{}`.
pub proof fn lemma_missing_arguments(args: Seq<char>)
    ensures
        arguments_missing(args) <==> (trim_spec(args).len() == 0 || trim_spec(args) == "{}"@),
{
}

/// The arguments wrapping a freeform body are a JSON object whose one member
/// is the string `input`: exactly then is the body taken out.
pub proof fn lemma_freeform_body_unwrapping(members: Option<Seq<(Seq<char>, Option<Seq<char>>)>>)
    ensures
        freeform_body_of(members) is Some <==> (members is Some && members->0.len() == 1
            && members->0[0].0 == FREEFORM_INPUT_FIELD@ && members->0[0].1 is Some),
        freeform_body_of(members) is Some ==> freeform_body_of(members) == members->0[0].1,
{
}

/// The arguments a call is emitted with: streamed arguments that are present
/// are kept; missing ones are replaced by those last recovered for the tool's
/// name, when there are some; and the result, when it wraps a freeform body
/// as `{"input": ...}`, is unwrapped to that body.
pub proof fn lemma_arguments_resolution(acc: AccumulatedCall, fallback: Seq<(Seq<char>, Seq<char>)>)
    ensures
        ({
            let chosen = if arguments_missing(acc.arguments) && fallback_lookup(fallback, acc.name) is Some {
                fallback_lookup(fallback, acc.name)->0
            } else {
                acc.arguments
            };
            &&& !arguments_missing(acc.arguments) ==> chosen == acc.arguments
            &&& fallback_lookup(fallback, acc.name) is None ==> chosen == acc.arguments
            &&& freeform_body_of(json_object_members(chosen)) is None ==> resolved_arguments(acc, fallback) == chosen
            &&& freeform_body_of(json_object_members(chosen)) matches Some(body)
                ==> resolved_arguments(acc, fallback) == body
        }),
{
}

/// A finished call is reported by two events, an announcement with empty
/// arguments and then the call with its resolved arguments, both with the
/// call's name and its id (empty when none came): as a freeform call when
/// the tool is freeform, and as a function call otherwise.
pub proof fn lemma_call_reported_twice(
    acc: AccumulatedCall,
    fallback: Seq<(Seq<char>, Seq<char>)>,
    freeform: Set<Seq<char>>,
)
    ensures
        ({
            let ev = call_events(acc, fallback, freeform);
            let id = if acc.id is Some {
                acc.id->0
            } else {
                Seq::<char>::empty()
            };
            let args = resolved_arguments(acc, fallback);
            &&& ev.len() == 2
            &&& freeform.contains(acc.name) ==> ev[0] == StreamEventView::OutputItemAdded(
                ResponseItemView::CustomToolCall {
                    id: None,
                    status: None,
                    call_id: id,
                    name: acc.name,
                    input: Seq::empty(),
                },
            ) && ev[1] == StreamEventView::OutputItemDone(
                ResponseItemView::CustomToolCall {
                    id: None,
                    status: None,
                    call_id: id,
                    name: acc.name,
                    input: args,
                },
            )
            &&& !freeform.contains(acc.name) ==> ev[0] == StreamEventView::OutputItemAdded(
                ResponseItemView::FunctionCall {
                    id: None,
                    name: acc.name,
                    namespace: None,
                    arguments: Seq::empty(),
                    call_id: id,
                },
            ) && ev[1] == StreamEventView::OutputItemDone(
                ResponseItemView::FunctionCall {
                    id: None,
                    name: acc.name,
                    namespace: None,
                    arguments: args,
                    call_id: id,
                },
            )
        }),
{
}

} // verus!
