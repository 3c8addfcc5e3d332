//! Reading one streamed turn: from the bytes of the event stream to the
//! payloads it carries and the events the turn reports.
use vstd::prelude::*;

use crate::chat_stream::{
    after_chunk, event_views, final_events, initial_stream, ChatChunk, ChatStreamState,
    StreamEvent, StreamEventView,
};
use crate::fallback::FallbackArguments;
use crate::sse::{
    classify_line, complete_lines, lemma_lines_do_not_depend_on_chunking, lemma_lines_unfold,
    pending_bytes, sse_line_meaning, SseLine, SseLineBuffer, SseLineView,
};
use crate::stream_laws::{after_chunks, turn_events};
use crate::string_set::StringSet;

verus! {

/// What the lines say, in order.
pub open spec fn line_meanings(lines: Seq<Seq<u8>>) -> Seq<SseLineView> {
    lines.map_values(|l: Seq<u8>| sse_line_meaning(l))
}

/// The payloads of a sequence of line meanings, up to the first `[DONE]`,
/// and whether a `[DONE]` came; skipped lines count for nothing, and nothing
/// after the `[DONE]` counts.
pub open spec fn payloads_of(ms: Seq<SseLineView>) -> (Seq<Seq<char>>, bool)
    decreases ms.len(),
{
    if ms.len() == 0 {
        (Seq::empty(), false)
    } else {
        let prev = payloads_of(ms.drop_last());
        if prev.1 {
            prev
        } else {
            match ms.last() {
                SseLineView::Skip => prev,
                SseLineView::Done => (prev.0, true),
                SseLineView::Data(p) => (prev.0.push(p), false),
            }
        }
    }
}

/// The payloads of the complete lines of a byte stream, up to the first
/// `[DONE]`, and whether a `[DONE]` came.
pub open spec fn stream_payloads(bytes: Seq<u8>) -> (Seq<Seq<char>>, bool) {
    payloads_of(line_meanings(complete_lines(bytes)))
}

/// The meanings that are not skipped lines, in order.
pub open spec fn significant(ms: Seq<SseLineView>) -> Seq<SseLineView>
    decreases ms.len(),
{
    if ms.len() == 0 {
        Seq::empty()
    } else {
        let rest = significant(ms.drop_last());
        match ms.last() {
            SseLineView::Skip => rest,
            _ => rest.push(ms.last()),
        }
    }
}

/// The chunks read from payloads by `parse`, in order; a payload that does
/// not read as a chunk is passed over.
pub open spec fn parsed_chunks(
    payloads: Seq<Seq<char>>,
    parse: spec_fn(Seq<char>) -> Option<ChatChunk>,
) -> Seq<ChatChunk>
    decreases payloads.len(),
{
    if payloads.len() == 0 {
        Seq::empty()
    } else {
        let rest = parsed_chunks(payloads.drop_last(), parse);
        match parse(payloads.last()) {
            Some(c) => rest.push(c),
            None => rest,
        }
    }
}

/// The events of a turn whose event stream is `bytes`, when each payload is
/// read as a chunk by `parse`.
pub open spec fn turn_events_of_bytes(
    bytes: Seq<u8>,
    parse: spec_fn(Seq<char>) -> Option<ChatChunk>,
    fallback: Seq<(Seq<char>, Seq<char>)>,
    freeform: Set<Seq<char>>,
) -> Seq<StreamEventView> {
    let (payloads, done) = stream_payloads(bytes);
    turn_events(parsed_chunks(payloads, parse), done, fallback, freeform)
}

proof fn lemma_line_meanings_append(a: Seq<Seq<u8>>, b: Seq<Seq<u8>>)
    ensures
        line_meanings(a + b) == line_meanings(a) + line_meanings(b),
{
    assert(line_meanings(a + b) =~= line_meanings(a) + line_meanings(b));
}

proof fn lemma_line_meanings_push(a: Seq<Seq<u8>>, l: Seq<u8>)
    ensures
        line_meanings(a.push(l)) == line_meanings(a).push(sse_line_meaning(l)),
{
    assert(line_meanings(a.push(l)) =~= line_meanings(a).push(sse_line_meaning(l)));
}

/// Once a `[DONE]` has come, later lines change nothing.
proof fn lemma_nothing_counts_after_done(a: Seq<SseLineView>, b: Seq<SseLineView>)
    requires
        payloads_of(a).1,
    ensures
        payloads_of(a + b) == payloads_of(a),
    decreases b.len(),
{
    if b.len() == 0 {
        assert(a + b =~= a);
    } else {
        lemma_nothing_counts_after_done(a, b.drop_last());
        assert((a + b).drop_last() =~= a + b.drop_last());
    }
}

/// Skipped lines change nothing: the payloads are those of the lines that
/// are not skipped.
proof fn lemma_payloads_of_significant(ms: Seq<SseLineView>)
    ensures
        payloads_of(ms) == payloads_of(significant(ms)),
    decreases ms.len(),
{
    if ms.len() > 0 {
        lemma_payloads_of_significant(ms.drop_last());
        let rest = significant(ms.drop_last());
        match ms.last() {
            SseLineView::Skip => {},
            _ => {
                assert(rest.push(ms.last()).drop_last() =~= rest);
            },
        }
    }
}

proof fn lemma_parsed_chunks_append(
    a: Seq<Seq<char>>,
    b: Seq<Seq<char>>,
    parse: spec_fn(Seq<char>) -> Option<ChatChunk>,
)
    ensures
        parsed_chunks(a + b, parse) == parsed_chunks(a, parse) + parsed_chunks(b, parse),
    decreases b.len(),
{
    if b.len() == 0 {
        assert(a + b =~= a);
        assert(parsed_chunks(a, parse) + parsed_chunks(b, parse) =~= parsed_chunks(a, parse));
    } else {
        lemma_parsed_chunks_append(a, b.drop_last(), parse);
        assert((a + b).drop_last() =~= a + b.drop_last());
        match parse(b.last()) {
            Some(c) => {
                assert(parsed_chunks(a, parse) + parsed_chunks(b.drop_last(), parse).push(c)
                    =~= (parsed_chunks(a, parse) + parsed_chunks(b.drop_last(), parse)).push(c));
            },
            None => {},
        }
    }
}

/// The events of a turn depend on its event stream only through the lines
/// that are not skipped: where the bytes were cut into chunks, `\n` or
/// `\r\n` line endings, whitespace around a line, blank lines and lines that
/// are not `data:` fields (such as `: ping`) change nothing.
pub proof fn lemma_turn_depends_only_on_significant_lines(
    a: Seq<u8>,
    b: Seq<u8>,
    parse: spec_fn(Seq<char>) -> Option<ChatChunk>,
    fallback: Seq<(Seq<char>, Seq<char>)>,
    freeform: Set<Seq<char>>,
)
    requires
        significant(line_meanings(complete_lines(a))) == significant(
            line_meanings(complete_lines(b)),
        ),
    ensures
        stream_payloads(a) == stream_payloads(b),
        turn_events_of_bytes(a, parse, fallback, freeform) == turn_events_of_bytes(
            b,
            parse,
            fallback,
            freeform,
        ),
{
    lemma_payloads_of_significant(line_meanings(complete_lines(a)));
    lemma_payloads_of_significant(line_meanings(complete_lines(b)));
}

/// Reading stops at `[DONE]`: once the stream `a` has carried it, whatever
/// follows changes neither the payloads nor the events.
pub proof fn lemma_nothing_after_done_counts(
    a: Seq<u8>,
    b: Seq<u8>,
    parse: spec_fn(Seq<char>) -> Option<ChatChunk>,
    fallback: Seq<(Seq<char>, Seq<char>)>,
    freeform: Set<Seq<char>>,
)
    requires
        stream_payloads(a).1,
    ensures
        stream_payloads(a + b) == stream_payloads(a),
        turn_events_of_bytes(a + b, parse, fallback, freeform) == turn_events_of_bytes(
            a,
            parse,
            fallback,
            freeform,
        ),
{
    lemma_lines_do_not_depend_on_chunking(a, b);
    lemma_line_meanings_append(complete_lines(a), complete_lines(pending_bytes(a) + b));
    lemma_nothing_counts_after_done(
        line_meanings(complete_lines(a)),
        line_meanings(complete_lines(pending_bytes(a) + b)),
    );
}

/// A payload that does not read as a chunk is passed over: the turn's chunks
/// are those of the other payloads.
pub proof fn lemma_unreadable_payloads_change_nothing(
    before: Seq<Seq<char>>,
    payload: Seq<char>,
    after: Seq<Seq<char>>,
    parse: spec_fn(Seq<char>) -> Option<ChatChunk>,
)
    requires
        parse(payload) is None,
    ensures
        parsed_chunks(before + seq![payload] + after, parse) == parsed_chunks(before + after, parse),
{
    lemma_parsed_chunks_append(before + seq![payload], after, parse);
    lemma_parsed_chunks_append(before, seq![payload], parse);
    lemma_parsed_chunks_append(before, after, parse);
    assert(seq![payload].drop_last() =~= Seq::<Seq<char>>::empty());
    assert(seq![payload].last() == payload);
    assert(parsed_chunks(seq![payload].drop_last(), parse) == Seq::<ChatChunk>::empty());
    assert(parsed_chunks(seq![payload], parse) =~= Seq::<ChatChunk>::empty());
    assert(parsed_chunks(before, parse) + Seq::<ChatChunk>::empty() =~= parsed_chunks(before, parse));
}

/// What a failed read of the event stream is reported as, before the error.
pub const SSE_READ_ERROR: &'static str = "sse read error: ";

/// The reader of one streamed turn.
pub struct TurnReader {
    lines: SseLineBuffer,
    state: ChatStreamState,
    done: bool,
    received: Ghost<Seq<u8>>,
    read_lines: Ghost<Seq<Seq<u8>>>,
    payloads: Ghost<Seq<Seq<char>>>,
    chunks: Ghost<Seq<ChatChunk>>,
}

/// What a turn reader has taken in and handed out so far.
pub struct TurnView {
    /// The bytes of the event stream taken in, in order.
    pub received: Seq<u8>,
    /// The payloads handed out, in order.
    pub payloads: Seq<Seq<char>>,
    /// Whether the `[DONE]` marker has been read.
    pub done: bool,
    /// The chunks taken in, in order.
    pub chunks: Seq<ChatChunk>,
}

impl View for TurnReader {
    type V = TurnView;

    closed spec fn view(&self) -> TurnView {
        TurnView {
            received: self.received@,
            payloads: self.payloads@,
            done: self.done,
            chunks: self.chunks@,
        }
    }
}

/// What the reader does after one read of the byte stream.
#[derive(Debug)]
pub enum TurnStep {
    /// Hand out the payloads now complete, then read on.
    ReadOn,
    /// The turn is over: finish it.
    Finish,
    /// The turn failed: report this event and stop.
    Fail(StreamEvent),
}

/// The outcome of one read of the byte stream.
pub enum ReadOutcome {
    /// Bytes arrived.
    Bytes(Vec<u8>),
    /// The read failed, with this error.
    Error(String),
    /// The stream ended.
    End,
}

impl TurnReader {
    /// The reader's internal invariant: the lines read and those still
    /// buffered are the lines of what was received; the payloads handed out
    /// are those of the lines read; the stream state is that of the chunks.
    pub closed spec fn wf(self) -> bool {
        &&& complete_lines(self.received@) == self.read_lines@ + complete_lines(self.lines@)
        &&& pending_bytes(self.received@) == pending_bytes(self.lines@)
        &&& payloads_of(line_meanings(self.read_lines@)) == (self.payloads@, self.done)
        &&& self.state@ == after_chunks(initial_stream(), self.chunks@).0
    }

    /// A reader that has taken nothing in, and the `Created` event that opens
    /// the turn.
    pub fn start() -> (r: (TurnReader, StreamEvent))
        ensures
            r.0.wf(),
            r.0@.received == Seq::<u8>::empty(),
            r.0@.payloads == Seq::<Seq<char>>::empty(),
            !r.0@.done,
            r.0@.chunks == Seq::<ChatChunk>::empty(),
            r.1@ == StreamEventView::Created,
    {
        let (state, created) = ChatStreamState::start();
        let reader = TurnReader {
            lines: SseLineBuffer::new(),
            state,
            done: false,
            received: Ghost(Seq::empty()),
            read_lines: Ghost(Seq::empty()),
            payloads: Ghost(Seq::empty()),
            chunks: Ghost(Seq::empty()),
        };
        proof {
            lemma_lines_unfold(Seq::<u8>::empty());
            assert(line_meanings(Seq::<Seq<u8>>::empty()) =~= Seq::<SseLineView>::empty());
            assert(Seq::<Seq<u8>>::empty() + Seq::<Seq<u8>>::empty() =~= Seq::<Seq<u8>>::empty());
        }
        (reader, created)
    }

    /// Whether the `[DONE]` marker has been read.
    pub fn is_done(&self) -> (r: bool)
        ensures
            r == self@.done,
    {
        self.done
    }

    /// Takes in bytes of the event stream; once `[DONE]` has been read,
    /// nothing more is taken in.
    pub fn receive(&mut self, bytes: &[u8])
        requires
            old(self).wf(),
        ensures
            final(self).wf(),
            final(self)@.received == if old(self)@.done {
                old(self)@.received
            } else {
                old(self)@.received + bytes@
            },
            final(self)@.payloads == old(self)@.payloads,
            final(self)@.done == old(self)@.done,
            final(self)@.chunks == old(self)@.chunks,
    {
        if self.done {
            return;
        }
        let ghost before = self.lines@;
        let ghost received = self.received@;
        self.lines.push_bytes(bytes);
        proof {
            lemma_lines_do_not_depend_on_chunking(received, bytes@);
            lemma_lines_do_not_depend_on_chunking(before, bytes@);
            self.received@ = received + bytes@;
            assert(self.read_lines@ + complete_lines(before) + complete_lines(
                pending_bytes(before) + bytes@,
            ) =~= self.read_lines@ + (complete_lines(before) + complete_lines(
                pending_bytes(before) + bytes@,
            )));
        }
    }

    /// The next payload of the lines taken in, skipping lines that carry
    /// none; `None` once the lines taken in are used up or `[DONE]` has been
    /// read, and then the payloads handed out are all those of the bytes
    /// taken in.
    pub fn next_payload(&mut self) -> (r: Option<String>)
        requires
            old(self).wf(),
        ensures
            final(self).wf(),
            final(self)@.received == old(self)@.received,
            final(self)@.chunks == old(self)@.chunks,
            match r {
                Some(p) => {
                    &&& final(self)@.payloads == old(self)@.payloads.push(p@)
                    &&& !final(self)@.done
                    &&& !old(self)@.done
                },
                None => {
                    &&& final(self)@.payloads == old(self)@.payloads
                    &&& (final(self)@.payloads, final(self)@.done) == stream_payloads(final(self)@.received)
                },
            },
    {
        if self.done {
            proof {
                lemma_line_meanings_append(self.read_lines@, complete_lines(self.lines@));
                lemma_nothing_counts_after_done(
                    line_meanings(self.read_lines@),
                    line_meanings(complete_lines(self.lines@)),
                );
            }
            return None;
        }
        loop
            invariant
                self.wf(),
                !self.done,
                !old(self)@.done,
                self@.received == old(self)@.received,
                self@.chunks == old(self)@.chunks,
                self@.payloads == old(self)@.payloads,
            decreases self.lines@.len(),
        {
            let ghost buffered = self.lines@;
            proof {
                lemma_lines_unfold(buffered);
            }
            let line = match self.lines.next_line() {
                Some(line) => line,
                None => {
                    proof {
                        assert(self.read_lines@ + Seq::<Seq<u8>>::empty() =~= self.read_lines@);
                    }
                    return None;
                },
            };
            let ghost read = self.read_lines@;
            proof {
                lemma_line_meanings_push(read, line@);
                self.read_lines@ = read.push(line@);
                assert(read + complete_lines(buffered) =~= read.push(line@) + complete_lines(
                    self.lines@,
                ));
                assert(line_meanings(read).push(sse_line_meaning(line@)).drop_last()
                    =~= line_meanings(read));
            }
            match classify_line(line.as_slice()) {
                SseLine::Skip => {},
                SseLine::Done => {
                    self.done = true;
                    proof {
                        lemma_line_meanings_append(self.read_lines@, complete_lines(self.lines@));
                        lemma_nothing_counts_after_done(
                            line_meanings(self.read_lines@),
                            line_meanings(complete_lines(self.lines@)),
                        );
                    }
                    return None;
                },
                SseLine::Data(p) => {
                    proof {
                        let ms = line_meanings(self.read_lines@);
                        assert(ms.drop_last() =~= line_meanings(read));
                        assert(ms.last() == SseLineView::Data(p@));
                        self.payloads@ = self.payloads@.push(p@);
                    }
                    return Some(p);
                },
            }
        }
    }

    /// Takes in one chunk read from a payload, and the events it gives.
    pub fn apply_chunk(&mut self, chunk: &ChatChunk) -> (r: Vec<StreamEvent>)
        requires
            old(self).wf(),
        ensures
            final(self).wf(),
            final(self)@.received == old(self)@.received,
            final(self)@.payloads == old(self)@.payloads,
            final(self)@.done == old(self)@.done,
            final(self)@.chunks == old(self)@.chunks.push(*chunk),
            event_views(r@) == after_chunk(after_chunks(initial_stream(), old(self)@.chunks).0, *chunk).1,
            after_chunks(initial_stream(), final(self)@.chunks).1 == after_chunks(
                initial_stream(),
                old(self)@.chunks,
            ).1 + event_views(r@),
    {
        let ghost chunks = self.chunks@;
        let r = self.state.apply_chunk(chunk);
        proof {
            self.chunks@ = chunks.push(*chunk);
            assert(self.chunks@.drop_last() =~= chunks);
        }
        r
    }

    /// The events that end the turn when the stream is over: the assistant
    /// message, the tool calls, and `Completed`, or `Failed` when the stream
    /// was cut short before `[DONE]` and a finish reason.
    pub fn finish(self, fallback: &FallbackArguments, freeform: &StringSet) -> (r: Vec<StreamEvent>)
        requires
            self.wf(),
        ensures
            event_views(r@) == final_events(
                after_chunks(initial_stream(), self@.chunks).0,
                self@.done,
                fallback@,
                freeform@,
            ),
            seq![StreamEventView::Created] + after_chunks(initial_stream(), self@.chunks).1
                + event_views(r@) == turn_events(self@.chunks, self@.done, fallback@, freeform@),
    {
        self.state.finish(self.done, fallback, freeform)
    }

    /// What the reader does with the outcome of one read: when the consumer
    /// of the events is gone it stops reading and finishes; bytes are taken
    /// in and their payloads are to be handed out; a failed read ends the
    /// turn with `Failed`, its message the error after `sse read error: `;
    /// the end of the stream finishes the turn.
    pub fn after_read(&mut self, consumer_gone: bool, outcome: ReadOutcome) -> (r: TurnStep)
        requires
            old(self).wf(),
        ensures
            final(self).wf(),
            final(self)@.payloads == old(self)@.payloads,
            final(self)@.done == old(self)@.done,
            final(self)@.chunks == old(self)@.chunks,
            consumer_gone ==> r is Finish && final(self)@.received == old(self)@.received,
            !consumer_gone ==> match outcome {
                ReadOutcome::Bytes(b) => {
                    &&& r is ReadOn
                    &&& final(self)@.received == if old(self)@.done {
                        old(self)@.received
                    } else {
                        old(self)@.received + b@
                    }
                },
                ReadOutcome::Error(e) => (r matches TurnStep::Fail(ev) && ev@
                    == StreamEventView::Failed(SSE_READ_ERROR@ + e@)) && final(self)@.received
                    == old(self)@.received,
                ReadOutcome::End => r is Finish && final(self)@.received == old(self)@.received,
            },
    {
        if consumer_gone {
            return TurnStep::Finish;
        }
        match outcome {
            ReadOutcome::Bytes(b) => {
                self.receive(b.as_slice());
                TurnStep::ReadOn
            },
            ReadOutcome::Error(e) => {
                let mut message = SSE_READ_ERROR.to_string();
                message.append(e.as_str());
                TurnStep::Fail(StreamEvent::Failed(message))
            },
            ReadOutcome::End => TurnStep::Finish,
        }
    }
}

/// Before `[DONE]`, each `data:` line adds its payload after those already
/// read, a `[DONE]` line ends the stream, and a skipped line changes nothing;
/// with no line read there is no payload and no `[DONE]`.
pub proof fn lemma_each_line_counts_once(ms: Seq<SseLineView>, m: SseLineView)
    ensures
        payloads_of(Seq::empty()) == (Seq::<Seq<char>>::empty(), false),
        !payloads_of(ms).1 ==> (m matches SseLineView::Data(p) ==> payloads_of(ms.push(m)) == (
            payloads_of(ms).0.push(p),
            false,
        )),
        !payloads_of(ms).1 ==> (m is Done ==> payloads_of(ms.push(m)) == (payloads_of(ms).0, true)),
        m is Skip ==> payloads_of(ms.push(m)) == payloads_of(ms),
{
    assert(ms.push(m).drop_last() =~= ms);
    assert(ms.push(m).last() == m);
}

} // verus!
