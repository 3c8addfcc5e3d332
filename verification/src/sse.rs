//! Server-sent events: splitting the byte stream into lines, and reading a
//! line as a `data:` payload.
use vstd::prelude::*;

use crate::text::{
    is_unicode_whitespace, str_eq, str_from_utf8, str_strip_prefix, str_strip_suffix, str_trim,
    str_trim_start, trim_end_spec, trim_spec, trim_start_spec,
};

verus! {

/// The newline byte that ends a line.
pub const NEWLINE: u8 = 10;

/// Bytes received but not yet split into lines.
pub struct SseLineBuffer {
    buf: Vec<u8>,
}

impl View for SseLineBuffer {
    type V = Seq<u8>;

    closed spec fn view(&self) -> Seq<u8> {
        self.buf@
    }
}

/// The index of the first newline in `s`, if any.
#[verifier::opaque]
pub open spec fn first_newline(s: Seq<u8>) -> Option<int> {
    if exists|i: int| 0 <= i < s.len() && s[i] == NEWLINE {
        Some(choose|i: int| 0 <= i < s.len() && s[i] == NEWLINE && forall|j: int| 0 <= j < i ==> s[j] != NEWLINE)
    } else {
        None
    }
}

impl SseLineBuffer {
    /// An empty buffer.
    pub fn new() -> (r: SseLineBuffer)
        ensures
            r@ == Seq::<u8>::empty(),
    {
        SseLineBuffer { buf: Vec::new() }
    }

    /// Appends received bytes.
    pub fn push_bytes(&mut self, bytes: &[u8])
        ensures
            final(self)@ == old(self)@ + bytes@,
    {
        let mut i: usize = 0;
        while i < bytes.len()
            invariant
                i <= bytes@.len(),
                self@ == old(self)@ + bytes@.take(i as int),
            decreases bytes@.len() - i,
        {
            self.buf.push(bytes[i]);
            i = i + 1;
            proof {
                assert(self@ =~= old(self)@ + bytes@.take(i as int));
            }
        }
        proof {
            assert(bytes@.take(i as int) =~= bytes@);
        }
    }

    /// Removes and returns the first complete line, newline included; `None`
    /// while no newline has arrived.
    pub fn next_line(&mut self) -> (r: Option<Vec<u8>>)
        ensures
            match first_newline(old(self)@) {
                Some(p) => {
                    &&& r matches Some(line)
                    &&& line@ == old(self)@.take(p + 1)
                    &&& final(self)@ == old(self)@.skip(p + 1)
                },
                None => r is None && final(self)@ == old(self)@,
            },
    {
        reveal(first_newline);
        let mut pos: usize = 0;
        while pos < self.buf.len() && self.buf[pos] != NEWLINE
            invariant
                pos <= self.buf@.len(),
                forall|j: int| 0 <= j < pos ==> self.buf@[j] != NEWLINE,
            decreases self.buf@.len() - pos,
        {
            pos = pos + 1;
        }
        if pos == self.buf.len() {
            proof {
                if exists|i: int| 0 <= i < self@.len() && self@[i] == NEWLINE {
                    let i = choose|i: int| 0 <= i < self@.len() && self@[i] == NEWLINE;
                    assert(self.buf@[i] != NEWLINE);
                }
            }
            return None;
        }
        proof {
            let s = self@;
            assert(0 <= pos < s.len() && s[pos as int] == NEWLINE);
            let p = choose|i: int| 0 <= i < s.len() && s[i] == NEWLINE && forall|j: int| 0 <= j < i ==> s[j] != NEWLINE;
            assert(p == pos as int) by {
                if p < pos {
                    assert(s[p] != NEWLINE);
                } else if p > pos {
                    assert(s[pos as int] != NEWLINE);
                }
            }
        }
        let mut line: Vec<u8> = Vec::new();
        let mut rest: Vec<u8> = Vec::new();
        let mut i: usize = 0;
        while i < self.buf.len()
            invariant
                pos < self.buf@.len(),
                i <= self.buf@.len(),
                i <= pos + 1 ==> line@ == self.buf@.take(i as int) && rest@.len() == 0,
                i > pos + 1 ==> line@ == self.buf@.take(pos + 1) && rest@ == self.buf@.subrange(pos + 1, i as int),
            decreases self.buf@.len() - i,
        {
            if i <= pos {
                line.push(self.buf[i]);
            } else {
                rest.push(self.buf[i]);
            }
            i = i + 1;
            proof {
                if i <= pos + 1 {
                    assert(line@ =~= self.buf@.take(i as int));
                } else {
                    assert(rest@ =~= self.buf@.subrange(pos + 1, i as int));
                }
            }
        }
        proof {
            assert(rest@ =~= self.buf@.skip(pos + 1));
        }
        self.buf = rest;
        Some(line)
    }
}

/// Some newline at or before `i` is the first one.
proof fn lemma_first_newline_exists(s: Seq<u8>, i: int)
    requires
        0 <= i < s.len(),
        s[i] == NEWLINE,
    ensures
        exists|k: int| 0 <= k < s.len() && s[k] == NEWLINE && forall|j: int| 0 <= j < k ==> s[j] != NEWLINE,
    decreases i,
{
    if exists|j: int| 0 <= j < i && s[j] == NEWLINE {
        let j = choose|j: int| 0 <= j < i && s[j] == NEWLINE;
        lemma_first_newline_exists(s, j);
    } else {
        assert(0 <= i < s.len() && s[i] == NEWLINE && forall|j: int| 0 <= j < i ==> s[j] != NEWLINE);
    }
}

/// Splitting off the first line loses and adds no byte: the line followed by
/// what remains is what was buffered, and the line ends at its only newline.
pub proof fn lemma_line_split_is_exact(s: Seq<u8>)
    requires
        first_newline(s) is Some,
    ensures
        ({
            let p = first_newline(s)->0;
            let line = s.take(p + 1);
            &&& line + s.skip(p + 1) == s
            &&& line.len() > 0 && line.last() == NEWLINE
            &&& forall|j: int| 0 <= j < line.len() - 1 ==> line[j] != NEWLINE
        }),
{
    reveal(first_newline);
    let i = choose|i: int| 0 <= i < s.len() && s[i] == NEWLINE;
    lemma_first_newline_exists(s, i);
    let p = first_newline(s)->0;
    assert(s.take(p + 1) + s.skip(p + 1) =~= s);
}

/// The newline at `p` is the first one of `s`.
proof fn lemma_first_newline_at(s: Seq<u8>, p: int)
    requires
        0 <= p < s.len(),
        s[p] == NEWLINE,
        forall|j: int| 0 <= j < p ==> s[j] != NEWLINE,
    ensures
        first_newline(s) == Some(p),
{
    reveal(first_newline);
    let c = choose|i: int| 0 <= i < s.len() && s[i] == NEWLINE && forall|j: int| 0 <= j < i ==> s[j] != NEWLINE;
    assert(c == p) by {
        if c < p {
            assert(s[c] != NEWLINE);
        } else if c > p {
            assert(s[p] != NEWLINE);
        }
    }
}

/// The first newline of `s`, when there is one, has no newline before it.
proof fn lemma_first_newline_is_first(s: Seq<u8>)
    requires
        first_newline(s) is Some,
    ensures
        0 <= first_newline(s)->0 < s.len(),
        s[first_newline(s)->0] == NEWLINE,
        forall|j: int| 0 <= j < first_newline(s)->0 ==> s[j] != NEWLINE,
{
    reveal(first_newline);
    let i = choose|i: int| 0 <= i < s.len() && s[i] == NEWLINE;
    lemma_first_newline_exists(s, i);
}

/// The complete lines of `s`, newlines included, in order.
pub open spec fn complete_lines(s: Seq<u8>) -> Seq<Seq<u8>>
    decreases s.len(),
{
    match first_newline(s) {
        Some(p) => if 0 <= p < s.len() {
            seq![s.take(p + 1)] + complete_lines(s.skip(p + 1))
        } else {
            Seq::empty()
        },
        None => Seq::empty(),
    }
}

/// What remains of `s` after its complete lines: a line still waiting for
/// its newline.
pub open spec fn pending_bytes(s: Seq<u8>) -> Seq<u8>
    decreases s.len(),
{
    match first_newline(s) {
        Some(p) => if 0 <= p < s.len() {
            pending_bytes(s.skip(p + 1))
        } else {
            s
        },
        None => s,
    }
}

/// The lines of `s` are the line `next_line` splits off, then the lines of
/// what it leaves; with no newline, `s` has no complete line and all of it
/// waits.
pub proof fn lemma_lines_unfold(s: Seq<u8>)
    ensures
        match first_newline(s) {
            Some(p) => {
                &&& 0 <= p < s.len()
                &&& complete_lines(s) == seq![s.take(p + 1)] + complete_lines(s.skip(p + 1))
                &&& pending_bytes(s) == pending_bytes(s.skip(p + 1))
            },
            None => complete_lines(s) == Seq::<Seq<u8>>::empty() && pending_bytes(s) == s,
        },
{
    if first_newline(s) is Some {
        lemma_first_newline_is_first(s);
    }
}

/// Where the byte stream is cut into chunks does not matter: reading `a` and
/// then `b` gives the lines of `a`, then the lines of what was left of `a`
/// followed by `b`; these are the lines of `a + b`, and the same bytes stay
/// waiting.
pub proof fn lemma_lines_do_not_depend_on_chunking(a: Seq<u8>, b: Seq<u8>)
    ensures
        complete_lines(a + b) == complete_lines(a) + complete_lines(pending_bytes(a) + b),
        pending_bytes(a + b) == pending_bytes(pending_bytes(a) + b),
    decreases a.len(),
{
    match first_newline(a) {
        Some(p) => {
            lemma_first_newline_is_first(a);
            let ab = a + b;
            assert forall|j: int| 0 <= j < p implies ab[j] != NEWLINE by {
                assert(ab[j] == a[j]);
            }
            lemma_first_newline_at(ab, p);
            let rest = a.skip(p + 1);
            assert(ab.take(p + 1) =~= a.take(p + 1));
            assert(ab.skip(p + 1) =~= rest + b);
            lemma_lines_do_not_depend_on_chunking(rest, b);
            assert(complete_lines(ab) =~= seq![a.take(p + 1)] + complete_lines(rest + b));
            assert(complete_lines(a) =~= seq![a.take(p + 1)] + complete_lines(rest));
        },
        None => {
            assert(complete_lines(a) =~= Seq::<Seq<u8>>::empty());
            assert(complete_lines(a) + complete_lines(pending_bytes(a) + b) =~= complete_lines(a + b));
        },
    }
}

/// What one line of the event stream says.
#[derive(Debug, Clone, PartialEq, Eq)]
pub enum SseLine {
    /// Nothing to act on: a blank line, a line that is not valid UTF-8, or a
    /// line that is not a `data:` field.
    Skip,
    /// The `[DONE]` marker: the stream is over.
    Done,
    /// A `data:` payload, to be read as a JSON chunk.
    Data(String),
}

/// What one line of the event stream says, with the payload as characters.
pub enum SseLineView {
    Skip,
    Done,
    Data(Seq<char>),
}

impl View for SseLine {
    type V = SseLineView;

    open spec fn view(&self) -> SseLineView {
        match self {
            SseLine::Skip => SseLineView::Skip,
            SseLine::Done => SseLineView::Done,
            SseLine::Data(p) => SseLineView::Data(p@),
        }
    }
}

/// The field name that introduces a payload.
pub const DATA_FIELD: &'static str = "data:";

/// The payload that ends the stream.
pub const DONE_MARKER: &'static str = "[DONE]";

/// `s` without one trailing `\n`, then without one trailing `\r`.
pub open spec fn strip_line_ending(s: Seq<char>) -> Seq<char> {
    let s1 = if "\n"@.is_suffix_of(s) {
        s.take(s.len() - 1)
    } else {
        s
    };
    if "\r"@.is_suffix_of(s1) {
        s1.take(s1.len() - 1)
    } else {
        s1
    }
}

/// What the text of a line says: blank lines and lines that are not a
/// `data:` field are skipped; the payload is the rest of the trimmed line
/// after `data:`, without leading whitespace.
pub open spec fn line_text_meaning(text: Seq<char>) -> SseLineView {
    let trimmed = trim_spec(strip_line_ending(text));
    if trimmed.len() == 0 || !DATA_FIELD@.is_prefix_of(trimmed) {
        SseLineView::Skip
    } else {
        let payload = trim_start_spec(trimmed.skip(DATA_FIELD@.len() as int));
        if payload == DONE_MARKER@ {
            SseLineView::Done
        } else {
            SseLineView::Data(payload)
        }
    }
}

/// What a line (its bytes, newline included) says: lines that are not UTF-8
/// are skipped; the others say what their text says.
pub open spec fn sse_line_meaning(bytes: Seq<u8>) -> SseLineView {
    if !vstd::utf8::valid_utf8(bytes) {
        SseLineView::Skip
    } else {
        line_text_meaning(vstd::utf8::decode_utf8(bytes))
    }
}

/// Every character of `w` is whitespace.
pub open spec fn all_whitespace(w: Seq<char>) -> bool {
    forall|i: int| 0 <= i < w.len() ==> is_unicode_whitespace(#[trigger] w[i])
}

proof fn lemma_trim_start_after_whitespace(w: Seq<char>, x: Seq<char>)
    requires
        all_whitespace(w),
    ensures
        trim_start_spec(w + x) == trim_start_spec(x),
    decreases w.len(),
{
    if w.len() > 0 {
        assert((w + x)[0] == w[0]);
        assert((w + x).drop_first() =~= w.drop_first() + x);
        lemma_trim_start_after_whitespace(w.drop_first(), x);
    } else {
        assert(w + x =~= x);
    }
}

proof fn lemma_trim_end_before_whitespace(x: Seq<char>, w: Seq<char>)
    requires
        all_whitespace(w),
    ensures
        trim_end_spec(x + w) == trim_end_spec(x),
    decreases w.len(),
{
    if w.len() > 0 {
        assert((x + w).last() == w.last());
        assert((x + w).drop_last() =~= x + w.drop_last());
        lemma_trim_end_before_whitespace(x, w.drop_last());
    } else {
        assert(x + w =~= x);
    }
}

proof fn lemma_trim_start_append_whitespace(x: Seq<char>, w: Seq<char>)
    requires
        all_whitespace(w),
    ensures
        trim_start_spec(x).len() > 0 ==> trim_start_spec(x + w) == trim_start_spec(x) + w,
        trim_start_spec(x).len() == 0 ==> trim_start_spec(x + w).len() == 0,
    decreases x.len(),
{
    if x.len() == 0 {
        assert(x + w =~= w);
        lemma_trim_start_after_whitespace(w, Seq::empty());
        assert(w + Seq::<char>::empty() =~= w);
    } else {
        assert((x + w)[0] == x[0]);
        assert((x + w).drop_first() =~= x.drop_first() + w);
        if is_unicode_whitespace(x[0]) {
            lemma_trim_start_append_whitespace(x.drop_first(), w);
        }
    }
}

proof fn lemma_trim_ignores_trailing_whitespace(x: Seq<char>, w: Seq<char>)
    requires
        all_whitespace(w),
    ensures
        trim_spec(x + w) == trim_spec(x),
{
    lemma_trim_start_append_whitespace(x, w);
    if trim_start_spec(x).len() > 0 {
        lemma_trim_end_before_whitespace(trim_start_spec(x), w);
    } else {
        assert(trim_start_spec(x) =~= Seq::<char>::empty());
        assert(trim_start_spec(x + w) =~= Seq::<char>::empty());
    }
}

proof fn lemma_trim_ignores_line_ending(x: Seq<char>)
    ensures
        trim_spec(strip_line_ending(x)) == trim_spec(x),
{
    reveal_strlit("\n");
    reveal_strlit("\r");
    assert("\n"@.len() == 1 && "\n"@[0] == '\n' && "\r"@.len() == 1 && "\r"@[0] == '\r');
    let x1 = if "\n"@.is_suffix_of(x) {
        x.take(x.len() - 1)
    } else {
        x
    };
    if "\n"@.is_suffix_of(x) {
        assert(x =~= x1 + seq!['\n']);
        assert(x[x.len() - 1] == "\n"@[0]);
        lemma_trim_ignores_trailing_whitespace(x1, seq!['\n']);
    }
    if "\r"@.is_suffix_of(x1) {
        let x2 = x1.take(x1.len() - 1);
        assert(x1 =~= x2 + seq!['\r']);
        assert(x1[x1.len() - 1] == "\r"@[0]);
        lemma_trim_ignores_trailing_whitespace(x2, seq!['\r']);
    }
}

/// A line's meaning does not depend on its line ending (`\n` or `\r\n`, or
/// none), nor on whitespace around it; a line of whitespace alone is
/// skipped.
pub proof fn lemma_line_meaning_ignores_surrounding_whitespace(
    before: Seq<char>,
    text: Seq<char>,
    after: Seq<char>,
)
    requires
        all_whitespace(before),
        all_whitespace(after),
    ensures
        line_text_meaning(before + text + after) == line_text_meaning(text),
        all_whitespace(text) ==> line_text_meaning(text) == SseLineView::Skip,
{
    let whole = before + text + after;
    lemma_trim_ignores_line_ending(whole);
    lemma_trim_ignores_line_ending(text);
    assert(whole =~= before + (text + after));
    lemma_trim_start_after_whitespace(before, text + after);
    lemma_trim_ignores_trailing_whitespace(text, after);
    if all_whitespace(text) {
        lemma_trim_start_after_whitespace(text, Seq::empty());
        assert(text + Seq::<char>::empty() =~= text);
        assert(trim_start_spec(Seq::<char>::empty()) =~= Seq::<char>::empty());
    }
}

/// Reads one line of the event stream.
pub fn classify_line(line_bytes: &[u8]) -> (r: SseLine)
    ensures
        r@ == sse_line_meaning(line_bytes@),
{
    let line = match str_from_utf8(line_bytes) {
        Some(s) => s,
        None => return SseLine::Skip,
    };
    proof {
        reveal_strlit("\n");
        reveal_strlit("\r");
        assert("\n"@.len() == 1 && "\r"@.len() == 1);
    }
    let line = match str_strip_suffix(line, "\n") {
        Some(s) => s,
        None => line,
    };
    let line = match str_strip_suffix(line, "\r") {
        Some(s) => s,
        None => line,
    };
    let trimmed = str_trim(line);
    if trimmed.is_empty() {
        return SseLine::Skip;
    }
    let payload = match str_strip_prefix(trimmed, DATA_FIELD) {
        Some(p) => str_trim_start(p),
        None => return SseLine::Skip,
    };
    if str_eq(payload, DONE_MARKER) {
        return SseLine::Done;
    }
    SseLine::Data(payload.to_string())
}

/// A `data:` field carries exactly the text after it, up to the whitespace
/// that follows the field name: a payload that begins and ends with a
/// non-whitespace character comes out unchanged, and the payload `[DONE]`
/// ends the stream.
pub proof fn lemma_data_lines_carry_their_payload(w: Seq<char>, payload: Seq<char>)
    requires
        all_whitespace(w),
        payload.len() > 0,
        !is_unicode_whitespace(payload[0]),
        !is_unicode_whitespace(payload.last()),
    ensures
        payload != DONE_MARKER@ ==> line_text_meaning(DATA_FIELD@ + w + payload) == SseLineView::Data(
            payload,
        ),
        payload == DONE_MARKER@ ==> line_text_meaning(DATA_FIELD@ + w + payload) == SseLineView::Done,
{
    reveal_strlit("data:");
    let text = DATA_FIELD@ + w + payload;
    assert(DATA_FIELD@.len() == 5 && DATA_FIELD@[0] == 'd');
    assert(text[0] == 'd');
    assert(text.last() == payload.last());
    lemma_trim_ignores_line_ending(text);
    assert(trim_start_spec(text) == text);
    assert(trim_end_spec(text) == text);
    assert(trim_spec(text) == text);
    assert(DATA_FIELD@.is_prefix_of(text)) by {
        assert(text.take(5) =~= DATA_FIELD@);
    }
    assert(text.skip(DATA_FIELD@.len() as int) =~= w + payload);
    lemma_trim_start_after_whitespace(w, payload);
    assert(trim_start_spec(payload) == payload);
}

} // verus!
