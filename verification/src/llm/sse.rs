//! Decoding the server-sent-event stream of a streamed chat completion.
//!
//! The byte stream is decoded to text and buffered; every complete frame
//! (text up to a blank line) is split into lines, and each `data: ` line
//! either ends the stream (`[DONE]`) or carries a JSON chunk whose text delta
//! and complete tool calls become stream events.
use vstd::prelude::*;
use crate::llm::provider::{LlmError, StreamEvent, StreamEventView, event_views};

verus! {

// ---------------------------------------------------------------------------
// Trusted decoding of bytes and JSON chunks
// ---------------------------------------------------------------------------

/// The text `String::from_utf8_lossy` makes of some bytes.
pub uninterp spec fn utf8_lossy(bytes: Seq<u8>) -> Seq<char>;

/// Decodes bytes as UTF-8, replacing invalid sequences
/// (`String::from_utf8_lossy`). Its documentation states that valid UTF-8
/// is decoded as is; what replaces invalid input is left to the name.
#[verifier::external_body]
pub(crate) fn decode_lossy(bytes: &[u8]) -> (r: String)
    ensures
        r@ == utf8_lossy(bytes@),
        vstd::utf8::valid_utf8(bytes@) ==> r@ == vstd::utf8::decode_utf8(bytes@),
{
    String::from_utf8_lossy(bytes).to_string()
}

/// The fields of one tool call in a chunk's delta, each present only when
/// it is a JSON string.
#[derive(Debug)]
pub struct ToolCallFields {
    pub id: Option<String>,
    pub name: Option<String>,
    pub arguments: Option<String>,
}

/// What a chunk's `choices[0].delta` holds: `content` when it is a string,
/// and `tool_calls` when it is an array.
#[derive(Debug)]
pub struct ChunkFields {
    pub content: Option<String>,
    pub tool_calls: Option<Vec<ToolCallFields>>,
}

/// The value of a tool call's fields.
pub struct ToolCallFieldsView {
    pub id: Option<Seq<char>>,
    pub name: Option<Seq<char>>,
    pub arguments: Option<Seq<char>>,
}

/// The value of a chunk's fields.
pub struct ChunkFieldsView {
    pub content: Option<Seq<char>>,
    pub tool_calls: Option<Seq<ToolCallFieldsView>>,
}

pub open spec fn tool_fields_view(t: ToolCallFields) -> ToolCallFieldsView {
    ToolCallFieldsView {
        id: crate::domain::opt_str(t.id),
        name: crate::domain::opt_str(t.name),
        arguments: crate::domain::opt_str(t.arguments),
    }
}

pub open spec fn chunk_fields_view(c: Option<ChunkFields>) -> Option<ChunkFieldsView> {
    match c {
        None => None,
        Some(f) => Some(
            ChunkFieldsView {
                content: crate::domain::opt_str(f.content),
                tool_calls: match f.tool_calls {
                    Some(v) => Some(v@.map_values(|t: ToolCallFields| tool_fields_view(t))),
                    None => None,
                },
            },
        ),
    }
}

/// The fields read from a chunk's JSON text; `None` when it is not JSON.
pub uninterp spec fn sse_chunk_fields(data: Seq<char>) -> Option<ChunkFieldsView>;

/// Parses a chunk's JSON text with `serde_json::from_str` and reads
/// `choices[0].delta.content` (`Value::as_str`) and
/// `choices[0].delta.tool_calls` (`Value::as_array`), and of each tool call
/// `id`, `function.name` and `function.arguments` (`Value::as_str`). The
/// result is named; JSON itself is not restated here.
#[verifier::external_body]
pub(crate) fn parse_chunk(data: &str) -> (r: Option<ChunkFields>)
    ensures
        chunk_fields_view(r) == sse_chunk_fields(data@),
{
    let v: serde_json::Value = serde_json::from_str(data).ok()?;
    let d = &v["choices"][0]["delta"];
    let text = |x: &serde_json::Value| x.as_str().map(|s| s.to_string());
    Some(ChunkFields {
        content: text(&d["content"]),
        tool_calls: d["tool_calls"].as_array().map(|a| a.iter().map(|t| ToolCallFields {
            id: text(&t["id"]),
            name: text(&t["function"]["name"]),
            arguments: text(&t["function"]["arguments"]),
        }).collect()),
    })
}

// ---------------------------------------------------------------------------
// The decoding, stated
// ---------------------------------------------------------------------------

/// The marker of a data line.
pub open spec fn data_prefix() -> Seq<char> {
    seq!['d', 'a', 't', 'a', ':', ' ']
}

/// The data that ends a stream.
pub open spec fn done_marker() -> Seq<char> {
    seq!['[', 'D', 'O', 'N', 'E', ']']
}

/// A line without one trailing carriage return.
pub open spec fn strip_cr(s: Seq<char>) -> Seq<char> {
    if s.len() > 0 && s.last() == '\r' {
        s.drop_last()
    } else {
        s
    }
}

/// The lines of a text, as `str::lines` yields them: split at `\n`, a `\r`
/// before the `\n` dropped, no empty line after a final `\n`. `cur` is the
/// part of the current line read so far.
pub open spec fn lines_from(s: Seq<char>, cur: Seq<char>) -> Seq<Seq<char>>
    decreases s.len(),
{
    if s.len() == 0 {
        if cur.len() == 0 {
            Seq::empty()
        } else {
            seq![cur]
        }
    } else if s[0] == '\n' {
        seq![strip_cr(cur)] + lines_from(s.drop_first(), Seq::empty())
    } else {
        lines_from(s.drop_first(), cur.push(s[0]))
    }
}

/// The events of the tool calls in a chunk: one per tool call whose id, name
/// and arguments are all present, in order.
pub open spec fn tool_call_events(tc: Seq<ToolCallFieldsView>) -> Seq<StreamEventView>
    decreases tc.len(),
{
    if tc.len() == 0 {
        Seq::empty()
    } else {
        let t = tc.last();
        tool_call_events(tc.drop_last()) + (match (t.id, t.name, t.arguments) {
            (Some(i), Some(n), Some(a)) => seq![
                StreamEventView::ToolCall { id: i, name: n, arguments: a },
            ],
            _ => Seq::empty(),
        })
    }
}

/// Law: the tool-call events of a chunk are those of its tool calls taken
/// one by one, in order: the events of two runs of tool calls one after the
/// other are the events of the first run followed by those of the second,
/// and a single tool call yields one `ToolCall` event carrying its id, name
/// and arguments when all three are present, and nothing otherwise.
pub proof fn lemma_tool_calls_one_by_one(a: Seq<ToolCallFieldsView>, b: Seq<ToolCallFieldsView>, t: ToolCallFieldsView)
    ensures
        tool_call_events(a + b) == tool_call_events(a) + tool_call_events(b),
        (t.id, t.name, t.arguments) matches (Some(i), Some(n), Some(g)) ==> tool_call_events(seq![t])
            == seq![StreamEventView::ToolCall { id: i, name: n, arguments: g }],
        !(t.id is Some && t.name is Some && t.arguments is Some) ==> tool_call_events(seq![t]).len() == 0,
    decreases b.len(),
{
    if b.len() == 0 {
        assert(a + b =~= a);
        assert(tool_call_events(a) + tool_call_events(b) =~= tool_call_events(a));
    } else {
        lemma_tool_calls_one_by_one(a, b.drop_last(), t);
        assert((a + b).drop_last() =~= a + b.drop_last());
        assert((a + b).last() == b.last());
    }
    let one = seq![t];
    assert(one.drop_last() =~= Seq::<ToolCallFieldsView>::empty());
    assert(one.last() == t);
    assert(tool_call_events(one.drop_last()).len() == 0);
    match (t.id, t.name, t.arguments) {
        (Some(i), Some(n), Some(g)) => {
            assert(tool_call_events(one) =~= seq![StreamEventView::ToolCall { id: i, name: n, arguments: g }]);
        },
        _ => {
            assert(tool_call_events(one).len() == 0);
        },
    }
}

/// Law: a chunk's tool calls yield exactly one event per complete call: the
/// number of events is the number of calls whose id, name and arguments are
/// all present.
pub proof fn lemma_tool_call_count(tc: Seq<ToolCallFieldsView>)
    ensures
        tool_call_events(tc).len() == tc.filter(
            |t: ToolCallFieldsView| t.id is Some && t.name is Some && t.arguments is Some,
        ).len(),
    decreases tc.len(),
{
    reveal(Seq::filter);
    if tc.len() > 0 {
        lemma_tool_call_count(tc.drop_last());
    }
}

/// The events of a chunk: its text delta first (when present), then its tool calls.
pub open spec fn chunk_events(c: Option<ChunkFieldsView>) -> Seq<StreamEventView> {
    match c {
        None => Seq::empty(),
        Some(f) => (match f.content {
            Some(t) => seq![StreamEventView::Delta(t)],
            None => Seq::empty(),
        }) + (match f.tool_calls {
            Some(tc) => tool_call_events(tc),
            None => Seq::empty(),
        }),
    }
}

/// The events of one line and whether it ends the stream.
pub open spec fn line_outcome(line: Seq<char>) -> (Seq<StreamEventView>, bool) {
    if line.len() >= 6 && line.take(6) == data_prefix() {
        let data = line.skip(6);
        if data == done_marker() {
            (seq![StreamEventView::Completed], true)
        } else {
            (chunk_events(sse_chunk_fields(data)), false)
        }
    } else {
        (Seq::empty(), false)
    }
}

/// The events of some lines, up to and including the end of the stream.
pub open spec fn lines_outcome(lines: Seq<Seq<char>>) -> (Seq<StreamEventView>, bool)
    decreases lines.len(),
{
    if lines.len() == 0 {
        (Seq::empty(), false)
    } else {
        let (e, d) = line_outcome(lines[0]);
        if d {
            (e, true)
        } else {
            let (e2, d2) = lines_outcome(lines.drop_first());
            (e + e2, d2)
        }
    }
}

/// The first position from `i` on where a blank line (`\n\n`) starts.
pub open spec fn find_blank(s: Seq<char>, i: int) -> Option<int>
    decreases s.len() - i,
{
    if i < 0 || i + 1 >= s.len() {
        None
    } else if s[i] == '\n' && s[i + 1] == '\n' {
        Some(i)
    } else {
        find_blank(s, i + 1)
    }
}

/// The events of a buffer's complete frames, whether one of them ended the
/// stream, and the incomplete rest left in the buffer.
pub open spec fn buffer_outcome(buf: Seq<char>) -> (Seq<StreamEventView>, bool, Seq<char>)
    decreases buf.len(),
{
    match find_blank(buf, 0) {
        None => (Seq::empty(), false, buf),
        Some(p) => {
            if 0 <= p && p + 2 <= buf.len() {
                let (e, d) = lines_outcome(lines_from(buf.take(p), Seq::empty()));
                if d {
                    (e, true, buf.skip(p + 2))
                } else {
                    let (e2, d2, r2) = buffer_outcome(buf.skip(p + 2));
                    (e + e2, d2, r2)
                }
            } else {
                (Seq::empty(), false, buf)
            }
        },
    }
}

proof fn lemma_find_blank_range(s: Seq<char>, i: int)
    requires
        0 <= i,
    ensures
        find_blank(s, i) matches Some(p) ==> i <= p && p + 2 <= s.len() && s[p] == '\n' && s[p
            + 1] == '\n',
    decreases s.len() - i,
{
    if i + 1 < s.len() && !(s[i] == '\n' && s[i + 1] == '\n') {
        lemma_find_blank_range(s, i + 1);
    }
}

// ---------------------------------------------------------------------------
// The decoder
// ---------------------------------------------------------------------------

/// Buffers the text of a stream and turns its complete frames into events.
#[derive(Debug)]
pub struct SseDecoder {
    pub buffer: Vec<char>,
    pub done: bool,
}

fn append_chunk_events(out: &mut Vec<StreamEvent>, c: Option<ChunkFields>)
    ensures
        event_views(final(out)@) == event_views(old(out)@) + chunk_events(chunk_fields_view(c)),
{
    match c {
        None => {
            assert(event_views(out@) =~= event_views(out@) + Seq::<StreamEventView>::empty());
        },
        Some(f) => {
            let ghost e0 = event_views(out@);
            match f.content {
                Some(t) => {
                    out.push(StreamEvent::Delta(t));
                },
                None => {},
            }
            let ghost e1 = event_views(out@);
            assert(e1 =~= e0 + (match crate::domain::opt_str(f.content) {
                Some(t) => seq![StreamEventView::Delta(t)],
                None => Seq::<StreamEventView>::empty(),
            }));
            match f.tool_calls {
                Some(tc) => {
                    let ghost tv = tc@.map_values(|t: ToolCallFields| tool_fields_view(t));
                    let mut i: usize = 0;
                    while i < tc.len()
                        invariant
                            i <= tc@.len(),
                            tv == tc@.map_values(|t: ToolCallFields| tool_fields_view(t)),
                            event_views(out@) == e1 + tool_call_events(tv.take(i as int)),
                        decreases tc@.len() - i,
                    {
                        let t = &tc[i];
                        let ghost before = event_views(out@);
                        assert(tv.take(i + 1).drop_last() =~= tv.take(i as int));
                        assert(tv.take(i + 1).last() == tool_fields_view(tc@[i as int]));
                        match (&t.id, &t.name, &t.arguments) {
                            (Some(id), Some(name), Some(args)) => {
                                out.push(
                                    StreamEvent::ToolCall {
                                        id: id.clone(),
                                        name: name.clone(),
                                        arguments: args.clone(),
                                    },
                                );
                                assert(event_views(out@) =~= before.push(
                                    StreamEventView::ToolCall { id: id@, name: name@, arguments: args@ },
                                ));
                            },
                            _ => {},
                        }
                        assert(event_views(out@) =~= e1 + tool_call_events(tv.take(i + 1)));
                        i = i + 1;
                    }
                    assert(tv.take(tc@.len() as int) =~= tv);
                },
                None => {
                    assert(event_views(out@) =~= e1 + Seq::<StreamEventView>::empty());
                },
            }
        },
    }
}

fn starts_with_data(line: &Vec<char>) -> (r: bool)
    ensures
        r == (line@.len() >= 6 && line@.take(6) == data_prefix()),
{
    if line.len() < 6 {
        return false;
    }
    let r = line[0] == 'd' && line[1] == 'a' && line[2] == 't' && line[3] == 'a' && line[4]
        == ':' && line[5] == ' ';
    assert(r ==> line@.take(6) =~= data_prefix());
    assert(line@.take(6) == data_prefix() ==> line@.take(6)[5] == ' ');
    r
}

fn is_done_marker(data: &Vec<char>) -> (r: bool)
    ensures
        r == (data@ == done_marker()),
{
    if data.len() != 6 {
        return false;
    }
    let r = data[0] == '[' && data[1] == 'D' && data[2] == 'O' && data[3] == 'N' && data[4]
        == 'E' && data[5] == ']';
    assert(r ==> data@ =~= done_marker());
    assert(data@ == done_marker() ==> data@[5] == ']');
    r
}

/// Handles one line: appends its events and tells whether it ends the stream.
fn handle_line(out: &mut Vec<StreamEvent>, line: &Vec<char>) -> (d: bool)
    ensures
        event_views(final(out)@) == event_views(old(out)@) + line_outcome(line@).0,
        d == line_outcome(line@).1,
{
    if !starts_with_data(line) {
        assert(event_views(out@) =~= event_views(out@) + Seq::<StreamEventView>::empty());
        return false;
    }
    let mut data: Vec<char> = Vec::new();
    let mut i: usize = 6;
    while i < line.len()
        invariant
            6 <= i <= line@.len(),
            data@ == line@.subrange(6, i as int),
        decreases line@.len() - i,
    {
        data.push(line[i]);
        assert(line@.subrange(6, i + 1) =~= line@.subrange(6, i as int).push(line@[i as int]));
        i = i + 1;
    }
    assert(data@ =~= line@.skip(6));
    if is_done_marker(&data) {
        out.push(StreamEvent::Completed);
        return true;
    }
    let text = crate::text::string_of(data.as_slice());
    let c = parse_chunk(text.as_str());
    append_chunk_events(out, c);
    false
}

proof fn lemma_lines_outcome_cons(x: Seq<char>, rest: Seq<Seq<char>>)
    ensures
        lines_outcome(seq![x] + rest) == ({
            let (e, d) = line_outcome(x);
            if d {
                (e, true)
            } else {
                let (e2, d2) = lines_outcome(rest);
                (e + e2, d2)
            }
        }),
{
    let s = seq![x] + rest;
    assert(s[0] == x);
    assert(s.drop_first() =~= rest);
}

/// Handles the lines of one frame; tells whether one of them ended the stream.
fn handle_frame(out: &mut Vec<StreamEvent>, frame: &Vec<char>) -> (d: bool)
    ensures
        event_views(final(out)@) == event_views(old(out)@) + lines_outcome(
            lines_from(frame@, Seq::empty()),
        ).0,
        d == lines_outcome(lines_from(frame@, Seq::empty())).1,
{
    let ghost e0 = event_views(out@);
    let ghost total = lines_outcome(lines_from(frame@, Seq::empty()));
    let mut cur: Vec<char> = Vec::new();
    let mut i: usize = 0;
    assert(frame@.skip(0) =~= frame@);
    while i < frame.len()
        invariant
            i <= frame@.len(),
            total == lines_outcome(lines_from(frame@, Seq::empty())),
            e0 == event_views(old(out)@),
            ({
                let (e, d) = lines_outcome(lines_from(frame@.skip(i as int), cur@));
                total == (event_views(out@).skip(e0.len() as int) + e, d)
            }),
            event_views(out@).len() >= e0.len(),
            event_views(out@).take(e0.len() as int) == e0,
        decreases frame@.len() - i,
    {
        let c = frame[i];
        let ghost s = frame@.skip(i as int);
        assert(s[0] == c);
        assert(s.drop_first() =~= frame@.skip(i + 1));
        if c == '\n' {
            assert(lines_from(s, cur@) == seq![strip_cr(cur@)] + lines_from(
                frame@.skip(i + 1),
                Seq::empty(),
            ));
            let mut line = cur;
            if line.len() > 0 && line[line.len() - 1] == '\r' {
                line.pop();
            }
            assert(line@ == strip_cr(cur@));
            let ghost before = event_views(out@);
            let d = handle_line(out, &line);
            proof {
                lemma_lines_outcome_cons(line@, lines_from(frame@.skip(i + 1), Seq::empty()));
                assert(event_views(out@).take(e0.len() as int) =~= e0);
            }
            if d {
                assert(event_views(out@).skip(e0.len() as int) =~= before.skip(e0.len() as int)
                    + line_outcome(line@).0);
                assert(event_views(out@) =~= e0 + event_views(out@).skip(e0.len() as int));
                assert(lines_outcome(lines_from(s, cur@)).0 == line_outcome(line@).0);
                assert(total.0 == before.skip(e0.len() as int) + line_outcome(line@).0);
                return true;
            }
            proof {
                let (e2, d2) = lines_outcome(lines_from(frame@.skip(i + 1), Seq::empty()));
                assert(event_views(out@).skip(e0.len() as int) =~= before.skip(e0.len() as int)
                    + line_outcome(line@).0);
                assert(before.skip(e0.len() as int) + (line_outcome(line@).0 + e2) =~= event_views(
                    out@,
                ).skip(e0.len() as int) + e2);
            }
            cur = Vec::new();
        } else {
            cur.push(c);
        }
        i = i + 1;
    }
    assert(frame@.skip(frame@.len() as int) =~= Seq::<char>::empty());
    if cur.len() > 0 {
        let ghost before = event_views(out@);
        let d = handle_line(out, &cur);
        proof {
            lemma_lines_outcome_cons(cur@, Seq::empty());
            assert(lines_from(Seq::<char>::empty(), cur@) =~= seq![cur@] + Seq::<Seq<char>>::empty());
            assert(event_views(out@).take(e0.len() as int) =~= e0);
            assert(event_views(out@).skip(e0.len() as int) =~= before.skip(e0.len() as int)
                + line_outcome(cur@).0);
            if !d {
                assert(line_outcome(cur@).0 + Seq::<StreamEventView>::empty() =~= line_outcome(cur@).0);
            }
        }
        assert(event_views(out@) =~= e0 + event_views(out@).skip(e0.len() as int));
        d
    } else {
        assert(event_views(out@) =~= e0 + event_views(out@).skip(e0.len() as int));
        assert(event_views(out@).skip(e0.len() as int) =~= event_views(out@).skip(e0.len() as int)
            + Seq::<StreamEventView>::empty());
        false
    }
}

fn find_blank_exec(s: &Vec<char>) -> (r: Option<usize>)
    ensures
        match r {
            Some(p) => find_blank(s@, 0) == Some(p as int),
            None => find_blank(s@, 0) is None,
        },
{
    let mut i: usize = 0;
    while i < s.len() && i + 1 < s.len()
        invariant
            find_blank(s@, i as int) == find_blank(s@, 0),
        decreases s@.len() - i,
    {
        if s[i] == '\n' && s[i + 1] == '\n' {
            return Some(i);
        }
        i = i + 1;
    }
    None
}

impl SseDecoder {
    /// A decoder with an empty buffer.
    pub fn new() -> (r: Self)
        ensures
            r.buffer@.len() == 0,
            !r.done,
    {
        SseDecoder { buffer: Vec::new(), done: false }
    }

    /// Adds decoded text to the buffer and returns the events of every frame
    /// that is now complete, in order. When a frame holds `data: [DONE]` the
    /// events end with `Completed`, the decoder is done, and the rest is
    /// dropped; once done, nothing more is decoded.
    pub fn push_text(&mut self, text: &str) -> (r: Vec<StreamEvent>)
        ensures
            old(self).done ==> r@.len() == 0 && final(self).done,
            !old(self).done ==> ({
                let (e, d, rest) = buffer_outcome(old(self).buffer@ + text@);
                &&& event_views(r@) == e
                &&& final(self).done == d
                &&& !d ==> final(self).buffer@ == rest
            }),
    {
        if self.done {
            return Vec::new();
        }
        let ghost whole = self.buffer@ + text@;
        let t = crate::text::chars_of(text);
        let mut buf: Vec<char> = Vec::new();
        std::mem::swap(&mut buf, &mut self.buffer);
        let mut k: usize = 0;
        while k < t.len()
            invariant
                k <= t@.len(),
                t@ == text@,
                buf@ == old(self).buffer@ + text@.take(k as int),
            decreases t@.len() - k,
        {
            buf.push(t[k]);
            assert(text@.take(k + 1) =~= text@.take(k as int).push(text@[k as int]));
            k = k + 1;
        }
        assert(text@.take(text@.len() as int) =~= text@);
        let mut out: Vec<StreamEvent> = Vec::new();
        let mut finished = false;
        loop
            invariant_except_break
                !finished,
                ({
                    let (e, d, rest) = buffer_outcome(buf@);
                    buffer_outcome(whole) == (event_views(out@) + e, d, rest)
                }),
            ensures
                finished ==> ({
                    let (e, d, rest) = buffer_outcome(whole);
                    event_views(out@) == e && d
                }),
                !finished ==> ({
                    let (e, d, rest) = buffer_outcome(whole);
                    event_views(out@) == e && !d && buf@ == rest
                }),
            decreases buf@.len(),
        {
            let ghost b = buf@;
            match find_blank_exec(&buf) {
                None => {
                    assert(event_views(out@) + Seq::<StreamEventView>::empty() =~= event_views(out@));
                    break;
                },
                Some(p) => {
                    proof {
                        lemma_find_blank_range(b, 0);
                    }
                    let blen = buf.len();
                    assert(p + 2 <= blen);
                    let mut frame: Vec<char> = Vec::new();
                    let mut j: usize = 0;
                    while j < p
                        invariant
                            j <= p,
                            p + 2 <= buf@.len(),
                            buf@ == b,
                            frame@ == b.take(j as int),
                        decreases p - j,
                    {
                        frame.push(buf[j]);
                        assert(b.take(j + 1) =~= b.take(j as int).push(b[j as int]));
                        j = j + 1;
                    }
                    let mut rest: Vec<char> = Vec::new();
                    let mut q: usize = p + 2;
                    while q < buf.len()
                        invariant
                            p + 2 <= q <= buf@.len(),
                            buf@ == b,
                            rest@ == b.subrange(p + 2, q as int),
                        decreases buf@.len() - q,
                    {
                        rest.push(buf[q]);
                        assert(b.subrange(p + 2, q + 1) =~= b.subrange(p + 2, q as int).push(
                            b[q as int],
                        ));
                        q = q + 1;
                    }
                    assert(rest@ =~= b.skip(p + 2));
                    let ghost before = event_views(out@);
                    let d = handle_frame(&mut out, &frame);
                    if d {
                        finished = true;
                        break;
                    }
                    proof {
                        let (e, dd) = lines_outcome(lines_from(b.take(p as int), Seq::empty()));
                        let (e2, d2, r2) = buffer_outcome(b.skip(p + 2));
                        assert(before + (e + e2) =~= event_views(out@) + e2);
                    }
                    buf = rest;
                },
            }
        }
        if finished {
            self.done = true;
        } else {
            self.buffer = buf;
        }
        out
    }

    /// Decodes a chunk of bytes of the response body (see `push_text`).
    pub fn push_bytes(&mut self, bytes: &[u8]) -> (r: Vec<StreamEvent>)
        ensures
            old(self).done ==> r@.len() == 0 && final(self).done,
            !old(self).done ==> ({
                let (e, d, rest) = buffer_outcome(old(self).buffer@ + utf8_lossy(bytes@));
                &&& event_views(r@) == e
                &&& final(self).done == d
                &&& !d ==> final(self).buffer@ == rest
            }),
            vstd::utf8::valid_utf8(bytes@) ==> utf8_lossy(bytes@) == vstd::utf8::decode_utf8(bytes@),
    {
        let text = decode_lossy(bytes);
        self.push_text(text.as_str())
    }

    /// The event that ends a stream whose body ended without `[DONE]`.
    pub fn end_of_body(&self) -> (r: StreamEvent)
        ensures
            r@ is Completed,
    {
        StreamEvent::Completed
    }

    /// The error that ends a stream whose transport failed, with the
    /// failure's message.
    pub fn transport_error(&self, message: String) -> (r: LlmError)
        ensures
            r == LlmError::Stream(message),
    {
        LlmError::Stream(message)
    }
}

proof fn lemma_find_blank_prefix(x: Seq<char>, y: Seq<char>, i: int)
    requires
        0 <= i,
        find_blank(x, i) is Some,
    ensures
        find_blank(x + y, i) == find_blank(x, i),
    decreases x.len() - i,
{
    let xy = x + y;
    if i + 1 < x.len() {
        assert(xy[i] == x[i]);
        assert(xy[i + 1] == x[i + 1]);
        if !(x[i] == '\n' && x[i + 1] == '\n') {
            lemma_find_blank_prefix(x, y, i + 1);
        }
    }
}

/// Law: text fed in two pieces yields the events of the same text fed at
/// once: the first piece's complete frames, then those of what it left
/// buffered followed by the second piece. Once a frame ends the stream,
/// nothing after it counts.
pub proof fn lemma_split_text(x: Seq<char>, y: Seq<char>)
    ensures
        ({
            let (e1, d1, r1) = buffer_outcome(x);
            let (e2, d2, r2) = buffer_outcome(r1 + y);
            let (e, d, r) = buffer_outcome(x + y);
            &&& d1 ==> e == e1 && d
            &&& !d1 ==> e == e1 + e2 && d == d2 && r == r2
        }),
    decreases x.len(),
{
    let xy = x + y;
    match find_blank(x, 0) {
        None => {
            assert(buffer_outcome(x) == (Seq::<StreamEventView>::empty(), false, x));
            let (e2, d2, r2) = buffer_outcome(x + y);
            assert(Seq::<StreamEventView>::empty() + e2 =~= e2);
        },
        Some(p) => {
            lemma_find_blank_range(x, 0);
            lemma_find_blank_prefix(x, y, 0);
            assert(xy.take(p) =~= x.take(p));
            assert(xy.skip(p + 2) =~= x.skip(p + 2) + y);
            let (e, d) = lines_outcome(lines_from(x.take(p), Seq::empty()));
            if !d {
                lemma_split_text(x.skip(p + 2), y);
                let (e1, d1, r1) = buffer_outcome(x.skip(p + 2));
                let (e2, d2, r2) = buffer_outcome(r1 + y);
                if !d1 {
                    assert(e + (e1 + e2) =~= (e + e1) + e2);
                }
            }
        },
    }
}

/// Every byte is ASCII.
pub open spec fn is_ascii_bytes(b: Seq<u8>) -> bool {
    forall|i: int| 0 <= i < b.len() ==> #[trigger] b[i] < 0x80
}

/// Law: ASCII bytes are valid UTF-8, however they are split.
pub proof fn lemma_ascii_is_valid_utf8(b: Seq<u8>)
    requires
        is_ascii_bytes(b),
    ensures
        vstd::utf8::valid_utf8(b),
    decreases b.len(),
{
    if b.len() > 0 {
        let c = b[0];
        assert(c < 0x80);
        assert(((c & 0x7f) as u32) <= 0x7f) by (bit_vector);
        let rest = vstd::utf8::pop_first_scalar(b);
        assert(rest =~= b.subrange(1, b.len() as int));
        assert(is_ascii_bytes(rest)) by {
            assert forall|i: int| 0 <= i < rest.len() implies #[trigger] rest[i] < 0x80 by {
                assert(rest[i] == b[i + 1]);
            }
        }
        lemma_ascii_is_valid_utf8(rest);
    }
}

/// Decoding valid UTF-8 pieces one after the other gives the decoding of
/// the whole.
proof fn lemma_decode_concat(x: Seq<u8>, y: Seq<u8>)
    requires
        vstd::utf8::valid_utf8(x),
        vstd::utf8::valid_utf8(y),
    ensures
        vstd::utf8::valid_utf8(x + y),
        vstd::utf8::decode_utf8(x + y) == vstd::utf8::decode_utf8(x) + vstd::utf8::decode_utf8(y),
    decreases x.len(),
{
    vstd::utf8::valid_utf8_concat(x, y);
    let xy = x + y;
    if x.len() == 0 {
        assert(xy =~= y);
        assert(vstd::utf8::decode_utf8(x) + vstd::utf8::decode_utf8(y) =~= vstd::utf8::decode_utf8(y));
    } else {
        let n = vstd::utf8::length_of_first_scalar(x);
        assert(1 <= n <= 4 && n <= x.len());
        assert(xy[0] == x[0]);
        assert(n >= 2 ==> xy[1] == x[1]);
        assert(n >= 3 ==> xy[2] == x[2]);
        assert(n >= 4 ==> xy[3] == x[3]);
        assert(vstd::utf8::length_of_first_scalar(xy) == n);
        assert(vstd::utf8::decode_first_scalar(xy) == vstd::utf8::decode_first_scalar(x));
        let rest = vstd::utf8::pop_first_scalar(x);
        assert(vstd::utf8::pop_first_scalar(xy) =~= rest + y);
        lemma_decode_concat(rest, y);
        assert(vstd::utf8::decode_utf8(xy) =~= vstd::utf8::decode_utf8(x) + vstd::utf8::decode_utf8(
            y,
        ));
    }
}

/// Law: bytes fed in two pieces that are each valid UTF-8 (as any split of
/// ASCII bytes is) yield the events of the same bytes fed at once: the first
/// piece's complete frames, then those of what it left buffered followed by
/// the second piece. `buf` is the text buffered before.
pub proof fn lemma_split_bytes(buf: Seq<char>, x: Seq<u8>, y: Seq<u8>)
    requires
        vstd::utf8::valid_utf8(x),
        vstd::utf8::valid_utf8(y),
    ensures
        vstd::utf8::valid_utf8(x + y),
        ({
            let (e1, d1, r1) = buffer_outcome(buf + vstd::utf8::decode_utf8(x));
            let (e2, d2, r2) = buffer_outcome(r1 + vstd::utf8::decode_utf8(y));
            let (e, d, r) = buffer_outcome(buf + vstd::utf8::decode_utf8(x + y));
            &&& d1 ==> e == e1 && d
            &&& !d1 ==> e == e1 + e2 && d == d2 && r == r2
        }),
{
    lemma_decode_concat(x, y);
    let tx = buf + vstd::utf8::decode_utf8(x);
    let ty = vstd::utf8::decode_utf8(y);
    assert(buf + vstd::utf8::decode_utf8(x + y) =~= tx + ty);
    lemma_split_text(tx, ty);
}

/// Some byte pieces one after another.
pub open spec fn joined(pieces: Seq<Seq<u8>>) -> Seq<u8>
    decreases pieces.len(),
{
    if pieces.len() == 0 {
        Seq::empty()
    } else {
        joined(pieces.drop_last()) + pieces.last()
    }
}

/// What a decoder holding `buf` yields when fed valid UTF-8 pieces one
/// after another, each as `push_bytes` handles it: the events in order,
/// whether the stream ended, and the text left buffered. Once the stream
/// has ended, later pieces yield nothing.
pub open spec fn fed(buf: Seq<char>, pieces: Seq<Seq<u8>>) -> (Seq<StreamEventView>, bool, Seq<char>)
    decreases pieces.len(),
{
    if pieces.len() == 0 {
        (Seq::empty(), false, buf)
    } else {
        let (e, d, r) = fed(buf, pieces.drop_last());
        if d {
            (e, true, r)
        } else {
            let (e2, d2, r2) = buffer_outcome(r + vstd::utf8::decode_utf8(pieces.last()));
            (e + e2, d2, r2)
        }
    }
}

/// Law: however a body is split into pieces that are each valid UTF-8 (as
/// every split of ASCII is), feeding them one after another to a decoder
/// whose buffer holds no complete frame yields the events of the whole
/// body fed at once, ends the stream when it does, and leaves the same
/// text buffered.
pub proof fn lemma_split_pieces(buf: Seq<char>, pieces: Seq<Seq<u8>>)
    requires
        find_blank(buf, 0) is None,
        forall|i: int| 0 <= i < pieces.len() ==> vstd::utf8::valid_utf8(#[trigger] pieces[i]),
    ensures
        vstd::utf8::valid_utf8(joined(pieces)),
        ({
            let (fe, fd, fr) = fed(buf, pieces);
            let (e, d, r) = buffer_outcome(buf + vstd::utf8::decode_utf8(joined(pieces)));
            &&& fe == e
            &&& fd == d
            &&& !d ==> fr == r
        }),
    decreases pieces.len(),
{
    if pieces.len() == 0 {
        assert(joined(pieces) =~= Seq::<u8>::empty());
        assert(vstd::utf8::decode_utf8(Seq::<u8>::empty()) =~= Seq::<char>::empty());
        assert(buf + Seq::<char>::empty() =~= buf);
    } else {
        let front = pieces.drop_last();
        let x = pieces.last();
        assert(vstd::utf8::valid_utf8(x));
        assert forall|i: int| 0 <= i < front.len() implies vstd::utf8::valid_utf8(#[trigger] front[i]) by {
            assert(front[i] == pieces[i]);
        }
        lemma_split_pieces(buf, front);
        lemma_decode_concat(joined(front), x);
        let t = buf + vstd::utf8::decode_utf8(joined(front));
        let y = vstd::utf8::decode_utf8(x);
        assert(buf + vstd::utf8::decode_utf8(joined(pieces)) =~= t + y);
        lemma_split_text(t, y);
    }
}

/// Law: a data line holding `[DONE]` ends the stream with `Completed`, and
/// lines that are not data lines produce nothing.
pub proof fn lemma_done_line_ends_stream(line: Seq<char>)
    ensures
        line == data_prefix() + done_marker() ==> line_outcome(line) == (
            seq![StreamEventView::Completed],
            true,
        ),
        !(line.len() >= 6 && line.take(6) == data_prefix()) ==> line_outcome(line) == (
            Seq::<StreamEventView>::empty(),
            false,
        ),
{
    if line == data_prefix() + done_marker() {
        assert(line.take(6) =~= data_prefix());
        assert(line.skip(6) =~= done_marker());
    }
}

/// Law: text without a blank line yields no events and stays buffered.
pub proof fn lemma_incomplete_frame_is_buffered(buf: Seq<char>)
    requires
        find_blank(buf, 0) is None,
    ensures
        buffer_outcome(buf) == (Seq::<StreamEventView>::empty(), false, buf),
{
}

} // verus!
