//! A provider that needs no network: three fixed models and a canned answer
//! streamed token by token, used for development and tests.
use vstd::prelude::*;
use crate::domain::{Capabilities, GenerationUsage, Model};
use crate::llm::provider::{StreamEvent, StreamEventView};

verus! {

/// Number of tokens in the canned answer.
pub const FAKE_TOKEN_COUNT: usize = 44;

/// The canned answer's tokens, in order.
pub open spec fn fake_token_text(i: int) -> Seq<char> {
    if i == 0 {
        "The "@
    } else if i == 1 {
        "quick "@
    } else if i == 2 {
        "brown "@
    } else if i == 3 {
        "fox "@
    } else if i == 4 {
        "jumps "@
    } else if i == 5 {
        "over "@
    } else if i == 6 {
        "the "@
    } else if i == 7 {
        "lazy "@
    } else if i == 8 {
        "dog. "@
    } else if i == 9 {
        "This "@
    } else if i == 10 {
        "is "@
    } else if i == 11 {
        "a "@
    } else if i == 12 {
        "fake "@
    } else if i == 13 {
        "response "@
    } else if i == 14 {
        "from "@
    } else if i == 15 {
        "the "@
    } else if i == 16 {
        "test "@
    } else if i == 17 {
        "provider. "@
    } else if i == 18 {
        "It "@
    } else if i == 19 {
        "streams "@
    } else if i == 20 {
        "tokens "@
    } else if i == 21 {
        "one "@
    } else if i == 22 {
        "by "@
    } else if i == 23 {
        "one "@
    } else if i == 24 {
        "to "@
    } else if i == 25 {
        "simulate "@
    } else if i == 26 {
        "real "@
    } else if i == 27 {
        "LLM "@
    } else if i == 28 {
        "behavior. "@
    } else if i == 29 {
        "You "@
    } else if i == 30 {
        "can "@
    } else if i == 31 {
        "use "@
    } else if i == 32 {
        "this "@
    } else if i == 33 {
        "for "@
    } else if i == 34 {
        "testing "@
    } else if i == 35 {
        "the "@
    } else if i == 36 {
        "TUI "@
    } else if i == 37 {
        "without "@
    } else if i == 38 {
        "a "@
    } else if i == 39 {
        "real "@
    } else if i == 40 {
        "model. "@
    } else if i == 41 {
        "Have "@
    } else if i == 42 {
        "fun! "@
    } else if i == 43 {
        "🦊"@
    } else {
        Seq::empty()
    }
}

/// The `i`-th token of the canned answer.
pub fn fake_token(i: usize) -> (r: &'static str)
    requires
        i < FAKE_TOKEN_COUNT,
    ensures
        r@ == fake_token_text(i as int),
{
    match i {
        0 => "The ",
        1 => "quick ",
        2 => "brown ",
        3 => "fox ",
        4 => "jumps ",
        5 => "over ",
        6 => "the ",
        7 => "lazy ",
        8 => "dog. ",
        9 => "This ",
        10 => "is ",
        11 => "a ",
        12 => "fake ",
        13 => "response ",
        14 => "from ",
        15 => "the ",
        16 => "test ",
        17 => "provider. ",
        18 => "It ",
        19 => "streams ",
        20 => "tokens ",
        21 => "one ",
        22 => "by ",
        23 => "one ",
        24 => "to ",
        25 => "simulate ",
        26 => "real ",
        27 => "LLM ",
        28 => "behavior. ",
        29 => "You ",
        30 => "can ",
        31 => "use ",
        32 => "this ",
        33 => "for ",
        34 => "testing ",
        35 => "the ",
        36 => "TUI ",
        37 => "without ",
        38 => "a ",
        39 => "real ",
        40 => "model. ",
        41 => "Have ",
        42 => "fun! ",
        43 => "🦊",
        _ => "",
    }
}

/// The provider itself carries no state.
#[derive(Debug)]
pub struct FakeProvider;

impl FakeProvider {
    /// A fake provider.
    pub fn new() -> (r: Self) {
        FakeProvider
    }

    /// Its models: `fake-fast` (4096 tokens), `fake-slow` (8192) and
    /// `fake-reasoning` (16384), each with a display name and empty metadata.
    pub fn models(&self) -> (r: Vec<Model>)
        ensures
            r@.len() == 3,
            r@[0].id@ == "fake-fast"@,
            r@[0].display_name matches Some(n) && n@ == "Fake Fast"@,
            r@[0].context_length == Some(4096u64),
            r@[1].id@ == "fake-slow"@,
            r@[1].display_name matches Some(n) && n@ == "Fake Slow"@,
            r@[1].context_length == Some(8192u64),
            r@[2].id@ == "fake-reasoning"@,
            r@[2].display_name matches Some(n) && n@ == "Fake Reasoning"@,
            r@[2].context_length == Some(16384u64),
            forall|i: int| 0 <= i < 3 ==> (#[trigger] r@[i]).metadata@ == "{}"@,
    {
        let mut v: Vec<Model> = Vec::new();
        v.push(
            Model {
                id: crate::text::owned("fake-fast"),
                display_name: Some(crate::text::owned("Fake Fast")),
                context_length: Some(4096),
                metadata: crate::text::owned("{}"),
            },
        );
        v.push(
            Model {
                id: crate::text::owned("fake-slow"),
                display_name: Some(crate::text::owned("Fake Slow")),
                context_length: Some(8192),
                metadata: crate::text::owned("{}"),
            },
        );
        v.push(
            Model {
                id: crate::text::owned("fake-reasoning"),
                display_name: Some(crate::text::owned("Fake Reasoning")),
                context_length: Some(16384),
                metadata: crate::text::owned("{}"),
            },
        );
        v
    }

    /// Its capabilities: streaming only.
    pub fn capabilities(&self) -> (r: Capabilities)
        ensures
            r.streaming,
            !r.tools && !r.vision && !r.reasoning && !r.embeddings && !r.responses_api
                && !r.tool_calling && !r.parallel_tool_calls && !r.image_input
                && r.image_formats@.len() == 0 && !r.structured_output && !r.json_mode
                && r.max_output_tokens is None,
    {
        let mut c = Capabilities::default();
        c.streaming = true;
        c
    }
}

impl Default for FakeProvider {
    fn default() -> (r: Self) {
        FakeProvider::new()
    }
}

/// The usage the fake provider reports: 42 prompt tokens, one completion
/// token per canned token, 10 ms of prompt time and 50 ms per token.
pub open spec fn fake_usage() -> GenerationUsage {
    GenerationUsage {
        prompt_tokens: Some(42),
        completion_tokens: Some(FAKE_TOKEN_COUNT as u64),
        total_tokens: Some((42 + FAKE_TOKEN_COUNT) as u64),
        prompt_ms: Some(10),
        generation_ms: Some((FAKE_TOKEN_COUNT * 50) as u64),
    }
}

/// The event emitted at a position of the fake stream: an empty delta first,
/// then each token (or completion, when cancelled while waiting for it), then
/// the usage report, then completion.
pub open spec fn fake_event(position: nat, cancelled: bool) -> StreamEventView {
    if position == 0 {
        StreamEventView::Delta(Seq::empty())
    } else if position <= FAKE_TOKEN_COUNT {
        if cancelled {
            StreamEventView::Completed
        } else {
            StreamEventView::Delta(fake_token_text(position - 1))
        }
    } else if position == FAKE_TOKEN_COUNT + 1 {
        StreamEventView::Usage(fake_usage())
    } else {
        StreamEventView::Completed
    }
}

/// The fake provider's streaming answer as a state machine: the caller waits
/// between token positions and reports whether the request was cancelled meanwhile.
#[derive(Debug)]
pub struct FakeStream {
    pub position: usize,
    pub finished: bool,
}

/// One step of the fake stream (see `FakeStream::step`): a finished stream
/// emits nothing and stays as it is; otherwise the event of its position is
/// emitted, the position advances, and the stream is finished exactly when
/// that event is the completion. The machine stays well formed.
pub open spec fn fake_step(old: FakeStream, new: FakeStream, cancelled: bool, r: Option<StreamEvent>) -> bool {
    &&& new.well_formed()
    &&& old.finished ==> r is None && new == old
    &&& !old.finished ==> (r matches Some(e) && e@ == fake_event(old.position as nat, cancelled)
        && new.position == old.position + 1 && new.finished == (e@ is Completed))
}

impl FakeStream {
    /// A stream that has emitted nothing.
    pub fn new() -> (r: Self)
        ensures
            r.position == 0,
            !r.finished,
            r.well_formed(),
    {
        FakeStream { position: 0, finished: false }
    }

    /// The machine's invariant: it finishes after at most 47 events.
    pub open spec fn well_formed(&self) -> bool {
        &&& self.position <= FAKE_TOKEN_COUNT + 3
        &&& self.position == FAKE_TOKEN_COUNT + 3 ==> self.finished
    }

    /// Whether the caller should wait (and may be cancelled) before the next step.
    pub fn waits_before_next(&self) -> (r: bool)
        ensures
            r == (!self.finished && 1 <= self.position <= FAKE_TOKEN_COUNT),
    {
        !self.finished && 1 <= self.position && self.position <= FAKE_TOKEN_COUNT
    }

    /// Emits the next event; `cancelled` tells whether the wait before a token
    /// position was interrupted by cancellation. Once `Completed` has been
    /// emitted the stream is finished and emits nothing more.
    pub fn step(&mut self, cancelled: bool) -> (r: Option<StreamEvent>)
        requires
            old(self).well_formed(),
        ensures
            fake_step(*old(self), *final(self), cancelled, r),
    {
        if self.finished {
            return None;
        }
        let p = self.position;
        let e = if p == 0 {
            StreamEvent::Delta(String::new())
        } else if p <= FAKE_TOKEN_COUNT {
            if cancelled {
                StreamEvent::Completed
            } else {
                StreamEvent::Delta(crate::text::owned(fake_token(p - 1)))
            }
        } else if p == FAKE_TOKEN_COUNT + 1 {
            StreamEvent::Usage(
                GenerationUsage {
                    prompt_tokens: Some(42),
                    completion_tokens: Some(FAKE_TOKEN_COUNT as u64),
                    total_tokens: Some((42 + FAKE_TOKEN_COUNT) as u64),
                    prompt_ms: Some(10),
                    generation_ms: Some((FAKE_TOKEN_COUNT * 50) as u64),
                },
            )
        } else {
            StreamEvent::Completed
        };
        self.position = p + 1;
        self.finished = match e {
            StreamEvent::Completed => true,
            _ => false,
        };
        Some(e)
    }
}

/// Law: an uncancelled fake stream emits exactly 47 events: an empty delta,
/// the 44 tokens in order, the usage report and completion, and nothing after.
pub proof fn lemma_fake_stream_uncancelled(position: nat)
    ensures
        position == 0 ==> fake_event(position, false) == StreamEventView::Delta(Seq::empty()),
        1 <= position <= FAKE_TOKEN_COUNT ==> fake_event(position, false)
            == StreamEventView::Delta(fake_token_text(position - 1)),
        position == FAKE_TOKEN_COUNT + 1 ==> fake_event(position, false) == StreamEventView::Usage(
            fake_usage(),
        ),
        position == FAKE_TOKEN_COUNT + 2 ==> fake_event(position, false) is Completed,
        position < FAKE_TOKEN_COUNT + 2 ==> !(fake_event(position, false) is Completed),
{
}

/// A run of the fake stream: each state follows from the one before by a
/// step with the given cancellation, emitting the given event.
pub open spec fn is_fake_run(states: Seq<FakeStream>, cancels: Seq<bool>, outs: Seq<Option<StreamEvent>>) -> bool {
    &&& states.len() == cancels.len() + 1
    &&& outs.len() == cancels.len()
    &&& forall|i: int| 0 <= i < cancels.len() ==> #[trigger] fake_step(states[i], states[i + 1], cancels[i], outs[i])
}

proof fn lemma_fake_run_progress(states: Seq<FakeStream>, cancels: Seq<bool>, outs: Seq<Option<StreamEvent>>, n: int)
    requires
        is_fake_run(states, cancels, outs),
        states[0].well_formed(),
        0 <= n <= cancels.len(),
    ensures
        states[n].well_formed(),
        states[n].finished || states[n].position == states[0].position + n,
    decreases n,
{
    if n > 0 {
        let k = n - 1;
        lemma_fake_run_progress(states, cancels, outs, k);
        assert(fake_step(states[k], states[k + 1], cancels[k], outs[k]));
        assert(states[k + 1] == states[n]);
    }
}

/// Law: whatever the cancellations, a fake stream that has taken enough
/// steps to pass its last position (at most 47 from the start) is finished
/// (and a finished stream emits nothing more, see `fake_step`).
pub proof fn lemma_fake_stream_terminates(states: Seq<FakeStream>, cancels: Seq<bool>, outs: Seq<Option<StreamEvent>>)
    requires
        is_fake_run(states, cancels, outs),
        states[0].well_formed(),
        states[0].position + cancels.len() >= FAKE_TOKEN_COUNT + 3,
    ensures
        states.last().finished,
        states.last().well_formed(),
{
    let n = cancels.len() as int;
    lemma_fake_run_progress(states, cancels, outs, n);
    assert(states.last() == states[n]);
}

} // verus!
