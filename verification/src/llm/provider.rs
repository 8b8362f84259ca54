//! The provider-independent request, response and streaming types, and the
//! fold that turns a stream of events into a complete chat response.
use vstd::prelude::*;
use crate::domain::{GenerationUsage, Message, ToolDefinition, message_views};

verus! {

/// What can go wrong while talking to a provider.
#[derive(Debug)]
pub enum LlmError {
    Network(String),
    Provider(String),
    Stream(String),
}

/// The human-readable text of an error.
pub open spec fn llm_error_text(e: LlmError) -> Seq<char> {
    match e {
        LlmError::Network(s) => "network error: "@ + s@,
        LlmError::Provider(s) => "provider error: "@ + s@,
        LlmError::Stream(s) => "stream error: "@ + s@,
    }
}

impl LlmError {
    /// The error's message, e.g. `network error: connection refused`.
    pub fn to_text(&self) -> (r: String)
        ensures
            r@ == llm_error_text(*self),
    {
        match self {
            LlmError::Network(s) => crate::text::join2("network error: ", s.as_str()),
            LlmError::Provider(s) => crate::text::join2("provider error: ", s.as_str()),
            LlmError::Stream(s) => crate::text::join2("stream error: ", s.as_str()),
        }
    }
}

/// A request for a completion. Sampling parameters that are floating-point
/// numbers travel beside it, outside this library.
#[derive(Debug)]
pub struct ChatRequest {
    pub model: String,
    pub messages: Vec<Message>,
    pub tools: Option<Vec<ToolDefinition>>,
}

impl Clone for ChatRequest {
    fn clone(&self) -> (r: Self)
        ensures
            r.model == self.model,
            message_views(r.messages@) == message_views(self.messages@),
            match self.tools {
                Some(t) => r.tools matches Some(u) && u@ == t@,
                None => r.tools is None,
            },
    {
        let tools = match &self.tools {
            Some(t) => Some(crate::llm::openai::clone_definitions(t)),
            None => None,
        };
        ChatRequest {
            model: self.model.clone(),
            messages: crate::domain::clone_messages(&self.messages),
            tools,
        }
    }
}

/// A complete (non-streamed) answer.
#[derive(Debug)]
pub struct ChatResponse {
    pub content: String,
    pub usage: GenerationUsage,
}

/// One event of a streamed answer.
#[derive(Debug)]
pub enum StreamEvent {
    Delta(String),
    ReasoningDelta(String),
    ToolCall { id: String, name: String, arguments: String },
    Usage(GenerationUsage),
    Completed,
}

/// The mathematical value of a stream event.
pub enum StreamEventView {
    Delta(Seq<char>),
    ReasoningDelta(Seq<char>),
    ToolCall { id: Seq<char>, name: Seq<char>, arguments: Seq<char> },
    Usage(GenerationUsage),
    Completed,
}

impl View for StreamEvent {
    type V = StreamEventView;

    open spec fn view(&self) -> StreamEventView {
        match self {
            StreamEvent::Delta(s) => StreamEventView::Delta(s@),
            StreamEvent::ReasoningDelta(s) => StreamEventView::ReasoningDelta(s@),
            StreamEvent::ToolCall { id, name, arguments } => StreamEventView::ToolCall {
                id: id@,
                name: name@,
                arguments: arguments@,
            },
            StreamEvent::Usage(u) => StreamEventView::Usage(*u),
            StreamEvent::Completed => StreamEventView::Completed,
        }
    }
}

/// The views of a list of stream events.
pub open spec fn event_views(s: Seq<StreamEvent>) -> Seq<StreamEventView> {
    s.map_values(|e: StreamEvent| e@)
}

/// What consuming one event meant for a chat in progress.
#[derive(Debug)]
pub enum Collected {
    /// Keep reading.
    Pending,
    /// The stream said it is complete.
    Finished,
    /// The stream reported an error; the chat fails with it.
    Failed(LlmError),
}

/// Accumulates a streamed answer into a complete one: deltas are appended,
/// the latest usage report is kept, reasoning and tool calls are skipped.
#[derive(Debug)]
pub struct ChatCollector {
    pub content: String,
    pub usage: GenerationUsage,
}

impl ChatCollector {
    /// Nothing received yet.
    pub fn new() -> (r: Self)
        ensures
            r.content@.len() == 0,
            r.usage == (GenerationUsage {
                prompt_tokens: None,
                completion_tokens: None,
                total_tokens: None,
                prompt_ms: None,
                generation_ms: None,
            }),
    {
        ChatCollector { content: String::new(), usage: GenerationUsage::empty() }
    }

    /// Consumes the next event of the stream.
    pub fn accept(&mut self, event: Result<StreamEvent, LlmError>) -> (r: Collected)
        ensures
            match event {
                Err(e) => r == Collected::Failed(e) && final(self).content@ == old(self).content@
                    && final(self).usage == old(self).usage,
                Ok(StreamEvent::Delta(s)) => r is Pending && final(self).content@ == old(self).content@ + s@
                    && final(self).usage == old(self).usage,
                Ok(StreamEvent::Usage(u)) => r is Pending && final(self).content@ == old(self).content@
                    && final(self).usage == u,
                Ok(StreamEvent::Completed) => r is Finished && final(self).content@ == old(self).content@
                    && final(self).usage == old(self).usage,
                Ok(_) => r is Pending && final(self).content@ == old(self).content@
                    && final(self).usage == old(self).usage,
            },
    {
        match event {
            Err(e) => Collected::Failed(e),
            Ok(StreamEvent::Delta(s)) => {
                self.content.append(s.as_str());
                Collected::Pending
            },
            Ok(StreamEvent::Usage(u)) => {
                self.usage = u;
                Collected::Pending
            },
            Ok(StreamEvent::Completed) => Collected::Finished,
            Ok(_) => Collected::Pending,
        }
    }

    /// The answer gathered so far.
    pub fn finish(self) -> (r: ChatResponse)
        ensures
            r.content@ == self.content@,
            r.usage == self.usage,
    {
        ChatResponse { content: self.content, usage: self.usage }
    }
}

} // verus!
