use llm_tui::events::ProviderEvent;
use llm_tui::llm::fake::{fake_token, FakeProvider, FakeStream, FAKE_TOKEN_COUNT};
use llm_tui::llm::provider::{ChatCollector, Collected, LlmError, StreamEvent};
use llm_tui::llm::sse::SseDecoder;
use llm_tui::app::StreamRelay;
use llm_tui::domain::{Role, Timestamp};

fn texts(events: &[StreamEvent]) -> Vec<String> {
    events
        .iter()
        .map(|e| match e {
            StreamEvent::Delta(t) => format!("delta:{}", t),
            StreamEvent::ReasoningDelta(t) => format!("reasoning:{}", t),
            StreamEvent::ToolCall { id, name, arguments } => format!("tool:{}:{}:{}", id, name, arguments),
            StreamEvent::Usage(_) => "usage".to_string(),
            StreamEvent::Completed => "completed".to_string(),
        })
        .collect()
}

#[test]
fn sse_decodes_complete_frames() {
    let mut d = SseDecoder::new();
    let ev = d.push_text("data: {\"choices\":[{\"delta\":{\"content\":\"Hel\"}}]}\n\n");
    assert_eq!(texts(&ev), vec!["delta:Hel"]);
    let ev = d.push_text("data: {\"choices\":[{\"delta\":{\"content\":\"lo\"}}]}\n\ndata: [DONE]\n\n");
    assert_eq!(texts(&ev), vec!["delta:lo", "completed"]);
    assert!(d.done);
    assert!(d.push_text("data: {\"choices\":[{\"delta\":{\"content\":\"late\"}}]}\n\n").is_empty());
}

#[test]
fn sse_buffers_incomplete_frames() {
    let mut d = SseDecoder::new();
    assert!(d.push_text("data: {\"choices\":[{\"delta\":{\"con").is_empty());
    assert!(!d.done);
    assert_eq!(d.buffer.iter().collect::<String>(), "data: {\"choices\":[{\"delta\":{\"con");
    let ev = d.push_text("tent\":\"x\"}}]}\n");
    assert!(ev.is_empty());
    let ev = d.push_text("\n");
    assert_eq!(texts(&ev), vec!["delta:x"]);
    assert!(d.buffer.is_empty());
}

#[test]
fn sse_ignores_other_lines_and_bad_json() {
    let mut d = SseDecoder::new();
    let ev = d.push_text(": keep-alive\nevent: message\ndata: not json\n\ndata: {\"choices\":[]}\n\n");
    assert!(ev.is_empty());
    assert!(!d.done);
}

#[test]
fn sse_emits_complete_tool_calls() {
    let mut d = SseDecoder::new();
    let frame = "data: {\"choices\":[{\"delta\":{\"tool_calls\":[{\"id\":\"c1\",\"function\":{\"name\":\"shell\",\"arguments\":\"{}\"}},{\"id\":\"c2\",\"function\":{\"name\":\"x\"}}]}}]}\r\n\r\n";
    // "\r\n\r\n" is no blank line of "\n\n"; the frame ends only at "\n\n".
    assert!(d.push_text(frame).is_empty());
    let ev = d.push_text("\n\n");
    assert_eq!(texts(&ev), vec!["tool:c1:shell:{}"]);
}

#[test]
fn sse_decodes_bytes_and_done_ends_stream() {
    let mut d = SseDecoder::new();
    let ev = d.push_bytes("data: {\"choices\":[{\"delta\":{\"content\":\"é\"}}]}\n\ndata: [DONE]\n\nignored".as_bytes());
    assert_eq!(texts(&ev), vec!["delta:é", "completed"]);
    assert!(d.done);
    assert!(matches!(d.end_of_body(), StreamEvent::Completed));
    assert!(matches!(d.transport_error("reset".into()), LlmError::Stream(m) if m == "reset"));
}

#[test]
fn lossy_decoding_and_chunk_parsing() {
    let mut d = SseDecoder::new();
    let mut bytes = b"data: {\"choices\":[{\"delta\":{\"content\":\"a".to_vec();
    bytes.push(0xff);
    bytes.extend_from_slice(b"b\"}}]}\n\n");
    assert_eq!(texts(&d.push_bytes(&bytes)), vec!["delta:a\u{fffd}b"]);
    let ev = d.push_text("data: {\"choices\":[{\"delta\":{\"content\":\"hi\",\"tool_calls\":{}}}]}\n\ndata: {}\n\ndata: nope\n\n");
    assert_eq!(texts(&ev), vec!["delta:hi"]);
    let ev = d.push_text("data: {\"choices\":[{\"delta\":{\"content\":null}}]}\n\n");
    assert!(ev.is_empty());
}

#[test]
fn fake_stream_emits_canned_answer() {
    let mut s = FakeStream::new();
    let mut events = Vec::new();
    while let Some(e) = s.step(false) {
        events.push(e);
    }
    assert_eq!(events.len(), FAKE_TOKEN_COUNT + 3);
    assert!(matches!(&events[0], StreamEvent::Delta(t) if t.is_empty()));
    let text: String = events[1..=FAKE_TOKEN_COUNT]
        .iter()
        .map(|e| match e {
            StreamEvent::Delta(t) => t.clone(),
            _ => panic!("token expected"),
        })
        .collect();
    assert!(text.starts_with("The quick brown fox jumps over the lazy dog. "));
    assert!(text.ends_with("Have fun! 🦊"));
    match &events[FAKE_TOKEN_COUNT + 1] {
        StreamEvent::Usage(u) => {
            assert_eq!(u.prompt_tokens, Some(42));
            assert_eq!(u.completion_tokens, Some(44));
            assert_eq!(u.total_tokens, Some(86));
            assert_eq!(u.prompt_ms, Some(10));
            assert_eq!(u.generation_ms, Some(2200));
        }
        _ => panic!("usage expected"),
    }
    assert!(matches!(events[FAKE_TOKEN_COUNT + 2], StreamEvent::Completed));
    assert!(s.finished);
    assert!(s.step(false).is_none());
}

#[test]
fn fake_stream_stops_when_cancelled() {
    let mut s = FakeStream::new();
    assert!(!s.waits_before_next());
    assert!(matches!(s.step(true), Some(StreamEvent::Delta(_))));
    assert!(s.waits_before_next());
    assert!(matches!(s.step(false), Some(StreamEvent::Delta(t)) if t == "The "));
    assert!(matches!(s.step(true), Some(StreamEvent::Completed)));
    assert!(s.finished);
    assert!(!s.waits_before_next());
    assert!(s.step(false).is_none());
}

#[test]
fn fake_provider_models_and_tokens() {
    let p = FakeProvider::new();
    let models = p.models();
    let ids: Vec<&str> = models.iter().map(|m| m.id.as_str()).collect();
    assert_eq!(ids, vec!["fake-fast", "fake-slow", "fake-reasoning"]);
    assert_eq!(models[1].context_length, Some(8192));
    assert_eq!(models[2].display_name.as_deref(), Some("Fake Reasoning"));
    let caps = p.capabilities();
    assert!(caps.streaming);
    assert!(!caps.tool_calling);
    assert_eq!(fake_token(0), "The ");
    assert_eq!(fake_token(43), "🦊");
}

#[test]
fn collector_gathers_a_complete_answer() {
    let mut c = ChatCollector::new();
    assert!(matches!(c.accept(Ok(StreamEvent::Delta("Hel".into()))), Collected::Pending));
    assert!(matches!(c.accept(Ok(StreamEvent::ReasoningDelta("hmm".into()))), Collected::Pending));
    assert!(matches!(c.accept(Ok(StreamEvent::Delta("lo".into()))), Collected::Pending));
    assert!(matches!(c.accept(Ok(StreamEvent::Completed)), Collected::Finished));
    let r = c.finish();
    assert_eq!(r.content, "Hello");
    assert_eq!(r.usage.total_tokens, None);
    let mut c = ChatCollector::new();
    assert!(matches!(
        c.accept(Err(LlmError::Network("down".into()))),
        Collected::Failed(LlmError::Network(m)) if m == "down"
    ));
}

#[test]
fn llm_error_texts() {
    assert_eq!(LlmError::Network("x".into()).to_text(), "network error: x");
    assert_eq!(LlmError::Provider("y".into()).to_text(), "provider error: y");
    assert_eq!(LlmError::Stream("z".into()).to_text(), "stream error: z");
}

#[test]
fn relay_turns_stream_into_provider_events() {
    let mut r = StreamRelay::new(11, 22);
    let s = r.on_event(Ok(StreamEvent::Delta("Hi".into())), at(5));
    assert!(!s.finished);
    assert!(matches!(s.event, Some(ProviderEvent::Delta { message_id: 11, ref text }) if text == "Hi"));
    let s = r.on_event(Ok(StreamEvent::ToolCall { id: "a".into(), name: "b".into(), arguments: "{}".into() }), at(5));
    assert!(s.event.is_none());
    assert!(!s.finished);
    let s = r.on_event(Ok(StreamEvent::Delta(" there".into())), at(5));
    assert!(!s.finished);
    let s = r.on_event(Ok(StreamEvent::Completed), at(99));
    assert!(s.finished);
    match s.event {
        Some(ProviderEvent::Completed { message }) => {
            assert_eq!(message.id, 11);
            assert_eq!(message.conversation_id, 22);
            assert_eq!(message.role, Role::Assistant);
            assert_eq!(message.content, "Hi there");
            assert_eq!(message.created_at, at(99));
            assert_eq!(message.metadata, "{}");
        }
        _ => panic!("completion expected"),
    }
    let mut r = StreamRelay::new(1, 2);
    let s = r.on_event(Err(LlmError::Provider("bad".into())), at(0));
    assert!(s.finished);
    assert!(matches!(s.event, Some(ProviderEvent::Failed { message_id: 1, ref error }) if error == "provider error: bad"));
    assert!(matches!(r.on_start_failed(&LlmError::Network("no".into())),
        ProviderEvent::Failed { message_id: 1, ref error } if error == "network error: no"));
    assert!(matches!(r.on_closed(at(3)), ProviderEvent::Completed { ref message } if message.content.is_empty()));
}

#[test]
fn test_connection_succeeds_with_fake_provider() {
    let mut app = llm_tui::app::App::new();
    app.connection_tested(Ok(FakeProvider::new().models()));
    assert!(app.error.is_none(), "connection should succeed with fake provider");
    assert!(!app.models.is_empty(), "models should be loaded");
}

#[test]
fn sse_bytes_split_anywhere_give_the_same_events() {
    let body = "data: {\"choices\":[{\"delta\":{\"content\":\"Hel\"}}]}\n\ndata: {\"choices\":[{\"delta\":{\"content\":\"lo\"}}]}\n\ndata: [DONE]\n\n";
    let bytes = body.as_bytes();
    let mut whole = SseDecoder::new();
    let expected = texts(&whole.push_bytes(bytes));
    assert_eq!(expected, vec!["delta:Hel", "delta:lo", "completed"]);
    for cut in 0..=bytes.len() {
        let mut d = SseDecoder::new();
        let mut got = texts(&d.push_bytes(&bytes[..cut]));
        got.extend(texts(&d.push_bytes(&bytes[cut..])));
        assert_eq!(got, expected, "split at {}", cut);
        assert!(d.done);
    }
}

fn at(secs: i64) -> Timestamp {
    Timestamp { secs, nanos: 0 }
}

#[test]
fn sse_bytes_in_many_pieces_give_the_same_events() {
    let body = "data: {\"choices\":[{\"delta\":{\"content\":\"a\"}}]}\n\ndata: {\"choices\":[{\"delta\":{\"content\":\"b\"}}]}\n\ndata: [DONE]\n\n";
    let bytes = body.as_bytes();
    let expected = texts(&SseDecoder::new().push_bytes(bytes));
    for size in 1..=7 {
        let mut d = SseDecoder::new();
        let mut got = Vec::new();
        for piece in bytes.chunks(size) {
            got.extend(texts(&d.push_bytes(piece)));
        }
        assert_eq!(got, expected, "pieces of {}", size);
    }
}
