use llm_tui::context::{
    build_context, build_context_at, message_tokens, token_estimate, total_tokens, ContextPolicy,
    MESSAGE_OVERHEAD_TOKENS,
};
use llm_tui::domain::{Message, Role, Timestamp};

fn msg(role: Role, content: &str) -> Message {
    Message {
        id: 7,
        conversation_id: 9,
        parent_id: None,
        role,
        content: content.to_string(),
        reasoning_content: None,
        tool_calls: None,
        tool_call_id: None,
        images: None,
        metadata: "{}".to_string(),
        created_at: at(1_700_000_000),
    }
}

#[test]
fn token_estimate_basic() {
    assert_eq!(token_estimate(""), 0);
    assert_eq!(token_estimate("hi"), 1);
    assert_eq!(token_estimate("hello world"), 3);
    assert_eq!(token_estimate("a".repeat(100).as_str()), 25);
}

#[test]
fn message_tokens_includes_overhead() {
    let m = msg(Role::User, "hello");
    let tokens = message_tokens(&m);
    assert_eq!(tokens, token_estimate("hello") + MESSAGE_OVERHEAD_TOKENS);
}

#[test]
fn build_context_fits_all_messages() {
    let messages = vec![msg(Role::User, "hello"), msg(Role::Assistant, "hi there")];
    let policy = ContextPolicy {
        max_tokens: Some(8192),
        reserve_for_response: 1024,
    };
    let result = build_context(None, &messages, None, &policy);
    assert_eq!(result.len(), 2);
}

#[test]
fn build_context_drops_oldest_when_over_budget() {
    let messages = vec![
        msg(Role::User, &"a".repeat(4000)),
        msg(Role::Assistant, &"b".repeat(4000)),
        msg(Role::User, "recent question"),
    ];
    let policy = ContextPolicy {
        max_tokens: Some(1100),
        reserve_for_response: 500,
    };
    let result = build_context(None, &messages, None, &policy);
    assert_eq!(result.len(), 1);
    assert_eq!(result[0].content, "recent question");
}

#[test]
fn build_context_includes_system_prompt() {
    let messages = vec![msg(Role::User, "hello")];
    let policy = ContextPolicy {
        max_tokens: Some(8192),
        reserve_for_response: 1024,
    };
    let result = build_context(Some("You are helpful"), &messages, None, &policy);
    assert_eq!(result.len(), 2);
    assert_eq!(result[0].role, Role::System);
    assert_eq!(result[0].content, "You are helpful");
}

#[test]
fn build_context_system_prompt_takes_priority() {
    let messages = vec![msg(Role::User, &"a".repeat(8000))];
    let policy = ContextPolicy {
        max_tokens: Some(2000),
        reserve_for_response: 500,
    };
    let result = build_context(Some("system prompt here"), &messages, None, &policy);
    assert_eq!(result.len(), 1);
    assert_eq!(result[0].role, Role::System);
}

#[test]
fn build_context_uses_model_context_length() {
    let messages = vec![msg(Role::User, "hello")];
    let policy = ContextPolicy::default();
    let result = build_context(None, &messages, Some(4096), &policy);
    assert_eq!(result.len(), 1);
}

#[test]
fn total_tokens_sums_all() {
    let messages = vec![msg(Role::User, "hello"), msg(Role::Assistant, "world")];
    let total = total_tokens(Some("system"), &messages);
    assert!(total > 0);
}

#[test]
fn token_estimate_counts_utf8_bytes() {
    // "é" is two bytes, the fox emoji four.
    assert_eq!(token_estimate("é"), 1);
    assert_eq!(token_estimate("ééé"), 2);
    assert_eq!(token_estimate("🦊🦊"), 2);
    assert_eq!(token_estimate("abcd"), 1);
    assert_eq!(token_estimate("abcde"), 2);
}

#[test]
fn total_tokens_exact_value() {
    // system: 2 + 4, "hello": 2 + 4, "world": 2 + 4.
    let messages = vec![msg(Role::User, "hello"), msg(Role::Assistant, "world")];
    assert_eq!(total_tokens(Some("system"), &messages), 18);
    assert_eq!(total_tokens(None, &messages), 12);
    assert_eq!(total_tokens(None, &[]), 0);
}

#[test]
fn build_context_keeps_newest_run_that_fits() {
    // Each message costs 1 + 4 = 5 tokens; 100 - 88 = 12 leaves room for two.
    let messages = vec![
        msg(Role::User, "one"),
        msg(Role::Assistant, "two"),
        msg(Role::User, "three"),
    ];
    let policy = ContextPolicy {
        max_tokens: Some(100),
        reserve_for_response: 88,
    };
    let result = build_context(None, &messages, None, &policy);
    assert_eq!(result.len(), 2);
    assert_eq!(result[0].content, "two");
    assert_eq!(result[1].content, "three");
}

#[test]
fn build_context_stops_at_first_message_that_does_not_fit() {
    // The middle message is too large, so the older small one is dropped too.
    let messages = vec![
        msg(Role::User, "old"),
        msg(Role::Assistant, &"x".repeat(400)),
        msg(Role::User, "new"),
    ];
    let policy = ContextPolicy {
        max_tokens: Some(60),
        reserve_for_response: 0,
    };
    let result = build_context(None, &messages, None, &policy);
    assert_eq!(result.len(), 1);
    assert_eq!(result[0].content, "new");
}

#[test]
fn build_context_at_stamps_system_message() {
    let messages = vec![msg(Role::User, "hello")];
    let policy = ContextPolicy::default();
    let result = build_context_at(Some("be brief"), &messages, None, &policy, at(42));
    assert_eq!(result.len(), 2);
    let sys = &result[0];
    assert_eq!(sys.id, 0);
    assert_eq!(sys.conversation_id, 0);
    assert_eq!(sys.parent_id, None);
    assert_eq!(sys.role, Role::System);
    assert_eq!(sys.content, "be brief");
    assert_eq!(sys.metadata, "{}");
    assert_eq!(sys.created_at, at(42));
    assert_eq!(result[1].id, 7);
    assert_eq!(result[1].content, "hello");
}

#[test]
fn build_context_with_zero_budget_keeps_nothing() {
    let messages = vec![msg(Role::User, "hello")];
    let policy = ContextPolicy {
        max_tokens: Some(100),
        reserve_for_response: 500,
    };
    assert_eq!(build_context(None, &messages, None, &policy).len(), 0);
    assert_eq!(build_context(None, &[], None, &policy).len(), 0);
}

#[test]
fn context_policy_default_values() {
    let p = ContextPolicy::default();
    assert_eq!(p.max_tokens, None);
    assert_eq!(p.reserve_for_response, 1024);
}

fn at(secs: i64) -> Timestamp {
    Timestamp { secs, nanos: 0 }
}

#[test]
fn a_tighter_policy_keeps_a_suffix_of_what_a_looser_one_keeps() {
    let messages: Vec<Message> = (0..6).map(|i| msg(Role::User, &"x".repeat(4 * (i + 1)))).collect();
    let tight = ContextPolicy { max_tokens: Some(40), reserve_for_response: 10 };
    let loose = ContextPolicy { max_tokens: Some(60), reserve_for_response: 5 };
    let a = build_context_at(Some("sys"), &messages, None, &tight, at(1));
    let b = build_context_at(Some("sys"), &messages, None, &loose, at(1));
    assert!(a.len() < b.len());
    let ka: Vec<&str> = a[1..].iter().map(|m| m.content.as_str()).collect();
    let kb: Vec<&str> = b[1..].iter().map(|m| m.content.as_str()).collect();
    assert_eq!(&kb[kb.len() - ka.len()..], &ka[..]);
}
