use llm_tui::domain::{Conversation, Message, Model, Prompt, Provider, ProviderProtocol, Role, Timestamp};
use llm_tui::records::{
    conversation_to_row, message_to_row, model_to_row, prompt_to_row, provider_to_row, read_id,
    read_time, row_to_conversation, row_to_message, row_to_model, row_to_prompt, row_to_provider,
    stored_id, stored_time, MessageRow, ModelRow, PromptRow,
};

const ID: u128 = 0x550e8400_e29b_41d4_a716_446655440000;

fn message() -> Message {
    Message {
        id: ID,
        conversation_id: 2,
        parent_id: Some(1),
        role: Role::Assistant,
        content: "answer".into(),
        reasoning_content: Some("thinking".into()),
        tool_calls: None,
        tool_call_id: None,
        images: None,
        metadata: "{\"k\":1}".into(),
        created_at: ts(947_638_923, 4_000_000),
    }
}

#[test]
fn uuid_and_time_texts() {
    assert_eq!(stored_id(ID), "550e8400-e29b-41d4-a716-446655440000");
    assert_eq!(read_id("550e8400-e29b-41d4-a716-446655440000"), Ok(ID));
    assert_eq!(read_id(&stored_id(0)), Ok(0));
    assert!(read_id("not-a-uuid").is_err());
    assert_eq!(stored_time(ts(947_638_923, 4_000_000)).as_deref(), Some("2000-01-12T01:02:03.004+00:00"));
    assert_eq!(read_time("2000-01-12T01:02:03.004+00:00"), Ok(ts(947_638_923, 4_000_000)));
    assert_eq!(read_time("2000-01-12T02:02:03+01:00"), Ok(ts(947_638_923, 0)));
    assert!(read_time("yesterday").is_err());
    assert!(stored_time(ts(i64::MAX, 0)).is_none());
    // Nanoseconds are kept: written in full and read back.
    let fine = ts(947_638_923, 123_456_789);
    assert_eq!(stored_time(fine).as_deref(), Some("2000-01-12T01:02:03.123456789+00:00"));
    assert_eq!(read_time("2000-01-12T01:02:03.123456789+00:00"), Ok(fine));
    assert!(stored_time(ts(0, 2_000_000_000)).is_none());
}

#[test]
fn json_helpers() {
    let model = |metadata: &str| {
        row_to_model(&ModelRow {
            model_id: "m".into(),
            display_name: None,
            context_length: None,
            metadata_json: metadata.into(),
        })
        .metadata
    };
    assert_eq!(model("{\"a\":1}"), "{\"a\":1}");
    assert_eq!(model("[1, 2]"), "[1, 2]");
    assert_eq!(model("{oops"), "{}");
    let p = Prompt {
        id: 1,
        name: "n".into(),
        description: None,
        content: "c".into(),
        system_prompt: None,
        tags: vec!["a".to_string(), "b \"q\"".to_string()],
        variables: Vec::new(),
        created_at: ts(0, 0),
        updated_at: ts(0, 0),
    };
    let row = prompt_to_row(&p).unwrap();
    assert_eq!(row.tags_json, "[\"a\",\"b \\\"q\\\"\"]");
    assert_eq!(row.variables_json, "[]");
    let back = row_to_prompt(&PromptRow { variables_json: "[1]".into(), ..row }).unwrap();
    assert_eq!(back.tags, p.tags);
    assert!(back.variables.is_empty());
}

#[test]
fn message_rows_round_trip() {
    let m = message();
    let row = message_to_row(&m).expect("the time has a text");
    assert_eq!(row.id, "550e8400-e29b-41d4-a716-446655440000");
    assert_eq!(row.conversation_id, "00000000-0000-0000-0000-000000000002");
    assert_eq!(row.parent_id.as_deref(), Some("00000000-0000-0000-0000-000000000001"));
    assert_eq!(row.role, "assistant");
    assert_eq!(row.created_at, "2000-01-12T01:02:03.004+00:00");
    let back = row_to_message(&row).expect("the row reads back");
    assert_eq!(back.id, ID);
    assert_eq!(back.conversation_id, 2);
    assert_eq!(back.parent_id, Some(1));
    assert_eq!(back.role, Role::Assistant);
    assert_eq!(back.content, "answer");
    assert_eq!(back.reasoning_content.as_deref(), Some("thinking"));
    assert_eq!(back.metadata, "{\"k\":1}");
    assert_eq!(back.created_at, ts(947_638_923, 4_000_000));
}

#[test]
fn message_rows_report_errors_in_order() {
    let row = MessageRow {
        id: "bad".into(),
        conversation_id: "bad".into(),
        parent_id: None,
        role: "wizard".into(),
        content: String::new(),
        reasoning_content: None,
        metadata_json: "not json".into(),
        created_at: "bad".into(),
    };
    assert_eq!(row_to_message(&row).unwrap_err(), "unknown role: wizard");
    let row = MessageRow { role: "user".into(), ..row };
    let err = row_to_message(&row).unwrap_err();
    assert_eq!(Err(err), read_id("bad"));
    let row = MessageRow {
        id: stored_id(5),
        conversation_id: stored_id(6),
        created_at: "2024-01-01T00:00:00Z".into(),
        ..row
    };
    let m = row_to_message(&row).unwrap();
    assert_eq!(m.metadata, "{}");
    assert_eq!(m.role, Role::User);
    assert_eq!(m.parent_id, None);
}

#[test]
fn conversation_rows_round_trip() {
    let c = Conversation {
        id: 3,
        title: "Rust".into(),
        provider_id: 4,
        model_id: "m".into(),
        system_prompt: None,
        created_at: ts(1, 0),
        updated_at: ts(2, 0),
        archived_at: Some(ts(3, 0)),
    };
    let row = conversation_to_row(&c).unwrap();
    assert_eq!(row.created_at, "1970-01-01T00:00:01+00:00");
    assert_eq!(row.archived_at.as_deref(), Some("1970-01-01T00:00:03+00:00"));
    let back = row_to_conversation(&row).unwrap();
    assert_eq!(back.id, c.id);
    assert_eq!(back.title, c.title);
    assert_eq!(back.provider_id, c.provider_id);
    assert_eq!(back.model_id, c.model_id);
    assert_eq!(back.system_prompt, c.system_prompt);
    assert_eq!(back.created_at, c.created_at);
    assert_eq!(back.updated_at, c.updated_at);
    assert_eq!(back.archived_at, c.archived_at);
    let broken = llm_tui::records::ConversationRow { updated_at: "x".into(), ..row };
    assert!(row_to_conversation(&broken).is_err());
}

#[test]
fn provider_rows_round_trip() {
    let p = Provider {
        id: 8,
        name: "default".into(),
        base_url: "fake://local".into(),
        protocol: ProviderProtocol::OpenAiCompatible,
        api_key_ref: None,
        default_model: Some("m".into()),
        created_at: ts(10, 0),
        updated_at: ts(20, 0),
    };
    let row = provider_to_row(&p).unwrap();
    assert_eq!(row.protocol, "openai_compatible");
    let back = row_to_provider(&row).unwrap();
    assert_eq!(back.id, 8);
    assert_eq!(back.name, "default");
    assert_eq!(back.default_model.as_deref(), Some("m"));
    assert_eq!(back.created_at, ts(10, 0));
    assert_eq!(back.updated_at, ts(20, 0));
}

#[test]
fn model_rows() {
    let m = Model { id: "model-a".into(), display_name: Some("A".into()), context_length: Some(4096), metadata: "{}".into() };
    let row = model_to_row(&m);
    assert_eq!(row.context_length, Some(4096));
    let back = row_to_model(&row);
    assert_eq!(back.id, "model-a");
    assert_eq!(back.context_length, Some(4096));
    let odd = row_to_model(&ModelRow { model_id: "x".into(), display_name: None, context_length: Some(-1), metadata_json: "nope".into() });
    assert_eq!(odd.context_length, Some(u64::MAX));
    assert_eq!(odd.metadata, "{}");
}

#[test]
fn prompt_rows_round_trip() {
    let p = Prompt {
        id: 12,
        name: "test-prompt".into(),
        description: Some("A test prompt".into()),
        content: "Hello {{name}}".into(),
        system_prompt: Some("You are helpful".into()),
        tags: vec!["test".into()],
        variables: vec!["name".into()],
        created_at: ts(5, 0),
        updated_at: ts(6, 0),
    };
    let row = prompt_to_row(&p).unwrap();
    assert_eq!(row.tags_json, "[\"test\"]");
    let back = row_to_prompt(&row).unwrap();
    assert_eq!(back.name, "test-prompt");
    assert_eq!(back.tags, vec!["test".to_string()]);
    assert_eq!(back.variables, vec!["name".to_string()]);
    assert_eq!(back.created_at, ts(5, 0));
    let garbled = llm_tui::records::PromptRow { tags_json: "{".into(), ..row };
    assert!(row_to_prompt(&garbled).unwrap().tags.is_empty());
}

fn ts(secs: i64, nanos: u32) -> Timestamp {
    Timestamp { secs, nanos }
}
