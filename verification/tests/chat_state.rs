use llm_tui::app::{App, Effect, Fresh};
use llm_tui::domain::{Model, Provider, Role, Timestamp};
use llm_tui::events::{AppEvent, ProviderEvent, UserEvent};

fn fresh(id: u128, now: i64) -> Fresh {
    Fresh { id, now: at(now) }
}

fn model(id: &str) -> Model {
    Model { id: id.to_string(), display_name: None, context_length: None, metadata: "{}".to_string() }
}

fn typed(state: &mut App, text: &str) {
    for c in text.chars() {
        let fx = state.handle_user_event(UserEvent::InputChar(c), fresh(0, 0));
        assert!(fx.is_empty());
    }
}

/// Runs a whole exchange in a new conversation and returns the state.
fn exchange(state: &mut App, text: &str) {
    typed(state, text);
    let mut fx = state.handle_user_event(UserEvent::SendMessage, fresh(100, 1));
    let conv = match fx.pop() {
        Some(Effect::CreateConversation { conversation, then_send }) => {
            assert!(then_send);
            conversation
        }
        _ => panic!("a conversation is created first"),
    };
    let mut fx = state.on_conversation_created(conv, Ok(()), true, fresh(200, 2));
    let user = match fx.pop() {
        Some(Effect::SaveUserMessage { message }) => message,
        _ => panic!("the user's message is saved"),
    };
    let mut fx = state.on_user_message_saved(user, Ok(()), fresh(300, 3));
    let (message_id, conversation_id) = match fx.pop() {
        Some(Effect::StartStream { request, message_id, conversation_id }) => {
            assert_eq!(request.model, "fake-fast");
            assert_eq!(request.messages.len(), 1);
            assert!(request.tools.is_none());
            (message_id, conversation_id)
        }
        _ => panic!("an answer is started"),
    };
    assert_eq!(message_id, 300);
    assert_eq!(conversation_id, 100);
    state.handle_provider_event(ProviderEvent::StreamStarted { message_id });
    state.handle_provider_event(ProviderEvent::Delta { message_id, text: "Hel".into() });
    state.handle_provider_event(ProviderEvent::Delta { message_id: 999, text: "zzz".into() });
    state.handle_provider_event(ProviderEvent::Delta { message_id, text: "lo".into() });
    assert_eq!(state.streaming_content(), Some("Hello"));
}

#[test]
fn typing_and_backspace_edit_the_input() {
    let mut s = App::new();
    typed(&mut s, "hi");
    assert_eq!(s.input, "hi");
    s.handle_user_event(UserEvent::Backspace, fresh(0, 0));
    assert_eq!(s.input, "h");
    s.handle_user_event(UserEvent::Backspace, fresh(0, 0));
    s.handle_user_event(UserEvent::Backspace, fresh(0, 0));
    assert_eq!(s.input, "");
}

#[test]
fn blank_input_sends_nothing() {
    let mut s = App::new();
    typed(&mut s, "  ");
    assert!(s.handle_user_event(UserEvent::SendMessage, fresh(1, 1)).is_empty());
    assert_eq!(s.input, "  ");
}

#[test]
fn sending_without_conversation_creates_one() {
    let mut s = App::new();
    s.provider_id = 5;
    typed(&mut s, "hello");
    let fx = s.handle_user_event(UserEvent::SendMessage, fresh(7, 1234));
    assert_eq!(fx.len(), 1);
    match &fx[0] {
        Effect::CreateConversation { conversation, then_send } => {
            assert!(*then_send);
            assert_eq!(conversation.id, 7);
            assert_eq!(conversation.title, "New Conversation");
            assert_eq!(conversation.provider_id, 5);
            assert_eq!(conversation.model_id, "default");
            assert_eq!(conversation.created_at, at(1234));
            assert_eq!(conversation.updated_at, at(1234));
            assert!(conversation.system_prompt.is_none());
        }
        _ => panic!("conversation expected"),
    }
    // Sending changes nothing until the conversation is stored.
    assert_eq!(s.input, "hello");
}

#[test]
fn full_exchange_titles_the_conversation() {
    let mut s = App::new();
    s.models_loaded(Ok(vec![model("fake-fast"), model("fake-slow")]));
    assert_eq!(s.selected_model.as_deref(), Some("fake-fast"));
    exchange(&mut s, "What is the meaning of life, the universe and everything, really?");
    assert_eq!(s.input, "");
    assert_eq!(s.messages.len(), 1);
    assert_eq!(s.messages[0].role, Role::User);
    assert_eq!(s.messages[0].id, 200);
    assert_eq!(s.messages[0].conversation_id, 100);
    assert_eq!(s.messages[0].parent_id, None);
    let mut fx = s.handle_provider_event(ProviderEvent::Completed {
        message: llm_tui::domain::Message {
            id: 300,
            conversation_id: 100,
            parent_id: None,
            role: Role::Assistant,
            content: "Hello".into(),
            reasoning_content: None,
            tool_calls: None,
            tool_call_id: None,
            images: None,
            metadata: "{}".into(),
            created_at: at(4),
        },
    });
    let answer = match fx.pop() {
        Some(Effect::SaveAssistantMessage { message }) => message,
        _ => panic!("the answer is saved"),
    };
    s.on_assistant_saved(answer, Ok(()), at(5));
    assert!(s.streaming.is_none());
    assert_eq!(s.messages.len(), 2);
    assert_eq!(s.messages[1].content, "Hello");
    assert_eq!(s.conversations.len(), 1);
    assert_eq!(s.conversations[0].title, "What is the meaning of life, the universe and ever");
    assert_eq!(s.conversations[0].updated_at, at(5));
    assert_eq!(s.conversations[0].created_at, at(1));
    assert!(s.error.is_none());
}

#[test]
fn starting_without_model_reports_error() {
    let mut s = App::new();
    typed(&mut s, "hi");
    let mut fx = s.handle_user_event(UserEvent::SendMessage, fresh(1, 1));
    let conv = match fx.pop() {
        Some(Effect::CreateConversation { conversation, .. }) => conversation,
        _ => panic!("conversation expected"),
    };
    let mut fx = s.on_conversation_created(conv, Ok(()), true, fresh(2, 2));
    let user = match fx.pop() {
        Some(Effect::SaveUserMessage { message }) => message,
        _ => panic!("message expected"),
    };
    let fx = s.on_user_message_saved(user, Ok(()), fresh(3, 3));
    assert!(fx.is_empty());
    assert_eq!(s.error.as_deref(), Some("No model selected"));
    assert!(s.streaming.is_none());
}

#[test]
fn storage_failures_become_errors() {
    let mut s = App::new();
    s.models_loaded(Err("timeout".into()));
    assert_eq!(s.error.as_deref(), Some("Failed to load models: timeout"));
    s.conversations_loaded(Err("locked".into()));
    assert_eq!(s.error.as_deref(), Some("Failed to load conversations: locked"));
    let mut fx = s.handle_user_event(UserEvent::NewConversation, fresh(4, 4));
    let conv = match fx.pop() {
        Some(Effect::CreateConversation { conversation, then_send }) => {
            assert!(!then_send);
            conversation
        }
        _ => panic!("conversation expected"),
    };
    let fx = s.on_conversation_created(conv, Err("disk full".into()), false, fresh(5, 5));
    assert!(fx.is_empty());
    assert_eq!(s.error.as_deref(), Some("Failed to create conversation: disk full"));
    assert!(s.conversations.is_empty());
}

#[test]
fn cancel_and_retry() {
    let mut s = App::new();
    s.models_loaded(Ok(vec![model("fake-fast")]));
    exchange(&mut s, "hi");
    let fx = s.handle_user_event(UserEvent::CancelGeneration, fresh(0, 0));
    assert_eq!(fx.len(), 1);
    assert!(matches!(fx[0], Effect::CancelStream { message_id: 300 }));
    // Cancelling waits for the stream to end.
    assert!(s.streaming.is_some());
    let fx = s.handle_user_event(UserEvent::Retry, fresh(400, 9));
    assert_eq!(fx.len(), 2);
    assert!(matches!(fx[0], Effect::CancelStream { message_id: 300 }));
    match &fx[1] {
        Effect::StartStream { request, message_id, conversation_id } => {
            assert_eq!(*message_id, 400);
            assert_eq!(*conversation_id, 100);
            assert_eq!(request.messages.len(), 1);
        }
        _ => panic!("a new answer is started"),
    }
    assert_eq!(s.streaming_content(), Some(""));
}

#[test]
fn provider_failure_ends_streaming() {
    let mut s = App::new();
    s.models_loaded(Ok(vec![model("fake-fast")]));
    exchange(&mut s, "hi");
    let fx = s.handle_event(
        AppEvent::Provider(ProviderEvent::Failed { message_id: 300, error: "stream error: reset".into() }),
        fresh(0, 0),
    );
    assert!(fx.is_empty());
    assert!(s.streaming.is_none());
    assert_eq!(s.error.as_deref(), Some("stream error: reset"));
    assert!(s.handle_user_event(UserEvent::CancelGeneration, fresh(0, 0)).is_empty());
}

#[test]
fn quit_and_ignored_events() {
    let mut s = App::new();
    assert!(s.handle_event(AppEvent::User(UserEvent::OpenHelp), fresh(0, 0)).is_empty());
    assert!(!s.should_quit);
    s.handle_event(AppEvent::User(UserEvent::Quit), fresh(0, 0));
    assert!(s.should_quit);
}

#[test]
fn provider_is_chosen_or_created() {
    let mut s = App::new();
    let created = s.init_provider(&Vec::new(), fresh(77, 8));
    let p = created.expect("a default provider is created");
    assert_eq!(p.id, 77);
    assert_eq!(p.name, "default");
    assert_eq!(p.base_url, "fake://local");
    assert_eq!(s.provider_id, 77);
    let stored = vec![Provider { id: 9, ..p }];
    let mut s2 = App::new();
    assert!(s2.init_provider(&stored, fresh(1, 1)).is_none());
    assert_eq!(s2.provider_id, 9);
}

#[test]
fn models_event_replaces_models() {
    let mut s = App::new();
    s.handle_provider_event(ProviderEvent::ModelsLoaded(vec![model("a"), model("b")]));
    assert_eq!(s.models.len(), 2);
    assert!(s.selected_model.is_none());
}

#[test]
fn select_model_by_index() {
    let mut s = App::new();
    s.models_loaded(Ok(vec![model("fake-fast"), model("fake-slow"), model("fake-reasoning")]));
    assert!(s.handle_user_event(UserEvent::SelectModel(1), fresh(0, 0)).is_empty());
    assert_eq!(s.selected_model.as_deref(), Some("fake-slow"));
    s.handle_user_event(UserEvent::SelectModel(0), fresh(0, 0));
    assert_eq!(s.selected_model.as_deref(), Some("fake-fast"));
    s.handle_user_event(UserEvent::SelectModel(7), fresh(0, 0));
    assert_eq!(s.selected_model.as_deref(), Some("fake-fast"));
}

#[test]
fn cycle_models_with_ctrl_m() {
    let mut s = App::new();
    s.models_loaded(Ok(vec![model("fake-fast"), model("fake-slow"), model("fake-reasoning")]));
    let first = s.selected_model.clone().unwrap();
    s.handle_user_event(UserEvent::SelectModel(usize::MAX), fresh(0, 0));
    let second = s.selected_model.clone().unwrap();
    assert_ne!(first, second);
    s.handle_user_event(UserEvent::SelectModel(usize::MAX), fresh(0, 0));
    let third = s.selected_model.clone().unwrap();
    assert_ne!(second, third);
    s.handle_user_event(UserEvent::SelectModel(usize::MAX), fresh(0, 0));
    assert_eq!(s.selected_model.as_deref(), Some("fake-fast"));
    let mut empty = App::new();
    empty.handle_user_event(UserEvent::SelectModel(usize::MAX), fresh(0, 0));
    assert!(empty.selected_model.is_none());
}

#[test]
fn test_connection_reloads_models() {
    let mut s = App::new();
    s.models_loaded(Err("offline".into()));
    let fx = s.handle_user_event(UserEvent::TestConnection, fresh(0, 0));
    assert_eq!(fx.len(), 1);
    assert!(matches!(fx[0], Effect::ListModels));
    s.connection_tested(Ok(vec![model("fake-fast")]));
    assert!(s.error.is_none());
    assert_eq!(s.models.len(), 1);
    assert_eq!(s.selected_model.as_deref(), Some("fake-fast"));
    s.connection_tested(Err("refused".into()));
    assert_eq!(s.error.as_deref(), Some("Connection test failed: refused"));
    assert_eq!(s.models.len(), 1);
}

fn with_conversations(n: u128) -> App {
    let mut s = App::new();
    for i in 0..n {
        let mut fx = s.handle_user_event(UserEvent::NewConversation, fresh(10 + i, i as i64));
        let conv = match fx.pop() {
            Some(Effect::CreateConversation { conversation, .. }) => conversation,
            _ => panic!("conversation expected"),
        };
        assert!(s.on_conversation_created(conv, Ok(()), false, fresh(0, 0)).is_empty());
    }
    s
}

#[test]
fn toggle_focus_switches_between_sidebar_and_input() {
    let mut s = with_conversations(0);
    assert!(!s.sidebar_focus, "should start with input focused");
    s.handle_user_event(UserEvent::ToggleFocus, fresh(0, 0));
    assert!(s.sidebar_focus, "should switch to sidebar focused");
    s.handle_user_event(UserEvent::ToggleFocus, fresh(0, 0));
    assert!(!s.sidebar_focus, "should switch back to input focused");
}

#[test]
fn toggle_focus_syncs_selection_with_active_conversation() {
    let mut s = with_conversations(3);
    let active_id = s.active_conversation.unwrap();
    s.sidebar_selection = 2;
    s.handle_user_event(UserEvent::ToggleFocus, fresh(0, 0));
    assert!(s.sidebar_focus);
    let expected = s.conversations.iter().position(|c| c.id == active_id).unwrap();
    assert_eq!(s.sidebar_selection, expected);
}

#[test]
fn j_k_navigate_sidebar_selection() {
    let mut s = with_conversations(3);
    s.handle_user_event(UserEvent::ToggleFocus, fresh(0, 0));
    assert_eq!(s.sidebar_selection, 0);
    s.handle_user_event(UserEvent::InputChar('j'), fresh(0, 0));
    assert_eq!(s.sidebar_selection, 1);
    s.handle_user_event(UserEvent::InputChar('j'), fresh(0, 0));
    assert_eq!(s.sidebar_selection, 2);
    s.handle_user_event(UserEvent::InputChar('j'), fresh(0, 0));
    assert_eq!(s.sidebar_selection, 2);
    s.handle_user_event(UserEvent::InputChar('k'), fresh(0, 0));
    assert_eq!(s.sidebar_selection, 1);
    s.handle_user_event(UserEvent::InputChar('k'), fresh(0, 0));
    assert_eq!(s.sidebar_selection, 0);
    s.handle_user_event(UserEvent::InputChar('k'), fresh(0, 0));
    assert_eq!(s.sidebar_selection, 0);
}

#[test]
fn arrow_keys_navigate_sidebar() {
    let mut s = with_conversations(3);
    s.handle_user_event(UserEvent::ToggleFocus, fresh(0, 0));
    s.handle_user_event(UserEvent::NavigateDown, fresh(0, 0));
    assert_eq!(s.sidebar_selection, 1);
    s.handle_user_event(UserEvent::NavigateUp, fresh(0, 0));
    assert_eq!(s.sidebar_selection, 0);
}

#[test]
fn navigation_ignored_when_sidebar_not_focused() {
    let mut s = with_conversations(2);
    assert!(!s.sidebar_focus);
    assert_eq!(s.sidebar_selection, 0);
    s.handle_user_event(UserEvent::NavigateDown, fresh(0, 0));
    assert_eq!(s.sidebar_selection, 0);
    s.handle_user_event(UserEvent::InputChar('j'), fresh(0, 0));
    assert_eq!(s.input, "j");
    assert_eq!(s.sidebar_selection, 0);
}

#[test]
fn enter_opens_selected_conversation() {
    let mut s = with_conversations(2);
    s.handle_user_event(UserEvent::ToggleFocus, fresh(0, 0));
    s.handle_user_event(UserEvent::NavigateDown, fresh(0, 0));
    assert_eq!(s.sidebar_selection, 1);
    let fx = s.handle_user_event(UserEvent::SendMessage, fresh(0, 0));
    assert!(!s.sidebar_focus, "focus should return to input");
    assert_eq!(s.active_conversation.unwrap(), s.conversations[1].id);
    assert!(s.messages.is_empty());
    assert_eq!(fx.len(), 1);
    assert!(matches!(fx[0], Effect::LoadMessages { conversation_id } if conversation_id == s.conversations[1].id));
}

#[test]
fn opening_already_active_conversation_returns_to_input() {
    let mut s = with_conversations(1);
    let conv_id = s.active_conversation.unwrap();
    s.handle_user_event(UserEvent::ToggleFocus, fresh(0, 0));
    assert!(s.sidebar_focus);
    let fx = s.handle_user_event(UserEvent::SendMessage, fresh(0, 0));
    assert!(fx.is_empty());
    assert!(!s.sidebar_focus, "should return to input");
    assert_eq!(s.active_conversation, Some(conv_id));
}

#[test]
fn input_ignored_when_sidebar_focused() {
    let mut s = with_conversations(1);
    s.handle_user_event(UserEvent::ToggleFocus, fresh(0, 0));
    s.handle_user_event(UserEvent::InputChar('h'), fresh(0, 0));
    s.handle_user_event(UserEvent::InputChar('i'), fresh(0, 0));
    assert_eq!(s.input, "", "input should not change when sidebar focused");
    s.handle_user_event(UserEvent::Backspace, fresh(0, 0));
    assert_eq!(s.input, "");
}

#[test]
fn q_quits_when_sidebar_focused() {
    let mut s = with_conversations(1);
    s.handle_user_event(UserEvent::ToggleFocus, fresh(0, 0));
    assert!(!s.should_quit);
    s.handle_user_event(UserEvent::InputChar('q'), fresh(0, 0));
    assert!(s.should_quit, "q should quit when sidebar focused");
}

#[test]
fn sidebar_navigation_with_empty_list() {
    let mut s = with_conversations(0);
    s.handle_user_event(UserEvent::ToggleFocus, fresh(0, 0));
    assert!(s.sidebar_focus);
    assert_eq!(s.sidebar_selection, 0);
    s.handle_user_event(UserEvent::NavigateDown, fresh(0, 0));
    assert_eq!(s.sidebar_selection, 0);
    s.handle_user_event(UserEvent::NavigateUp, fresh(0, 0));
    assert_eq!(s.sidebar_selection, 0);
    assert!(s.handle_user_event(UserEvent::SendMessage, fresh(0, 0)).is_empty());
    assert!(s.active_conversation.is_none());
}

#[test]
fn new_conversation_while_sidebar_focused() {
    let mut s = with_conversations(1);
    s.handle_user_event(UserEvent::ToggleFocus, fresh(0, 0));
    assert!(s.sidebar_focus);
    let mut fx = s.handle_user_event(UserEvent::NewConversation, fresh(99, 5));
    let conv = match fx.pop() {
        Some(Effect::CreateConversation { conversation, .. }) => conversation,
        _ => panic!("conversation expected"),
    };
    s.on_conversation_created(conv, Ok(()), false, fresh(0, 0));
    assert_eq!(s.conversations.len(), 2);
    assert!(s.active_conversation.is_some());
    assert_eq!(s.conversations[0].id, s.active_conversation.unwrap());
}

#[test]
fn loaded_messages_replace_the_screen_for_the_active_conversation() {
    let mut s = with_conversations(2);
    let active = s.active_conversation.unwrap();
    let m = llm_tui::domain::Message {
        id: 1,
        conversation_id: active,
        parent_id: None,
        role: Role::User,
        content: "stored".into(),
        reasoning_content: None,
        tool_calls: None,
        tool_call_id: None,
        images: None,
        metadata: "{}".into(),
        created_at: at(0),
    };
    s.messages_loaded(active + 1000, Ok(Vec::new()));
    assert!(s.messages.is_empty());
    s.messages_loaded(active, Ok(vec![m]));
    assert_eq!(s.messages.len(), 1);
    assert_eq!(s.messages[0].content, "stored");
    s.messages_loaded(active, Err("corrupt".into()));
    assert_eq!(s.error.as_deref(), Some("Failed to load messages: corrupt"));
    assert_eq!(s.messages.len(), 1);
}

fn stored(id: u128, role: Role, content: &str) -> llm_tui::domain::Message {
    llm_tui::domain::Message {
        id,
        conversation_id: 7,
        parent_id: None,
        role,
        content: content.to_string(),
        reasoning_content: None,
        tool_calls: None,
        tool_call_id: None,
        images: None,
        metadata: "{}".to_string(),
        created_at: at(0),
    }
}

/// A state with an open conversation that has a system prompt and three
/// messages of five estimated tokens each, the model listing `length`.
fn prompted_state(length: Option<u64>) -> App {
    let mut s = App::new();
    let mut m = model("small");
    m.context_length = length;
    s.models_loaded(Ok(vec![m]));
    s.conversations_loaded(Ok(vec![llm_tui::domain::Conversation {
        id: 7,
        title: "t".to_string(),
        provider_id: 0,
        model_id: "small".to_string(),
        system_prompt: Some("Be brief".to_string()),
        created_at: at(0),
        updated_at: at(0),
        archived_at: None,
    }]));
    s.active_conversation = Some(7);
    s.messages = vec![
        stored(1, Role::User, "aaaa"),
        stored(2, Role::Assistant, "bbbb"),
        stored(3, Role::User, "cccc"),
    ];
    s
}

#[test]
fn request_holds_the_context_within_the_model_window() {
    // 16 tokens: 6 for the system prompt, 10 for the two newest messages.
    let mut s = prompted_state(Some(16));
    s.context_policy = llm_tui::context::ContextPolicy { max_tokens: None, reserve_for_response: 0 };
    let fx = s.handle_user_event(UserEvent::Retry, fresh(50, 9));
    assert_eq!(fx.len(), 1);
    match &fx[0] {
        Effect::StartStream { request, message_id, conversation_id } => {
            assert_eq!(*message_id, 50);
            assert_eq!(*conversation_id, 7);
            assert_eq!(request.model, "small");
            let texts: Vec<&str> = request.messages.iter().map(|m| m.content.as_str()).collect();
            assert_eq!(texts, vec!["Be brief", "bbbb", "cccc"]);
            assert_eq!(request.messages[0].role, Role::System);
            assert_eq!(request.messages[0].created_at, at(9));
        }
        _ => panic!("an answer is started"),
    }
}

#[test]
fn request_follows_the_configured_policy() {
    // The policy's limit wins over the model's: 1030 - 1024 leaves room for
    // the system prompt only.
    let mut s = prompted_state(Some(100_000));
    s.context_policy = llm_tui::context::ContextPolicy { max_tokens: Some(1030), reserve_for_response: 1024 };
    let fx = s.handle_user_event(UserEvent::Retry, fresh(51, 9));
    match &fx[0] {
        Effect::StartStream { request, .. } => {
            assert_eq!(request.messages.len(), 1);
            assert_eq!(request.messages[0].content, "Be brief");
        }
        _ => panic!("an answer is started"),
    }
    // With the default policy and no known window, everything fits.
    let mut s = prompted_state(None);
    let fx = s.handle_user_event(UserEvent::Retry, fresh(52, 9));
    match &fx[0] {
        Effect::StartStream { request, .. } => assert_eq!(request.messages.len(), 4),
        _ => panic!("an answer is started"),
    }
}

fn at(secs: i64) -> Timestamp {
    Timestamp { secs, nanos: 0 }
}
