use llm_tui::domain::{ImageContent, Message, Model, Role, Timestamp};
use llm_tui::events::UserEvent;
use llm_tui::llm::openai::{
    bearer_key, chat_body, endpoint, models_from_ids, openai_capabilities, role_name, WireContent,
    WirePart,
};
use llm_tui::llm::provider::ChatRequest;
use llm_tui::markdown::{render_events, render_markdown, tag_from_name, MdColor, MdEvent, MdStyle, MdTag};
use llm_tui::tui::{help_text, key_event, status_error, status_model, transcript, KeyInput, LineStyle};

fn msg(role: Role, content: &str) -> Message {
    Message {
        id: 1,
        conversation_id: 2,
        parent_id: None,
        role,
        content: content.to_string(),
        reasoning_content: None,
        tool_calls: None,
        tool_call_id: None,
        images: None,
        metadata: "{}".to_string(),
        created_at: at(0),
    }
}

#[test]
fn endpoints_join_with_one_slash() {
    assert_eq!(endpoint("http://localhost:8080/v1/", "/models"), "http://localhost:8080/v1/models");
    assert_eq!(endpoint("http://h/v1", "chat/completions"), "http://h/v1/chat/completions");
    assert_eq!(endpoint("http://h///", "///x"), "http://h/x");
}

#[test]
fn bearer_key_skips_empty_keys() {
    assert_eq!(bearer_key(&Some("sk-1".to_string())), Some("sk-1".to_string()));
    assert_eq!(bearer_key(&Some(String::new())), None);
    assert_eq!(bearer_key(&None), None);
}

#[test]
fn role_names_on_the_wire() {
    assert_eq!(role_name(Role::System), "system");
    assert_eq!(role_name(Role::User), "user");
    assert_eq!(role_name(Role::Assistant), "assistant");
    assert_eq!(role_name(Role::Tool), "tool");
}

#[test]
fn chat_body_shapes_messages() {
    let mut with_image = msg(Role::User, "look");
    with_image.images = Some(vec![ImageContent {
        url: "data:image/png;base64,AAAA".into(),
        detail: Some("high".into()),
    }]);
    let mut image_only = msg(Role::User, "");
    image_only.images = Some(vec![ImageContent { url: "u".into(), detail: None }]);
    let req = ChatRequest {
        model: "m".into(),
        messages: vec![msg(Role::System, "sys"), with_image, msg(Role::Assistant, ""), image_only],
        tools: None,
    };
    let body = chat_body(&req, Some(256));
    assert_eq!(body.model, "m");
    assert!(body.stream);
    assert_eq!(body.max_tokens, Some(256));
    assert!(body.tools.is_none());
    assert_eq!(body.messages.len(), 4);
    assert_eq!(body.messages[0].role, "system");
    assert!(matches!(&body.messages[0].content, Some(WireContent::Text(t)) if t == "sys"));
    match &body.messages[1].content {
        Some(WireContent::Parts(parts)) => {
            assert_eq!(parts.len(), 2);
            assert!(matches!(&parts[0], WirePart::Text(t) if t == "look"));
            assert!(matches!(&parts[1], WirePart::ImageUrl { url, detail }
                if url == "data:image/png;base64,AAAA" && detail.as_deref() == Some("high")));
        }
        _ => panic!("multimodal content expected"),
    }
    assert_eq!(body.messages[2].role, "assistant");
    assert!(body.messages[2].content.is_none());
    match &body.messages[3].content {
        Some(WireContent::Parts(parts)) => {
            assert_eq!(parts.len(), 1);
            assert!(matches!(&parts[0], WirePart::ImageUrl { url, detail } if url == "u" && detail.is_none()));
        }
        _ => panic!("multimodal content expected"),
    }
}

#[test]
fn models_listing_and_capabilities() {
    let models = models_from_ids(vec!["a".into(), "b".into()]);
    assert_eq!(models.len(), 2);
    assert_eq!(models[0].id, "a");
    assert_eq!(models[1].id, "b");
    assert!(models[0].display_name.is_none());
    assert_eq!(models[1].metadata, "{}");
    let caps = openai_capabilities();
    assert!(caps.streaming && caps.tool_calling && caps.vision);
    assert!(!caps.reasoning);
    assert_eq!(caps.max_output_tokens, Some(4096));
    assert_eq!(caps.image_formats, vec!["png".to_string(), "jpeg".to_string(), "webp".to_string()]);
    assert!(caps.supports_feature("tools"));
}

#[test]
fn markdown_heading_and_emphasis() {
    let lines = render_markdown("# Title\n\nHello *world*");
    assert_eq!(lines.len(), 3);
    assert_eq!(lines[0].spans.len(), 1);
    assert_eq!(lines[0].spans[0].text, "Title");
    assert_eq!(
        lines[0].spans[0].style,
        MdStyle { fg: Some(MdColor::Cyan), bg: None, bold: true, italic: false, crossed_out: false }
    );
    assert!(lines[1].spans.is_empty());
    assert_eq!(lines[2].spans.len(), 2);
    assert_eq!(lines[2].spans[0].text, "Hello ");
    assert_eq!(lines[2].spans[1].text, "world");
    assert!(lines[2].spans[1].style.italic);
    assert!(!lines[2].spans[0].style.italic);
}

#[test]
fn markdown_code_block_and_list() {
    let lines = render_markdown("```\nlet x = 1;\n```\n\n- a\n- b\n");
    let texts: Vec<String> = lines
        .iter()
        .map(|l| l.spans.iter().map(|s| s.text.as_str()).collect::<String>())
        .collect();
    assert_eq!(texts[0], "  let x = 1;\n");
    assert_eq!(lines[0].spans[0].style.bg, Some(MdColor::DarkGray));
    assert_eq!(texts[1], "");
    assert_eq!(texts[2], "• a");
    assert_eq!(texts[3], "• b");
    assert_eq!(texts.len(), 4);
}

#[test]
fn markdown_rule_and_empty_input() {
    let lines = render_markdown("---");
    assert_eq!(lines.len(), 1);
    assert_eq!(lines[0].spans[0].text, "─".repeat(40));
    let empty = render_markdown("");
    assert_eq!(empty.len(), 1);
    assert!(empty[0].spans.is_empty());
}

#[test]
fn markdown_layout_of_given_events() {
    let events = vec![
        MdEvent::Start("BlockQuote(None)".into()),
        MdEvent::Start("Paragraph".into()),
        MdEvent::Text("quoted".into()),
        MdEvent::End("Paragraph".into()),
        MdEvent::End("BlockQuote(None)".into()),
        MdEvent::Code("x".into()),
        MdEvent::SoftBreak,
    ];
    let lines = render_events(&events);
    // A paragraph start clears the current line, quote bar included.
    assert_eq!(lines.len(), 3);
    assert_eq!(lines[0].spans.len(), 1);
    assert_eq!(lines[0].spans[0].text, "quoted");
    assert!(lines[1].spans.is_empty());
    assert_eq!(lines[2].spans.len(), 1);
    assert_eq!(lines[2].spans[0].text, "x");
    assert_eq!(lines[2].spans[0].style.fg, Some(MdColor::Yellow));
    assert_eq!(lines[2].spans[0].style.bg, Some(MdColor::DarkGray));
}

#[test]
fn markdown_tag_names() {
    assert_eq!(tag_from_name("Heading(H2)"), MdTag::Heading);
    assert_eq!(tag_from_name("List(None)"), MdTag::List);
    assert_eq!(tag_from_name("Item"), MdTag::Item);
    assert_eq!(tag_from_name("Table(...)"), MdTag::Other);
}

#[test]
fn keys_map_to_user_events() {
    assert!(matches!(key_event(KeyInput::Char('c'), true, false), Some(UserEvent::Quit)));
    assert!(matches!(key_event(KeyInput::Esc, false, false), Some(UserEvent::Quit)));
    assert!(matches!(key_event(KeyInput::Enter, false, false), Some(UserEvent::SendMessage)));
    assert!(matches!(key_event(KeyInput::Char('n'), true, false), Some(UserEvent::NewConversation)));
    assert!(matches!(key_event(KeyInput::Char('c'), false, true), Some(UserEvent::CancelGeneration)));
    assert!(matches!(key_event(KeyInput::Char('r'), true, false), Some(UserEvent::Retry)));
    assert!(matches!(key_event(KeyInput::Char('t'), true, false), Some(UserEvent::TestConnection)));
    assert!(matches!(key_event(KeyInput::Char('m'), true, false), Some(UserEvent::SelectModel(usize::MAX))));
    assert!(matches!(key_event(KeyInput::Char('3'), false, false), Some(UserEvent::SelectModel(2))));
    assert!(matches!(key_event(KeyInput::Char('0'), false, false), Some(UserEvent::InputChar('0'))));
    assert!(matches!(key_event(KeyInput::Char('x'), false, false), Some(UserEvent::InputChar('x'))));
    assert!(matches!(key_event(KeyInput::Backspace, false, false), Some(UserEvent::Backspace)));
    assert!(matches!(key_event(KeyInput::Tab, false, false), Some(UserEvent::ToggleFocus)));
    assert!(matches!(key_event(KeyInput::Up, false, false), Some(UserEvent::NavigateUp)));
    assert!(matches!(key_event(KeyInput::Down, false, false), Some(UserEvent::NavigateDown)));
    assert!(key_event(KeyInput::Other, false, false).is_none());
}

#[test]
fn transcript_lines() {
    let empty = transcript(false, &Vec::new(), None);
    assert_eq!(empty.len(), 1);
    assert_eq!(empty[0].text, "No conversation. Press Ctrl+N to start one.");
    assert_eq!(empty[0].style, LineStyle::Hint);

    let msgs = vec![msg(Role::User, "hi\nthere"), msg(Role::Assistant, "yo")];
    let lines = transcript(true, &msgs, Some("typing"));
    let texts: Vec<&str> = lines.iter().map(|l| l.text.as_str()).collect();
    assert_eq!(
        texts,
        vec!["── you ──", "hi", "there", "", "── assistant ──", "yo", "", "── assistant ──", "typing", "▍"]
    );
    assert_eq!(lines[0].style, LineStyle::Header(Role::User));
    assert_eq!(lines[9].style, LineStyle::Cursor);
    assert_eq!(transcript(true, &Vec::new(), Some("")).len(), 0);
}

#[test]
fn status_bar_texts() {
    let models = vec![
        Model { id: "fake-fast".into(), display_name: None, context_length: None, metadata: "{}".into() },
        Model { id: "fake-slow".into(), display_name: None, context_length: None, metadata: "{}".into() },
    ];
    assert_eq!(
        help_text(&models),
        " Enter=send | Ctrl+N=new | Ctrl+T=test | Ctrl+M=cycle model | 1-9=pick | Alt+C=cancel | Ctrl+R=retry | Esc=quit | [1]=fake-fast [2]=fake-slow "
    );
    assert_eq!(status_model(&Some("m".into())), "m");
    assert_eq!(status_model(&None), "—");
    assert_eq!(status_error("oops"), " | ERR: oops");
    assert_eq!(status_error(&"e".repeat(50)), format!(" | ERR: {}", "e".repeat(40)));
}

fn at(secs: i64) -> Timestamp {
    Timestamp { secs, nanos: 0 }
}
