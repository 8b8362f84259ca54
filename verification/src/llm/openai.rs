//! The OpenAI-compatible protocol: endpoint URLs, authentication, the chat
//! request body, model listings and capabilities. The streamed answer is
//! decoded in `crate::llm::sse`.
use vstd::prelude::*;
use crate::domain::{
    Capabilities, ImageContent, Message, MessageView, Model, Role, ToolCall, ToolDefinition,
};
use crate::llm::provider::ChatRequest;

verus! {

// ---------------------------------------------------------------------------
// Endpoints and authentication
// ---------------------------------------------------------------------------

/// `s` without its trailing `c` characters.
pub open spec fn trim_end_char(s: Seq<char>, c: char) -> Seq<char>
    decreases s.len(),
{
    if s.len() > 0 && s.last() == c {
        trim_end_char(s.drop_last(), c)
    } else {
        s
    }
}

/// `s` without its leading `c` characters.
pub open spec fn trim_start_char(s: Seq<char>, c: char) -> Seq<char>
    decreases s.len(),
{
    if s.len() > 0 && s[0] == c {
        trim_start_char(s.drop_first(), c)
    } else {
        s
    }
}

/// The URL of an API path under a base URL, joined by exactly one slash.
pub open spec fn endpoint_spec(base_url: Seq<char>, path: Seq<char>) -> Seq<char> {
    trim_end_char(base_url, '/') + seq!['/'] + trim_start_char(path, '/')
}

fn trim_end_slashes(s: &Vec<char>) -> (r: usize)
    ensures
        r <= s@.len(),
        s@.take(r as int) == trim_end_char(s@, '/'),
{
    let mut n = s.len();
    assert(s@.take(s@.len() as int) =~= s@);
    while n > 0 && s[n - 1] == '/'
        invariant
            n <= s@.len(),
            trim_end_char(s@.take(n as int), '/') == trim_end_char(s@, '/'),
        decreases n,
    {
        assert(s@.take(n as int).drop_last() =~= s@.take(n - 1));
        n = n - 1;
    }
    assert(s@.take(s@.len() as int) =~= s@);
    n
}

fn trim_start_slashes(s: &Vec<char>) -> (r: usize)
    ensures
        r <= s@.len(),
        s@.skip(r as int) == trim_start_char(s@, '/'),
{
    let mut n: usize = 0;
    assert(s@.skip(0) =~= s@);
    while n < s.len() && s[n] == '/'
        invariant
            n <= s@.len(),
            trim_start_char(s@.skip(n as int), '/') == trim_start_char(s@, '/'),
        decreases s@.len() - n,
    {
        assert(s@.skip(n as int).drop_first() =~= s@.skip(n + 1));
        n = n + 1;
    }
    n
}

/// The URL of `path` under `base_url`: trailing slashes of the base and
/// leading slashes of the path are dropped and one slash joins them.
pub fn endpoint(base_url: &str, path: &str) -> (r: String)
    ensures
        r@ == endpoint_spec(base_url@, path@),
{
    let b = crate::text::chars_of(base_url);
    let p = crate::text::chars_of(path);
    let e = trim_end_slashes(&b);
    let s = trim_start_slashes(&p);
    let mut out: Vec<char> = Vec::new();
    let mut i: usize = 0;
    while i < e
        invariant
            e <= b@.len(),
            i <= e,
            out@ == b@.take(i as int),
        decreases e - i,
    {
        out.push(b[i]);
        assert(b@.take(i + 1) =~= b@.take(i as int).push(b@[i as int]));
        i = i + 1;
    }
    out.push('/');
    let ghost head = out@;
    let mut j = s;
    while j < p.len()
        invariant
            s <= j <= p@.len(),
            out@ == head + p@.subrange(s as int, j as int),
        decreases p@.len() - j,
    {
        out.push(p[j]);
        assert(p@.subrange(s as int, j + 1) =~= p@.subrange(s as int, j as int).push(p@[j as int]));
        j = j + 1;
    }
    assert(p@.subrange(s as int, p@.len() as int) =~= p@.skip(s as int));
    crate::text::string_of(out.as_slice())
}

/// The API key to send as a bearer token: the configured key when it is not empty.
pub fn bearer_key(api_key_ref: &Option<String>) -> (r: Option<String>)
    ensures
        match api_key_ref {
            Some(k) => if k@.len() > 0 {
                r matches Some(x) && x@ == k@
            } else {
                r is None
            },
            None => r is None,
        },
{
    match api_key_ref {
        Some(k) => {
            if k.as_str().is_empty() {
                None
            } else {
                Some(k.clone())
            }
        },
        None => None,
    }
}

/// The protocol's name of a role.
pub open spec fn role_name_spec(role: Role) -> Seq<char> {
    match role {
        Role::System => "system"@,
        Role::User => "user"@,
        Role::Assistant => "assistant"@,
        Role::Tool => "tool"@,
    }
}

/// The protocol's name of a role.
pub fn role_name(role: Role) -> (r: &'static str)
    ensures
        r@ == role_name_spec(role),
{
    match role {
        Role::System => "system",
        Role::User => "user",
        Role::Assistant => "assistant",
        Role::Tool => "tool",
    }
}

// ---------------------------------------------------------------------------
// Request body
// ---------------------------------------------------------------------------

/// One part of a multimodal message.
#[derive(Debug)]
pub enum WirePart {
    Text(String),
    ImageUrl { url: String, detail: Option<String> },
}

/// The content of a message on the wire: plain text or a list of parts.
#[derive(Debug)]
pub enum WireContent {
    Text(String),
    Parts(Vec<WirePart>),
}

/// A message as the chat endpoint expects it.
#[derive(Debug)]
pub struct WireMessage {
    pub role: String,
    pub content: Option<WireContent>,
    pub tool_calls: Option<Vec<ToolCall>>,
    pub tool_call_id: Option<String>,
}

/// The body of a chat completion request, without the floating-point
/// sampling parameters (added by whoever serialises it).
#[derive(Debug)]
pub struct WireBody {
    pub model: String,
    pub messages: Vec<WireMessage>,
    pub stream: bool,
    pub max_tokens: Option<u32>,
    pub tools: Option<Vec<ToolDefinition>>,
}

/// A part's value: text, or an image URL with its optional detail level.
pub enum WirePartView {
    Text(Seq<char>),
    ImageUrl(Seq<char>, Option<Seq<char>>),
}

pub open spec fn part_view(p: WirePart) -> WirePartView {
    match p {
        WirePart::Text(s) => WirePartView::Text(s@),
        WirePart::ImageUrl { url, detail } => WirePartView::ImageUrl(
            url@,
            crate::domain::opt_str(detail),
        ),
    }
}

/// The content's value: `None` for no content, `Some(Ok(text))` for plain
/// text and `Some(Err(parts))` for a multimodal list.
pub open spec fn content_view(c: Option<WireContent>) -> Option<Result<Seq<char>, Seq<WirePartView>>> {
    match c {
        None => None,
        Some(WireContent::Text(s)) => Some(Ok(s@)),
        Some(WireContent::Parts(v)) => Some(Err(v@.map_values(|p: WirePart| part_view(p)))),
    }
}

/// The image part of an attached image.
pub open spec fn image_part(i: ImageContent) -> WirePartView {
    WirePartView::ImageUrl(i.url@, crate::domain::opt_str(i.detail))
}

/// What a message's content becomes on the wire: with attached images, a
/// list holding the text (when not empty) and then one part per image;
/// otherwise the text, or nothing when the text is empty.
pub open spec fn wire_content_spec(m: MessageView) -> Option<Result<Seq<char>, Seq<WirePartView>>> {
    match m.images {
        Some(imgs) => if imgs.len() > 0 {
            Some(
                Err(
                    (if m.content.len() > 0 {
                        seq![WirePartView::Text(m.content)]
                    } else {
                        Seq::empty()
                    }) + imgs.map_values(|i: ImageContent| image_part(i)),
                ),
            )
        } else if m.content.len() > 0 {
            Some(Ok(m.content))
        } else {
            None
        },
        None => if m.content.len() > 0 {
            Some(Ok(m.content))
        } else {
            None
        },
    }
}

/// A wire message carries the role name, the content as above, and the
/// message's tool calls and tool call id unchanged.
pub open spec fn wire_message_ok(w: WireMessage, m: MessageView) -> bool {
    &&& w.role@ == role_name_spec(m.role)
    &&& content_view(w.content) == wire_content_spec(m)
    &&& (match w.tool_calls {
        Some(v) => m.tool_calls == Some(v@),
        None => m.tool_calls is None,
    })
    &&& crate::domain::opt_str(w.tool_call_id) == m.tool_call_id
}

fn wire_content(m: &Message) -> (r: Option<WireContent>)
    ensures
        content_view(r) == wire_content_spec(m@),
{
    let has_text = !m.content.as_str().is_empty();
    match &m.images {
        Some(images) => {
            if images.len() > 0 {
                let mut parts: Vec<WirePart> = Vec::new();
                if has_text {
                    parts.push(WirePart::Text(m.content.clone()));
                }
                let ghost head = parts@.map_values(|p: WirePart| part_view(p));
                let mut i: usize = 0;
                while i < images.len()
                    invariant
                        i <= images@.len(),
                        parts@.map_values(|p: WirePart| part_view(p)) == head + images@.take(
                            i as int,
                        ).map_values(|im: ImageContent| image_part(im)),
                    decreases images@.len() - i,
                {
                    let ghost before = parts@;
                    parts.push(
                        WirePart::ImageUrl {
                            url: images[i].url.clone(),
                            detail: images[i].detail.clone(),
                        },
                    );
                    assert(parts@.map_values(|p: WirePart| part_view(p)) =~= before.map_values(
                        |p: WirePart| part_view(p),
                    ).push(image_part(images@[i as int])));
                    assert(images@.take(i + 1).map_values(|im: ImageContent| image_part(im))
                        =~= images@.take(i as int).map_values(|im: ImageContent| image_part(im)).push(
                        image_part(images@[i as int]),
                    ));
                    i = i + 1;
                }
                assert(images@.take(images@.len() as int) =~= images@);
                assert(has_text ==> head =~= seq![WirePartView::Text(m.content@)]);
                assert(!has_text ==> head =~= Seq::<WirePartView>::empty());
                Some(WireContent::Parts(parts))
            } else if has_text {
                Some(WireContent::Text(m.content.clone()))
            } else {
                None
            }
        },
        None => {
            if has_text {
                Some(WireContent::Text(m.content.clone()))
            } else {
                None
            }
        },
    }
}

/// The wire form of one message.
pub fn wire_message(m: &Message) -> (r: WireMessage)
    ensures
        wire_message_ok(r, m@),
{
    let tool_calls = match &m.tool_calls {
        Some(v) => Some(crate::domain::clone_tool_calls(v)),
        None => None,
    };
    WireMessage {
        role: crate::text::owned(role_name(m.role)),
        content: wire_content(m),
        tool_calls,
        tool_call_id: m.tool_call_id.clone(),
    }
}

/// The body of a streamed chat completion request: the model, every message
/// in wire form and in order, streaming switched on, the token limit and the
/// tools as given.
pub fn chat_body(req: &ChatRequest, max_tokens: Option<u32>) -> (r: WireBody)
    ensures
        r.model@ == req.model@,
        r.stream,
        r.max_tokens == max_tokens,
        r.messages@.len() == req.messages@.len(),
        forall|i: int|
            0 <= i < r.messages@.len() ==> wire_message_ok(
                #[trigger] r.messages@[i],
                req.messages@[i]@,
            ),
        match r.tools {
            Some(t) => req.tools matches Some(u) && t@ == u@,
            None => req.tools is None,
        },
{
    let mut messages: Vec<WireMessage> = Vec::new();
    let mut i: usize = 0;
    while i < req.messages.len()
        invariant
            i <= req.messages@.len(),
            messages@.len() == i,
            forall|j: int|
                0 <= j < i ==> wire_message_ok(#[trigger] messages@[j], req.messages@[j]@),
        decreases req.messages@.len() - i,
    {
        messages.push(wire_message(&req.messages[i]));
        i = i + 1;
    }
    let tools = match &req.tools {
        Some(t) => Some(clone_definitions(t)),
        None => None,
    };
    WireBody { model: req.model.clone(), messages, stream: true, max_tokens, tools }
}

/// Clones tool definitions, keeping every element equal.
pub fn clone_definitions(v: &Vec<ToolDefinition>) -> (r: Vec<ToolDefinition>)
    ensures
        r@ == v@,
{
    let mut r: Vec<ToolDefinition> = Vec::new();
    let mut i: usize = 0;
    while i < v.len()
        invariant
            i <= v@.len(),
            r@ == v@.take(i as int),
        decreases v@.len() - i,
    {
        r.push(v[i].clone());
        assert(v@.take(i + 1) =~= v@.take(i as int).push(v@[i as int]));
        i = i + 1;
    }
    assert(v@.take(v@.len() as int) =~= v@);
    r
}

// ---------------------------------------------------------------------------
// Models and capabilities
// ---------------------------------------------------------------------------

/// The models of a `/models` listing: one per identifier, in order, with no
/// display name, no context length and empty metadata.
pub fn models_from_ids(ids: Vec<String>) -> (r: Vec<Model>)
    ensures
        r@.len() == ids@.len(),
        forall|i: int|
            0 <= i < r@.len() ==> {
                &&& (#[trigger] r@[i]).id@ == ids@[i]@
                &&& r@[i].display_name is None
                &&& r@[i].context_length is None
                &&& r@[i].metadata@ == "{}"@
            },
{
    let mut r: Vec<Model> = Vec::new();
    let mut i: usize = 0;
    while i < ids.len()
        invariant
            i <= ids@.len(),
            r@.len() == i,
            forall|j: int|
                0 <= j < i ==> {
                    &&& (#[trigger] r@[j]).id@ == ids@[j]@
                    &&& r@[j].display_name is None
                    &&& r@[j].context_length is None
                    &&& r@[j].metadata@ == "{}"@
                },
        decreases ids@.len() - i,
    {
        r.push(
            Model {
                id: ids[i].clone(),
                display_name: None,
                context_length: None,
                metadata: crate::text::owned("{}"),
            },
        );
        i = i + 1;
    }
    r
}

/// The capabilities assumed of an OpenAI-compatible endpoint: streaming, tool
/// calling (also in parallel), image input in png, jpeg and webp, structured
/// output and JSON mode, and 4096 output tokens; no reasoning, embeddings or
/// responses API.
pub fn openai_capabilities() -> (r: Capabilities)
    ensures
        r.streaming && r.tool_calling && r.tools && r.parallel_tool_calls && r.vision
            && r.image_input && r.structured_output && r.json_mode,
        !r.reasoning && !r.embeddings && !r.responses_api,
        r.max_output_tokens == Some(4096u32),
        r.image_formats@.len() == 3,
        r.image_formats@[0]@ == "png"@,
        r.image_formats@[1]@ == "jpeg"@,
        r.image_formats@[2]@ == "webp"@,
{
    let mut formats: Vec<String> = Vec::new();
    formats.push(crate::text::owned("png"));
    formats.push(crate::text::owned("jpeg"));
    formats.push(crate::text::owned("webp"));
    Capabilities {
        streaming: true,
        tool_calling: true,
        tools: true,
        parallel_tool_calls: true,
        vision: true,
        image_input: true,
        image_formats: formats,
        structured_output: true,
        json_mode: true,
        reasoning: false,
        embeddings: false,
        responses_api: false,
        max_output_tokens: Some(4096),
    }
}

} // verus!
