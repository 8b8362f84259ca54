//! The application's concepts: providers, models, conversations, messages,
//! prompts, tool calls and provider capabilities.
//!
//! Identifiers are UUIDs held as their 128-bit value (the nil UUID is 0),
//! times are seconds since the Unix epoch with the nanoseconds within the
//! second (as `chrono` keeps a UTC time), and JSON documents
//! (metadata, tool arguments, tool parameter schemas) are held as JSON text.
use vstd::prelude::*;

verus! {

/// A point in time as `chrono::DateTime<Utc>` keeps it: whole seconds since
/// the Unix epoch and the nanoseconds within the second (up to 1 999 999 999
/// during a leap second).
#[derive(Clone, Copy, Debug, PartialEq, Eq, Structural)]
pub struct Timestamp {
    pub secs: i64,
    pub nanos: u32,
}

/// Who wrote a message.
#[derive(Clone, Copy, Debug, PartialEq, Eq, Structural)]
pub enum Role {
    System,
    User,
    Assistant,
    Tool,
}

/// An image attached to a message, as a URL (usually a `data:` URL).
#[derive(Debug)]
pub struct ImageContent {
    pub url: String,
    pub detail: Option<String>,
}

impl Clone for ImageContent {
    fn clone(&self) -> (r: Self)
        ensures
            r == *self,
    {
        ImageContent { url: self.url.clone(), detail: self.detail.clone() }
    }
}

/// A tool invocation requested by a model; `arguments` is JSON text.
#[derive(Debug)]
pub struct ToolCall {
    pub id: String,
    pub name: String,
    pub arguments: String,
}

impl Clone for ToolCall {
    fn clone(&self) -> (r: Self)
        ensures
            r == *self,
    {
        ToolCall { id: self.id.clone(), name: self.name.clone(), arguments: self.arguments.clone() }
    }
}

/// A tool offered to a model; `parameters` is a JSON schema as text.
#[derive(Debug)]
pub struct ToolDefinition {
    pub name: String,
    pub description: String,
    pub parameters: String,
}

impl Clone for ToolDefinition {
    fn clone(&self) -> (r: Self)
        ensures
            r == *self,
    {
        ToolDefinition {
            name: self.name.clone(),
            description: self.description.clone(),
            parameters: self.parameters.clone(),
        }
    }
}

/// The outcome of running a tool.
#[derive(Debug)]
pub struct ToolResult {
    pub call_id: String,
    pub output: String,
    pub is_error: bool,
}

/// Clones a vector element by element, keeping every element equal.
pub fn clone_tool_calls(v: &Vec<ToolCall>) -> (r: Vec<ToolCall>)
    ensures
        r@ == v@,
{
    let mut r: Vec<ToolCall> = Vec::new();
    let mut i: usize = 0;
    while i < v.len()
        invariant
            i <= v@.len(),
            r@ == v@.take(i as int),
        decreases v@.len() - i,
    {
        r.push(v[i].clone());
        assert(v@.take(i + 1) =~= v@.take(i as int).push(v@[i as int]));
        i = i + 1;
    }
    assert(v@.take(v@.len() as int) =~= v@);
    r
}

/// Clones a vector of images, keeping every element equal.
pub fn clone_images(v: &Vec<ImageContent>) -> (r: Vec<ImageContent>)
    ensures
        r@ == v@,
{
    let mut r: Vec<ImageContent> = Vec::new();
    let mut i: usize = 0;
    while i < v.len()
        invariant
            i <= v@.len(),
            r@ == v@.take(i as int),
        decreases v@.len() - i,
    {
        r.push(v[i].clone());
        assert(v@.take(i + 1) =~= v@.take(i as int).push(v@[i as int]));
        i = i + 1;
    }
    assert(v@.take(v@.len() as int) =~= v@);
    r
}

/// Clones a vector of strings, keeping every element equal.
pub fn clone_strings(v: &Vec<String>) -> (r: Vec<String>)
    ensures
        r@ == v@,
{
    let mut r: Vec<String> = Vec::new();
    let mut i: usize = 0;
    while i < v.len()
        invariant
            i <= v@.len(),
            r@ == v@.take(i as int),
        decreases v@.len() - i,
    {
        r.push(v[i].clone());
        assert(v@.take(i + 1) =~= v@.take(i as int).push(v@[i as int]));
        i = i + 1;
    }
    assert(v@.take(v@.len() as int) =~= v@);
    r
}

/// One node of a conversation; `parent_id` allows branching.
#[derive(Debug)]
pub struct Message {
    pub id: u128,
    pub conversation_id: u128,
    pub parent_id: Option<u128>,
    pub role: Role,
    pub content: String,
    pub reasoning_content: Option<String>,
    pub tool_calls: Option<Vec<ToolCall>>,
    pub tool_call_id: Option<String>,
    pub images: Option<Vec<ImageContent>>,
    /// JSON text.
    pub metadata: String,
    pub created_at: Timestamp,
}

/// The mathematical value of a message: text as character sequences and
/// attached lists as sequences.
pub struct MessageView {
    pub id: u128,
    pub conversation_id: u128,
    pub parent_id: Option<u128>,
    pub role: Role,
    pub content: Seq<char>,
    pub reasoning_content: Option<Seq<char>>,
    pub tool_calls: Option<Seq<ToolCall>>,
    pub tool_call_id: Option<Seq<char>>,
    pub images: Option<Seq<ImageContent>>,
    pub metadata: Seq<char>,
    pub created_at: Timestamp,
}

/// The view of an optional string.
pub open spec fn opt_str(s: Option<String>) -> Option<Seq<char>> {
    match s {
        Some(x) => Some(x@),
        None => None,
    }
}

impl View for Message {
    type V = MessageView;

    open spec fn view(&self) -> MessageView {
        MessageView {
            id: self.id,
            conversation_id: self.conversation_id,
            parent_id: self.parent_id,
            role: self.role,
            content: self.content@,
            reasoning_content: opt_str(self.reasoning_content),
            tool_calls: match self.tool_calls {
                Some(v) => Some(v@),
                None => None,
            },
            tool_call_id: opt_str(self.tool_call_id),
            images: match self.images {
                Some(v) => Some(v@),
                None => None,
            },
            metadata: self.metadata@,
            created_at: self.created_at,
        }
    }
}

/// The views of a list of messages.
pub open spec fn message_views(s: Seq<Message>) -> Seq<MessageView> {
    s.map_values(|m: Message| m@)
}

impl Clone for Message {
    fn clone(&self) -> (r: Self)
        ensures
            r@ == self@,
    {
        let tool_calls = match &self.tool_calls {
            Some(v) => Some(clone_tool_calls(v)),
            None => None,
        };
        let images = match &self.images {
            Some(v) => Some(clone_images(v)),
            None => None,
        };
        Message {
            id: self.id,
            conversation_id: self.conversation_id,
            parent_id: self.parent_id,
            role: self.role,
            content: self.content.clone(),
            reasoning_content: self.reasoning_content.clone(),
            tool_calls,
            tool_call_id: self.tool_call_id.clone(),
            images,
            metadata: self.metadata.clone(),
            created_at: self.created_at,
        }
    }
}

/// Clones a list of messages, keeping every element's view.
pub fn clone_messages(v: &Vec<Message>) -> (r: Vec<Message>)
    ensures
        message_views(r@) == message_views(v@),
{
    let mut r: Vec<Message> = Vec::new();
    let mut i: usize = 0;
    while i < v.len()
        invariant
            i <= v@.len(),
            message_views(r@) == message_views(v@.take(i as int)),
        decreases v@.len() - i,
    {
        let m = v[i].clone();
        r.push(m);
        assert(message_views(v@.take(i + 1)) =~= message_views(v@.take(i as int)).push(v@[i as int]@));
        assert(message_views(r@) =~= message_views(v@.take(i as int)).push(v@[i as int]@));
        i = i + 1;
    }
    assert(v@.take(v@.len() as int) =~= v@);
    r
}

/// A model exposed by a provider; `metadata` is JSON text.
#[derive(Debug)]
pub struct Model {
    pub id: String,
    pub display_name: Option<String>,
    pub context_length: Option<u64>,
    pub metadata: String,
}

impl Clone for Model {
    fn clone(&self) -> (r: Self)
        ensures
            r == *self,
    {
        Model {
            id: self.id.clone(),
            display_name: self.display_name.clone(),
            context_length: self.context_length,
            metadata: self.metadata.clone(),
        }
    }
}

/// The wire protocol a provider speaks.
#[derive(Clone, Copy, Debug, PartialEq, Eq, Structural)]
pub enum ProviderProtocol {
    OpenAiCompatible,
}

/// A configured inference endpoint.
#[derive(Debug)]
pub struct Provider {
    pub id: u128,
    pub name: String,
    pub base_url: String,
    pub protocol: ProviderProtocol,
    pub api_key_ref: Option<String>,
    pub default_model: Option<String>,
    pub created_at: Timestamp,
    pub updated_at: Timestamp,
}

impl Clone for Provider {
    fn clone(&self) -> (r: Self)
        ensures
            r == *self,
    {
        Provider {
            id: self.id,
            name: self.name.clone(),
            base_url: self.base_url.clone(),
            protocol: self.protocol,
            api_key_ref: self.api_key_ref.clone(),
            default_model: self.default_model.clone(),
            created_at: self.created_at,
            updated_at: self.updated_at,
        }
    }
}

/// A durable chat workspace.
#[derive(Debug)]
pub struct Conversation {
    pub id: u128,
    pub title: String,
    pub provider_id: u128,
    pub model_id: String,
    pub system_prompt: Option<String>,
    pub created_at: Timestamp,
    pub updated_at: Timestamp,
    pub archived_at: Option<Timestamp>,
}

impl Clone for Conversation {
    fn clone(&self) -> (r: Self)
        ensures
            r == *self,
    {
        Conversation {
            id: self.id,
            title: self.title.clone(),
            provider_id: self.provider_id,
            model_id: self.model_id.clone(),
            system_prompt: self.system_prompt.clone(),
            created_at: self.created_at,
            updated_at: self.updated_at,
            archived_at: self.archived_at,
        }
    }
}

/// A reusable prompt template.
#[derive(Debug)]
pub struct Prompt {
    pub id: u128,
    pub name: String,
    pub description: Option<String>,
    pub content: String,
    pub system_prompt: Option<String>,
    pub tags: Vec<String>,
    pub variables: Vec<String>,
    pub created_at: Timestamp,
    pub updated_at: Timestamp,
}

impl Clone for Prompt {
    fn clone(&self) -> (r: Self)
        ensures
            r.id == self.id,
            r.name == self.name,
            r.description == self.description,
            r.content == self.content,
            r.system_prompt == self.system_prompt,
            r.tags@ == self.tags@,
            r.variables@ == self.variables@,
            r.created_at == self.created_at,
            r.updated_at == self.updated_at,
    {
        Prompt {
            id: self.id,
            name: self.name.clone(),
            description: self.description.clone(),
            content: self.content.clone(),
            system_prompt: self.system_prompt.clone(),
            tags: clone_strings(&self.tags),
            variables: clone_strings(&self.variables),
            created_at: self.created_at,
            updated_at: self.updated_at,
        }
    }
}

/// Token counts and timings (whole milliseconds) reported for a generation.
#[derive(Debug, Clone, Copy)]
pub struct GenerationUsage {
    pub prompt_tokens: Option<u64>,
    pub completion_tokens: Option<u64>,
    pub total_tokens: Option<u64>,
    pub prompt_ms: Option<u64>,
    pub generation_ms: Option<u64>,
}

impl GenerationUsage {
    /// Usage with nothing reported.
    pub fn empty() -> (r: Self)
        ensures
            r.prompt_tokens is None,
            r.completion_tokens is None,
            r.total_tokens is None,
            r.prompt_ms is None,
            r.generation_ms is None,
    {
        GenerationUsage {
            prompt_tokens: None,
            completion_tokens: None,
            total_tokens: None,
            prompt_ms: None,
            generation_ms: None,
        }
    }
}

/// What a provider can do.
#[derive(Debug)]
pub struct Capabilities {
    pub streaming: bool,
    pub tools: bool,
    pub vision: bool,
    pub reasoning: bool,
    pub embeddings: bool,
    pub responses_api: bool,
    pub tool_calling: bool,
    pub parallel_tool_calls: bool,
    pub image_input: bool,
    pub image_formats: Vec<String>,
    pub structured_output: bool,
    pub json_mode: bool,
    pub max_output_tokens: Option<u32>,
}

impl Default for Capabilities {
    fn default() -> (r: Self)
        ensures
            !r.streaming && !r.tools && !r.vision && !r.reasoning && !r.embeddings
                && !r.responses_api && !r.tool_calling && !r.parallel_tool_calls
                && !r.image_input && r.image_formats@.len() == 0 && !r.structured_output
                && !r.json_mode && r.max_output_tokens is None,
    {
        Capabilities {
            streaming: false,
            tools: false,
            vision: false,
            reasoning: false,
            embeddings: false,
            responses_api: false,
            tool_calling: false,
            parallel_tool_calls: false,
            image_input: false,
            image_formats: Vec::new(),
            structured_output: false,
            json_mode: false,
            max_output_tokens: None,
        }
    }
}

impl Clone for Capabilities {
    fn clone(&self) -> (r: Self)
        ensures
            r.streaming == self.streaming && r.tools == self.tools && r.vision == self.vision
                && r.reasoning == self.reasoning && r.embeddings == self.embeddings
                && r.responses_api == self.responses_api && r.tool_calling == self.tool_calling
                && r.parallel_tool_calls == self.parallel_tool_calls
                && r.image_input == self.image_input && r.structured_output
                == self.structured_output && r.json_mode == self.json_mode
                && r.max_output_tokens == self.max_output_tokens,
            r.image_formats@ == self.image_formats@,
    {
        Capabilities {
            streaming: self.streaming,
            tools: self.tools,
            vision: self.vision,
            reasoning: self.reasoning,
            embeddings: self.embeddings,
            responses_api: self.responses_api,
            tool_calling: self.tool_calling,
            parallel_tool_calls: self.parallel_tool_calls,
            image_input: self.image_input,
            image_formats: clone_strings(&self.image_formats),
            structured_output: self.structured_output,
            json_mode: self.json_mode,
            max_output_tokens: self.max_output_tokens,
        }
    }
}

/// The feature names that `supports_feature` knows.
pub open spec fn feature_supported(c: Capabilities, feature: Seq<char>) -> bool {
    if feature == "streaming"@ {
        c.streaming
    } else if feature == "tools"@ || feature == "tool_calling"@ {
        c.tool_calling || c.tools
    } else if feature == "parallel_tool_calls"@ {
        c.parallel_tool_calls
    } else if feature == "vision"@ || feature == "image_input"@ {
        c.image_input || c.vision
    } else if feature == "reasoning"@ {
        c.reasoning
    } else if feature == "embeddings"@ {
        c.embeddings
    } else if feature == "structured_output"@ {
        c.structured_output
    } else if feature == "json_mode"@ {
        c.json_mode || c.structured_output
    } else {
        false
    }
}

impl Capabilities {
    /// Whether the named feature is available; aliases share one answer and
    /// unknown names are unsupported.
    pub fn supports_feature(&self, feature: &str) -> (r: bool)
        ensures
            r == feature_supported(*self, feature@),
    {
        if crate::text::str_eq(feature, "streaming") {
            self.streaming
        } else if crate::text::str_eq(feature, "tools") || crate::text::str_eq(
            feature,
            "tool_calling",
        ) {
            self.tool_calling || self.tools
        } else if crate::text::str_eq(feature, "parallel_tool_calls") {
            self.parallel_tool_calls
        } else if crate::text::str_eq(feature, "vision") || crate::text::str_eq(
            feature,
            "image_input",
        ) {
            self.image_input || self.vision
        } else if crate::text::str_eq(feature, "reasoning") {
            self.reasoning
        } else if crate::text::str_eq(feature, "embeddings") {
            self.embeddings
        } else if crate::text::str_eq(feature, "structured_output") {
            self.structured_output
        } else if crate::text::str_eq(feature, "json_mode") {
            self.json_mode || self.structured_output
        } else {
            false
        }
    }
}

/// Law: a feature and its alias get the same answer, for every set of capabilities.
pub proof fn lemma_feature_aliases_agree(c: Capabilities)
    ensures
        feature_supported(c, "tools"@) == feature_supported(c, "tool_calling"@),
        feature_supported(c, "vision"@) == feature_supported(c, "image_input"@),
        feature_supported(c, "structured_output"@) ==> feature_supported(c, "json_mode"@),
{
    reveal_strlit("streaming");
    reveal_strlit("tools");
    reveal_strlit("tool_calling");
    reveal_strlit("parallel_tool_calls");
    reveal_strlit("vision");
    reveal_strlit("image_input");
    reveal_strlit("reasoning");
    reveal_strlit("embeddings");
    reveal_strlit("structured_output");
    reveal_strlit("json_mode");
    assert("tools"@.len() == 5);
    assert("streaming"@.len() == 9);
    assert("tool_calling"@.len() == 12);
    assert("parallel_tool_calls"@.len() == 19);
    assert("vision"@.len() == 6);
    assert("image_input"@.len() == 11);
    assert("structured_output"@.len() == 17);
    assert("json_mode"@.len() == 9);
    assert("json_mode"@ != "streaming"@) by {
        assert("json_mode"@[0] != "streaming"@[0]);
    }
    assert("reasoning"@.len() == 9);
    assert("embeddings"@.len() == 10);
    assert("json_mode"@ != "reasoning"@) by {
        assert("json_mode"@[0] != "reasoning"@[0]);
    }
}

} // verus!
