//! The application's state machine.
//!
//! `App` holds what the user sees (models, conversations, messages,
//! the input line, the answer being streamed, the last error). Each event is
//! handled by a function from state and event to the next state and a list
//! of effects; whoever runs the application performs the effects
//! (persisting, starting or cancelling a stream) and hands their outcome
//! back through the `on_*` functions. `StreamRelay` turns a provider's
//! stream into the provider events the state machine consumes.
use vstd::prelude::*;
use crate::domain::{
    Conversation, Message, MessageView, Model, Provider, ProviderProtocol, Role, Timestamp,
    message_views,
};
use crate::context::{
    ContextPolicy, DEFAULT_RESERVE_TOKENS, build_context_at, is_context, kept_messages,
    lemma_newest_message_kept, message_allowance, message_cost,
};
use crate::events::{AppEvent, ProviderEvent, UserEvent};
use crate::llm::provider::{ChatRequest, LlmError, StreamEvent, llm_error_text};
use crate::text::{is_blank, take_chars};

verus! {

/// Title of a conversation nobody has named yet.
pub open spec fn new_conversation_title() -> Seq<char> {
    "New Conversation"@
}

/// Longest title derived from a first user message, in characters.
pub const DERIVED_TITLE_CHARS: usize = 50;

/// A fresh identifier and the current time, drawn once per step.
#[derive(Debug, Clone, Copy)]
pub struct Fresh {
    pub id: u128,
    pub now: Timestamp,
}

impl Fresh {
    /// Draws a random identifier and reads the clock.
    pub fn draw() -> (r: Self) {
        Fresh { id: crate::platform::new_id(), now: crate::platform::now() }
    }
}

/// The answer being streamed.
#[derive(Debug)]
pub struct StreamingState {
    pub message_id: u128,
    pub buffer: String,
}

/// What the runner of the state machine has to do after a step.
#[derive(Debug)]
pub enum Effect {
    /// Persist a new conversation, then report with `on_conversation_created`;
    /// `then_send` says that a message is waiting to be sent in it.
    CreateConversation { conversation: Conversation, then_send: bool },
    /// Persist the user's message, then report with `on_user_message_saved`.
    SaveUserMessage { message: Message },
    /// Announce `StreamStarted` and stream the request's answer through a
    /// `StreamRelay` for the given message and conversation.
    StartStream { request: ChatRequest, message_id: u128, conversation_id: u128 },
    /// Cancel the stream of the given message.
    CancelStream { message_id: u128 },
    /// Persist the completed answer, then report with `on_assistant_saved`.
    SaveAssistantMessage { message: Message },
    /// Ask the provider for its models, then report with `connection_tested`.
    ListModels,
    /// Load the stored messages of a conversation, then report with `messages_loaded`.
    LoadMessages { conversation_id: u128 },
}

/// The state of the chat screen.
#[derive(Debug)]
pub struct App {
    pub models: Vec<Model>,
    pub selected_model: Option<String>,
    pub conversations: Vec<Conversation>,
    pub active_conversation: Option<u128>,
    pub messages: Vec<Message>,
    pub streaming: Option<StreamingState>,
    pub input: String,
    pub should_quit: bool,
    pub error: Option<String>,
    pub provider_id: u128,
    /// Whether keys go to the conversation list rather than the input line.
    pub sidebar_focus: bool,
    /// The position highlighted in the conversation list.
    pub sidebar_selection: usize,
    /// The budget that the context of each request is built with.
    pub context_policy: ContextPolicy,
}

/// The optional string's text.
pub open spec fn opt_text(s: Option<String>) -> Option<Seq<char>> {
    crate::domain::opt_str(s)
}

/// The streamed answer's identifier and text so far.
pub open spec fn streaming_view(s: Option<StreamingState>) -> Option<(u128, Seq<char>)> {
    match s {
        Some(st) => Some((st.message_id, st.buffer@)),
        None => None,
    }
}

/// The first conversation from position `i` on with the given identifier.
pub open spec fn find_conversation(convs: Seq<Conversation>, id: u128, i: int) -> Option<int>
    decreases convs.len() - i,
{
    if i < 0 || i >= convs.len() {
        None
    } else if convs[i].id == id {
        Some(i)
    } else {
        find_conversation(convs, id, i + 1)
    }
}

/// The first message from position `i` on written by the user.
pub open spec fn find_user_message(msgs: Seq<MessageView>, i: int) -> Option<int>
    decreases msgs.len() - i,
{
    if i < 0 || i >= msgs.len() {
        None
    } else if msgs[i].role == Role::User {
        Some(i)
    } else {
        find_user_message(msgs, i + 1)
    }
}

/// The title a conversation gets when an answer completes: while it is
/// still untitled and holds exactly one exchange, the first 50 characters
/// of the first user message; otherwise its title.
pub open spec fn title_after_answer(title: Seq<char>, msgs: Seq<MessageView>) -> Seq<char> {
    if msgs.len() == 2 && title == new_conversation_title() {
        match find_user_message(msgs, 0) {
            Some(u) => take_chars(msgs[u].content, DERIVED_TITLE_CHARS as nat),
            None => title,
        }
    } else {
        title
    }
}

/// `new` is `old` touched at time `now` with the given title.
pub open spec fn touched(old: Conversation, new: Conversation, title: Seq<char>, now: Timestamp) -> bool {
    &&& new.id == old.id
    &&& new.title@ == title
    &&& new.provider_id == old.provider_id
    &&& new.model_id == old.model_id
    &&& new.system_prompt == old.system_prompt
    &&& new.created_at == old.created_at
    &&& new.updated_at == now
    &&& new.archived_at == old.archived_at
}

/// The conversations after an answer completes in the active conversation:
/// the first one with the active identifier is touched (see `touched` and
/// `title_after_answer`), the others are unchanged.
pub open spec fn conversations_after_answer(
    old: Seq<Conversation>,
    new: Seq<Conversation>,
    active: Option<u128>,
    msgs: Seq<MessageView>,
    now: Timestamp,
) -> bool {
    match active {
        None => new == old,
        Some(cid) => match find_conversation(old, cid, 0) {
            None => new == old,
            Some(j) => {
                &&& new.len() == old.len()
                &&& 0 <= j < old.len()
                &&& forall|k: int| 0 <= k < old.len() && k != j ==> new[k] == old[k]
                &&& touched(old[j], new[j], title_after_answer(old[j].title@, msgs), now)
            },
        },
    }
}

/// A conversation just started: named "New Conversation", on the given
/// provider and model, with no system prompt, created and updated at `now`.
pub open spec fn is_new_conversation(
    c: Conversation,
    id: u128,
    provider_id: u128,
    model: Seq<char>,
    now: Timestamp,
) -> bool {
    &&& c.id == id
    &&& c.title@ == new_conversation_title()
    &&& c.provider_id == provider_id
    &&& c.model_id@ == model
    &&& c.system_prompt is None
    &&& c.created_at == now
    &&& c.updated_at == now
    &&& c.archived_at is None
}

/// The model a new conversation is created for: the selected one, or "default".
pub open spec fn model_for_new_conversation(selected: Option<String>) -> Seq<char> {
    match selected {
        Some(m) => m@,
        None => "default"@,
    }
}

/// A plain message with no attachments and empty metadata.
pub open spec fn is_plain_message(
    m: MessageView,
    id: u128,
    conversation_id: u128,
    parent_id: Option<u128>,
    role: Role,
    content: Seq<char>,
    now: Timestamp,
) -> bool {
    &&& m.id == id
    &&& m.conversation_id == conversation_id
    &&& m.parent_id == parent_id
    &&& m.role == role
    &&& m.content == content
    &&& m.reasoning_content is None
    &&& m.tool_calls is None
    &&& m.tool_call_id is None
    &&& m.images is None
    &&& m.metadata == "{}"@
    &&& m.created_at == now
}

/// The identifier of the last message, if any.
pub open spec fn last_message_id(msgs: Seq<MessageView>) -> Option<u128> {
    if msgs.len() == 0 {
        None
    } else {
        Some(msgs.last().id)
    }
}

/// The system prompt of the conversation with the given identifier, if it
/// has one.
pub open spec fn conversation_prompt(convs: Seq<Conversation>, id: u128) -> Option<Seq<char>> {
    match find_conversation(convs, id, 0) {
        Some(j) => opt_text(convs[j].system_prompt),
        None => None,
    }
}

/// The context length of the listed model with the given identifier, if known.
pub open spec fn model_context_length(models: Seq<Model>, id: Seq<char>) -> Option<u64> {
    match model_position(models, id, 0) {
        Some(p) => models[p].context_length,
        None => None,
    }
}

/// The request for an answer in a conversation of `app`: the given model,
/// no tools, and the context built from the conversation's system prompt,
/// the messages, the model's context length and the state's policy, with
/// the system message stamped `now`.
pub open spec fn is_request_for(
    r: ChatRequest,
    model: Seq<char>,
    app: App,
    conversation_id: u128,
    now: Timestamp,
) -> bool {
    &&& r.model@ == model
    &&& is_context(
        message_views(r.messages@),
        conversation_prompt(app.conversations@, conversation_id),
        message_views(app.messages@),
        model_context_length(app.models@, model),
        app.context_policy,
        now,
    )
    &&& r.tools is None
}

/// `a` and `b` hold the same screen state, except what `ignore_*` names.
pub open spec fn same_except(
    a: App,
    b: App,
    ignore_messages: bool,
    ignore_streaming: bool,
    ignore_input: bool,
    ignore_error: bool,
    ignore_conversations: bool,
) -> bool {
    &&& a.models@ == b.models@
    &&& opt_text(a.selected_model) == opt_text(b.selected_model)
    &&& (ignore_conversations || a.conversations@ == b.conversations@)
    &&& (ignore_conversations || a.active_conversation == b.active_conversation)
    &&& (ignore_messages || message_views(a.messages@) == message_views(b.messages@))
    &&& (ignore_streaming || streaming_view(a.streaming) == streaming_view(b.streaming))
    &&& (ignore_input || a.input@ == b.input@)
    &&& a.should_quit == b.should_quit
    &&& (ignore_error || opt_text(a.error) == opt_text(b.error))
    &&& a.provider_id == b.provider_id
    &&& a.sidebar_focus == b.sidebar_focus
    &&& a.sidebar_selection == b.sidebar_selection
    &&& a.context_policy == b.context_policy
}

/// The state is unchanged.
pub open spec fn unchanged(a: App, b: App) -> bool {
    same_except(a, b, false, false, false, false, false)
}

fn error_with(prefix: &str, e: &str) -> (r: Option<String>)
    ensures
        r matches Some(s) && s@ == prefix@ + e@,
{
    Some(crate::text::join2(prefix, e))
}

impl App {
    /// The state before anything is loaded.
    pub fn new() -> (r: Self)
        ensures
            r.models@.len() == 0,
            r.selected_model is None,
            r.conversations@.len() == 0,
            r.active_conversation is None,
            r.messages@.len() == 0,
            r.streaming is None,
            r.input@.len() == 0,
            !r.should_quit,
            r.error is None,
            r.provider_id == 0,
            !r.sidebar_focus,
            r.sidebar_selection == 0,
            r.context_policy.max_tokens is None,
            r.context_policy.reserve_for_response == DEFAULT_RESERVE_TOKENS,
    {
        App {
            models: Vec::new(),
            selected_model: None,
            conversations: Vec::new(),
            active_conversation: None,
            messages: Vec::new(),
            streaming: None,
            input: String::new(),
            should_quit: false,
            error: None,
            provider_id: 0,
            sidebar_focus: false,
            sidebar_selection: 0,
            context_policy: ContextPolicy { max_tokens: None, reserve_for_response: DEFAULT_RESERVE_TOKENS },
        }
    }

    /// The streamed answer so far.
    pub fn streaming_content(&self) -> (r: Option<&str>)
        ensures
            match self.streaming {
                Some(st) => r matches Some(s) && s@ == st.buffer@,
                None => r is None,
            },
    {
        match &self.streaming {
            Some(st) => Some(st.buffer.as_str()),
            None => None,
        }
    }

    /// Chooses the provider at start-up: the first stored one, or else a new
    /// provider named "default" at `fake://local` (returned, to be stored).
    pub fn init_provider(&mut self, stored: &Vec<Provider>, fresh: Fresh) -> (r: Option<Provider>)
        ensures
            unchanged(*final(self), App { provider_id: final(self).provider_id, ..*old(self) }),
            stored@.len() > 0 ==> r is None && final(self).provider_id == stored@[0].id,
            stored@.len() == 0 ==> (r matches Some(p) && p.id == fresh.id
                && final(self).provider_id == fresh.id && p.name@ == "default"@ && p.base_url@ == "fake://local"@
                && p.protocol == ProviderProtocol::OpenAiCompatible && p.api_key_ref is None
                && p.default_model is None && p.created_at == fresh.now && p.updated_at
                == fresh.now),
    {
        if stored.len() > 0 {
            self.provider_id = stored[0].id;
            None
        } else {
            let p = Provider {
                id: fresh.id,
                name: crate::text::owned("default"),
                base_url: crate::text::owned("fake://local"),
                protocol: ProviderProtocol::OpenAiCompatible,
                api_key_ref: None,
                default_model: None,
                created_at: fresh.now,
                updated_at: fresh.now,
            };
            self.provider_id = fresh.id;
            Some(p)
        }
    }
}


/// Only the models and the selected model may differ.
pub open spec fn same_besides_models(a: App, b: App) -> bool {
    &&& a.conversations@ == b.conversations@
    &&& a.active_conversation == b.active_conversation
    &&& message_views(a.messages@) == message_views(b.messages@)
    &&& streaming_view(a.streaming) == streaming_view(b.streaming)
    &&& a.input@ == b.input@
    &&& a.should_quit == b.should_quit
    &&& opt_text(a.error) == opt_text(b.error)
    &&& a.provider_id == b.provider_id
    &&& a.sidebar_focus == b.sidebar_focus
    &&& a.sidebar_selection == b.sidebar_selection
    &&& a.context_policy == b.context_policy
}

/// Sending: nothing happens while the input is blank or an answer is
/// streaming; otherwise the user's message is to be saved in the active
/// conversation (replying to its last message), or, without an active
/// conversation, a new conversation is to be created first.
pub open spec fn send_step(old: App, new: App, fresh: Fresh, fx: Seq<Effect>) -> bool {
    &&& unchanged(new, old)
    &&& if is_blank(old.input@) || old.streaming is Some {
        fx.len() == 0
    } else {
        match old.active_conversation {
            Some(cid) => fx.len() == 1 && (fx[0] matches Effect::SaveUserMessage { message }
                && is_plain_message(
                message@,
                fresh.id,
                cid,
                last_message_id(message_views(old.messages@)),
                Role::User,
                old.input@,
                fresh.now,
            )),
            None => fx.len() == 1 && (fx[0] matches Effect::CreateConversation {
                conversation,
                then_send,
            } && then_send && is_new_conversation(
                conversation,
                fresh.id,
                old.provider_id,
                model_for_new_conversation(old.selected_model),
                fresh.now,
            )),
        }
    }
}

/// Starting an answer in a conversation: without a selected model the error
/// "No model selected" is shown; otherwise the answer is streaming under
/// the fresh identifier and a stream is to be started whose request holds
/// the context of the conversation (see `is_request_for`).
pub open spec fn generation_step(
    old: App,
    new: App,
    conversation_id: u128,
    fresh: Fresh,
    fx: Seq<Effect>,
) -> bool {
    match old.selected_model {
        None => {
            &&& same_except(new, old, false, false, false, true, false)
            &&& opt_text(new.error) == Some("No model selected"@)
            &&& fx.len() == 0
        },
        Some(m) => {
            &&& same_except(new, old, false, true, false, false, false)
            &&& streaming_view(new.streaming) == Some((fresh.id, Seq::<char>::empty()))
            &&& fx.len() == 1
            &&& (fx[0] matches Effect::StartStream { request, message_id, conversation_id: c }
                && message_id == fresh.id && c == conversation_id && is_request_for(
                request,
                m@,
                old,
                conversation_id,
                fresh.now,
            ))
        },
    }
}

/// Cancelling: the stream of the answer in progress (if any) is to be cancelled.
pub open spec fn cancel_effects(old: App, fx: Seq<Effect>) -> bool {
    match old.streaming {
        Some(st) => fx.len() == 1 && (fx[0] matches Effect::CancelStream { message_id }
            && message_id == st.message_id),
        None => fx.len() == 0,
    }
}

/// Messages after a retry: the last one is dropped when the assistant wrote it.
pub open spec fn messages_for_retry(msgs: Seq<MessageView>) -> Seq<MessageView> {
    if msgs.len() > 0 && msgs.last().role == Role::Assistant {
        msgs.drop_last()
    } else {
        msgs
    }
}

/// How many effects cancelling produces.
pub open spec fn cancel_count(old: App) -> int {
    if old.streaming is Some {
        1
    } else {
        0
    }
}

/// A retry in conversation `cid`, passing through the state `mid`.
pub open spec fn retry_parts(
    old: App,
    mid: App,
    new: App,
    cid: u128,
    fresh: Fresh,
    fx: Seq<Effect>,
) -> bool {
    &&& same_except(mid, old, true, true, false, false, false)
    &&& mid.streaming is None
    &&& message_views(mid.messages@) == messages_for_retry(message_views(old.messages@))
    &&& fx.len() >= cancel_count(old)
    &&& cancel_effects(old, fx.take(cancel_count(old)))
    &&& generation_step(mid, new, cid, fresh, fx.skip(cancel_count(old)))
}

/// Retrying: the answer in progress is cancelled and forgotten; in the
/// active conversation a last answer by the assistant is dropped and a new
/// answer is started (see `generation_step`).
pub open spec fn retry_step(old: App, new: App, fresh: Fresh, fx: Seq<Effect>) -> bool {
    match old.active_conversation {
        None => {
            &&& same_except(new, old, false, true, false, false, false)
            &&& new.streaming is None
            &&& cancel_effects(old, fx)
        },
        Some(cid) => exists|mid: App| #[trigger] retry_parts(old, mid, new, cid, fresh, fx),
    }
}

/// `new` is `old` with the quit flag raised.
pub open spec fn quit_step(old: App, new: App) -> bool {
    &&& new.should_quit
    &&& same_except(new, App { should_quit: true, ..old }, false, false, false, false, false)
}

/// Applying the outcome of storing the user's message: on success it is
/// appended, the input and the error are cleared, and an answer is started
/// in its conversation (see `generation_step`); on failure the error
/// "Failed to save message: ..." is shown.
pub open spec fn user_saved_step(
    old: App,
    new: App,
    message: Message,
    result: Result<(), String>,
    fresh: Fresh,
    fx: Seq<Effect>,
) -> bool {
    match result {
        Err(e) => {
            &&& same_except(new, old, false, false, false, true, false)
            &&& opt_text(new.error) == Some("Failed to save message: "@ + e@)
            &&& fx.len() == 0
        },
        Ok(_) => exists|mid: App| #[trigger] saved_then_started(old, mid, new, message, fresh, fx),
    }
}

/// `mid` is `old` with the user's message appended, the input and the error
/// cleared, and `new` follows from `mid` by starting an answer.
pub open spec fn saved_then_started(old: App, mid: App, new: App, message: Message, fresh: Fresh, fx: Seq<Effect>) -> bool {
    &&& same_except(mid, old, true, false, true, true, false)
    &&& message_views(mid.messages@) == message_views(old.messages@).push(message@)
    &&& mid.input@.len() == 0
    &&& mid.error is None
    &&& generation_step(mid, new, message.conversation_id, fresh, fx)
}

impl App {
    /// Applies the outcome of listing the provider's models: the models and
    /// the first of them as selected model, or the error "Failed to load
    /// models: ...".
    pub fn models_loaded(&mut self, result: Result<Vec<Model>, String>)
        ensures
            match result {
                Ok(ms) => {
                    &&& final(self).models@ == ms@
                    &&& ms@.len() > 0 ==> opt_text(final(self).selected_model) == Some(ms@[0].id@)
                    &&& ms@.len() == 0 ==> opt_text(final(self).selected_model) == opt_text(old(self).selected_model)
                    &&& same_besides_models(*final(self), *old(self))
                },
                Err(e) => {
                    &&& same_except(*final(self), *old(self), false, false, false, true, false)
                    &&& opt_text(final(self).error) == Some("Failed to load models: "@ + e@)
                },
            },
    {
        match result {
            Ok(models) => {
                if models.len() > 0 {
                    self.selected_model = Some(models[0].id.clone());
                }
                self.models = models;
            },
            Err(e) => {
                self.error = error_with("Failed to load models: ", e.as_str());
            },
        }
    }

    /// Applies the outcome of listing the stored conversations: the list, or
    /// the error "Failed to load conversations: ...".
    pub fn conversations_loaded(&mut self, result: Result<Vec<Conversation>, String>)
        ensures
            match result {
                Ok(cs) => {
                    &&& final(self).conversations@ == cs@
                    &&& same_except(*final(self), *old(self), false, false, false, false, true)
                    &&& final(self).active_conversation == old(self).active_conversation
                },
                Err(e) => {
                    &&& same_except(*final(self), *old(self), false, false, false, true, false)
                    &&& opt_text(final(self).error) == Some("Failed to load conversations: "@ + e@)
                },
            },
    {
        match result {
            Ok(cs) => {
                self.conversations = cs;
            },
            Err(e) => {
                self.error = error_with("Failed to load conversations: ", e.as_str());
            },
        }
    }

    fn new_conversation_effect(&self, fresh: Fresh, then_send: bool) -> (r: Effect)
        ensures
            r matches Effect::CreateConversation { conversation, then_send: t } && t == then_send
                && is_new_conversation(
                conversation,
                fresh.id,
                self.provider_id,
                model_for_new_conversation(self.selected_model),
                fresh.now,
            ),
    {
        let model_id = match &self.selected_model {
            Some(m) => m.clone(),
            None => crate::text::owned("default"),
        };
        Effect::CreateConversation {
            conversation: Conversation {
                id: fresh.id,
                title: crate::text::owned("New Conversation"),
                provider_id: self.provider_id,
                model_id,
                system_prompt: None,
                created_at: fresh.now,
                updated_at: fresh.now,
                archived_at: None,
            },
            then_send,
        }
    }

    fn user_message(&self, conversation_id: u128, fresh: Fresh) -> (r: Message)
        ensures
            is_plain_message(
                r@,
                fresh.id,
                conversation_id,
                last_message_id(message_views(self.messages@)),
                Role::User,
                self.input@,
                fresh.now,
            ),
    {
        let parent_id = if self.messages.len() > 0 {
            Some(self.messages[self.messages.len() - 1].id)
        } else {
            None
        };
        Message {
            id: fresh.id,
            conversation_id,
            parent_id,
            role: Role::User,
            content: self.input.clone(),
            reasoning_content: None,
            tool_calls: None,
            tool_call_id: None,
            images: None,
            metadata: crate::text::owned("{}"),
            created_at: fresh.now,
        }
    }

    /// Sends the input line (see `send_step`).
    pub fn send_message(&self, fresh: Fresh) -> (r: Vec<Effect>)
        ensures
            send_step(*self, *self, fresh, r@),
    {
        let mut fx: Vec<Effect> = Vec::new();
        if crate::text::str_is_blank(self.input.as_str()) || self.streaming.is_some() {
            return fx;
        }
        match self.active_conversation {
            Some(cid) => {
                fx.push(Effect::SaveUserMessage { message: self.user_message(cid, fresh) });
            },
            None => {
                fx.push(self.new_conversation_effect(fresh, true));
            },
        }
        fx
    }

    /// Applies the outcome of storing a new conversation. On success it
    /// becomes the first and active conversation with no messages and the
    /// error is cleared; when a message was waiting, it is to be saved in it.
    /// On failure the error "Failed to create conversation: ..." is shown.
    /// (A failure while a message waits to be sent is not accepted: the
    /// message would have no conversation.)
    pub fn on_conversation_created(
        &mut self,
        conversation: Conversation,
        result: Result<(), String>,
        then_send: bool,
        fresh: Fresh,
    ) -> (r: Vec<Effect>)
        requires
            then_send ==> result is Ok,
        ensures
            match result {
                Err(e) => {
                    &&& same_except(*final(self), *old(self), false, false, false, true, false)
                    &&& opt_text(final(self).error) == Some("Failed to create conversation: "@ + e@)
                    &&& r@.len() == 0
                },
                Ok(_) => {
                    &&& same_except(*final(self), *old(self), true, false, false, true, true)
                    &&& final(self).conversations@ == old(self).conversations@.insert(0, conversation)
                    &&& final(self).active_conversation == Some(conversation.id)
                    &&& final(self).messages@.len() == 0
                    &&& final(self).error is None
                    &&& then_send ==> r@.len() == 1 && (r@[0] matches Effect::SaveUserMessage {
                        message,
                    } && is_plain_message(
                        message@,
                        fresh.id,
                        conversation.id,
                        None,
                        Role::User,
                        old(self).input@,
                        fresh.now,
                    ))
                    &&& !then_send ==> r@.len() == 0
                },
            },
    {
        let mut fx: Vec<Effect> = Vec::new();
        match result {
            Err(e) => {
                self.error = error_with("Failed to create conversation: ", e.as_str());
            },
            Ok(()) => {
                let id = conversation.id;
                self.conversations.insert(0, conversation);
                self.active_conversation = Some(id);
                self.messages = Vec::new();
                self.error = None;
                if then_send {
                    let m = self.user_message(id, fresh);
                    fx.push(Effect::SaveUserMessage { message: m });
                }
            },
        }
        fx
    }

    fn start_generation(&mut self, conversation_id: u128, fresh: Fresh) -> (r: Vec<Effect>)
        ensures
            generation_step(*old(self), *final(self), conversation_id, fresh, r@),
    {
        let mut fx: Vec<Effect> = Vec::new();
        match &self.selected_model {
            None => {
                self.error = Some(crate::text::owned("No model selected"));
            },
            Some(m) => {
                let prompt: Option<&str> = match self.position_of_conversation(conversation_id) {
                    Some(j) => {
                        proof {
                            lemma_conversation_position_range(self.conversations@, conversation_id, 0);
                        }
                        match &self.conversations[j].system_prompt {
                            Some(sp) => Some(sp.as_str()),
                            None => None,
                        }
                    },
                    None => None,
                };
                let context_length = match self.position_of(m.as_str()) {
                    Some(p) => {
                        proof {
                            lemma_model_position_range(self.models@, m@, 0);
                        }
                        self.models[p].context_length
                    },
                    None => None,
                };
                let messages = build_context_at(
                    prompt,
                    self.messages.as_slice(),
                    context_length,
                    &self.context_policy,
                    fresh.now,
                );
                let request = ChatRequest { model: m.clone(), messages, tools: None };
                self.streaming = Some(StreamingState { message_id: fresh.id, buffer: String::new() });
                fx.push(Effect::StartStream { request, message_id: fresh.id, conversation_id });
            },
        }
        fx
    }

    /// Applies the outcome of storing the user's message. On success it is
    /// appended, the input and the error are cleared, and an answer is
    /// started in its conversation (see `generation_step`). On failure the
    /// error "Failed to save message: ..." is shown.
    pub fn on_user_message_saved(&mut self, message: Message, result: Result<(), String>, fresh: Fresh) -> (r: Vec<Effect>)
        ensures
            user_saved_step(*old(self), *final(self), message, result, fresh, r@),
    {
        match result {
            Err(e) => {
                self.error = error_with("Failed to save message: ", e.as_str());
                Vec::new()
            },
            Ok(()) => {
                let cid = message.conversation_id;
                let ghost before = message_views(self.messages@);
                self.messages.push(message);
                assert(message_views(self.messages@) =~= before.push(message@));
                self.input = String::new();
                self.error = None;
                let ghost mid = *self;
                let fx = self.start_generation(cid, fresh);
                assert(same_except(mid, *old(self), true, false, true, true, false));
                assert(saved_then_started(*old(self), mid, *self, message, fresh, fx@));
                fx
            },
        }
    }

    /// Cancels the answer in progress, if any (see `cancel_effects`); the
    /// state itself waits for the stream to report its end.
    pub fn cancel_generation(&self) -> (r: Vec<Effect>)
        ensures
            cancel_effects(*self, r@),
    {
        let mut fx: Vec<Effect> = Vec::new();
        match &self.streaming {
            Some(st) => {
                fx.push(Effect::CancelStream { message_id: st.message_id });
            },
            None => {},
        }
        fx
    }

    /// Retries (see `retry_step`).
    pub fn retry_generation(&mut self, fresh: Fresh) -> (r: Vec<Effect>)
        ensures
            retry_step(*old(self), *final(self), fresh, r@),
    {
        let mut fx = self.cancel_generation();
        let ghost c = fx@;
        self.streaming = None;
        match self.active_conversation {
            None => fx,
            Some(cid) => {
                if self.messages.len() > 0 && self.messages[self.messages.len() - 1].role == Role::Assistant {
                    let ghost before = message_views(self.messages@);
                    self.messages.pop();
                    assert(message_views(self.messages@) =~= before.drop_last());
                }
                let ghost mid = *self;
                let mut g = self.start_generation(cid, fresh);
                let ghost gv = g@;
                fx.append(&mut g);
                assert(fx@.take(cancel_count(*old(self))) =~= c);
                assert(fx@.skip(cancel_count(*old(self))) =~= gv);
                assert(retry_parts(*old(self), mid, *self, cid, fresh, fx@));
                fx
            },
        }
    }

    fn position_of(&self, id: &str) -> (r: Option<usize>)
        ensures
            match r {
                Some(p) => model_position(self.models@, id@, 0) == Some(p as int),
                None => model_position(self.models@, id@, 0) is None,
            },
    {
        let mut k: usize = 0;
        while k < self.models.len()
            invariant
                k <= self.models@.len(),
                model_position(self.models@, id@, 0) == model_position(self.models@, id@, k as int),
            decreases self.models@.len() - k,
        {
            if crate::text::str_eq(self.models[k].id.as_str(), id) {
                return Some(k);
            }
            k = k + 1;
        }
        None
    }

    /// Selects a model (see `selected_after`).
    pub fn select_model(&mut self, i: usize)
        ensures
            opt_text(final(self).selected_model) == selected_after(old(self).models@, opt_text(old(self).selected_model), i),
            final(self).models@ == old(self).models@,
            same_besides_models(*final(self), *old(self)),
    {
        let n = self.models.len();
        if i == usize::MAX {
            if n == 0 {
                return;
            }
            let next = match &self.selected_model {
                None => 0,
                Some(s) => match self.position_of(s.as_str()) {
                    None => 0,
                    Some(p) => {
                        proof {
                            lemma_model_position_range(self.models@, s@, 0);
                        }
                        if p + 1 < n {
                            assert((p + 1) % (n as int) == p + 1) by (nonlinear_arith)
                                requires
                                    0 <= p + 1 < n,
                            ;
                            p + 1
                        } else {
                            assert((p + 1) % (n as int) == 0) by (nonlinear_arith)
                                requires
                                    p + 1 == n,
                                    n > 0,
                            ;
                            0
                        }
                    },
                },
            };
            self.selected_model = Some(self.models[next].id.clone());
        } else if i < n {
            self.selected_model = Some(self.models[i].id.clone());
        }
    }

    /// Applies the outcome of asking the provider for its models (a
    /// connection test): the models, the error cleared, and the first model
    /// selected when none was; or the error "Connection test failed: ...".
    pub fn connection_tested(&mut self, result: Result<Vec<Model>, String>)
        ensures
            match result {
                Ok(ms) => {
                    &&& final(self).models@ == ms@
                    &&& final(self).error is None
                    &&& old(self).selected_model is None && ms@.len() > 0 ==> opt_text(final(self).selected_model) == Some(ms@[0].id@)
                    &&& !(old(self).selected_model is None && ms@.len() > 0) ==> opt_text(final(self).selected_model) == opt_text(old(self).selected_model)
                    &&& same_except(*final(self), App { models: final(self).models, selected_model: final(self).selected_model, ..*old(self) }, false, false, false, true, false)
                },
                Err(e) => {
                    &&& same_except(*final(self), *old(self), false, false, false, true, false)
                    &&& opt_text(final(self).error) == Some("Connection test failed: "@ + e@)
                },
            },
    {
        match result {
            Ok(models) => {
                if self.selected_model.is_none() && models.len() > 0 {
                    self.selected_model = Some(models[0].id.clone());
                }
                self.models = models;
                self.error = None;
            },
            Err(e) => {
                self.error = error_with("Connection test failed: ", e.as_str());
            },
        }
    }

    fn move_selection(&mut self, down: bool)
        requires
            old(self).sidebar_focus,
        ensures
            unchanged(*final(self), App { sidebar_selection: moved_selection(*old(self), down), ..*old(self) }),
    {
        if down {
            let n = self.conversations.len();
            if n > 0 && self.sidebar_selection < n - 1 {
                self.sidebar_selection = self.sidebar_selection + 1;
            }
        } else if self.sidebar_selection > 0 {
            self.sidebar_selection = self.sidebar_selection - 1;
        }
    }

    fn position_of_conversation(&self, id: u128) -> (r: Option<usize>)
        ensures
            match r {
                Some(p) => find_conversation(self.conversations@, id, 0) == Some(p as int),
                None => find_conversation(self.conversations@, id, 0) is None,
            },
    {
        let mut j: usize = 0;
        while j < self.conversations.len()
            invariant
                j <= self.conversations@.len(),
                find_conversation(self.conversations@, id, 0) == find_conversation(self.conversations@, id, j as int),
            decreases self.conversations@.len() - j,
        {
            if self.conversations[j].id == id {
                return Some(j);
            }
            j = j + 1;
        }
        None
    }

    /// Switches the keys between the input line and the conversation list
    /// (see `toggle_step`).
    pub fn toggle_focus(&mut self)
        ensures
            toggle_step(*old(self), *final(self)),
    {
        if self.sidebar_focus {
            self.sidebar_focus = false;
        } else {
            match self.active_conversation {
                Some(id) => match self.position_of_conversation(id) {
                    Some(p) => {
                        self.sidebar_selection = p;
                    },
                    None => {},
                },
                None => {},
            }
            self.sidebar_focus = true;
        }
    }

    /// Opens the highlighted conversation (see `open_step`).
    pub fn open_selected(&mut self) -> (r: Vec<Effect>)
        ensures
            open_step(*old(self), *final(self), r@),
    {
        let mut fx: Vec<Effect> = Vec::new();
        if self.sidebar_selection < self.conversations.len() {
            let id = self.conversations[self.sidebar_selection].id;
            if self.active_conversation == Some(id) {
                self.sidebar_focus = false;
            } else {
                self.active_conversation = Some(id);
                self.messages = Vec::new();
                self.sidebar_focus = false;
                fx.push(Effect::LoadMessages { conversation_id: id });
            }
        }
        fx
    }

    /// Applies the stored messages of a conversation: they replace the
    /// messages on screen while that conversation is still active; a failure
    /// shows "Failed to load messages: ...".
    pub fn messages_loaded(&mut self, conversation_id: u128, result: Result<Vec<Message>, String>)
        ensures
            match result {
                Ok(ms) => if old(self).active_conversation == Some(conversation_id) {
                    &&& same_except(*final(self), *old(self), true, false, false, false, false)
                    &&& message_views(final(self).messages@) == message_views(ms@)
                } else {
                    unchanged(*final(self), *old(self))
                },
                Err(e) => {
                    &&& same_except(*final(self), *old(self), false, false, false, true, false)
                    &&& opt_text(final(self).error) == Some("Failed to load messages: "@ + e@)
                },
            },
    {
        match result {
            Ok(ms) => {
                if self.active_conversation == Some(conversation_id) {
                    self.messages = ms;
                }
            },
            Err(e) => {
                self.error = error_with("Failed to load messages: ", e.as_str());
            },
        }
    }

    /// Handles what the user asked for (see `user_step`): quitting, editing
    /// the input line, sending, starting a conversation, cancelling,
    /// retrying, testing the connection and picking a model; other requests
    /// change nothing here.
    pub fn handle_user_event(&mut self, event: UserEvent, fresh: Fresh) -> (r: Vec<Effect>)
        ensures
            user_step(*old(self), *final(self), event, fresh, r@),
    {
        match event {
            UserEvent::ToggleFocus => {
                self.toggle_focus();
                Vec::new()
            },
            UserEvent::NavigateDown => {
                if self.sidebar_focus {
                    self.move_selection(true);
                }
                Vec::new()
            },
            UserEvent::NavigateUp => {
                if self.sidebar_focus {
                    self.move_selection(false);
                }
                Vec::new()
            },
            UserEvent::InputChar(c) => {
                if self.sidebar_focus {
                    if c == 'j' {
                        self.move_selection(true);
                    } else if c == 'k' {
                        self.move_selection(false);
                    } else if c == 'q' {
                        self.should_quit = true;
                    }
                } else {
                    crate::text::push_char(&mut self.input, c);
                }
                Vec::new()
            },
            UserEvent::Backspace => {
                if !self.sidebar_focus {
                    crate::text::pop_char(&mut self.input);
                }
                Vec::new()
            },
            UserEvent::SendMessage => {
                if self.sidebar_focus {
                    self.open_selected()
                } else {
                    self.send_message(fresh)
                }
            },
            UserEvent::Quit => {
                self.should_quit = true;
                Vec::new()
            },
            UserEvent::NewConversation => {
                let mut fx: Vec<Effect> = Vec::new();
                fx.push(self.new_conversation_effect(fresh, false));
                fx
            },
            UserEvent::CancelGeneration => self.cancel_generation(),
            UserEvent::Retry => self.retry_generation(fresh),
            UserEvent::TestConnection => {
                let mut fx: Vec<Effect> = Vec::new();
                fx.push(Effect::ListModels);
                fx
            },
            UserEvent::SelectModel(i) => {
                self.select_model(i);
                Vec::new()
            },
            _ => Vec::new(),
        }
    }
}


/// Handling a provider event: a stream start begins an empty answer under
/// its identifier; a delta for the answer in progress is appended to it
/// (deltas for other messages are ignored); a completed answer is to be
/// saved; a failure shows its error and ends the answer; a model listing
/// replaces the models; everything else changes nothing.
pub open spec fn provider_step(old: App, new: App, ev: ProviderEvent, fx: Seq<Effect>) -> bool {
    match ev {
        ProviderEvent::StreamStarted { message_id } => {
            &&& same_except(new, old, false, true, false, false, false)
            &&& streaming_view(new.streaming) == Some((message_id, Seq::<char>::empty()))
            &&& fx.len() == 0
        },
        ProviderEvent::Delta { message_id, text } => {
            &&& fx.len() == 0
            &&& match streaming_view(old.streaming) {
                Some((id, buf)) => if id == message_id {
                    &&& same_except(new, old, false, true, false, false, false)
                    &&& streaming_view(new.streaming) == Some((id, buf + text@))
                } else {
                    unchanged(new, old)
                },
                None => unchanged(new, old),
            }
        },
        ProviderEvent::Completed { message } => {
            &&& unchanged(new, old)
            &&& fx.len() == 1
            &&& (fx[0] matches Effect::SaveAssistantMessage { message: m } && m@ == message@)
        },
        ProviderEvent::Failed { message_id, error } => {
            &&& same_except(new, old, false, true, false, true, false)
            &&& new.streaming is None
            &&& opt_text(new.error) == Some(error@)
            &&& fx.len() == 0
        },
        ProviderEvent::ModelsLoaded(models) => {
            &&& new.models@ == models@
            &&& opt_text(new.selected_model) == opt_text(old.selected_model)
            &&& same_besides_models(new, old)
            &&& fx.len() == 0
        },
        _ => unchanged(new, old) && fx.len() == 0,
    }
}

impl App {
    /// Handles a provider event (see `provider_step`).
    pub fn handle_provider_event(&mut self, event: ProviderEvent) -> (r: Vec<Effect>)
        ensures
            provider_step(*old(self), *final(self), event, r@),
    {
        let mut fx: Vec<Effect> = Vec::new();
        match event {
            ProviderEvent::StreamStarted { message_id } => {
                self.streaming = Some(StreamingState { message_id, buffer: String::new() });
            },
            ProviderEvent::Delta { message_id, text } => {
                match &mut self.streaming {
                    Some(st) => {
                        if st.message_id == message_id {
                            st.buffer.append(text.as_str());
                        }
                    },
                    None => {},
                }
            },
            ProviderEvent::Completed { message } => {
                fx.push(Effect::SaveAssistantMessage { message });
            },
            ProviderEvent::Failed { message_id, error } => {
                self.error = Some(error);
                self.streaming = None;
            },
            ProviderEvent::ModelsLoaded(models) => {
                self.models = models;
            },
            _ => {},
        }
        fx
    }

    /// Handles any event (see `handle_user_event` and `handle_provider_event`).
    pub fn handle_event(&mut self, event: AppEvent, fresh: Fresh) -> (r: Vec<Effect>)
        ensures
            match event {
                AppEvent::Provider(p) => provider_step(*old(self), *final(self), p, r@),
                AppEvent::User(u) => user_step(*old(self), *final(self), u, fresh, r@),
            },
    {
        match event {
            AppEvent::User(u) => self.handle_user_event(u, fresh),
            AppEvent::Provider(p) => self.handle_provider_event(p),
        }
    }

    /// Applies the outcome of storing a completed answer: a failure shows
    /// "Failed to persist message: ..."; either way the answer is appended,
    /// streaming ends, and the active conversation is touched (see
    /// `conversations_after_answer`).
    pub fn on_assistant_saved(&mut self, message: Message, result: Result<(), String>, now: Timestamp)
        ensures
            message_views(final(self).messages@) == message_views(old(self).messages@).push(message@),
            final(self).streaming is None,
            conversations_after_answer(
                old(self).conversations@,
                final(self).conversations@,
                old(self).active_conversation,
                message_views(final(self).messages@),
                now,
            ),
            match result {
                Err(e) => opt_text(final(self).error) == Some("Failed to persist message: "@ + e@),
                Ok(_) => opt_text(final(self).error) == opt_text(old(self).error),
            },
            final(self).models@ == old(self).models@,
            opt_text(final(self).selected_model) == opt_text(old(self).selected_model),
            final(self).active_conversation == old(self).active_conversation,
            final(self).input@ == old(self).input@,
            final(self).should_quit == old(self).should_quit,
            final(self).provider_id == old(self).provider_id,
            final(self).sidebar_focus == old(self).sidebar_focus,
            final(self).sidebar_selection == old(self).sidebar_selection,
            final(self).context_policy == old(self).context_policy,
    {
        match result {
            Err(e) => {
                self.error = error_with("Failed to persist message: ", e.as_str());
            },
            Ok(()) => {},
        }
        let ghost before = message_views(self.messages@);
        self.messages.push(message);
        assert(message_views(self.messages@) =~= before.push(message@));
        self.streaming = None;
        self.touch_conversation(now);
    }

    fn touch_conversation(&mut self, now: Timestamp)
        ensures
            conversations_after_answer(
                old(self).conversations@,
                final(self).conversations@,
                old(self).active_conversation,
                message_views(old(self).messages@),
                now,
            ),
            final(self).models == old(self).models,
            final(self).selected_model == old(self).selected_model,
            final(self).active_conversation == old(self).active_conversation,
            final(self).messages == old(self).messages,
            final(self).streaming == old(self).streaming,
            final(self).input == old(self).input,
            final(self).should_quit == old(self).should_quit,
            final(self).error == old(self).error,
            final(self).provider_id == old(self).provider_id,
            final(self).sidebar_focus == old(self).sidebar_focus,
            final(self).sidebar_selection == old(self).sidebar_selection,
            final(self).context_policy == old(self).context_policy,
    {
        let cid = match self.active_conversation {
            None => return,
            Some(c) => c,
        };
        let mut j: usize = 0;
        while j < self.conversations.len() && self.conversations[j].id != cid
            invariant
                j <= self.conversations@.len(),
                find_conversation(self.conversations@, cid, j as int) == find_conversation(
                    self.conversations@,
                    cid,
                    0,
                ),
            decreases self.conversations@.len() - j,
        {
            j = j + 1;
        }
        if j >= self.conversations.len() {
            return;
        }
        let mut c = self.conversations[j].clone();
        c.updated_at = now;
        let ghost mv = message_views(self.messages@);
        if self.messages.len() == 2 && crate::text::str_eq(c.title.as_str(), "New Conversation") {
            let mut u: usize = 0;
            while u < self.messages.len() && self.messages[u].role != Role::User
                invariant
                    u <= self.messages@.len(),
                    mv == message_views(self.messages@),
                    find_user_message(mv, u as int) == find_user_message(mv, 0),
                decreases self.messages@.len() - u,
            {
                assert(mv[u as int] == self.messages@[u as int]@);
                u = u + 1;
            }
            if u < self.messages.len() {
                assert(mv[u as int] == self.messages@[u as int]@);
                c.title = crate::text::prefix_chars(self.messages[u].content.as_str(), DERIVED_TITLE_CHARS);
            }
        }
        let ghost old_convs = self.conversations@;
        self.conversations.set(j, c);
        assert(forall|k: int| 0 <= k < old_convs.len() && k != j ==> self.conversations@[k] == old_convs[k]);
    }
}

/// Handling a user event (see `App::handle_user_event`).
/// Handling a user event while the input line has the keys.
pub open spec fn input_step(old: App, new: App, ev: UserEvent, fresh: Fresh, fx: Seq<Effect>) -> bool {
    match ev {
        UserEvent::Quit => quit_step(old, new) && fx.len() == 0,
        UserEvent::InputChar(c) => new.input@ == old.input@.push(c)
            && same_except(new, old, false, false, true, false, false) && fx.len() == 0,
        UserEvent::Backspace => (old.input@.len() > 0 ==> new.input@ == old.input@.drop_last())
            && (old.input@.len() == 0 ==> new.input@ == old.input@)
            && same_except(new, old, false, false, true, false, false) && fx.len() == 0,
        UserEvent::SendMessage => send_step(old, new, fresh, fx),
        UserEvent::NewConversation => unchanged(new, old) && fx.len() == 1 && (
        fx[0] matches Effect::CreateConversation { conversation, then_send } && !then_send
            && is_new_conversation(
            conversation,
            fresh.id,
            old.provider_id,
            model_for_new_conversation(old.selected_model),
            fresh.now,
        )),
        UserEvent::CancelGeneration => unchanged(new, old) && cancel_effects(old, fx),
        UserEvent::Retry => retry_step(old, new, fresh, fx),
        UserEvent::TestConnection => unchanged(new, old) && fx.len() == 1 && fx[0] is ListModels,
        UserEvent::SelectModel(i) => {
            &&& opt_text(new.selected_model) == selected_after(old.models@, opt_text(old.selected_model), i)
            &&& new.models@ == old.models@
            &&& same_besides_models(new, old)
            &&& fx.len() == 0
        },
        _ => unchanged(new, old) && fx.len() == 0,
    }
}

/// The list position after moving down (`down`) or up by one: it stays on
/// the last and on the first conversation.
pub open spec fn moved_selection(old: App, down: bool) -> usize {
    if down {
        if old.sidebar_selection + 1 < old.conversations@.len() {
            (old.sidebar_selection + 1) as usize
        } else {
            old.sidebar_selection
        }
    } else {
        if old.sidebar_selection > 0 {
            (old.sidebar_selection - 1) as usize
        } else {
            0
        }
    }
}

/// Moving through the conversation list, which only the sidebar's focus allows.
pub open spec fn selection_step(old: App, new: App, down: bool) -> bool {
    if old.sidebar_focus {
        unchanged(new, App { sidebar_selection: moved_selection(old, down), ..old })
    } else {
        unchanged(new, old)
    }
}

/// Switching the keys between the input line and the conversation list;
/// entering the list highlights the active conversation when it is listed.
pub open spec fn toggle_step(old: App, new: App) -> bool {
    if old.sidebar_focus {
        unchanged(new, App { sidebar_focus: false, ..old })
    } else {
        let sel: usize = match old.active_conversation {
            Some(id) => match find_conversation(old.conversations@, id, 0) {
                Some(p) => p as usize,
                None => old.sidebar_selection,
            },
            None => old.sidebar_selection,
        };
        unchanged(new, App { sidebar_focus: true, sidebar_selection: sel, ..old })
    }
}

/// Opening the highlighted conversation: the keys return to the input line;
/// a conversation other than the active one becomes active with its
/// messages to be loaded. With nothing highlighted, nothing happens.
pub open spec fn open_step(old: App, new: App, fx: Seq<Effect>) -> bool {
    if old.sidebar_selection < old.conversations@.len() {
        let id = old.conversations@[old.sidebar_selection as int].id;
        if old.active_conversation == Some(id) {
            unchanged(new, App { sidebar_focus: false, ..old }) && fx.len() == 0
        } else {
            &&& same_except(new, App { sidebar_focus: false, active_conversation: Some(id), ..old }, true, false, false, false, false)
            &&& new.messages@.len() == 0
            &&& fx.len() == 1
            &&& (fx[0] matches Effect::LoadMessages { conversation_id } && conversation_id == id)
        }
    } else {
        unchanged(new, old) && fx.len() == 0
    }
}

/// Handling a user event. The focus key switches between the input line and
/// the conversation list, and the arrow keys move through the list. While
/// the list has the keys, `j` and `k` move, `q` quits, Enter opens the
/// highlighted conversation and other characters and Backspace do nothing;
/// everything else is handled as with the input line (see `input_step`).
pub open spec fn user_step(old: App, new: App, ev: UserEvent, fresh: Fresh, fx: Seq<Effect>) -> bool {
    match ev {
        UserEvent::ToggleFocus => toggle_step(old, new) && fx.len() == 0,
        UserEvent::NavigateDown => selection_step(old, new, true) && fx.len() == 0,
        UserEvent::NavigateUp => selection_step(old, new, false) && fx.len() == 0,
        UserEvent::InputChar(c) => if old.sidebar_focus {
            &&& fx.len() == 0
            &&& if c == 'j' {
                selection_step(old, new, true)
            } else if c == 'k' {
                selection_step(old, new, false)
            } else if c == 'q' {
                quit_step(old, new)
            } else {
                unchanged(new, old)
            }
        } else {
            input_step(old, new, ev, fresh, fx)
        },
        UserEvent::Backspace => if old.sidebar_focus {
            unchanged(new, old) && fx.len() == 0
        } else {
            input_step(old, new, ev, fresh, fx)
        },
        UserEvent::SendMessage => if old.sidebar_focus {
            open_step(old, new, fx)
        } else {
            input_step(old, new, ev, fresh, fx)
        },
        _ => input_step(old, new, ev, fresh, fx),
    }
}

/// The first model from position `k` on with the given identifier.
pub open spec fn model_position(models: Seq<Model>, id: Seq<char>, k: int) -> Option<int>
    decreases models.len() - k,
{
    if k < 0 || k >= models.len() {
        None
    } else if models[k].id@ == id {
        Some(k)
    } else {
        model_position(models, id, k + 1)
    }
}

proof fn lemma_model_position_range(models: Seq<Model>, id: Seq<char>, k: int)
    requires
        0 <= k,
    ensures
        model_position(models, id, k) matches Some(p) ==> k <= p < models.len() && models[p].id@ == id,
    decreases models.len() - k,
{
    if k < models.len() && models[k].id@ != id {
        lemma_model_position_range(models, id, k + 1);
    }
}

proof fn lemma_conversation_position_range(convs: Seq<Conversation>, id: u128, k: int)
    requires
        0 <= k,
    ensures
        find_conversation(convs, id, k) matches Some(j) ==> k <= j < convs.len() && convs[j].id == id,
    decreases convs.len() - k,
{
    if k < convs.len() && convs[k].id != id {
        lemma_conversation_position_range(convs, id, k + 1);
    }
}

/// The model selected after `SelectModel(i)`: the `i`-th model when there is
/// one; for `usize::MAX`, the model after the selected one, wrapping around
/// (the first model when none of them is selected); otherwise no change.
pub open spec fn selected_after(models: Seq<Model>, selected: Option<Seq<char>>, i: usize) -> Option<Seq<char>> {
    if i == usize::MAX {
        if models.len() == 0 {
            selected
        } else {
            match selected {
                None => Some(models[0].id@),
                Some(s) => match model_position(models, s, 0) {
                    None => Some(models[0].id@),
                    Some(p) => Some(models[(p + 1) % (models.len() as int)].id@),
                },
            }
        }
    } else if i < models.len() {
        Some(models[i as int].id@)
    } else {
        selected
    }
}

// ---------------------------------------------------------------------------
// Relaying a provider's stream
// ---------------------------------------------------------------------------

/// The answer message a relay completes with.
pub open spec fn is_answer(m: MessageView, id: u128, conversation_id: u128, content: Seq<char>, now: Timestamp) -> bool {
    is_plain_message(m, id, conversation_id, None, Role::Assistant, content, now)
}

/// Turns a provider's stream for one answer into provider events, keeping
/// the text received so far.
#[derive(Debug)]
pub struct StreamRelay {
    pub message_id: u128,
    pub conversation_id: u128,
    pub content: String,
}

/// What the relay does with one stream event.
#[derive(Debug)]
pub struct RelayStep {
    /// The event to pass on, if any.
    pub event: Option<ProviderEvent>,
    /// Whether the relay is done with this stream.
    pub finished: bool,
}

/// Relaying one stream event: text deltas (also kept), reasoning deltas and
/// usage are passed on under the answer's identifier; completion finishes
/// with the answer holding all text received; an error finishes with a
/// failure carrying its message; tool calls are not passed on.
pub open spec fn relay_step(
    old: StreamRelay,
    new: StreamRelay,
    event: Result<StreamEvent, LlmError>,
    now: Timestamp,
    r: RelayStep,
) -> bool {
    &&& new.message_id == old.message_id
    &&& new.conversation_id == old.conversation_id
    &&& match event {
        Ok(StreamEvent::Delta(t)) => {
            &&& new.content@ == old.content@ + t@
            &&& !r.finished
            &&& r.event matches Some(ProviderEvent::Delta { message_id, text })
                && message_id == old.message_id && text@ == t@
        },
        Ok(StreamEvent::ReasoningDelta(t)) => {
            &&& new.content@ == old.content@
            &&& !r.finished
            &&& r.event matches Some(ProviderEvent::ReasoningDelta { message_id, text })
                && message_id == old.message_id && text@ == t@
        },
        Ok(StreamEvent::Usage(u)) => {
            &&& new.content@ == old.content@
            &&& !r.finished
            &&& r.event matches Some(ProviderEvent::Usage { message_id, usage })
                && message_id == old.message_id && usage == u
        },
        Ok(StreamEvent::Completed) => {
            &&& new.content@ == old.content@
            &&& r.finished
            &&& r.event matches Some(ProviderEvent::Completed { message })
                && is_answer(message@, old.message_id, old.conversation_id, old.content@, now)
        },
        Ok(StreamEvent::ToolCall { .. }) => {
            &&& new.content@ == old.content@
            &&& !r.finished
            &&& r.event is None
        },
        Err(e) => {
            &&& new.content@ == old.content@
            &&& r.finished
            &&& r.event matches Some(ProviderEvent::Failed { message_id, error })
                && message_id == old.message_id && error@ == llm_error_text(e)
        },
    }
}

impl StreamRelay {
    /// A relay for the answer `message_id` in `conversation_id`.
    pub fn new(message_id: u128, conversation_id: u128) -> (r: Self)
        ensures
            r.message_id == message_id,
            r.conversation_id == conversation_id,
            r.content@.len() == 0,
    {
        StreamRelay { message_id, conversation_id, content: String::new() }
    }

    fn answer(&self, now: Timestamp) -> (r: Message)
        ensures
            is_answer(r@, self.message_id, self.conversation_id, self.content@, now),
    {
        Message {
            id: self.message_id,
            conversation_id: self.conversation_id,
            parent_id: None,
            role: Role::Assistant,
            content: self.content.clone(),
            reasoning_content: None,
            tool_calls: None,
            tool_call_id: None,
            images: None,
            metadata: crate::text::owned("{}"),
            created_at: now,
        }
    }

    /// Passes on one stream event (see `relay_step`).
    pub fn on_event(&mut self, event: Result<StreamEvent, LlmError>, now: Timestamp) -> (r: RelayStep)
        ensures
            relay_step(*old(self), *final(self), event, now, r),
    {
        match event {
            Ok(StreamEvent::Delta(t)) => {
                self.content.append(t.as_str());
                RelayStep {
                    event: Some(ProviderEvent::Delta { message_id: self.message_id, text: t }),
                    finished: false,
                }
            },
            Ok(StreamEvent::ReasoningDelta(t)) => RelayStep {
                event: Some(ProviderEvent::ReasoningDelta { message_id: self.message_id, text: t }),
                finished: false,
            },
            Ok(StreamEvent::Usage(u)) => RelayStep {
                event: Some(ProviderEvent::Usage { message_id: self.message_id, usage: u }),
                finished: false,
            },
            Ok(StreamEvent::Completed) => RelayStep {
                event: Some(ProviderEvent::Completed { message: self.answer(now) }),
                finished: true,
            },
            Ok(StreamEvent::ToolCall { .. }) => RelayStep { event: None, finished: false },
            Err(e) => RelayStep {
                event: Some(ProviderEvent::Failed { message_id: self.message_id, error: e.to_text() }),
                finished: true,
            },
        }
    }

    /// The stream closed without completing: the answer completes with the
    /// text received.
    pub fn on_closed(&self, now: Timestamp) -> (r: ProviderEvent)
        ensures
            r matches ProviderEvent::Completed { message } && is_answer(
                message@,
                self.message_id,
                self.conversation_id,
                self.content@,
                now,
            ),
    {
        ProviderEvent::Completed { message: self.answer(now) }
    }

    /// The stream could not be started: the answer fails with the error's message.
    pub fn on_start_failed(&self, error: &LlmError) -> (r: ProviderEvent)
        ensures
            r matches ProviderEvent::Failed { message_id, error: text } && message_id
                == self.message_id && text@ == llm_error_text(*error),
    {
        ProviderEvent::Failed { message_id: self.message_id, error: error.to_text() }
    }
}


// ---------------------------------------------------------------------------
// Laws
// ---------------------------------------------------------------------------

/// Law: typing a character and then deleting one gives back the input line
/// (while the input line has the keys).
pub proof fn lemma_type_then_backspace(
    s0: App,
    s1: App,
    s2: App,
    c: char,
    f1: Fresh,
    f2: Fresh,
    fx1: Seq<Effect>,
    fx2: Seq<Effect>,
)
    requires
        !s0.sidebar_focus,
        user_step(s0, s1, UserEvent::InputChar(c), f1, fx1),
        user_step(s1, s2, UserEvent::Backspace, f2, fx2),
    ensures
        s2.input@ == s0.input@,
        unchanged(s2, s0),
{
    assert(s1.input@.drop_last() =~= s0.input@);
}

/// The text of the deltas among `evs` that belong to message `id`, in order.
pub open spec fn delta_text(evs: Seq<ProviderEvent>, id: u128) -> Seq<char>
    decreases evs.len(),
{
    if evs.len() == 0 {
        Seq::empty()
    } else {
        delta_text(evs.drop_last(), id) + match evs.last() {
            ProviderEvent::Delta { message_id, text } => if message_id == id {
                text@
            } else {
                Seq::empty()
            },
            _ => Seq::empty(),
        }
    }
}

/// Each state of `states` follows from the one before by the event of the same position.
pub open spec fn is_run(states: Seq<App>, evs: Seq<ProviderEvent>, fxs: Seq<Seq<Effect>>) -> bool {
    &&& states.len() == evs.len() + 1
    &&& fxs.len() == evs.len()
    &&& forall|i: int| 0 <= i < evs.len() ==> #[trigger] provider_step(states[i], states[i + 1], evs[i], fxs[i])
}

/// Every event is a text delta.
pub open spec fn all_deltas(evs: Seq<ProviderEvent>) -> bool {
    forall|i: int| 0 <= i < evs.len() ==> #[trigger] evs[i] is Delta
}

/// Law: once a stream has started, the streamed answer is the concatenation,
/// in order, of the deltas received for it; deltas for other messages leave
/// it alone, and nothing else on screen changes.
pub proof fn lemma_deltas_accumulate(
    states: Seq<App>,
    evs: Seq<ProviderEvent>,
    fxs: Seq<Seq<Effect>>,
    id: u128,
)
    requires
        is_run(states, evs, fxs),
        all_deltas(evs),
        streaming_view(states[0].streaming) == Some((id, Seq::<char>::empty())),
    ensures
        streaming_view(states.last().streaming) == Some((id, delta_text(evs, id))),
        same_except(states.last(), states[0], false, true, false, false, false),
    decreases evs.len(),
{
    if evs.len() == 0 {
        assert(states.last() == states[0]);
    } else {
        let n = evs.len() - 1;
        let s2 = states.drop_last();
        let e2 = evs.drop_last();
        let f2 = fxs.drop_last();
        assert forall|i: int| 0 <= i < e2.len() implies #[trigger] provider_step(s2[i], s2[i + 1], e2[i], f2[i]) by {
            assert(provider_step(states[i], states[i + 1], evs[i], fxs[i]));
        }
        assert forall|i: int| 0 <= i < e2.len() implies #[trigger] e2[i] is Delta by {
            assert(evs[i] is Delta);
        }
        lemma_deltas_accumulate(s2, e2, f2, id);
        assert(s2.last() == states[n]);
        assert(provider_step(states[n], states[n + 1], evs[n], fxs[n]));
        assert(evs[n] is Delta);
        assert(states.last() == states[n + 1]);
        assert(e2 =~= evs.drop_last());
    }
}

/// Law: a conversation started by the user (a new conversation, or a
/// message sent while none is open) records the selected model, and the
/// model "default" only when none is selected; it is new, untitled, on the
/// state's provider, under the fresh identifier and time.
pub proof fn lemma_new_conversation_uses_selected_model(
    old: App,
    new: App,
    ev: UserEvent,
    fresh: Fresh,
    fx: Seq<Effect>,
)
    requires
        user_step(old, new, ev, fresh, fx),
        ev is NewConversation || (ev is SendMessage && !old.sidebar_focus
            && old.active_conversation is None && !is_blank(old.input@) && old.streaming is None),
    ensures
        fx.len() == 1,
        fx[0] matches Effect::CreateConversation { conversation, then_send } && {
            &&& (old.selected_model matches Some(m) ==> conversation.model_id@ == m@)
            &&& (old.selected_model is None ==> conversation.model_id@ == "default"@)
            &&& conversation.id == fresh.id
            &&& conversation.provider_id == old.provider_id
            &&& conversation.title@ == "New Conversation"@
            &&& conversation.created_at == fresh.now
            &&& then_send == (ev is SendMessage)
        },
{
}

/// Law: retrying in an open conversation drops the last message exactly
/// when the assistant wrote it, and keeps every other message; the answer
/// being retried is thus never part of what is asked again.
pub proof fn lemma_retry_drops_last_answer(old: App, new: App, fresh: Fresh, fx: Seq<Effect>)
    requires
        user_step(old, new, UserEvent::Retry, fresh, fx),
        old.active_conversation is Some,
    ensures
        ({
            let before = message_views(old.messages@);
            let after = message_views(new.messages@);
            &&& before.len() > 0 && before.last().role == Role::Assistant ==> after == before.take(
                before.len() - 1,
            )
            &&& !(before.len() > 0 && before.last().role == Role::Assistant) ==> after == before
            &&& new.streaming is Some <==> old.selected_model is Some
        }),
{
    let cid = old.active_conversation->0;
    let mid = choose|mid: App| #[trigger] retry_parts(old, mid, new, cid, fresh, fx);
    assert(retry_parts(old, mid, new, cid, fresh, fx));
    let before = message_views(old.messages@);
    if before.len() > 0 && before.last().role == Role::Assistant {
        assert(before.drop_last() =~= before.take(before.len() - 1));
    }
}

/// Law: a message is only sent from a non-blank input line while no answer
/// is streaming; otherwise sending does nothing at all.
pub proof fn lemma_send_needs_input_and_idle(old: App, new: App, fresh: Fresh, fx: Seq<Effect>)
    requires
        send_step(old, new, fresh, fx),
        is_blank(old.input@) || old.streaming is Some,
    ensures
        fx.len() == 0,
        unchanged(new, old),
{
}


/// The text of the deltas among some stream events, in order.
pub open spec fn stream_text(evs: Seq<Result<StreamEvent, LlmError>>) -> Seq<char>
    decreases evs.len(),
{
    if evs.len() == 0 {
        Seq::empty()
    } else {
        stream_text(evs.drop_last()) + match evs.last() {
            Ok(StreamEvent::Delta(t)) => t@,
            _ => Seq::empty(),
        }
    }
}

/// Each relay of `relays` follows from the one before by the event of the
/// same position, and no event before the last one finished the relay.
pub open spec fn is_relay_run(
    relays: Seq<StreamRelay>,
    evs: Seq<Result<StreamEvent, LlmError>>,
    nows: Seq<Timestamp>,
    steps: Seq<RelayStep>,
) -> bool {
    &&& relays.len() == evs.len() + 1
    &&& nows.len() == evs.len()
    &&& steps.len() == evs.len()
    &&& forall|i: int| 0 <= i < evs.len() ==> #[trigger] relay_step(relays[i], relays[i + 1], evs[i], nows[i], steps[i])
}

proof fn lemma_relay_content(
    relays: Seq<StreamRelay>,
    evs: Seq<Result<StreamEvent, LlmError>>,
    nows: Seq<Timestamp>,
    steps: Seq<RelayStep>,
    n: int,
)
    requires
        is_relay_run(relays, evs, nows, steps),
        0 <= n <= evs.len(),
    ensures
        relays[n].content@ == relays[0].content@ + stream_text(evs.take(n)),
        relays[n].message_id == relays[0].message_id,
        relays[n].conversation_id == relays[0].conversation_id,
    decreases n,
{
    if n == 0 {
        assert(evs.take(0) =~= Seq::<Result<StreamEvent, LlmError>>::empty());
        assert(relays[0].content@ + Seq::<char>::empty() =~= relays[0].content@);
    } else {
        let k = n - 1;
        lemma_relay_content(relays, evs, nows, steps, k);
        assert(relay_step(relays[k], relays[k + 1], evs[k], nows[k], steps[k]));
        assert(relays[k + 1] == relays[n]);
        assert(evs.take(n).drop_last() =~= evs.take(n - 1));
        assert(evs.take(n).last() == evs[n - 1]);
        match evs[n - 1] {
            Ok(StreamEvent::Delta(t)) => {
                assert(relays[n].content@ =~= relays[0].content@ + stream_text(evs.take(n)));
            },
            _ => {
                assert(relays[n].content@ =~= relays[0].content@ + stream_text(evs.take(n)));
            },
        }
    }
}

/// Law: the answer a relay completes holds, in order, the text of every
/// delta the stream sent, under the relay's message and conversation.
pub proof fn lemma_answer_holds_all_deltas(
    relays: Seq<StreamRelay>,
    evs: Seq<Result<StreamEvent, LlmError>>,
    nows: Seq<Timestamp>,
    steps: Seq<RelayStep>,
)
    requires
        is_relay_run(relays, evs, nows, steps),
        relays[0].content@.len() == 0,
        evs.len() > 0,
        evs.last() matches Ok(StreamEvent::Completed),
    ensures
        steps.last().finished,
        steps.last().event matches Some(ProviderEvent::Completed { message }) && message.content@
            == stream_text(evs) && message.id == relays[0].message_id && message.conversation_id
            == relays[0].conversation_id && message.role == Role::Assistant,
{
    let n = evs.len() - 1;
    lemma_relay_content(relays, evs, nows, steps, n);
    assert(relay_step(relays[n], relays[n + 1], evs[n], nows[n], steps[n]));
    assert(evs.drop_last() =~= evs.take(n));
    assert(relays[0].content@ + stream_text(evs.take(n)) =~= stream_text(evs.take(n)));
    assert(stream_text(evs) =~= stream_text(evs.take(n)) + Seq::<char>::empty());
}


/// Law: the text sent in an open conversation is what the model is asked:
/// once the message is stored, the answer's request, for the selected model,
/// holds the context built from the earlier messages followed by that text
/// (with the conversation's system prompt, the model's context length and the
/// policy), whose last message is that text whenever it fits into the
/// allowance on its own; and the input line is empty.
pub proof fn lemma_sent_text_is_requested(
    s0: App,
    s1: App,
    s2: App,
    f1: Fresh,
    f2: Fresh,
    fx1: Seq<Effect>,
    fx2: Seq<Effect>,
    m: Message,
)
    requires
        send_step(s0, s1, f1, fx1),
        !is_blank(s0.input@),
        s0.streaming is None,
        s0.active_conversation is Some,
        s0.selected_model is Some,
        fx1.len() > 0,
        fx1[0] matches Effect::SaveUserMessage { message } && message == m,
        user_saved_step(s1, s2, m, Ok(()), f2, fx2),
    ensures
        m@.content == s0.input@,
        Some(m.conversation_id) == s0.active_conversation,
        s2.input@.len() == 0,
        fx2.len() == 1,
        fx2[0] matches Effect::StartStream { request, message_id, conversation_id } && {
            let prompt = conversation_prompt(s0.conversations@, m.conversation_id);
            let length = model_context_length(s0.models@, request.model@);
            let sent = message_views(request.messages@);
            &&& opt_text(s0.selected_model) == Some(request.model@)
            &&& is_context(
                sent,
                prompt,
                message_views(s0.messages@).push(m@),
                length,
                s0.context_policy,
                f2.now,
            )
            &&& message_cost(m@) <= message_allowance(s0.context_policy, length, prompt)
                ==> sent.len() > 0 && sent.last() == m@
            &&& message_id == f2.id
            &&& Some(conversation_id) == s0.active_conversation
        },
{
    let mid = choose|mid: App| #[trigger] saved_then_started(s1, mid, s2, m, f2, fx2);
    assert(saved_then_started(s1, mid, s2, m, f2, fx2));
    if let Effect::StartStream { request, message_id, conversation_id } = fx2[0] {
        let prompt = conversation_prompt(s0.conversations@, m.conversation_id);
        let length = model_context_length(s0.models@, request.model@);
        let all = message_views(s0.messages@).push(m@);
        let limit = message_allowance(s0.context_policy, length, prompt);
        let sent = message_views(request.messages@);
        assert(message_views(mid.messages@) == all);
        assert(is_context(sent, prompt, all, length, s0.context_policy, f2.now));
        if message_cost(m@) <= limit {
            lemma_newest_message_kept(all, limit);
            let kept = kept_messages(all, prompt, length, s0.context_policy);
            assert(kept.len() > 0);
            assert(kept.last() == m@);
            match prompt {
                Some(p) => {
                    assert(sent.subrange(1, sent.len() as int) == kept);
                    assert(sent[sent.len() - 1] == sent.subrange(1, sent.len() as int)[sent.len()
                        - 2]);
                },
                None => {},
            }
            assert(sent.last() == m@);
        }
    }
}

} // verus!
