//! The events that drive the application: what the user does and what the
//! provider reports.
use vstd::prelude::*;
use crate::domain::{Capabilities, GenerationUsage, Message, Model};

verus! {

/// Something the user asked for.
#[derive(Debug)]
pub enum UserEvent {
    Quit,
    InputChar(char),
    Backspace,
    SendMessage,
    NewConversation,
    CancelGeneration,
    Retry,
    TestConnection,
    SelectModel(usize),
    OpenCommandPalette,
    NavigateUp,
    NavigateDown,
    OpenSelected,
    ToggleFocus,
    StartRename,
    StartDelete,
    ConfirmAction,
    CancelModal,
    OpenHelp,
    OpenPromptPicker,
    OpenPromptList,
    OpenSearch,
    SearchNavigateUp,
    SearchNavigateDown,
    SearchOpenResult,
    PromptNew,
    PromptEditSelected(usize),
    PromptDeleteConfirm,
    PromptFieldNext,
    PromptFieldPrev,
}

/// Something a provider reported, tagged with the message being generated.
#[derive(Debug)]
pub enum ProviderEvent {
    ModelsLoaded(Vec<Model>),
    CapabilitiesLoaded(Capabilities),
    StreamStarted { message_id: u128 },
    Delta { message_id: u128, text: String },
    ReasoningDelta { message_id: u128, text: String },
    Usage { message_id: u128, usage: GenerationUsage },
    Completed { message: Message },
    Failed { message_id: u128, error: String },
}

/// Any event of the application.
#[derive(Debug)]
pub enum AppEvent {
    User(UserEvent),
    Provider(ProviderEvent),
}

} // verus!
