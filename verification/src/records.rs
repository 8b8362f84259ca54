//! Stored rows: how providers, conversations, messages, models and prompts
//! are written to and read back from the SQLite tables. Identifiers are
//! stored as hyphenated UUID text, times as RFC 3339 text, lists of strings
//! as JSON arrays.
use vstd::prelude::*;
use crate::domain::{
    Conversation, Message, MessageView, Model, Prompt, Provider, ProviderProtocol, Timestamp,
    opt_str,
};
use crate::persistence::role_db_spec;

verus! {

// ---------------------------------------------------------------------------
// Identifiers, times and JSON, through their crates
// ---------------------------------------------------------------------------

/// What `uuid::Uuid::parse_str` makes of a text: the UUID's value, or the
/// message of its error.
pub uninterp spec fn uuid_parse(s: Seq<char>) -> Result<u128, Seq<char>>;

/// A lowercase hexadecimal digit.
pub open spec fn hex_digit(d: nat) -> char {
    if d < 10 {
        (48 + d) as char
    } else {
        (87 + d) as char
    }
}

/// The last `n` hexadecimal digits of a number, most significant first.
pub open spec fn hex_digits(v: nat, n: nat) -> Seq<char>
    decreases n,
{
    if n == 0 {
        Seq::empty()
    } else {
        hex_digits(v / 16, (n - 1) as nat).push(hex_digit(v % 16))
    }
}

/// The hyphenated text `uuid::Uuid` displays for a value: its 32 lowercase
/// hexadecimal digits in groups of 8, 4, 4, 4 and 12, joined by `-`.
pub open spec fn uuid_text(id: u128) -> Seq<char> {
    let h = hex_digits(id as nat, 32);
    h.subrange(0, 8) + seq!['-'] + h.subrange(8, 12) + seq!['-'] + h.subrange(12, 16) + seq!['-']
        + h.subrange(16, 20) + seq!['-'] + h.subrange(20, 32)
}

/// What `chrono::DateTime::parse_from_rfc3339` makes of a text: the time in
/// seconds since the Unix epoch with the nanoseconds within the second, or
/// the message of its error.
pub uninterp spec fn time_parse(s: Seq<char>) -> Result<Timestamp, Seq<char>>;

/// The RFC 3339 text `chrono` writes for a time in seconds and nanoseconds since the
/// Unix epoch; `None` for a time outside the range `chrono` represents.
pub uninterp spec fn time_text(t: Timestamp) -> Option<Seq<char>>;

/// Whether a text is a JSON document (`serde_json` parses it as a `Value`).
pub uninterp spec fn json_valid(s: Seq<char>) -> bool;

/// The strings of a JSON array of strings; `None` for any other text.
pub uninterp spec fn json_string_list(s: Seq<char>) -> Option<Seq<Seq<char>>>;

/// The JSON array text `serde_json` writes for some strings.
pub uninterp spec fn string_list_json(v: Seq<Seq<char>>) -> Seq<char>;

/// The value of a parse outcome.
pub open spec fn parsed<T>(r: Result<T, String>) -> Result<T, Seq<char>> {
    match r {
        Ok(v) => Ok(v),
        Err(e) => Err(e@),
    }
}

/// A successful read of a value.
pub open spec fn read_back<T>(v: T) -> Result<T, Seq<char>> {
    Ok(v)
}

/// The texts of some strings.
pub open spec fn texts_of(v: Seq<String>) -> Seq<Seq<char>> {
    v.map_values(|s: String| s@)
}

/// Parses a UUID (`uuid::Uuid::parse_str`, then `as_u128`); the error is
/// passed on by its message. Both are named.
#[verifier::external_body]
pub(crate) fn parse_uuid(s: &str) -> (r: Result<u128, String>)
    ensures
        parsed(r) == uuid_parse(s@),
{
    uuid::Uuid::parse_str(s).map(|u| u.as_u128()).map_err(|e| e.to_string())
}

/// The hyphenated text of a UUID (`uuid::Uuid::from_u128`, which takes the
/// value's bytes most significant first, then `to_string`, which writes them
/// as lowercase hexadecimal in groups; see `uuid_text`). The crate documents
/// that `parse_str` reads every format it writes, so the text parses back to
/// the same value.
#[verifier::external_body]
pub(crate) fn uuid_string(id: u128) -> (r: String)
    ensures
        r@ == uuid_text(id),
        uuid_parse(r@) == read_back(id),
{
    uuid::Uuid::from_u128(id).to_string()
}

/// Parses an RFC 3339 time (`chrono::DateTime::parse_from_rfc3339`, then
/// `timestamp` and `timestamp_subsec_nanos`); the error is passed on by its
/// message. Both are named.
#[verifier::external_body]
pub(crate) fn parse_time(s: &str) -> (r: Result<Timestamp, String>)
    ensures
        parsed(r) == time_parse(s@),
{
    chrono::DateTime::parse_from_rfc3339(s)
        .map(|t| Timestamp { secs: t.timestamp(), nanos: t.timestamp_subsec_nanos() })
        .map_err(|e| e.to_string())
}

/// The RFC 3339 text of a time (`chrono::DateTime::from_timestamp`, then
/// `to_rfc3339`); `None` where `chrono` has no such time. The text is named.
#[verifier::external_body]
pub(crate) fn time_string(t: Timestamp) -> (r: Option<String>)
    ensures
        opt_str(r) == time_text(t),
{
    chrono::DateTime::from_timestamp(t.secs, t.nanos).map(|d| d.to_rfc3339())
}

/// Whether a text is JSON (`serde_json::from_str::<serde_json::Value>` succeeds).
#[verifier::external_body]
pub(crate) fn is_json(s: &str) -> (r: bool)
    ensures
        r == json_valid(s@),
{
    serde_json::from_str::<serde_json::Value>(s).is_ok()
}

/// Reads a JSON array of strings (`serde_json::from_str::<Vec<String>>`).
#[verifier::external_body]
pub(crate) fn parse_string_list(s: &str) -> (r: Option<Vec<String>>)
    ensures
        match r {
            Some(v) => json_string_list(s@) == Some(texts_of(v@)),
            None => json_string_list(s@) is None,
        },
{
    serde_json::from_str::<Vec<String>>(s).ok()
}

/// Writes strings as a JSON array (`serde_json::to_string`, which cannot
/// fail on strings). `serde_json` reads back what it writes.
#[verifier::external_body]
pub(crate) fn string_list_to_json(v: &Vec<String>) -> (r: String)
    ensures
        r@ == string_list_json(texts_of(v@)),
        json_string_list(r@) == Some(texts_of(v@)),
{
    match serde_json::to_string(v) {
        Ok(s) => s,
        Err(_) => String::new(),
    }
}

/// The stored form of an identifier: its hyphenated UUID text, which reads
/// back as the identifier.
pub fn stored_id(id: u128) -> (r: String)
    ensures
        r@ == uuid_text(id),
        uuid_parse(r@) == read_back(id),
{
    uuid_string(id)
}

/// The stored form of a time: its RFC 3339 text, when there is one.
pub fn stored_time(t: Timestamp) -> (r: Option<String>)
    ensures
        opt_str(r) == time_text(t),
{
    time_string(t)
}

/// Reads a stored identifier (see `uuid_parse`).
pub fn read_id(s: &str) -> (r: Result<u128, String>)
    ensures
        parsed(r) == uuid_parse(s@),
{
    parse_uuid(s)
}

/// Reads a stored time (see `time_parse`).
pub fn read_time(s: &str) -> (r: Result<Timestamp, String>)
    ensures
        parsed(r) == time_parse(s@),
{
    parse_time(s)
}

fn opt_uuid_string(id: Option<u128>) -> (r: Option<String>)
    ensures
        opt_str(r) == opt_uuid_text(id),
        parent_parse(opt_str(r)) == Ok::<Option<u128>, Seq<char>>(id),
{
    match id {
        Some(i) => Some(uuid_string(i)),
        None => None,
    }
}

/// The text of an optional identifier.
pub open spec fn opt_uuid_text(id: Option<u128>) -> Option<Seq<char>> {
    match id {
        Some(i) => Some(uuid_text(i)),
        None => None,
    }
}

// ---------------------------------------------------------------------------
// Messages
// ---------------------------------------------------------------------------

/// A row of the `messages` table.
#[derive(Debug)]
pub struct MessageRow {
    pub id: String,
    pub conversation_id: String,
    pub parent_id: Option<String>,
    pub role: String,
    pub content: String,
    pub reasoning_content: Option<String>,
    pub metadata_json: String,
    pub created_at: String,
}

/// `row` stores `m`: identifiers and time as text; tool calls and images
/// are not stored.
pub open spec fn stores_message(row: MessageRow, m: MessageView) -> bool {
    &&& row.id@ == uuid_text(m.id)
    &&& row.conversation_id@ == uuid_text(m.conversation_id)
    &&& opt_str(row.parent_id) == opt_uuid_text(m.parent_id)
    &&& row.role@ == role_db_spec(m.role)
    &&& row.content@ == m.content
    &&& opt_str(row.reasoning_content) == m.reasoning_content
    &&& row.metadata_json@ == m.metadata
    &&& time_text(m.created_at) == Some(row.created_at@)
}

/// A message as it reads back from storage: without tool calls and images.
pub open spec fn stored_part(m: MessageView) -> MessageView {
    MessageView { tool_calls: None, tool_call_id: None, images: None, ..m }
}

/// The row that stores a message, or `None` when its time has no RFC 3339
/// text. The row reads back as the message without its tool calls and
/// images (which are not stored), provided its metadata is JSON and its
/// time text reads back as its time.
pub fn message_to_row(m: &Message) -> (r: Option<MessageRow>)
    ensures
        match r {
            Some(row) => {
                &&& stores_message(row, m@)
                &&& json_valid(m.metadata@) && time_parse(row.created_at@) == Ok::<Timestamp, Seq<char>>(m.created_at)
                    ==> message_from_row(row) == Ok::<MessageView, Seq<char>>(stored_part(m@))
            },
            None => time_text(m.created_at) is None,
        },
{
    let created_at = match time_string(m.created_at) {
        Some(t) => t,
        None => return None,
    };
    let row = MessageRow {
        id: uuid_string(m.id),
        conversation_id: uuid_string(m.conversation_id),
        parent_id: opt_uuid_string(m.parent_id),
        role: crate::text::owned(crate::persistence::role_to_db(m.role)),
        content: m.content.clone(),
        reasoning_content: m.reasoning_content.clone(),
        metadata_json: m.metadata.clone(),
        created_at,
    };
    proof {
        lemma_role_parse_of_db(m.role);
    }
    Some(row)
}

proof fn lemma_role_parse_of_db(role: crate::domain::Role)
    ensures
        role_parse(role_db_spec(role)) == Ok::<crate::domain::Role, Seq<char>>(role),
{
    crate::persistence::lemma_role_round_trip(role, crate::domain::Role::System);
    crate::persistence::lemma_role_round_trip(role, crate::domain::Role::User);
    crate::persistence::lemma_role_round_trip(role, crate::domain::Role::Assistant);
    crate::persistence::lemma_role_round_trip(role, crate::domain::Role::Tool);
}

/// The role stored as a text, or the error "unknown role: <text>".
pub open spec fn role_parse(s: Seq<char>) -> Result<crate::domain::Role, Seq<char>> {
    if s == role_db_spec(crate::domain::Role::System) {
        Ok(crate::domain::Role::System)
    } else if s == role_db_spec(crate::domain::Role::User) {
        Ok(crate::domain::Role::User)
    } else if s == role_db_spec(crate::domain::Role::Assistant) {
        Ok(crate::domain::Role::Assistant)
    } else if s == role_db_spec(crate::domain::Role::Tool) {
        Ok(crate::domain::Role::Tool)
    } else {
        Err("unknown role: "@ + s)
    }
}

/// Stored metadata: the text when it is JSON, else an empty object.
pub open spec fn metadata_of(s: Seq<char>) -> Seq<char> {
    if json_valid(s) {
        s
    } else {
        "{}"@
    }
}

/// The message a row holds, or the first error met reading it: the role,
/// then the identifier, the conversation, the parent and the time.
pub open spec fn message_from_row(row: MessageRow) -> Result<MessageView, Seq<char>> {
    match role_parse(row.role@) {
        Err(e) => Err(e),
        Ok(role) => match uuid_parse(row.id@) {
            Err(e) => Err(e),
            Ok(id) => match uuid_parse(row.conversation_id@) {
                Err(e) => Err(e),
                Ok(cid) => match parent_parse(opt_str(row.parent_id)) {
                    Err(e) => Err(e),
                    Ok(parent) => match time_parse(row.created_at@) {
                        Err(e) => Err(e),
                        Ok(t) => Ok(
                            MessageView {
                                id,
                                conversation_id: cid,
                                parent_id: parent,
                                role,
                                content: row.content@,
                                reasoning_content: opt_str(row.reasoning_content),
                                tool_calls: None,
                                tool_call_id: None,
                                images: None,
                                metadata: metadata_of(row.metadata_json@),
                                created_at: t,
                            },
                        ),
                    },
                },
            },
        },
    }
}

/// An optional stored identifier.
pub open spec fn parent_parse(s: Option<Seq<char>>) -> Result<Option<u128>, Seq<char>> {
    match s {
        None => Ok(None),
        Some(t) => match uuid_parse(t) {
            Ok(id) => Ok(Some(id)),
            Err(e) => Err(e),
        },
    }
}

fn parse_opt_uuid(s: &Option<String>) -> (r: Result<Option<u128>, String>)
    ensures
        parsed(r) == parent_parse(opt_str(*s)),
{
    match s {
        None => Ok(None),
        Some(t) => match parse_uuid(t.as_str()) {
            Ok(id) => Ok(Some(id)),
            Err(e) => Err(e),
        },
    }
}

fn parse_role(s: &str) -> (r: Result<crate::domain::Role, String>)
    ensures
        parsed(r) == role_parse(s@),
{
    match crate::persistence::role_from_db(s) {
        Ok(role) => {
            proof {
                lemma_role_parse_of_db(role);
            }
            Ok(role)
        },
        Err(e) => Err(e),
    }
}

fn metadata_text(s: &str) -> (r: String)
    ensures
        r@ == metadata_of(s@),
{
    if is_json(s) {
        crate::text::owned(s)
    } else {
        crate::text::owned("{}")
    }
}

/// Reads a message from its row (see `message_from_row`).
pub fn row_to_message(row: &MessageRow) -> (r: Result<Message, String>)
    ensures
        match r {
            Ok(m) => message_from_row(*row) == Ok::<MessageView, Seq<char>>(m@),
            Err(e) => message_from_row(*row) == Err::<MessageView, Seq<char>>(e@),
        },
{
    let role = match parse_role(row.role.as_str()) {
        Ok(r) => r,
        Err(e) => return Err(e),
    };
    let id = match parse_uuid(row.id.as_str()) {
        Ok(v) => v,
        Err(e) => return Err(e),
    };
    let conversation_id = match parse_uuid(row.conversation_id.as_str()) {
        Ok(v) => v,
        Err(e) => return Err(e),
    };
    let parent_id = match parse_opt_uuid(&row.parent_id) {
        Ok(v) => v,
        Err(e) => return Err(e),
    };
    let created_at = match parse_time(row.created_at.as_str()) {
        Ok(v) => v,
        Err(e) => return Err(e),
    };
    Ok(
        Message {
            id,
            conversation_id,
            parent_id,
            role,
            content: row.content.clone(),
            reasoning_content: row.reasoning_content.clone(),
            tool_calls: None,
            tool_call_id: None,
            images: None,
            metadata: metadata_text(row.metadata_json.as_str()),
            created_at,
        },
    )
}


// ---------------------------------------------------------------------------
// Conversations
// ---------------------------------------------------------------------------

/// A row of the `conversations` table.
#[derive(Debug)]
pub struct ConversationRow {
    pub id: String,
    pub title: String,
    pub provider_id: String,
    pub model_id: String,
    pub system_prompt: Option<String>,
    pub created_at: String,
    pub updated_at: String,
    pub archived_at: Option<String>,
}

/// The text of an optional time, when every time has one.
pub open spec fn opt_time_text(t: Option<Timestamp>) -> Option<Option<Seq<char>>> {
    match t {
        None => Some(None),
        Some(t) => match time_text(t) {
            Some(x) => Some(Some(x)),
            None => None,
        },
    }
}

/// An optional stored time.
pub open spec fn opt_time_parse(s: Option<Seq<char>>) -> Result<Option<Timestamp>, Seq<char>> {
    match s {
        None => Ok(None),
        Some(t) => match time_parse(t) {
            Ok(t) => Ok(Some(t)),
            Err(e) => Err(e),
        },
    }
}

fn opt_time_string(t: Option<Timestamp>) -> (r: Option<Option<String>>)
    ensures
        match r {
            Some(x) => opt_time_text(t) == Some(opt_str(x)),
            None => opt_time_text(t) is None,
        },
{
    match t {
        None => Some(None),
        Some(t) => match time_string(t) {
            Some(x) => Some(Some(x)),
            None => None,
        },
    }
}

fn parse_opt_time(s: &Option<String>) -> (r: Result<Option<Timestamp>, String>)
    ensures
        parsed(r) == opt_time_parse(opt_str(*s)),
{
    match s {
        None => Ok(None),
        Some(t) => match parse_time(t.as_str()) {
            Ok(t) => Ok(Some(t)),
            Err(e) => Err(e),
        },
    }
}

/// `row` stores `c`: identifiers and times as text.
pub open spec fn stores_conversation(row: ConversationRow, c: Conversation) -> bool {
    &&& row.id@ == uuid_text(c.id)
    &&& row.title@ == c.title@
    &&& row.provider_id@ == uuid_text(c.provider_id)
    &&& row.model_id@ == c.model_id@
    &&& opt_str(row.system_prompt) == opt_str(c.system_prompt)
    &&& time_text(c.created_at) == Some(row.created_at@)
    &&& time_text(c.updated_at) == Some(row.updated_at@)
    &&& opt_time_text(c.archived_at) == Some(opt_str(row.archived_at))
}

/// The identifiers and times a conversation row holds, or the first error
/// met reading them: the identifier, the provider, then the creation, update
/// and archiving times.
pub open spec fn conversation_read(row: ConversationRow) -> Result<(u128, u128, Timestamp, Timestamp, Option<Timestamp>), Seq<char>> {
    match uuid_parse(row.id@) {
        Err(e) => Err(e),
        Ok(id) => match uuid_parse(row.provider_id@) {
            Err(e) => Err(e),
            Ok(pid) => match time_parse(row.created_at@) {
                Err(e) => Err(e),
                Ok(c) => match time_parse(row.updated_at@) {
                    Err(e) => Err(e),
                    Ok(u) => match opt_time_parse(opt_str(row.archived_at)) {
                        Err(e) => Err(e),
                        Ok(a) => Ok((id, pid, c, u, a)),
                    },
                },
            },
        },
    }
}

/// The row that stores a conversation, or `None` when one of its times has
/// no RFC 3339 text. Its identifiers read back as themselves, and so does
/// the whole conversation when its time texts read back as its times.
pub fn conversation_to_row(c: &Conversation) -> (r: Option<ConversationRow>)
    ensures
        match r {
            Some(row) => {
                &&& stores_conversation(row, *c)
                &&& time_parse(row.created_at@) == read_back(c.created_at)
                    && time_parse(row.updated_at@) == read_back(c.updated_at)
                    && opt_time_parse(opt_str(row.archived_at)) == read_back(c.archived_at)
                    ==> conversation_read(row) == read_back((c.id, c.provider_id, c.created_at, c.updated_at, c.archived_at))
            },
            None => {
                ||| time_text(c.created_at) is None
                ||| time_text(c.updated_at) is None
                ||| opt_time_text(c.archived_at) is None
            },
        },
{
    let created_at = match time_string(c.created_at) {
        Some(t) => t,
        None => return None,
    };
    let updated_at = match time_string(c.updated_at) {
        Some(t) => t,
        None => return None,
    };
    let archived_at = match opt_time_string(c.archived_at) {
        Some(t) => t,
        None => return None,
    };
    Some(
        ConversationRow {
            id: uuid_string(c.id),
            title: c.title.clone(),
            provider_id: uuid_string(c.provider_id),
            model_id: c.model_id.clone(),
            system_prompt: c.system_prompt.clone(),
            created_at,
            updated_at,
            archived_at,
        },
    )
}

/// Reads a conversation from its row (see `conversation_read`); the texts
/// are taken as they are.
pub fn row_to_conversation(row: &ConversationRow) -> (r: Result<Conversation, String>)
    ensures
        match r {
            Ok(c) => {
                &&& conversation_read(*row) == read_back((c.id, c.provider_id, c.created_at, c.updated_at, c.archived_at))
                &&& c.title@ == row.title@
                &&& c.model_id@ == row.model_id@
                &&& opt_str(c.system_prompt) == opt_str(row.system_prompt)
            },
            Err(e) => conversation_read(*row) == Err::<(u128, u128, Timestamp, Timestamp, Option<Timestamp>), Seq<char>>(e@),
        },
{
    let id = match parse_uuid(row.id.as_str()) {
        Ok(v) => v,
        Err(e) => return Err(e),
    };
    let provider_id = match parse_uuid(row.provider_id.as_str()) {
        Ok(v) => v,
        Err(e) => return Err(e),
    };
    let created_at = match parse_time(row.created_at.as_str()) {
        Ok(v) => v,
        Err(e) => return Err(e),
    };
    let updated_at = match parse_time(row.updated_at.as_str()) {
        Ok(v) => v,
        Err(e) => return Err(e),
    };
    let archived_at = match parse_opt_time(&row.archived_at) {
        Ok(v) => v,
        Err(e) => return Err(e),
    };
    Ok(
        Conversation {
            id,
            title: row.title.clone(),
            provider_id,
            model_id: row.model_id.clone(),
            system_prompt: row.system_prompt.clone(),
            created_at,
            updated_at,
            archived_at,
        },
    )
}

// ---------------------------------------------------------------------------
// Providers
// ---------------------------------------------------------------------------

/// A row of the `providers` table.
#[derive(Debug)]
pub struct ProviderRow {
    pub id: String,
    pub name: String,
    pub base_url: String,
    pub protocol: String,
    pub api_key_ref: Option<String>,
    pub default_model: Option<String>,
    pub created_at: String,
    pub updated_at: String,
}

/// `row` stores `p`.
pub open spec fn stores_provider(row: ProviderRow, p: Provider) -> bool {
    &&& row.id@ == uuid_text(p.id)
    &&& row.name@ == p.name@
    &&& row.base_url@ == p.base_url@
    &&& row.protocol@ == "openai_compatible"@
    &&& opt_str(row.api_key_ref) == opt_str(p.api_key_ref)
    &&& opt_str(row.default_model) == opt_str(p.default_model)
    &&& time_text(p.created_at) == Some(row.created_at@)
    &&& time_text(p.updated_at) == Some(row.updated_at@)
}

/// The identifier and times a provider row holds, or the first error met
/// reading them. The stored protocol is not consulted: there is only one.
pub open spec fn provider_read(row: ProviderRow) -> Result<(u128, Timestamp, Timestamp), Seq<char>> {
    match uuid_parse(row.id@) {
        Err(e) => Err(e),
        Ok(id) => match time_parse(row.created_at@) {
            Err(e) => Err(e),
            Ok(c) => match time_parse(row.updated_at@) {
                Err(e) => Err(e),
                Ok(u) => Ok((id, c, u)),
            },
        },
    }
}

/// The row that stores a provider, or `None` when one of its times has no
/// RFC 3339 text.
pub fn provider_to_row(p: &Provider) -> (r: Option<ProviderRow>)
    ensures
        match r {
            Some(row) => {
                &&& stores_provider(row, *p)
                &&& time_parse(row.created_at@) == read_back(p.created_at)
                    && time_parse(row.updated_at@) == read_back(p.updated_at)
                    ==> provider_read(row) == read_back((p.id, p.created_at, p.updated_at))
            },
            None => time_text(p.created_at) is None || time_text(p.updated_at) is None,
        },
{
    let created_at = match time_string(p.created_at) {
        Some(t) => t,
        None => return None,
    };
    let updated_at = match time_string(p.updated_at) {
        Some(t) => t,
        None => return None,
    };
    Some(
        ProviderRow {
            id: uuid_string(p.id),
            name: p.name.clone(),
            base_url: p.base_url.clone(),
            protocol: crate::text::owned(crate::persistence::protocol_to_db(p.protocol)),
            api_key_ref: p.api_key_ref.clone(),
            default_model: p.default_model.clone(),
            created_at,
            updated_at,
        },
    )
}

/// Reads a provider from its row (see `provider_read`).
pub fn row_to_provider(row: &ProviderRow) -> (r: Result<Provider, String>)
    ensures
        match r {
            Ok(p) => {
                &&& provider_read(*row) == read_back((p.id, p.created_at, p.updated_at))
                &&& p.name@ == row.name@
                &&& p.base_url@ == row.base_url@
                &&& p.protocol == ProviderProtocol::OpenAiCompatible
                &&& opt_str(p.api_key_ref) == opt_str(row.api_key_ref)
                &&& opt_str(p.default_model) == opt_str(row.default_model)
            },
            Err(e) => provider_read(*row) == Err::<(u128, Timestamp, Timestamp), Seq<char>>(e@),
        },
{
    let protocol = crate::persistence::protocol_from_db(row.protocol.as_str());
    let id = match parse_uuid(row.id.as_str()) {
        Ok(v) => v,
        Err(e) => return Err(e),
    };
    let created_at = match parse_time(row.created_at.as_str()) {
        Ok(v) => v,
        Err(e) => return Err(e),
    };
    let updated_at = match parse_time(row.updated_at.as_str()) {
        Ok(v) => v,
        Err(e) => return Err(e),
    };
    Ok(
        Provider {
            id,
            name: row.name.clone(),
            base_url: row.base_url.clone(),
            protocol,
            api_key_ref: row.api_key_ref.clone(),
            default_model: row.default_model.clone(),
            created_at,
            updated_at,
        },
    )
}

// ---------------------------------------------------------------------------
// Models
// ---------------------------------------------------------------------------

/// A row of the `models` table (without its provider and bookkeeping times).
#[derive(Debug)]
pub struct ModelRow {
    pub model_id: String,
    pub display_name: Option<String>,
    pub context_length: Option<i64>,
    pub metadata_json: String,
}

/// The row that stores a model; the context length is stored as a signed
/// 64-bit number (`as i64`).
pub fn model_to_row(m: &Model) -> (r: ModelRow)
    ensures
        r.model_id@ == m.id@,
        opt_str(r.display_name) == opt_str(m.display_name),
        r.context_length == (match m.context_length {
            Some(v) => Some(v as i64),
            None => None,
        }),
        r.metadata_json@ == m.metadata@,
{
    let context_length = match m.context_length {
        Some(v) => Some(#[verifier::truncate] (v as i64)),
        None => None,
    };
    ModelRow {
        model_id: m.id.clone(),
        display_name: m.display_name.clone(),
        context_length,
        metadata_json: m.metadata.clone(),
    }
}

/// Reads a model from its row: the context length back as unsigned
/// (`as u64`), the metadata when it is JSON (else an empty object).
pub fn row_to_model(row: &ModelRow) -> (r: Model)
    ensures
        r.id@ == row.model_id@,
        opt_str(r.display_name) == opt_str(row.display_name),
        r.context_length == (match row.context_length {
            Some(v) => Some(v as u64),
            None => None,
        }),
        r.metadata@ == metadata_of(row.metadata_json@),
{
    let context_length = match row.context_length {
        Some(v) => Some(#[verifier::truncate] (v as u64)),
        None => None,
    };
    Model {
        id: row.model_id.clone(),
        display_name: row.display_name.clone(),
        context_length,
        metadata: metadata_text(row.metadata_json.as_str()),
    }
}

// ---------------------------------------------------------------------------
// Prompts
// ---------------------------------------------------------------------------

/// A row of the `prompts` table.
#[derive(Debug)]
pub struct PromptRow {
    pub id: String,
    pub name: String,
    pub description: Option<String>,
    pub content: String,
    pub system_prompt: Option<String>,
    pub tags_json: String,
    pub variables_json: String,
    pub created_at: String,
    pub updated_at: String,
}

/// `row` stores `p`: lists as JSON arrays, identifier and times as text.
pub open spec fn stores_prompt(row: PromptRow, p: Prompt) -> bool {
    &&& row.id@ == uuid_text(p.id)
    &&& row.name@ == p.name@
    &&& opt_str(row.description) == opt_str(p.description)
    &&& row.content@ == p.content@
    &&& opt_str(row.system_prompt) == opt_str(p.system_prompt)
    &&& row.tags_json@ == string_list_json(texts_of(p.tags@))
    &&& row.variables_json@ == string_list_json(texts_of(p.variables@))
    &&& time_text(p.created_at) == Some(row.created_at@)
    &&& time_text(p.updated_at) == Some(row.updated_at@)
}

/// A stored list of strings: the array's strings, or none when it is not one.
pub open spec fn list_of(s: Seq<char>) -> Seq<Seq<char>> {
    match json_string_list(s) {
        Some(v) => v,
        None => Seq::empty(),
    }
}

/// The identifier and times a prompt row holds, or the first error met
/// reading them.
pub open spec fn prompt_read(row: PromptRow) -> Result<(u128, Timestamp, Timestamp), Seq<char>> {
    match uuid_parse(row.id@) {
        Err(e) => Err(e),
        Ok(id) => match time_parse(row.created_at@) {
            Err(e) => Err(e),
            Ok(c) => match time_parse(row.updated_at@) {
                Err(e) => Err(e),
                Ok(u) => Ok((id, c, u)),
            },
        },
    }
}

/// The row that stores a prompt, or `None` when one of its times has no
/// RFC 3339 text. Its lists read back as themselves.
pub fn prompt_to_row(p: &Prompt) -> (r: Option<PromptRow>)
    ensures
        match r {
            Some(row) => {
                &&& stores_prompt(row, *p)
                &&& list_of(row.tags_json@) == texts_of(p.tags@)
                &&& list_of(row.variables_json@) == texts_of(p.variables@)
                &&& time_parse(row.created_at@) == read_back(p.created_at)
                    && time_parse(row.updated_at@) == read_back(p.updated_at)
                    ==> prompt_read(row) == read_back((p.id, p.created_at, p.updated_at))
            },
            None => time_text(p.created_at) is None || time_text(p.updated_at) is None,
        },
{
    let created_at = match time_string(p.created_at) {
        Some(t) => t,
        None => return None,
    };
    let updated_at = match time_string(p.updated_at) {
        Some(t) => t,
        None => return None,
    };
    Some(
        PromptRow {
            id: uuid_string(p.id),
            name: p.name.clone(),
            description: p.description.clone(),
            content: p.content.clone(),
            system_prompt: p.system_prompt.clone(),
            tags_json: string_list_to_json(&p.tags),
            variables_json: string_list_to_json(&p.variables),
            created_at,
            updated_at,
        },
    )
}

fn read_list(s: &str) -> (r: Vec<String>)
    ensures
        texts_of(r@) == list_of(s@),
{
    match parse_string_list(s) {
        Some(v) => v,
        None => {
            let v: Vec<String> = Vec::new();
            assert(texts_of(v@) =~= Seq::<Seq<char>>::empty());
            v
        },
    }
}

/// Reads a prompt from its row (see `prompt_read`); a list that is not a
/// JSON array of strings reads as empty.
pub fn row_to_prompt(row: &PromptRow) -> (r: Result<Prompt, String>)
    ensures
        match r {
            Ok(p) => {
                &&& prompt_read(*row) == read_back((p.id, p.created_at, p.updated_at))
                &&& p.name@ == row.name@
                &&& opt_str(p.description) == opt_str(row.description)
                &&& p.content@ == row.content@
                &&& opt_str(p.system_prompt) == opt_str(row.system_prompt)
                &&& texts_of(p.tags@) == list_of(row.tags_json@)
                &&& texts_of(p.variables@) == list_of(row.variables_json@)
            },
            Err(e) => prompt_read(*row) == Err::<(u128, Timestamp, Timestamp), Seq<char>>(e@),
        },
{
    let tags = read_list(row.tags_json.as_str());
    let variables = read_list(row.variables_json.as_str());
    let id = match parse_uuid(row.id.as_str()) {
        Ok(v) => v,
        Err(e) => return Err(e),
    };
    let created_at = match parse_time(row.created_at.as_str()) {
        Ok(v) => v,
        Err(e) => return Err(e),
    };
    let updated_at = match parse_time(row.updated_at.as_str()) {
        Ok(v) => v,
        Err(e) => return Err(e),
    };
    Ok(
        Prompt {
            id,
            name: row.name.clone(),
            description: row.description.clone(),
            content: row.content.clone(),
            system_prompt: row.system_prompt.clone(),
            tags,
            variables,
            created_at,
            updated_at,
        },
    )
}

} // verus!
