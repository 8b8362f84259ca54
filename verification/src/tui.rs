//! What the terminal screen shows and how keys become user events; drawing
//! itself is done by the terminal front end.
use vstd::prelude::*;
use crate::domain::{Message, MessageView, Model, Role, message_views};
use crate::events::UserEvent;
use crate::llm::sse::lines_from;

verus! {

/// A key as the terminal reports it.
#[derive(Debug, Clone, Copy)]
pub enum KeyInput {
    Char(char),
    Esc,
    Enter,
    Backspace,
    Tab,
    Up,
    Down,
    Other,
}

/// The user event a key press stands for, if any: Ctrl+C and Esc quit,
/// Enter sends, Ctrl+N starts a conversation, Alt+C cancels, Ctrl+R
/// retries, Ctrl+T tests the connection, Ctrl+M cycles the model, the digits
/// 1 to 9 pick a model, other characters are typed, Backspace deletes, Tab
/// switches between the input line and the conversation list, and the arrow
/// keys move through the list.
pub open spec fn key_event_spec(key: KeyInput, ctrl: bool, alt: bool) -> Option<UserEvent> {
    match key {
        KeyInput::Char(c) => if c == 'c' && ctrl {
            Some(UserEvent::Quit)
        } else if c == 'n' && ctrl {
            Some(UserEvent::NewConversation)
        } else if c == 'c' && alt {
            Some(UserEvent::CancelGeneration)
        } else if c == 'r' && ctrl {
            Some(UserEvent::Retry)
        } else if c == 't' && ctrl {
            Some(UserEvent::TestConnection)
        } else if c == 'm' && ctrl {
            Some(UserEvent::SelectModel(usize::MAX))
        } else if '1' <= c && c <= '9' {
            Some(UserEvent::SelectModel(((c as u32) - ('1' as u32)) as usize))
        } else {
            Some(UserEvent::InputChar(c))
        },
        KeyInput::Esc => Some(UserEvent::Quit),
        KeyInput::Enter => Some(UserEvent::SendMessage),
        KeyInput::Backspace => Some(UserEvent::Backspace),
        KeyInput::Tab => Some(UserEvent::ToggleFocus),
        KeyInput::Up => Some(UserEvent::NavigateUp),
        KeyInput::Down => Some(UserEvent::NavigateDown),
        KeyInput::Other => None,
    }
}

/// The user event a key press stands for (see `key_event_spec`).
pub fn key_event(key: KeyInput, ctrl: bool, alt: bool) -> (r: Option<UserEvent>)
    ensures
        r == key_event_spec(key, ctrl, alt),
{
    match key {
        KeyInput::Char(c) => {
            if c == 'c' && ctrl {
                Some(UserEvent::Quit)
            } else if c == 'n' && ctrl {
                Some(UserEvent::NewConversation)
            } else if c == 'c' && alt {
                Some(UserEvent::CancelGeneration)
            } else if c == 'r' && ctrl {
                Some(UserEvent::Retry)
            } else if c == 't' && ctrl {
                Some(UserEvent::TestConnection)
            } else if c == 'm' && ctrl {
                Some(UserEvent::SelectModel(usize::MAX))
            } else if '1' <= c && c <= '9' {
                Some(UserEvent::SelectModel(((c as u32) - ('1' as u32)) as usize))
            } else {
                Some(UserEvent::InputChar(c))
            }
        },
        KeyInput::Esc => Some(UserEvent::Quit),
        KeyInput::Enter => Some(UserEvent::SendMessage),
        KeyInput::Backspace => Some(UserEvent::Backspace),
        KeyInput::Tab => Some(UserEvent::ToggleFocus),
        KeyInput::Up => Some(UserEvent::NavigateUp),
        KeyInput::Down => Some(UserEvent::NavigateDown),
        KeyInput::Other => None,
    }
}

/// How a line of the chat transcript is drawn.
#[derive(Debug, Clone, Copy, PartialEq, Eq)]
pub enum LineStyle {
    /// The hint shown when there is nothing to show.
    Hint,
    /// The header above a message by the given role.
    Header(Role),
    /// Text as it is.
    Plain,
    /// The cursor after an answer being streamed.
    Cursor,
}

/// One line of the chat transcript.
#[derive(Debug)]
pub struct ChatLine {
    pub text: String,
    pub style: LineStyle,
}

/// The label of a role's messages.
pub open spec fn role_label(role: Role) -> Seq<char> {
    match role {
        Role::System => "system"@,
        Role::User => "you"@,
        Role::Assistant => "assistant"@,
        Role::Tool => "tool"@,
    }
}

/// The header above a role's messages: `── <label> ──`.
pub open spec fn header_text(role: Role) -> Seq<char> {
    "── "@ + role_label(role) + " ──"@
}

/// A line's value: text and style.
pub open spec fn line_view(l: ChatLine) -> (Seq<char>, LineStyle) {
    (l.text@, l.style)
}

/// The lines of a text, each drawn as it is.
pub open spec fn plain_lines(s: Seq<char>) -> Seq<(Seq<char>, LineStyle)> {
    lines_from(s, Seq::empty()).map_values(|l: Seq<char>| (l, LineStyle::Plain))
}

/// The transcript lines of one message: its header, its lines, a blank line.
pub open spec fn message_lines(m: MessageView) -> Seq<(Seq<char>, LineStyle)> {
    seq![(header_text(m.role), LineStyle::Header(m.role))] + plain_lines(m.content) + seq![
        (Seq::<char>::empty(), LineStyle::Plain),
    ]
}

/// The transcript lines of some messages, in order.
pub open spec fn messages_lines(ms: Seq<MessageView>) -> Seq<(Seq<char>, LineStyle)>
    decreases ms.len(),
{
    if ms.len() == 0 {
        Seq::empty()
    } else {
        messages_lines(ms.drop_last()) + message_lines(ms.last())
    }
}

/// The whole transcript: a hint when no conversation is open and there are
/// no messages, the messages, and the answer being streamed (when it has
/// text) under an assistant header and followed by the cursor.
pub open spec fn transcript_spec(
    has_conversation: bool,
    ms: Seq<MessageView>,
    streaming: Option<Seq<char>>,
) -> Seq<(Seq<char>, LineStyle)> {
    (if !has_conversation && ms.len() == 0 {
        seq![("No conversation. Press Ctrl+N to start one."@, LineStyle::Hint)]
    } else {
        Seq::empty()
    }) + messages_lines(ms) + match streaming {
        Some(b) => if b.len() > 0 {
            seq![(header_text(Role::Assistant), LineStyle::Header(Role::Assistant))] + plain_lines(b)
                + seq![("▍"@, LineStyle::Cursor)]
        } else {
            Seq::empty()
        },
        None => Seq::empty(),
    }
}

fn role_label_text(role: Role) -> (r: &'static str)
    ensures
        r@ == role_label(role),
{
    match role {
        Role::System => "system",
        Role::User => "you",
        Role::Assistant => "assistant",
        Role::Tool => "tool",
    }
}

fn push_text_lines(out: &mut Vec<ChatLine>, text: &str)
    ensures
        final(out)@.map_values(|l: ChatLine| line_view(l)) == old(out)@.map_values(
            |l: ChatLine| line_view(l),
        ) + plain_lines(text@),
{
    let cs = crate::text::chars_of(text);
    let ghost start = out@.map_values(|l: ChatLine| line_view(l));
    let mut cur: Vec<char> = Vec::new();
    let mut i: usize = 0;
    assert(cs@.skip(0) =~= cs@);
    while i < cs.len()
        invariant
            i <= cs@.len(),
            cs@ == text@,
            out@.map_values(|l: ChatLine| line_view(l)) + lines_from(cs@.skip(i as int), cur@).map_values(
                |l: Seq<char>| (l, LineStyle::Plain),
            ) == start + plain_lines(text@),
        decreases cs@.len() - i,
    {
        let c = cs[i];
        let ghost s = cs@.skip(i as int);
        assert(s[0] == c);
        assert(s.drop_first() =~= cs@.skip(i + 1));
        if c == '\n' {
            let mut line = cur;
            if line.len() > 0 && line[line.len() - 1] == '\r' {
                line.pop();
            }
            let ghost lv = line@;
            assert(lv == crate::llm::sse::strip_cr(cur@));
            let ghost before = out@.map_values(|l: ChatLine| line_view(l));
            let ghost rest = lines_from(cs@.skip(i + 1), Seq::empty());
            assert(lines_from(s, cur@) == seq![lv] + rest);
            out.push(ChatLine { text: crate::text::string_of(line.as_slice()), style: LineStyle::Plain });
            assert(out@.map_values(|l: ChatLine| line_view(l)) =~= before.push((lv, LineStyle::Plain)));
            assert((seq![lv] + rest).map_values(|l: Seq<char>| (l, LineStyle::Plain)) =~= seq![
                (lv, LineStyle::Plain),
            ] + rest.map_values(|l: Seq<char>| (l, LineStyle::Plain)));
            assert(before.push((lv, LineStyle::Plain)) + rest.map_values(|l: Seq<char>| (l, LineStyle::Plain))
                =~= before + seq![(lv, LineStyle::Plain)] + rest.map_values(
                |l: Seq<char>| (l, LineStyle::Plain),
            ));
            cur = Vec::new();
        } else {
            cur.push(c);
        }
        i = i + 1;
    }
    assert(cs@.skip(cs@.len() as int) =~= Seq::<char>::empty());
    if cur.len() > 0 {
        let ghost before = out@.map_values(|l: ChatLine| line_view(l));
        let ghost cv = cur@;
        out.push(ChatLine { text: crate::text::string_of(cur.as_slice()), style: LineStyle::Plain });
        assert(out@.map_values(|l: ChatLine| line_view(l)) =~= before.push((cv, LineStyle::Plain)));
        assert(seq![cv].map_values(|l: Seq<char>| (l, LineStyle::Plain)) =~= seq![(cv, LineStyle::Plain)]);
    } else {
        assert(lines_from(Seq::<char>::empty(), cur@) =~= Seq::<Seq<char>>::empty());
        assert(out@.map_values(|l: ChatLine| line_view(l)) + Seq::<(Seq<char>, LineStyle)>::empty()
            =~= out@.map_values(|l: ChatLine| line_view(l)));
    }
}

fn push_line(out: &mut Vec<ChatLine>, text: String, style: LineStyle)
    ensures
        final(out)@.map_values(|l: ChatLine| line_view(l)) == old(out)@.map_values(
            |l: ChatLine| line_view(l),
        ).push((text@, style)),
{
    let ghost before = out@.map_values(|l: ChatLine| line_view(l));
    out.push(ChatLine { text, style });
    assert(out@.map_values(|l: ChatLine| line_view(l)) =~= before.push((text@, style)));
}

/// The chat transcript (see `transcript_spec`).
pub fn transcript(has_conversation: bool, messages: &Vec<Message>, streaming: Option<&str>) -> (r: Vec<ChatLine>)
    ensures
        r@.map_values(|l: ChatLine| line_view(l)) == transcript_spec(
            has_conversation,
            message_views(messages@),
            match streaming {
                Some(s) => Some(s@),
                None => None,
            },
        ),
{
    let mut out: Vec<ChatLine> = Vec::new();
    if !has_conversation && messages.len() == 0 {
        push_line(&mut out, crate::text::owned("No conversation. Press Ctrl+N to start one."), LineStyle::Hint);
    }
    let ghost head = out@.map_values(|l: ChatLine| line_view(l));
    let ghost mv = message_views(messages@);
    let mut i: usize = 0;
    while i < messages.len()
        invariant
            i <= messages@.len(),
            mv == message_views(messages@),
            out@.map_values(|l: ChatLine| line_view(l)) == head + messages_lines(mv.take(i as int)),
        decreases messages@.len() - i,
    {
        let m = &messages[i];
        assert(mv.take(i + 1).drop_last() =~= mv.take(i as int));
        assert(mv.take(i + 1).last() == m@);
        let ghost before = out@.map_values(|l: ChatLine| line_view(l));
        push_line(&mut out, crate::text::join3("── ", role_label_text(m.role), " ──"), LineStyle::Header(m.role));
        push_text_lines(&mut out, m.content.as_str());
        push_line(&mut out, String::new(), LineStyle::Plain);
        assert(out@.map_values(|l: ChatLine| line_view(l)) =~= before + message_lines(m@));
        i = i + 1;
    }
    assert(mv.take(mv.len() as int) =~= mv);
    let ghost mid = out@.map_values(|l: ChatLine| line_view(l));
    match streaming {
        Some(b) => {
            if !b.is_empty() {
                push_line(&mut out, crate::text::join3("── ", "assistant", " ──"), LineStyle::Header(Role::Assistant));
                push_text_lines(&mut out, b);
                push_line(&mut out, crate::text::owned("▍"), LineStyle::Cursor);
                assert(out@.map_values(|l: ChatLine| line_view(l)) =~= mid + (seq![
                    (header_text(Role::Assistant), LineStyle::Header(Role::Assistant)),
                ] + plain_lines(b@) + seq![("▍"@, LineStyle::Cursor)]));
            } else {
                assert(mid + Seq::<(Seq<char>, LineStyle)>::empty() =~= mid);
            }
        },
        None => {
            assert(mid + Seq::<(Seq<char>, LineStyle)>::empty() =~= mid);
        },
    }
    out
}

/// The decimal digits of a number.
pub open spec fn decimal(n: nat) -> Seq<char>
    decreases n,
{
    if n < 10 {
        seq![digit(n)]
    } else {
        decimal(n / 10).push(digit(n % 10))
    }
}

/// The character of a decimal digit.
pub open spec fn digit(d: nat) -> char {
    if d == 0 { '0' } else if d == 1 { '1' } else if d == 2 { '2' } else if d == 3 { '3' }
    else if d == 4 { '4' } else if d == 5 { '5' } else if d == 6 { '6' } else if d == 7 { '7' }
    else if d == 8 { '8' } else { '9' }
}

fn digit_char(d: usize) -> (r: char)
    requires
        d < 10,
    ensures
        r == digit(d as nat),
{
    if d == 0 { '0' } else if d == 1 { '1' } else if d == 2 { '2' } else if d == 3 { '3' }
    else if d == 4 { '4' } else if d == 5 { '5' } else if d == 6 { '6' } else if d == 7 { '7' }
    else if d == 8 { '8' } else { '9' }
}

pub(crate) fn push_decimal(out: &mut Vec<char>, n: usize)
    ensures
        final(out)@ == old(out)@ + decimal(n as nat),
    decreases n,
{
    if n >= 10 {
        push_decimal(out, n / 10);
    }
    out.push(digit_char(n % 10));
    assert(n < 10 ==> n % 10 == n);
}

/// The model list of the help line: `[1]=<id> [2]=<id> ...`.
pub open spec fn model_list(models: Seq<Model>) -> Seq<char>
    decreases models.len(),
{
    if models.len() == 0 {
        Seq::empty()
    } else if models.len() == 1 {
        "["@ + decimal(1) + "]="@ + models[0].id@
    } else {
        model_list(models.drop_last()) + " "@ + "["@ + decimal(models.len() as nat) + "]="@ + models.last().id@
    }
}

/// The help line above the input, ending with the model list.
pub open spec fn help_text_spec(models: Seq<Model>) -> Seq<char> {
    " Enter=send | Ctrl+N=new | Ctrl+T=test | Ctrl+M=cycle model | 1-9=pick | Alt+C=cancel | Ctrl+R=retry | Esc=quit | "@
        + model_list(models) + " "@
}

/// The help line above the input (see `help_text_spec`).
pub fn help_text(models: &Vec<Model>) -> (r: String)
    requires
        models@.len() < usize::MAX,
    ensures
        r@ == help_text_spec(models@),
{
    let mut list: Vec<char> = Vec::new();
    let mut i: usize = 0;
    while i < models.len()
        invariant
            i <= models@.len(),
            models@.len() < usize::MAX,
            list@ == model_list(models@.take(i as int)),
        decreases models@.len() - i,
    {
        assert(models@.take(i + 1).drop_last() =~= models@.take(i as int));
        assert(models@.take(i + 1).last() == models@[i as int]);
        let ghost before = list@;
        if i > 0 {
            list.push(' ');
        }
        list.push('[');
        push_decimal(&mut list, i + 1);
        list.push(']');
        list.push('=');
        let id = crate::text::chars_of(models[i].id.as_str());
        let mut k: usize = 0;
        let ghost mid = list@;
        while k < id.len()
            invariant
                k <= id@.len(),
                list@ == mid + id@.take(k as int),
            decreases id@.len() - k,
        {
            list.push(id[k]);
            assert(id@.take(k + 1) =~= id@.take(k as int).push(id@[k as int]));
            k = k + 1;
        }
        assert(id@.take(id@.len() as int) =~= id@);
        proof {
            reveal_strlit("[");
            reveal_strlit("]=");
            reveal_strlit(" ");
            if i == 0 {
                assert(models@.take(1)[0] == models@[0]);
                assert(list@ =~= "["@ + decimal(1) + "]="@ + models@[0].id@);
            } else {
                assert(list@ =~= before + " "@ + "["@ + decimal((i + 1) as nat) + "]="@ + models@[i as int].id@);
            }
        }
        i = i + 1;
    }
    assert(models@.take(models@.len() as int) =~= models@);
    let l = crate::text::string_of(list.as_slice());
    crate::text::join3(
        " Enter=send | Ctrl+N=new | Ctrl+T=test | Ctrl+M=cycle model | 1-9=pick | Alt+C=cancel | Ctrl+R=retry | Esc=quit | ",
        l.as_str(),
        " ",
    )
}

/// The model shown in the status bar: the selected one, or a dash.
pub fn status_model(selected: &Option<String>) -> (r: String)
    ensures
        match selected {
            Some(m) => r@ == m@,
            None => r@ == "—"@,
        },
{
    match selected {
        Some(m) => m.clone(),
        None => crate::text::owned("—"),
    }
}

/// The error part of the status bar: ` | ERR: ` and the message, cut to its
/// first 40 bytes. (Cutting inside a character is not accepted.)
pub fn status_error(e: &str) -> (r: String)
    requires
        crate::context::byte_len(e@) > 40 ==> vstd::utf8::is_char_boundary(vstd::utf8::encode_utf8(e@), 40),
    ensures
        crate::context::byte_len(e@) <= 40 ==> r@ == " | ERR: "@ + e@,
        crate::context::byte_len(e@) > 40 ==> exists|head: Seq<char>| {
            &&& #[trigger] vstd::utf8::encode_utf8(head) == vstd::utf8::encode_utf8(e@).take(40)
            &&& r@ == " | ERR: "@ + head
        },
{
    if e.len() > 40 {
        let (head, _tail) = e.split_at(40);
        assert(vstd::utf8::encode_utf8(head@) == vstd::utf8::encode_utf8(e@).take(40));
        crate::text::join2(" | ERR: ", head)
    } else {
        crate::text::join2(" | ERR: ", e)
    }
}

} // verus!
