//! Context engineering: estimating tokens and choosing which messages of a
//! conversation fit into the model's context window.
use vstd::prelude::*;
use crate::domain::{Message, MessageView, Role, Timestamp, message_views};

verus! {

/// Characters (bytes of UTF-8) per estimated token.
pub const CHARS_PER_TOKEN: usize = 4;

/// Tokens added for every message on top of its content.
pub const MESSAGE_OVERHEAD_TOKENS: usize = 4;

/// Tokens kept free for the response when nothing else is configured.
pub const DEFAULT_RESERVE_TOKENS: usize = 1024;

/// Context window assumed when neither the policy nor the model gives one.
pub const DEFAULT_BUDGET_TOKENS: usize = 8192;

/// Number of UTF-8 bytes of a text, as `str::len` reports it.
pub open spec fn byte_len(s: Seq<char>) -> usize {
    vstd::utf8::encode_utf8(s).len() as usize
}

/// Estimated tokens of a text of `n` bytes: one token per four bytes, rounded up.
pub open spec fn tokens_for_len(n: usize) -> nat {
    ((n + 3) / 4) as nat
}

/// Estimated tokens of a text.
pub open spec fn text_tokens(s: Seq<char>) -> nat {
    tokens_for_len(byte_len(s))
}

/// Estimated tokens of a message: its content plus the per-message overhead.
pub open spec fn message_cost(m: MessageView) -> nat {
    text_tokens(m.content) + 4
}

/// Estimated tokens of the system prompt, if any.
pub open spec fn system_cost(p: Option<Seq<char>>) -> nat {
    match p {
        Some(s) => text_tokens(s) + 4,
        None => 0,
    }
}

/// Estimated tokens of a list of messages.
pub open spec fn seq_cost(s: Seq<MessageView>) -> nat
    decreases s.len(),
{
    if s.len() == 0 {
        0
    } else {
        seq_cost(s.drop_last()) + message_cost(s.last())
    }
}

/// Index of the oldest message kept when walking back from the newest one
/// and stopping at the first message that no longer fits into `limit`.
pub open spec fn kept_from(s: Seq<MessageView>, limit: nat) -> int
    decreases s.len(),
{
    if s.len() == 0 {
        0
    } else if message_cost(s.last()) > limit {
        s.len() as int
    } else {
        kept_from(s.drop_last(), (limit - message_cost(s.last())) as nat)
    }
}

/// How many tokens a context may use and what it keeps free for the response.
#[derive(Debug)]
pub struct ContextPolicy {
    pub max_tokens: Option<usize>,
    pub reserve_for_response: usize,
}

impl Clone for ContextPolicy {
    fn clone(&self) -> (r: Self)
        ensures
            r == *self,
    {
        ContextPolicy { max_tokens: self.max_tokens, reserve_for_response: self.reserve_for_response }
    }
}

impl Default for ContextPolicy {
    fn default() -> (r: Self)
        ensures
            r.max_tokens is None,
            r.reserve_for_response == DEFAULT_RESERVE_TOKENS,
    {
        ContextPolicy { max_tokens: None, reserve_for_response: DEFAULT_RESERVE_TOKENS }
    }
}

/// The context window: the policy's limit, else the model's, else the default.
pub open spec fn context_budget(policy: ContextPolicy, model_context_length: Option<u64>) -> usize {
    match policy.max_tokens {
        Some(m) => m,
        None => match model_context_length {
            Some(c) => c as usize,
            None => DEFAULT_BUDGET_TOKENS,
        },
    }
}

/// `a - b`, or 0 when `b` is larger.
pub open spec fn sat_sub(a: nat, b: nat) -> nat {
    if a >= b {
        (a - b) as nat
    } else {
        0
    }
}

/// Tokens left for conversation messages once the response reserve and the
/// system prompt are taken out of the budget.
pub open spec fn message_allowance(
    policy: ContextPolicy,
    model_context_length: Option<u64>,
    system_prompt: Option<Seq<char>>,
) -> nat {
    sat_sub(
        sat_sub(context_budget(policy, model_context_length) as nat, policy.reserve_for_response as nat),
        system_cost(system_prompt),
    )
}

/// The system message that opens a context.
pub open spec fn is_system_message(m: MessageView, prompt: Seq<char>, now: Timestamp) -> bool {
    &&& m.id == 0
    &&& m.conversation_id == 0
    &&& m.parent_id is None
    &&& m.role == Role::System
    &&& m.content == prompt
    &&& m.reasoning_content is None
    &&& m.tool_calls is None
    &&& m.tool_call_id is None
    &&& m.images is None
    &&& m.metadata == "{}"@
    &&& m.created_at == now
}

/// The text of an optional prompt.
pub open spec fn opt_prompt(p: Option<&str>) -> Option<Seq<char>> {
    match p {
        Some(s) => Some(s@),
        None => None,
    }
}

/// The newest messages that fit: those from `kept_from` on, with the
/// allowance left after the response reserve and the system prompt.
pub open spec fn kept_messages(
    messages: Seq<MessageView>,
    system_prompt: Option<Seq<char>>,
    model_context_length: Option<u64>,
    policy: ContextPolicy,
) -> Seq<MessageView> {
    let k = kept_from(messages, message_allowance(policy, model_context_length, system_prompt));
    messages.subrange(k, messages.len() as int)
}

/// `r` is the context of the given messages: the system message stamped
/// `now` (when there is a prompt) followed by the kept messages.
pub open spec fn is_context(
    r: Seq<MessageView>,
    system_prompt: Option<Seq<char>>,
    messages: Seq<MessageView>,
    model_context_length: Option<u64>,
    policy: ContextPolicy,
    now: Timestamp,
) -> bool {
    let kept = kept_messages(messages, system_prompt, model_context_length, policy);
    match system_prompt {
        Some(s) => {
            &&& r.len() == kept.len() + 1
            &&& is_system_message(r[0], s, now)
            &&& r.subrange(1, r.len() as int) == kept
        },
        None => r == kept,
    }
}

/// Estimated tokens of a text: its UTF-8 length divided by four, rounded up.
pub fn token_estimate(text: &str) -> (r: usize)
    ensures
        r == text_tokens(text@),
        r <= usize::MAX / 4 + 1,
{
    let n = text.len();
    let q = n / CHARS_PER_TOKEN;
    if n % CHARS_PER_TOKEN == 0 {
        q
    } else {
        q + 1
    }
}

/// Estimated tokens of a message: its content plus four.
pub fn message_tokens(msg: &Message) -> (r: usize)
    ensures
        r == message_cost(msg@),
{
    token_estimate(msg.content.as_str()) + MESSAGE_OVERHEAD_TOKENS
}

/// Estimated tokens of an optional system prompt (0 when absent).
fn system_tokens(system_prompt: Option<&str>) -> (r: usize)
    ensures
        r == system_cost(
            match system_prompt {
                Some(s) => Some(s@),
                None => None,
            },
        ),
{
    match system_prompt {
        Some(s) => token_estimate(s) + MESSAGE_OVERHEAD_TOKENS,
        None => 0,
    }
}

proof fn lemma_kept_from_bounds(s: Seq<MessageView>, limit: nat)
    ensures
        0 <= kept_from(s, limit) <= s.len(),
    decreases s.len(),
{
    if s.len() > 0 && message_cost(s.last()) <= limit {
        lemma_kept_from_bounds(s.drop_last(), (limit - message_cost(s.last())) as nat);
    }
}

/// Law: the newest message is always kept when it fits into the allowance
/// on its own.
pub proof fn lemma_newest_message_kept(s: Seq<MessageView>, limit: nat)
    requires
        s.len() > 0,
        message_cost(s.last()) <= limit,
    ensures
        0 <= kept_from(s, limit) < s.len(),
        s.subrange(kept_from(s, limit), s.len() as int).last() == s.last(),
{
    lemma_kept_from_bounds(s.drop_last(), (limit - message_cost(s.last())) as nat);
}

/// A smaller limit never keeps more messages.
proof fn lemma_kept_from_antitone(s: Seq<MessageView>, small: nat, large: nat)
    requires
        small <= large,
    ensures
        kept_from(s, large) <= kept_from(s, small),
    decreases s.len(),
{
    lemma_kept_from_bounds(s, large);
    lemma_kept_from_bounds(s, small);
    if s.len() > 0 {
        let c = message_cost(s.last());
        if c <= small {
            lemma_kept_from_antitone(s.drop_last(), (small - c) as nat, (large - c) as nat);
        }
    }
}

/// Law: a policy with no larger budget and no smaller response reserve
/// never yields a longer context, and the messages it keeps are the newest
/// of those the other policy keeps.
pub proof fn lemma_context_monotone(
    tight: ContextPolicy,
    loose: ContextPolicy,
    model_context_length: Option<u64>,
    system_prompt: Option<Seq<char>>,
    messages: Seq<MessageView>,
    r1: Seq<MessageView>,
    now1: Timestamp,
    r2: Seq<MessageView>,
    now2: Timestamp,
)
    requires
        tight.reserve_for_response >= loose.reserve_for_response,
        context_budget(tight, model_context_length) <= context_budget(loose, model_context_length),
        is_context(r1, system_prompt, messages, model_context_length, tight, now1),
        is_context(r2, system_prompt, messages, model_context_length, loose, now2),
    ensures
        r1.len() <= r2.len(),
        ({
            let k1 = kept_messages(messages, system_prompt, model_context_length, tight);
            let k2 = kept_messages(messages, system_prompt, model_context_length, loose);
            k2.subrange(k2.len() - k1.len(), k2.len() as int) == k1
        }),
{
    let a1 = message_allowance(tight, model_context_length, system_prompt);
    let a2 = message_allowance(loose, model_context_length, system_prompt);
    assert(a1 <= a2);
    lemma_kept_from_antitone(messages, a1, a2);
    lemma_kept_from_bounds(messages, a1);
    lemma_kept_from_bounds(messages, a2);
    let k1 = kept_messages(messages, system_prompt, model_context_length, tight);
    let k2 = kept_messages(messages, system_prompt, model_context_length, loose);
    assert(k2.subrange(k2.len() - k1.len(), k2.len() as int) =~= k1);
}

/// Law: the kept messages fit into the allowance.
pub proof fn lemma_kept_messages_fit(s: Seq<MessageView>, limit: nat)
    ensures
        0 <= kept_from(s, limit) <= s.len(),
        seq_cost(s.subrange(kept_from(s, limit), s.len() as int)) <= limit,
    decreases s.len(),
{
    lemma_kept_from_bounds(s, limit);
    let k = kept_from(s, limit);
    if s.len() == 0 {
        assert(s.subrange(0, 0).len() == 0);
    } else if message_cost(s.last()) > limit {
        assert(s.subrange(k, s.len() as int).len() == 0);
    } else {
        let c = message_cost(s.last());
        let t = s.drop_last();
        lemma_kept_messages_fit(t, (limit - c) as nat);
        let sub = s.subrange(k, s.len() as int);
        assert(sub.drop_last() =~= t.subrange(k, t.len() as int));
        assert(sub.last() == s.last());
    }
}

/// Law: the kept messages are the longest run of newest messages that fits:
/// one more older message would exceed the allowance.
pub proof fn lemma_kept_messages_maximal(s: Seq<MessageView>, limit: nat)
    ensures
        kept_from(s, limit) > 0 ==> seq_cost(s.subrange(kept_from(s, limit) - 1, s.len() as int))
            > limit,
    decreases s.len(),
{
    lemma_kept_from_bounds(s, limit);
    let k = kept_from(s, limit);
    if s.len() == 0 {
    } else if message_cost(s.last()) > limit {
        let sub = s.subrange(k - 1, s.len() as int);
        assert(sub.drop_last().len() == 0);
        assert(sub.last() == s.last());
    } else {
        let c = message_cost(s.last());
        let t = s.drop_last();
        lemma_kept_messages_maximal(t, (limit - c) as nat);
        lemma_kept_from_bounds(t, (limit - c) as nat);
        if k > 0 {
            let sub = s.subrange(k - 1, s.len() as int);
            assert(sub.drop_last() =~= t.subrange(k - 1, t.len() as int));
            assert(sub.last() == s.last());
        }
    }
}

/// Law: a context never holds more estimated tokens than the budget minus the
/// response reserve, unless the system prompt alone is already larger.
pub proof fn lemma_context_within_budget(
    policy: ContextPolicy,
    model_context_length: Option<u64>,
    system_prompt: Option<Seq<char>>,
    messages: Seq<MessageView>,
)
    requires
        system_cost(system_prompt) <= sat_sub(
            context_budget(policy, model_context_length) as nat,
            policy.reserve_for_response as nat,
        ),
    ensures
        ({
            let k = kept_from(
                messages,
                message_allowance(policy, model_context_length, system_prompt),
            );
            system_cost(system_prompt) + seq_cost(messages.subrange(k, messages.len() as int))
                <= sat_sub(
                context_budget(policy, model_context_length) as nat,
                policy.reserve_for_response as nat,
            )
        }),
{
    lemma_kept_messages_fit(
        messages,
        message_allowance(policy, model_context_length, system_prompt),
    );
}

/// Chooses the context sent to the model, using `now` as the system message's
/// creation time: the system prompt (always, when given) followed by the
/// longest run of newest messages whose estimated tokens fit into the budget
/// left after the response reserve and the system prompt.
pub fn build_context_at(
    system_prompt: Option<&str>,
    messages: &[Message],
    model_context_length: Option<u64>,
    policy: &ContextPolicy,
    now: Timestamp,
) -> (r: Vec<Message>)
    ensures
        is_context(
            message_views(r@),
            opt_prompt(system_prompt),
            message_views(messages@),
            model_context_length,
            *policy,
            now,
        ),
{
    let budget = match policy.max_tokens {
        Some(m) => m,
        None => match model_context_length {
            Some(c) => #[verifier::truncate] (c as usize),
            None => DEFAULT_BUDGET_TOKENS,
        },
    };
    let available = budget.saturating_sub(policy.reserve_for_response);
    let sys = system_tokens(system_prompt);
    let mut remaining = available.saturating_sub(sys);
    let ghost p = match system_prompt {
        Some(s) => Some(s@),
        None => None,
    };
    let ghost mv = message_views(messages@);
    let ghost limit0 = message_allowance(*policy, model_context_length, p);
    assert(remaining == limit0);
    assert(mv.take(messages@.len() as int) =~= mv);

    let mut k: usize = messages.len();
    let mut done = false;
    while k > 0 && !done
        invariant
            k <= messages@.len(),
            mv == message_views(messages@),
            done ==> kept_from(mv, limit0) == k,
            !done ==> kept_from(mv.take(k as int), remaining as nat) == kept_from(mv, limit0),
        decreases 2 * k + if done { 0int } else { 1int },
    {
        let cost = message_tokens(&messages[k - 1]);
        let ghost t = mv.take(k as int);
        assert(t.last() == messages@[k - 1]@);
        if cost > remaining {
            done = true;
        } else {
            assert(t.drop_last() =~= mv.take(k - 1));
            remaining = remaining - cost;
            k = k - 1;
        }
    }
    assert(kept_from(mv, limit0) == k) by {
        if !done {
            assert(mv.take(0).len() == 0);
        }
    }

    let mut result: Vec<Message> = Vec::new();
    match system_prompt {
        Some(prompt) => {
            let sys_msg = Message {
                id: 0,
                conversation_id: 0,
                parent_id: None,
                role: Role::System,
                content: crate::text::owned(prompt),
                reasoning_content: None,
                tool_calls: None,
                tool_call_id: None,
                images: None,
                metadata: crate::text::owned("{}"),
                created_at: now,
            };
            result.push(sys_msg);
        },
        None => {},
    }
    let ghost base = message_views(result@);
    let mut i = k;
    while i < messages.len()
        invariant
            k <= i <= messages@.len(),
            mv == message_views(messages@),
            result@.len() == base.len() + (i - k),
            message_views(result@) == base + mv.subrange(k as int, i as int),
        decreases messages@.len() - i,
    {
        let m = messages[i].clone();
        let ghost before = result@;
        result.push(m);
        assert(message_views(result@) =~= message_views(before).push(messages@[i as int]@));
        assert(mv.subrange(k as int, i + 1) =~= mv.subrange(k as int, i as int).push(
            messages@[i as int]@,
        ));
        i = i + 1;
    }
    match system_prompt {
        Some(s) => {
            assert(message_views(result@).subrange(1, result@.len() as int) =~= mv.subrange(
                k as int,
                mv.len() as int,
            ));
            assert(message_views(result@)[0] == result@[0]@);
        },
        None => {
            assert(message_views(result@) =~= mv.subrange(k as int, mv.len() as int));
        },
    }
    result
}

/// Chooses the context sent to the model (see `build_context_at`); the system
/// message is stamped with the current time.
pub fn build_context(
    system_prompt: Option<&str>,
    messages: &[Message],
    model_context_length: Option<u64>,
    policy: &ContextPolicy,
) -> (r: Vec<Message>)
    ensures
        exists|now: Timestamp|
            is_context(
                message_views(r@),
                opt_prompt(system_prompt),
                message_views(messages@),
                model_context_length,
                *policy,
                now,
            ),
{
    let now = crate::platform::now();
    let r = build_context_at(system_prompt, messages, model_context_length, policy, now);
    assert(is_context(
        message_views(r@),
        opt_prompt(system_prompt),
        message_views(messages@),
        model_context_length,
        *policy,
        now,
    ));
    r
}

/// Estimated tokens of a system prompt and messages together.
pub fn total_tokens(system_prompt: Option<&str>, messages: &[Message]) -> (r: usize)
    requires
        system_cost(
            match system_prompt {
                Some(s) => Some(s@),
                None => None,
            },
        ) + seq_cost(message_views(messages@)) <= usize::MAX,
    ensures
        r == system_cost(
            match system_prompt {
                Some(s) => Some(s@),
                None => None,
            },
        ) + seq_cost(message_views(messages@)),
{
    let sys = system_tokens(system_prompt);
    let ghost mv = message_views(messages@);
    let mut sum: usize = 0;
    let mut i: usize = 0;
    while i < messages.len()
        invariant
            i <= messages@.len(),
            mv == message_views(messages@),
            sum == seq_cost(mv.take(i as int)),
            sys + seq_cost(mv) <= usize::MAX,
            sys == system_cost(
                match system_prompt {
                    Some(s) => Some(s@),
                    None => None,
                },
            ),
        decreases messages@.len() - i,
    {
        proof {
            assert(mv.take(i + 1).drop_last() =~= mv.take(i as int));
            assert(mv.take(i + 1).last() == messages@[i as int]@);
            lemma_seq_cost_prefix(mv, i + 1);
        }
        sum = sum + message_tokens(&messages[i]);
        i = i + 1;
    }
    assert(mv.take(mv.len() as int) =~= mv);
    sys + sum
}

/// The cost of a prefix never exceeds the cost of the whole list.
proof fn lemma_seq_cost_prefix(s: Seq<MessageView>, n: int)
    requires
        0 <= n <= s.len(),
    ensures
        seq_cost(s.take(n)) <= seq_cost(s),
    decreases s.len() - n,
{
    if n < s.len() {
        lemma_seq_cost_prefix(s, n + 1);
        assert(s.take(n + 1).drop_last() =~= s.take(n));
    } else {
        assert(s.take(n) =~= s);
    }
}

} // verus!
