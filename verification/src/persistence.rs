//! What the SQLite repositories decide before and after talking to the
//! database: how roles and protocols are stored, how search text becomes a
//! full-text query, and the shapes of search results.
use vstd::prelude::*;
use crate::domain::{Message, Prompt, ProviderProtocol, Role};
use crate::text::{is_white, is_blank};

verus! {

/// A message found by search, with the title of its conversation.
#[derive(Debug)]
pub struct MessageSearchResult {
    pub message: Message,
    pub conversation_title: String,
}

/// A prompt found by search.
#[derive(Debug)]
pub struct PromptSearchResult {
    pub prompt: Prompt,
}

/// How a role is stored.
pub open spec fn role_db_spec(role: Role) -> Seq<char> {
    match role {
        Role::System => "system"@,
        Role::User => "user"@,
        Role::Assistant => "assistant"@,
        Role::Tool => "tool"@,
    }
}

/// How a role is stored: `system`, `user`, `assistant` or `tool`.
pub fn role_to_db(role: Role) -> (r: &'static str)
    ensures
        r@ == role_db_spec(role),
{
    match role {
        Role::System => "system",
        Role::User => "user",
        Role::Assistant => "assistant",
        Role::Tool => "tool",
    }
}

/// Reads a stored role; any other text is the error "unknown role: <text>".
pub fn role_from_db(s: &str) -> (r: Result<Role, String>)
    ensures
        match r {
            Ok(role) => role_db_spec(role) == s@,
            Err(e) => e@ == "unknown role: "@ + s@ && forall|role: Role| role_db_spec(role) != s@,
        },
{
    proof {
        reveal_strlit("system");
        reveal_strlit("user");
        reveal_strlit("assistant");
        reveal_strlit("tool");
    }
    if crate::text::str_eq(s, "system") {
        Ok(Role::System)
    } else if crate::text::str_eq(s, "user") {
        Ok(Role::User)
    } else if crate::text::str_eq(s, "assistant") {
        Ok(Role::Assistant)
    } else if crate::text::str_eq(s, "tool") {
        Ok(Role::Tool)
    } else {
        Err(crate::text::join2("unknown role: ", s))
    }
}

/// Law: every role reads back as itself.
pub proof fn lemma_role_round_trip(role: Role, other: Role)
    ensures
        role_db_spec(role) == role_db_spec(other) ==> role == other,
{
    reveal_strlit("system");
    reveal_strlit("user");
    reveal_strlit("assistant");
    reveal_strlit("tool");
    assert("system"@.len() == 6);
    assert("user"@.len() == 4);
    assert("assistant"@.len() == 9);
    assert("tool"@.len() == 4);
    assert("user"@[0] != "tool"@[0]);
}

/// How a protocol is stored.
pub fn protocol_to_db(p: ProviderProtocol) -> (r: &'static str)
    ensures
        r@ == "openai_compatible"@,
{
    match p {
        ProviderProtocol::OpenAiCompatible => "openai_compatible",
    }
}

/// Reads a stored protocol: there is only one, whatever is stored.
pub fn protocol_from_db(s: &str) -> (r: ProviderProtocol)
    ensures
        r == ProviderProtocol::OpenAiCompatible,
{
    ProviderProtocol::OpenAiCompatible
}

/// The words of a text (`str::split_whitespace`): maximal runs of
/// characters that are not white space; `cur` is the word read so far.
pub open spec fn words_from(s: Seq<char>, cur: Seq<char>) -> Seq<Seq<char>>
    decreases s.len(),
{
    if s.len() == 0 {
        if cur.len() == 0 {
            Seq::empty()
        } else {
            seq![cur]
        }
    } else if is_white(s[0]) {
        (if cur.len() == 0 {
            Seq::empty()
        } else {
            seq![cur]
        }) + words_from(s.drop_first(), Seq::empty())
    } else {
        words_from(s.drop_first(), cur.push(s[0]))
    }
}

/// A word without its double quotes.
pub open spec fn without_quotes(w: Seq<char>) -> Seq<char>
    decreases w.len(),
{
    if w.len() == 0 {
        w
    } else if w.last() == '"' {
        without_quotes(w.drop_last())
    } else {
        without_quotes(w.drop_last()).push(w.last())
    }
}

/// A word as an FTS5 phrase: its quotes removed, wrapped in quotes.
pub open spec fn phrase(w: Seq<char>) -> Seq<char> {
    seq!['"'] + without_quotes(w) + seq!['"']
}

/// The phrases of the words, separated by single spaces.
pub open spec fn join_phrases(ws: Seq<Seq<char>>) -> Seq<char>
    decreases ws.len(),
{
    if ws.len() == 0 {
        Seq::empty()
    } else if ws.len() == 1 {
        phrase(ws[0])
    } else {
        join_phrases(ws.drop_last()) + seq![' '] + phrase(ws.last())
    }
}

/// Law: the phrases of two runs of words one after the other are those of
/// the first run, a single space, and those of the second; a single word is
/// its phrase alone, and no words give nothing.
pub proof fn lemma_phrases_spaced(a: Seq<Seq<char>>, b: Seq<Seq<char>>, w: Seq<char>)
    ensures
        a.len() > 0 && b.len() > 0 ==> join_phrases(a + b) == join_phrases(a) + seq![' '] + join_phrases(b),
        join_phrases(seq![w]) == phrase(w),
        join_phrases(Seq::<Seq<char>>::empty()).len() == 0,
    decreases b.len(),
{
    if a.len() > 0 && b.len() > 0 {
        let ab = a + b;
        assert(ab.drop_last() =~= a + b.drop_last());
        assert(ab.last() == b.last());
        if b.len() == 1 {
            assert(ab.drop_last() =~= a);
            assert(join_phrases(b) == phrase(b[0]));
        } else {
            lemma_phrases_spaced(a, b.drop_last(), w);
            assert(join_phrases(b) == join_phrases(b.drop_last()) + seq![' '] + phrase(b.last()));
            assert(join_phrases(ab) =~= join_phrases(a) + seq![' '] + join_phrases(b));
        }
    }
}

/// A word without quotes holds no quote and keeps every other character.
proof fn lemma_without_quotes(w: Seq<char>)
    ensures
        forall|i: int| 0 <= i < without_quotes(w).len() ==> without_quotes(w)[i] != '"',
        without_quotes(w).len() <= w.len(),
        (forall|i: int| 0 <= i < w.len() ==> w[i] != '"') ==> without_quotes(w) == w,
    decreases w.len(),
{
    if w.len() > 0 {
        lemma_without_quotes(w.drop_last());
        if forall|i: int| 0 <= i < w.len() ==> w[i] != '"' {
            assert(w.last() != '"');
            assert(forall|i: int| 0 <= i < w.drop_last().len() ==> w.drop_last()[i] == w[i]);
            assert(w.drop_last().push(w.last()) =~= w);
        }
    }
}

/// Law: a phrase is the word between two double quotes, with no double
/// quote inside; a word without quotes is kept as it is.
pub proof fn lemma_phrase_shape(w: Seq<char>)
    ensures
        phrase(w).len() >= 2,
        phrase(w)[0] == '"',
        phrase(w).last() == '"',
        forall|i: int| 0 < i < phrase(w).len() - 1 ==> phrase(w)[i] != '"',
        (forall|i: int| 0 <= i < w.len() ==> w[i] != '"') ==> phrase(w) == seq!['"'] + w + seq!['"'],
{
    lemma_without_quotes(w);
    let inner = without_quotes(w);
    assert forall|i: int| 0 < i < phrase(w).len() - 1 implies phrase(w)[i] != '"' by {
        assert(phrase(w)[i] == inner[i - 1]);
    }
}

/// The full-text query for a search text: nothing to search for when the
/// text is blank, otherwise each word as a quoted phrase (quotes inside a
/// word dropped), separated by spaces, so that every word must match.
pub open spec fn fts_query_spec(query: Seq<char>) -> Option<Seq<char>> {
    if is_blank(query) {
        None
    } else {
        Some(join_phrases(words_from(query, Seq::empty())))
    }
}

fn split_words(cs: &Vec<char>) -> (r: Vec<Vec<char>>)
    ensures
        r@.map_values(|w: Vec<char>| w@) == words_from(cs@, Seq::empty()),
{
    let mut words: Vec<Vec<char>> = Vec::new();
    let mut cur: Vec<char> = Vec::new();
    let mut i: usize = 0;
    assert(cs@.skip(0) =~= cs@);
    while i < cs.len()
        invariant
            i <= cs@.len(),
            words@.map_values(|w: Vec<char>| w@) + words_from(cs@.skip(i as int), cur@)
                == words_from(cs@, Seq::empty()),
        decreases cs@.len() - i,
    {
        let c = cs[i];
        let ghost s = cs@.skip(i as int);
        assert(s[0] == c);
        assert(s.drop_first() =~= cs@.skip(i + 1));
        let ghost before = words@.map_values(|w: Vec<char>| w@);
        if crate::text::char_is_white(c) {
            if cur.len() > 0 {
                let ghost cv = cur@;
                words.push(cur);
                cur = Vec::new();
                assert(words@.map_values(|w: Vec<char>| w@) =~= before.push(cv));
                assert(before + (seq![cv] + words_from(cs@.skip(i + 1), Seq::empty())) =~= before.push(cv)
                    + words_from(cs@.skip(i + 1), Seq::empty()));
            } else {
                assert(Seq::<Seq<char>>::empty() + words_from(cs@.skip(i + 1), Seq::empty()) =~= words_from(
                    cs@.skip(i + 1),
                    Seq::empty(),
                ));
                assert(cur@ =~= Seq::<char>::empty());
            }
        } else {
            cur.push(c);
        }
        i = i + 1;
    }
    if cur.len() > 0 {
        let ghost before = words@.map_values(|w: Vec<char>| w@);
        let ghost cv = cur@;
        words.push(cur);
        assert(words@.map_values(|w: Vec<char>| w@) =~= before + seq![cv]);
    } else {
        assert(words@.map_values(|w: Vec<char>| w@) =~= words@.map_values(|w: Vec<char>| w@)
            + Seq::<Seq<char>>::empty());
    }
    words
}

fn push_phrase(out: &mut Vec<char>, w: &Vec<char>)
    ensures
        final(out)@ == old(out)@ + phrase(w@),
{
    out.push('"');
    let ghost start = out@;
    let mut i: usize = 0;
    while i < w.len()
        invariant
            i <= w@.len(),
            out@ == start + without_quotes(w@.take(i as int)),
        decreases w@.len() - i,
    {
        assert(w@.take(i + 1).drop_last() =~= w@.take(i as int));
        assert(w@.take(i + 1).last() == w@[i as int]);
        if w[i] != '"' {
            out.push(w[i]);
        }
        i = i + 1;
    }
    assert(w@.take(w@.len() as int) =~= w@);
    out.push('"');
    assert(out@ =~= old(out)@ + phrase(w@));
}

/// The full-text query for a search text (see `fts_query_spec`).
pub fn fts_query(query: &str) -> (r: Option<String>)
    ensures
        match r {
            Some(q) => fts_query_spec(query@) == Some(q@),
            None => fts_query_spec(query@) is None,
        },
{
    if crate::text::str_is_blank(query) {
        return None;
    }
    let cs = crate::text::chars_of(query);
    let words = split_words(&cs);
    let ghost wv = words@.map_values(|w: Vec<char>| w@);
    let mut out: Vec<char> = Vec::new();
    let mut i: usize = 0;
    while i < words.len()
        invariant
            i <= words@.len(),
            wv == words@.map_values(|w: Vec<char>| w@),
            out@ == join_phrases(wv.take(i as int)),
        decreases words@.len() - i,
    {
        assert(wv.take(i + 1).drop_last() =~= wv.take(i as int));
        assert(wv.take(i + 1).last() == words@[i as int]@);
        if i > 0 {
            out.push(' ');
        } else {
            assert(wv.take(1)[0] == words@[0]@);
        }
        push_phrase(&mut out, &words[i]);
        i = i + 1;
    }
    assert(wv.take(wv.len() as int) =~= wv);
    Some(crate::text::string_of(out.as_slice()))
}

/// The `LIKE` pattern of a conversation title search: the lowercased text
/// between `%` wildcards.
pub fn title_pattern(query: &str) -> (r: String)
    ensures
        r@ == "%"@ + crate::image::lowercase(query@) + "%"@,
{
    let lower = crate::image::to_lowercase(query);
    crate::text::join3("%", lower.as_str(), "%")
}

} // verus!
