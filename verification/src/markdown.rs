//! Laying out Markdown for the terminal: the parser's events become lines of
//! styled spans (headings in bold cyan, quotes in grey behind a bar, code
//! blocks indented on a grey background, list items behind bullets).
use vstd::prelude::*;
use pulldown_cmark::{Event, Parser, TagEnd};

verus! {

/// One event of the Markdown parser. A start or end tag carries the tag's
/// name as the parser prints it (e.g. `Heading(H1)`).
#[derive(Debug)]
pub enum MdEvent {
    Start(String),
    End(String),
    Text(String),
    Code(String),
    SoftBreak,
    HardBreak,
    Rule,
    Other,
}

/// The value of a parser event.
pub enum MdEventView {
    Start(Seq<char>),
    End(Seq<char>),
    Text(Seq<char>),
    Code(Seq<char>),
    SoftBreak,
    HardBreak,
    Rule,
    Other,
}

impl View for MdEvent {
    type V = MdEventView;

    open spec fn view(&self) -> MdEventView {
        match self {
            MdEvent::Start(s) => MdEventView::Start(s@),
            MdEvent::End(s) => MdEventView::End(s@),
            MdEvent::Text(s) => MdEventView::Text(s@),
            MdEvent::Code(s) => MdEventView::Code(s@),
            MdEvent::SoftBreak => MdEventView::SoftBreak,
            MdEvent::HardBreak => MdEventView::HardBreak,
            MdEvent::Rule => MdEventView::Rule,
            MdEvent::Other => MdEventView::Other,
        }
    }
}

/// The values of some parser events.
pub open spec fn md_event_views(s: Seq<MdEvent>) -> Seq<MdEventView> {
    s.map_values(|e: MdEvent| e@)
}

/// The events `pulldown_cmark` produces for a Markdown text.
pub uninterp spec fn markdown_parse(content: Seq<char>) -> Seq<MdEventView>;

/// Parses Markdown with `pulldown_cmark::Parser::new` (default options).
/// Start and end tags are passed on by the name their `Debug` output gives
/// the tag (a start tag through `TagEnd::from`); texts and inline code by
/// their text; soft and hard breaks and rules as such; all other events as
/// `Other`. The parse itself is named, not restated.
#[verifier::external_body]
pub(crate) fn markdown_events(content: &str) -> (r: Vec<MdEvent>)
    ensures
        md_event_views(r@) == markdown_parse(content@),
{
    Parser::new(content).map(|e| match e {
        Event::Start(t) => MdEvent::Start(format!("{:?}", TagEnd::from(t))),
        Event::End(t) => MdEvent::End(format!("{:?}", t)),
        Event::Text(s) => MdEvent::Text(s.to_string()),
        Event::Code(s) => MdEvent::Code(s.to_string()),
        Event::SoftBreak => MdEvent::SoftBreak,
        Event::HardBreak => MdEvent::HardBreak,
        Event::Rule => MdEvent::Rule,
        _ => MdEvent::Other,
    }).collect()
}

/// The tags the layout distinguishes.
#[derive(Debug, Clone, Copy, PartialEq, Eq, Structural)]
pub enum MdTag {
    Paragraph,
    Heading,
    BlockQuote,
    CodeBlock,
    List,
    Item,
    Emphasis,
    Strong,
    Strikethrough,
    Other,
}

/// A tag's name up to its first parenthesis (`Heading(H1)` gives `Heading`).
pub open spec fn name_head(s: Seq<char>) -> Seq<char>
    decreases s.len(),
{
    if s.len() == 0 || s[0] == '(' {
        Seq::empty()
    } else {
        seq![s[0]] + name_head(s.drop_first())
    }
}

/// The tag a name stands for.
pub open spec fn tag_of(name: Seq<char>) -> MdTag {
    let h = name_head(name);
    if h == "Paragraph"@ {
        MdTag::Paragraph
    } else if h == "Heading"@ {
        MdTag::Heading
    } else if h == "BlockQuote"@ {
        MdTag::BlockQuote
    } else if h == "CodeBlock"@ {
        MdTag::CodeBlock
    } else if h == "List"@ {
        MdTag::List
    } else if h == "Item"@ {
        MdTag::Item
    } else if h == "Emphasis"@ {
        MdTag::Emphasis
    } else if h == "Strong"@ {
        MdTag::Strong
    } else if h == "Strikethrough"@ {
        MdTag::Strikethrough
    } else {
        MdTag::Other
    }
}

fn head_of(name: &str) -> (r: String)
    ensures
        r@ == name_head(name@),
{
    let cs = crate::text::chars_of(name);
    let mut i: usize = 0;
    while i < cs.len() && cs[i] != '('
        invariant
            i <= cs@.len(),
            forall|k: int| 0 <= k < i ==> cs@[k] != '(',
        decreases cs@.len() - i,
    {
        i = i + 1;
    }
    let mut out: Vec<char> = Vec::new();
    let mut k: usize = 0;
    while k < i
        invariant
            k <= i <= cs@.len(),
            out@ == cs@.take(k as int),
        decreases i - k,
    {
        out.push(cs[k]);
        assert(cs@.take(k + 1) =~= cs@.take(k as int).push(cs@[k as int]));
        k = k + 1;
    }
    proof {
        lemma_name_head(cs@, i as int);
    }
    crate::text::string_of(out.as_slice())
}

proof fn lemma_name_head(s: Seq<char>, i: int)
    requires
        0 <= i <= s.len(),
        forall|k: int| 0 <= k < i ==> s[k] != '(',
        i == s.len() || s[i] == '(',
    ensures
        name_head(s) == s.take(i),
    decreases i,
{
    if i == 0 {
        assert(s.take(0) =~= Seq::<char>::empty());
    } else {
        lemma_name_head(s.drop_first(), i - 1);
        assert(s.take(i) =~= seq![s[0]] + s.drop_first().take(i - 1));
    }
}

/// The tag a name stands for (see `tag_of`).
pub fn tag_from_name(name: &str) -> (r: MdTag)
    ensures
        r == tag_of(name@),
{
    let h = head_of(name);
    let h = h.as_str();
    if crate::text::str_eq(h, "Paragraph") {
        MdTag::Paragraph
    } else if crate::text::str_eq(h, "Heading") {
        MdTag::Heading
    } else if crate::text::str_eq(h, "BlockQuote") {
        MdTag::BlockQuote
    } else if crate::text::str_eq(h, "CodeBlock") {
        MdTag::CodeBlock
    } else if crate::text::str_eq(h, "List") {
        MdTag::List
    } else if crate::text::str_eq(h, "Item") {
        MdTag::Item
    } else if crate::text::str_eq(h, "Emphasis") {
        MdTag::Emphasis
    } else if crate::text::str_eq(h, "Strong") {
        MdTag::Strong
    } else if crate::text::str_eq(h, "Strikethrough") {
        MdTag::Strikethrough
    } else {
        MdTag::Other
    }
}

/// The colours the layout uses.
#[derive(Debug, Clone, Copy, PartialEq, Eq, Structural)]
pub enum MdColor {
    Cyan,
    DarkGray,
    White,
    Yellow,
}

/// A span's style: colours and modifiers.
#[derive(Debug, Clone, Copy, PartialEq, Eq, Structural)]
pub struct MdStyle {
    pub fg: Option<MdColor>,
    pub bg: Option<MdColor>,
    pub bold: bool,
    pub italic: bool,
    pub crossed_out: bool,
}

/// No colours, no modifiers.
pub open spec fn plain() -> MdStyle {
    MdStyle { fg: None, bg: None, bold: false, italic: false, crossed_out: false }
}

/// The style of a given foreground (and background) colour.
pub open spec fn colored(fg: MdColor, bg: Option<MdColor>) -> MdStyle {
    MdStyle { fg: Some(fg), bg, bold: false, italic: false, crossed_out: false }
}

fn plain_style() -> (r: MdStyle)
    ensures
        r == plain(),
{
    MdStyle { fg: None, bg: None, bold: false, italic: false, crossed_out: false }
}

fn colored_style(fg: MdColor, bg: Option<MdColor>) -> (r: MdStyle)
    ensures
        r == colored(fg, bg),
{
    MdStyle { fg: Some(fg), bg, bold: false, italic: false, crossed_out: false }
}

/// A run of text in one style.
#[derive(Debug)]
pub struct MdSpan {
    pub text: String,
    pub style: MdStyle,
}

impl Clone for MdSpan {
    fn clone(&self) -> (r: Self)
        ensures
            r == *self,
    {
        MdSpan { text: self.text.clone(), style: self.style }
    }
}

/// A line of spans (a line with no spans is blank).
#[derive(Debug)]
pub struct MdLine {
    pub spans: Vec<MdSpan>,
}

/// A span's value.
pub type SpanV = (Seq<char>, MdStyle);

/// A line's value.
pub type LineV = Seq<SpanV>;

pub open spec fn span_v(s: MdSpan) -> SpanV {
    (s.text@, s.style)
}

pub open spec fn spans_v(s: Seq<MdSpan>) -> LineV {
    s.map_values(|x: MdSpan| span_v(x))
}

pub open spec fn line_v(l: MdLine) -> LineV {
    spans_v(l.spans@)
}

pub open spec fn lines_v(s: Seq<MdLine>) -> Seq<LineV> {
    s.map_values(|l: MdLine| line_v(l))
}

/// The layout's state between events.
pub struct MdState {
    pub lines: Seq<LineV>,
    pub cur: LineV,
    pub style: MdStyle,
    pub in_code: bool,
    pub code: Seq<Seq<char>>,
    pub depth: nat,
}

/// Before the first event.
pub open spec fn md_init() -> MdState {
    MdState {
        lines: Seq::empty(),
        cur: Seq::empty(),
        style: plain(),
        in_code: false,
        code: Seq::empty(),
        depth: 0,
    }
}

/// Two spaces per level.
pub open spec fn indent(n: nat) -> Seq<char>
    decreases n,
{
    if n == 0 {
        Seq::empty()
    } else {
        indent((n - 1) as nat) + "  "@
    }
}

/// The text of a horizontal rule: forty box-drawing dashes.
pub open spec fn rule_text() -> Seq<char> {
    Seq::new(40, |i: int| '─')
}

/// The lines with the current line added, when it has spans.
pub open spec fn flush(st: MdState) -> Seq<LineV> {
    if st.cur.len() > 0 {
        st.lines.push(st.cur)
    } else {
        st.lines
    }
}

/// The lines of a finished code block: each indented by two spaces on a
/// grey background, then a blank line.
pub open spec fn code_lines(code: Seq<Seq<char>>) -> Seq<LineV> {
    code.map_values(|c: Seq<char>| seq![("  "@ + c, colored(MdColor::White, Some(MdColor::DarkGray)))])
}

/// The layout's step for a start tag.
pub open spec fn md_start(st: MdState, tag: MdTag) -> MdState {
    match tag {
        MdTag::Paragraph => MdState { cur: Seq::empty(), style: plain(), ..st },
        MdTag::Heading => MdState {
            cur: Seq::empty(),
            style: MdStyle { bold: true, ..colored(MdColor::Cyan, None) },
            ..st
        },
        MdTag::BlockQuote => MdState {
            style: colored(MdColor::DarkGray, None),
            cur: st.cur.push(("│ "@, colored(MdColor::DarkGray, None))),
            ..st
        },
        MdTag::CodeBlock => MdState { in_code: true, code: Seq::empty(), ..st },
        MdTag::List => MdState { depth: st.depth + 1, ..st },
        MdTag::Item => MdState {
            cur: st.cur.push(
                (indent(if st.depth >= 1 { (st.depth - 1) as nat } else { 0 }) + "• "@, plain()),
            ),
            ..st
        },
        MdTag::Emphasis => MdState { style: MdStyle { italic: true, ..st.style }, ..st },
        MdTag::Strong => MdState { style: MdStyle { bold: true, ..st.style }, ..st },
        MdTag::Strikethrough => MdState { style: MdStyle { crossed_out: true, ..st.style }, ..st },
        MdTag::Other => st,
    }
}

/// The layout's step for an end tag.
pub open spec fn md_end(st: MdState, tag: MdTag) -> MdState {
    match tag {
        MdTag::Paragraph => MdState {
            lines: flush(st).push(Seq::empty()),
            cur: Seq::empty(),
            ..st
        },
        MdTag::Heading => MdState {
            lines: flush(st).push(Seq::empty()),
            cur: Seq::empty(),
            style: plain(),
            ..st
        },
        MdTag::BlockQuote => MdState { style: plain(), ..st },
        MdTag::CodeBlock => MdState {
            in_code: false,
            lines: st.lines + code_lines(st.code) + seq![Seq::<SpanV>::empty()],
            code: Seq::empty(),
            ..st
        },
        MdTag::List => {
            let d: nat = if st.depth >= 1 { (st.depth - 1) as nat } else { 0 };
            MdState {
                depth: d,
                lines: if d == 0 { st.lines.push(Seq::empty()) } else { st.lines },
                ..st
            }
        },
        MdTag::Item => MdState { lines: flush(st), cur: Seq::empty(), ..st },
        MdTag::Emphasis | MdTag::Strong | MdTag::Strikethrough => MdState { style: plain(), ..st },
        MdTag::Other => st,
    }
}

/// The layout's step for one event.
pub open spec fn md_step(st: MdState, ev: MdEventView) -> MdState {
    match ev {
        MdEventView::Start(name) => md_start(st, tag_of(name)),
        MdEventView::End(name) => md_end(st, tag_of(name)),
        MdEventView::Text(t) => if st.in_code {
            MdState { code: st.code.push(t), ..st }
        } else {
            MdState { cur: st.cur.push((t, st.style)), ..st }
        },
        MdEventView::Code(c) => MdState {
            cur: st.cur.push((c, colored(MdColor::Yellow, Some(MdColor::DarkGray)))),
            ..st
        },
        MdEventView::SoftBreak | MdEventView::HardBreak => MdState {
            lines: flush(st),
            cur: Seq::empty(),
            ..st
        },
        MdEventView::Rule => MdState {
            lines: st.lines.push(seq![(rule_text(), colored(MdColor::DarkGray, None))]).push(
                Seq::empty(),
            ),
            ..st
        },
        MdEventView::Other => st,
    }
}

/// The layout's state after some events.
pub open spec fn md_fold(evs: Seq<MdEventView>) -> MdState
    decreases evs.len(),
{
    if evs.len() == 0 {
        md_init()
    } else {
        md_step(md_fold(evs.drop_last()), evs.last())
    }
}

/// A line is blank when it has no span with text.
pub open spec fn blank_line(l: LineV) -> bool {
    forall|i: int| 0 <= i < l.len() ==> (#[trigger] l[i]).0.len() == 0
}

/// The lines without trailing blank lines.
pub open spec fn trim_trailing(lines: Seq<LineV>) -> Seq<LineV>
    decreases lines.len(),
{
    if lines.len() > 0 && blank_line(lines.last()) {
        trim_trailing(lines.drop_last())
    } else {
        lines
    }
}

/// The layout of some events: the lines after the last event without
/// trailing blank lines, or a single blank line when nothing is left.
pub open spec fn layout(evs: Seq<MdEventView>) -> Seq<LineV> {
    let t = trim_trailing(md_fold(evs).lines);
    if t.len() == 0 {
        seq![Seq::empty()]
    } else {
        t
    }
}

fn clone_spans(v: &Vec<MdSpan>) -> (r: Vec<MdSpan>)
    ensures
        spans_v(r@) == spans_v(v@),
{
    let mut r: Vec<MdSpan> = Vec::new();
    let mut i: usize = 0;
    while i < v.len()
        invariant
            i <= v@.len(),
            r@ == v@.take(i as int),
        decreases v@.len() - i,
    {
        r.push(v[i].clone());
        assert(v@.take(i + 1) =~= v@.take(i as int).push(v@[i as int]));
        i = i + 1;
    }
    assert(v@.take(v@.len() as int) =~= v@);
    r
}

/// The layout engine: the executable form of `MdState`.
struct Renderer {
    lines: Vec<MdLine>,
    cur: Vec<MdSpan>,
    style: MdStyle,
    in_code: bool,
    code: Vec<String>,
    depth: usize,
}

impl Renderer {
    spec fn state(&self) -> MdState {
        MdState {
            lines: lines_v(self.lines@),
            cur: spans_v(self.cur@),
            style: self.style,
            in_code: self.in_code,
            code: self.code@.map_values(|s: String| s@),
            depth: self.depth as nat,
        }
    }

    fn push_line(&mut self, spans: Vec<MdSpan>)
        ensures
            final(self).state() == (MdState { lines: old(self).state().lines.push(spans_v(spans@)), ..old(self).state() }),
    {
        let ghost before = lines_v(self.lines@);
        self.lines.push(MdLine { spans });
        assert(lines_v(self.lines@) =~= before.push(spans_v(spans@)));
    }

    fn push_blank(&mut self)
        ensures
            final(self).state() == (MdState { lines: old(self).state().lines.push(Seq::empty()), ..old(self).state() }),
    {
        let spans: Vec<MdSpan> = Vec::new();
        assert(spans_v(spans@) =~= Seq::<SpanV>::empty());
        self.push_line(spans);
    }

    fn flush(&mut self)
        ensures
            final(self).state() == (MdState { lines: flush(old(self).state()), cur: Seq::empty(), ..old(self).state() }),
    {
        if self.cur.len() > 0 {
            let spans = clone_spans(&self.cur);
            self.push_line(spans);
        }
        self.cur = Vec::new();
        assert(spans_v(self.cur@) =~= Seq::<SpanV>::empty());
    }

    fn push_span(&mut self, text: String, style: MdStyle)
        ensures
            final(self).state() == (MdState { cur: old(self).state().cur.push((text@, style)), ..old(self).state() }),
    {
        let ghost before = spans_v(self.cur@);
        self.cur.push(MdSpan { text, style });
        assert(spans_v(self.cur@) =~= before.push((text@, style)));
    }

    fn start(&mut self, tag: MdTag)
        requires
            old(self).depth < usize::MAX,
        ensures
            final(self).state() == md_start(old(self).state(), tag),
            final(self).depth <= old(self).depth + 1,
    {
        match tag {
            MdTag::Paragraph => {
                self.cur = Vec::new();
                self.style = plain_style();
                assert(spans_v(self.cur@) =~= Seq::<SpanV>::empty());
            },
            MdTag::Heading => {
                self.cur = Vec::new();
                self.style = MdStyle { bold: true, ..colored_style(MdColor::Cyan, None) };
                assert(spans_v(self.cur@) =~= Seq::<SpanV>::empty());
            },
            MdTag::BlockQuote => {
                self.style = colored_style(MdColor::DarkGray, None);
                self.push_span(crate::text::owned("│ "), colored_style(MdColor::DarkGray, None));
            },
            MdTag::CodeBlock => {
                self.in_code = true;
                self.code = Vec::new();
                assert(self.code@.map_values(|s: String| s@) =~= Seq::<Seq<char>>::empty());
            },
            MdTag::List => {
                self.depth = self.depth + 1;
            },
            MdTag::Item => {
                let d = self.depth.saturating_sub(1);
                let mut t = indent_text(d);
                t.append("• ");
                self.push_span(t, plain_style());
            },
            MdTag::Emphasis => {
                self.style = MdStyle { italic: true, ..self.style };
            },
            MdTag::Strong => {
                self.style = MdStyle { bold: true, ..self.style };
            },
            MdTag::Strikethrough => {
                self.style = MdStyle { crossed_out: true, ..self.style };
            },
            MdTag::Other => {},
        }
    }

    fn end(&mut self, tag: MdTag)
        ensures
            final(self).state() == md_end(old(self).state(), tag),
            final(self).depth <= old(self).depth,
    {
        match tag {
            MdTag::Paragraph => {
                self.flush();
                self.push_blank();
            },
            MdTag::Heading => {
                self.flush();
                self.push_blank();
                self.style = plain_style();
            },
            MdTag::BlockQuote => {
                self.style = plain_style();
            },
            MdTag::CodeBlock => {
                self.in_code = false;
                let ghost base = lines_v(self.lines@);
                let ghost codes = self.code@.map_values(|s: String| s@);
                let ghost snap = *self;
                let mut i: usize = 0;
                while i < self.code.len()
                    invariant
                        i <= self.code@.len(),
                        self.cur == snap.cur,
                        self.style == snap.style,
                        self.in_code == snap.in_code,
                        self.code == snap.code,
                        self.depth == snap.depth,
                        codes == self.code@.map_values(|s: String| s@),
                        lines_v(self.lines@) == base + code_lines(codes.take(i as int)),
                    decreases self.code@.len() - i,
                {
                    let text = crate::text::join2("  ", self.code[i].as_str());
                    let mut spans: Vec<MdSpan> = Vec::new();
                    spans.push(MdSpan { text, style: colored_style(MdColor::White, Some(MdColor::DarkGray)) });
                    let ghost before = lines_v(self.lines@);
                    self.lines.push(MdLine { spans });
                    assert(lines_v(self.lines@) =~= before.push(spans_v(spans@)));
                    assert(spans_v(spans@) =~= seq![("  "@ + codes[i as int], colored(MdColor::White, Some(MdColor::DarkGray)))]);
                    assert(code_lines(codes.take(i + 1)) =~= code_lines(codes.take(i as int)).push(
                        seq![("  "@ + codes[i as int], colored(MdColor::White, Some(MdColor::DarkGray)))],
                    ));
                    i = i + 1;
                }
                assert(codes.take(codes.len() as int) =~= codes);
                self.push_blank();
                assert(lines_v(self.lines@) =~= base + code_lines(codes) + seq![Seq::<SpanV>::empty()]);
                self.code = Vec::new();
                assert(self.code@.map_values(|s: String| s@) =~= Seq::<Seq<char>>::empty());
            },
            MdTag::List => {
                self.depth = self.depth.saturating_sub(1);
                if self.depth == 0 {
                    self.push_blank();
                }
            },
            MdTag::Item => {
                self.flush();
            },
            MdTag::Emphasis | MdTag::Strong | MdTag::Strikethrough => {
                self.style = plain_style();
            },
            MdTag::Other => {},
        }
    }

    fn step(&mut self, ev: &MdEvent)
        requires
            old(self).depth < usize::MAX,
        ensures
            final(self).state() == md_step(old(self).state(), ev@),
            final(self).depth <= old(self).depth + 1,
    {
        match ev {
            MdEvent::Start(name) => {
                let tag = tag_from_name(name.as_str());
                self.start(tag);
            },
            MdEvent::End(name) => {
                let tag = tag_from_name(name.as_str());
                self.end(tag);
            },
            MdEvent::Text(t) => {
                if self.in_code {
                    let ghost before = self.code@.map_values(|s: String| s@);
                    self.code.push(t.clone());
                    assert(self.code@.map_values(|s: String| s@) =~= before.push(t@));
                } else {
                    let st = self.style;
                    self.push_span(t.clone(), st);
                }
            },
            MdEvent::Code(c) => {
                self.push_span(c.clone(), colored_style(MdColor::Yellow, Some(MdColor::DarkGray)));
            },
            MdEvent::SoftBreak | MdEvent::HardBreak => {
                self.flush();
            },
            MdEvent::Rule => {
                let mut spans: Vec<MdSpan> = Vec::new();
                spans.push(MdSpan { text: rule_string(), style: colored_style(MdColor::DarkGray, None) });
                let ghost sv = spans_v(spans@);
                assert(sv =~= seq![(rule_text(), colored(MdColor::DarkGray, None))]);
                self.push_line(spans);
                self.push_blank();
            },
            MdEvent::Other => {},
        }
    }
}

fn indent_text(n: usize) -> (r: String)
    ensures
        r@ == indent(n as nat),
{
    let mut s = String::new();
    let mut i: usize = 0;
    while i < n
        invariant
            i <= n,
            s@ == indent(i as nat),
        decreases n - i,
    {
        s.append("  ");
        i = i + 1;
    }
    s
}

fn rule_string() -> (r: String)
    ensures
        r@ == rule_text(),
{
    let mut cs: Vec<char> = Vec::new();
    let mut i: usize = 0;
    while i < 40
        invariant
            i <= 40,
            cs@ == Seq::new(i as nat, |k: int| '─'),
        decreases 40 - i,
    {
        cs.push('─');
        assert(cs@ =~= Seq::new((i + 1) as nat, |k: int| '─'));
        i = i + 1;
    }
    crate::text::string_of(cs.as_slice())
}

fn is_blank_line(l: &MdLine) -> (r: bool)
    ensures
        r == blank_line(line_v(*l)),
{
    let mut i: usize = 0;
    while i < l.spans.len()
        invariant
            i <= l.spans@.len(),
            forall|k: int| 0 <= k < i ==> (#[trigger] line_v(*l)[k]).0.len() == 0,
        decreases l.spans@.len() - i,
    {
        if !l.spans[i].text.as_str().is_empty() {
            assert(line_v(*l)[i as int].0.len() > 0);
            return false;
        }
        i = i + 1;
    }
    true
}

/// Lays out parser events (see `layout`).
pub fn render_events(events: &Vec<MdEvent>) -> (r: Vec<MdLine>)
    ensures
        lines_v(r@) == layout(md_event_views(events@)),
{
    let mut rd = Renderer {
        lines: Vec::new(),
        cur: Vec::new(),
        style: plain_style(),
        in_code: false,
        code: Vec::new(),
        depth: 0,
    };
    let ghost evs = md_event_views(events@);
    assert(rd.state() =~= md_init()) by {
        assert(lines_v(rd.lines@) =~= Seq::<LineV>::empty());
        assert(spans_v(rd.cur@) =~= Seq::<SpanV>::empty());
        assert(rd.code@.map_values(|s: String| s@) =~= Seq::<Seq<char>>::empty());
    }
    let mut i: usize = 0;
    while i < events.len()
        invariant
            i <= events@.len(),
            evs == md_event_views(events@),
            rd.depth <= i,
            rd.state() == md_fold(evs.take(i as int)),
        decreases events@.len() - i,
    {
        assert(evs.take(i + 1).drop_last() =~= evs.take(i as int));
        assert(evs.take(i + 1).last() == events@[i as int]@);
        rd.step(&events[i]);
        i = i + 1;
    }
    assert(evs.take(evs.len() as int) =~= evs);
    let mut lines = rd.lines;
    let ghost all = lines_v(lines@);
    while lines.len() > 0 && is_blank_line(&lines[lines.len() - 1])
        invariant
            trim_trailing(lines_v(lines@)) == trim_trailing(all),
        decreases lines@.len(),
    {
        let ghost before = lines_v(lines@);
        lines.pop();
        assert(lines_v(lines@) =~= before.drop_last());
    }
    if lines.len() == 0 {
        lines.push(MdLine { spans: Vec::new() });
        assert(lines_v(lines@) =~= seq![Seq::<SpanV>::empty()]);
    }
    lines
}

/// Lays out a Markdown text for the terminal: its parser events (see
/// `markdown_events`) laid out as `layout` says.
pub fn render_markdown(content: &str) -> (r: Vec<MdLine>)
    ensures
        lines_v(r@) == layout(markdown_parse(content@)),
{
    let events = markdown_events(content);
    render_events(&events)
}

/// Law: a layout is never empty and, beyond a single line, never ends with a
/// blank line.
pub proof fn lemma_layout_shape(evs: Seq<MdEventView>)
    ensures
        layout(evs).len() >= 1,
        layout(evs).len() > 1 ==> !blank_line(layout(evs).last()),
{
    lemma_trim_trailing(md_fold(evs).lines);
}

proof fn lemma_trim_trailing(lines: Seq<LineV>)
    ensures
        trim_trailing(lines).len() > 0 ==> !blank_line(trim_trailing(lines).last()),
    decreases lines.len(),
{
    if lines.len() > 0 && blank_line(lines.last()) {
        lemma_trim_trailing(lines.drop_last());
    }
}

/// The text last added to the current line after some events.
pub open spec fn last_span(evs: Seq<MdEventView>) -> SpanV {
    md_fold(evs).cur.last()
}

/// Law: outside a code block, text inside an emphasis tag is laid out in
/// italics, inside a strong tag in bold, inside a strikethrough tag crossed
/// out, each adding its modifier to the style in force and changing nothing
/// else of it; and closing any of them returns to the plain style.
pub proof fn lemma_inline_modifiers(evs: Seq<MdEventView>, name: Seq<char>, t: Seq<char>)
    requires
        !md_fold(evs).in_code,
    ensures
        ({
            let before = md_fold(evs).style;
            let after = evs.push(MdEventView::Start(name)).push(MdEventView::Text(t));
            let span = last_span(after);
            &&& (tag_of(name) == MdTag::Strong || tag_of(name) == MdTag::Emphasis || tag_of(name)
                == MdTag::Strikethrough) ==> span.0 == t
            &&& tag_of(name) == MdTag::Strong ==> span.1 == MdStyle { bold: true, ..before }
            &&& tag_of(name) == MdTag::Emphasis ==> span.1 == MdStyle { italic: true, ..before }
            &&& tag_of(name) == MdTag::Strikethrough ==> span.1 == MdStyle {
                crossed_out: true,
                ..before
            }
            &&& (tag_of(name) == MdTag::Strong || tag_of(name) == MdTag::Emphasis || tag_of(name)
                == MdTag::Strikethrough) ==> md_fold(evs.push(MdEventView::End(name))).style
                == MdStyle { fg: None, bg: None, bold: false, italic: false, crossed_out: false }
        }),
{
    let e1 = evs.push(MdEventView::Start(name));
    let e2 = e1.push(MdEventView::Text(t));
    assert(e2.drop_last() =~= e1);
    assert(e1.drop_last() =~= evs);
    assert(md_fold(e1) == md_step(md_fold(evs), MdEventView::Start(name)));
    assert(md_fold(e2) == md_step(md_fold(e1), MdEventView::Text(t)));
    let e3 = evs.push(MdEventView::End(name));
    assert(e3.drop_last() =~= evs);
    assert(md_fold(e3) == md_step(md_fold(evs), MdEventView::End(name)));
}

/// Law: the text of a heading is laid out in bold cyan on no background.
pub proof fn lemma_heading_style(evs: Seq<MdEventView>, name: Seq<char>, t: Seq<char>)
    requires
        !md_fold(evs).in_code,
        tag_of(name) == MdTag::Heading,
    ensures
        last_span(evs.push(MdEventView::Start(name)).push(MdEventView::Text(t))) == (
            t,
            MdStyle { fg: Some(MdColor::Cyan), bg: None, bold: true, italic: false, crossed_out: false },
        ),
{
    let e1 = evs.push(MdEventView::Start(name));
    let e2 = e1.push(MdEventView::Text(t));
    assert(e2.drop_last() =~= e1);
    assert(e1.drop_last() =~= evs);
    assert(md_fold(e1) == md_step(md_fold(evs), MdEventView::Start(name)));
    assert(md_fold(e2) == md_step(md_fold(e1), MdEventView::Text(t)));
}

} // verus!
