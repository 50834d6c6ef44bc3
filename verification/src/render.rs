use vstd::prelude::*;
use crate::markdown::{
    parse_link_spec, parse_markdown_link, strip_inline_latex_delimiters, strip_inline_latex_spec,
    strip_latex_block_delimiters, strip_latex_block_spec, strip_pair, strip_pair_spec,
};
use crate::text::{
    chars_of, chars_start_with, is_prefix, lines_of, lines_spec, split_chars, split_on, string_from_chars,
    string_from_range, trim, trim_start, trim_start_str, trim_str, views,
};

verus! {

/// The colours the terminal view uses.
#[derive(Clone, Copy, Debug, PartialEq, Eq, Structural)]
pub enum TuiColor {
    DarkGray,
    Gray,
    Cyan,
    LightYellow,
    LightMagenta,
    LightBlue,
    Black,
    Green,
    Magenta,
}

/// How a span of text is drawn: its colours and its modifiers.
#[derive(Clone, Copy, Debug, PartialEq, Eq, Structural)]
pub struct TuiStyle {
    pub fg: Option<TuiColor>,
    pub bg: Option<TuiColor>,
    pub bold: bool,
    pub italic: bool,
    pub underlined: bool,
}

impl TuiStyle {
    /// No colour and no modifier.
    pub open spec fn plain_spec() -> TuiStyle {
        TuiStyle { fg: None, bg: None, bold: false, italic: false, underlined: false }
    }

    /// No colour and no modifier.
    pub fn plain() -> (r: TuiStyle)
        ensures
            r == Self::plain_spec(),
    {
        TuiStyle { fg: None, bg: None, bold: false, italic: false, underlined: false }
    }

    /// This style with another foreground colour.
    pub fn fg(self, c: TuiColor) -> (r: TuiStyle)
        ensures
            r == (TuiStyle { fg: Some(c), ..self }),
    {
        TuiStyle { fg: Some(c), ..self }
    }

    /// This style with another background colour.
    pub fn bg(self, c: TuiColor) -> (r: TuiStyle)
        ensures
            r == (TuiStyle { bg: Some(c), ..self }),
    {
        TuiStyle { bg: Some(c), ..self }
    }

    /// This style, bold.
    pub fn bold(self) -> (r: TuiStyle)
        ensures
            r == (TuiStyle { bold: true, ..self }),
    {
        TuiStyle { bold: true, ..self }
    }

    /// This style, italic.
    pub fn italic(self) -> (r: TuiStyle)
        ensures
            r == (TuiStyle { italic: true, ..self }),
    {
        TuiStyle { italic: true, ..self }
    }

    /// This style, underlined.
    pub fn underlined(self) -> (r: TuiStyle)
        ensures
            r == (TuiStyle { underlined: true, ..self }),
    {
        TuiStyle { underlined: true, ..self }
    }
}

/// A piece of text drawn in one style.
pub struct StyledSpan {
    pub content: String,
    pub style: TuiStyle,
}

/// A line of the terminal view.
pub struct StyledLine {
    pub spans: Vec<StyledSpan>,
}

/// A span as plain values.
pub type SpanView = (Seq<char>, TuiStyle);

/// Spans as plain values.
pub open spec fn spans_view(s: Seq<StyledSpan>) -> Seq<SpanView> {
    s.map_values(|x: StyledSpan| (x.content@, x.style))
}

/// Lines as plain values.
pub open spec fn lines_view(l: Seq<StyledLine>) -> Seq<Seq<SpanView>> {
    l.map_values(|x: StyledLine| spans_view(x.spans@))
}

/// A span.
pub fn span(content: String, style: TuiStyle) -> (r: StyledSpan)
    ensures
        r.content == content,
        r.style == style,
{
    StyledSpan { content, style }
}

/// A line of one span.
pub fn line_of(content: String, style: TuiStyle) -> (r: StyledLine)
    ensures
        spans_view(r.spans@) == seq![(content@, style)],
{
    let mut spans: Vec<StyledSpan> = Vec::new();
    spans.push(StyledSpan { content, style });
    assert(spans_view(spans@) =~= seq![(content@, style)]);
    StyledLine { spans }
}

/// Adds a span to a list.
pub(crate) fn push_span(out: &mut Vec<StyledSpan>, s: StyledSpan)
    ensures
        spans_view(final(out)@) == spans_view(old(out)@).push((s.content@, s.style)),
{
    let ghost before = out@;
    out.push(s);
    assert(spans_view(out@) =~= spans_view(before).push((s.content@, s.style)));
}

/// Adds a line to a list.
pub(crate) fn push_line(out: &mut Vec<StyledLine>, l: StyledLine)
    ensures
        lines_view(final(out)@) == lines_view(old(out)@).push(spans_view(l.spans@)),
{
    let ghost before = out@;
    out.push(l);
    assert(lines_view(out@) =~= lines_view(before).push(spans_view(l.spans@)));
}

// ----- breaking spans into lines -----

/// Lines made so far, and the spans of the line being made.
pub struct SplitAcc {
    pub lines: Seq<Seq<SpanView>>,
    pub current: Seq<SpanView>,
}

/// A part of a span joins the current line, unless it is empty.
pub open spec fn add_part(acc: SplitAcc, part: Seq<char>, style: TuiStyle) -> SplitAcc {
    if part.len() > 0 {
        SplitAcc { lines: acc.lines, current: acc.current.push((part, style)) }
    } else {
        acc
    }
}

/// The parts of a span (its text between line breaks): each part after the
/// first starts a new line.
pub open spec fn add_parts(acc: SplitAcc, parts: Seq<Seq<char>>, style: TuiStyle) -> SplitAcc
    decreases parts.len(),
{
    if parts.len() == 0 {
        acc
    } else {
        let a = add_parts(acc, parts.drop_last(), style);
        let b = if parts.len() > 1 { SplitAcc { lines: a.lines.push(a.current), current: Seq::empty() } } else { a };
        add_part(b, parts.last(), style)
    }
}

/// The spans, one after another.
pub open spec fn add_spans(acc: SplitAcc, spans: Seq<SpanView>) -> SplitAcc
    decreases spans.len(),
{
    if spans.len() == 0 {
        acc
    } else {
        let a = add_spans(acc, spans.drop_last());
        add_parts(a, split_on(spans.last().0, '\n'), spans.last().1)
    }
}

/// Spans broken into lines at their line breaks, each piece keeping its
/// style and empty pieces dropped; the last line is kept even when empty.
pub open spec fn split_lines_spec(spans: Seq<SpanView>) -> Seq<Seq<SpanView>> {
    let a = add_spans(SplitAcc { lines: Seq::empty(), current: Seq::empty() }, spans);
    a.lines.push(a.current)
}

/// Breaks spans into lines at their line breaks (see `split_lines_spec`).
pub fn split_spans_by_newline(spans: Vec<StyledSpan>) -> (r: Vec<StyledLine>)
    ensures
        lines_view(r@) == split_lines_spec(spans_view(spans@)),
{
    let ghost sv = spans_view(spans@);
    let mut lines: Vec<StyledLine> = Vec::new();
    let mut current: Vec<StyledSpan> = Vec::new();
    let mut i: usize = 0;
    assert(sv.take(0) =~= Seq::<SpanView>::empty());
    assert(lines_view(lines@) =~= Seq::<Seq<SpanView>>::empty());
    assert(spans_view(current@) =~= Seq::<SpanView>::empty());
    while i < spans.len()
        invariant
            i <= spans.len(),
            sv == spans_view(spans@),
            add_spans(SplitAcc { lines: Seq::empty(), current: Seq::empty() }, sv.take(i as int))
                == (SplitAcc { lines: lines_view(lines@), current: spans_view(current@) }),
        decreases spans.len() - i,
    {
        let style = spans[i].style;
        let cv = chars_of(spans[i].content.as_str());
        let parts = split_chars(cv.as_slice(), '\n');
        let ghost start = SplitAcc { lines: lines_view(lines@), current: spans_view(current@) };
        proof {
            assert(sv.take(i + 1).drop_last() =~= sv.take(i as int));
            assert(sv.take(i + 1).last() == sv[i as int]);
        }
        let mut j: usize = 0;
        assert(views(parts@).take(0) =~= Seq::<Seq<char>>::empty());
        while j < parts.len()
            invariant
                j <= parts.len(),
                i < spans.len(),
                sv == spans_view(spans@),
                views(parts@) == split_on(sv[i as int].0, '\n'),
                sv[i as int].1 == style,
                add_parts(start, views(parts@).take(j as int), style)
                    == (SplitAcc { lines: lines_view(lines@), current: spans_view(current@) }),
            decreases parts.len() - j,
        {
            proof {
                let ps = views(parts@);
                assert(ps.take(j + 1).drop_last() =~= ps.take(j as int));
                assert(ps.take(j + 1).last() == parts@[j as int]@);
            }
            if j > 0 {
                let done = current;
                current = Vec::new();
                push_line(&mut lines, StyledLine { spans: done });
                assert(spans_view(current@) =~= Seq::<SpanView>::empty());
            }
            if parts[j].len() > 0 {
                let text = string_from_chars(parts[j].as_slice());
                push_span(&mut current, StyledSpan { content: text, style });
            }
            j = j + 1;
        }
        assert(views(parts@).take(parts.len() as int) =~= views(parts@));
        i = i + 1;
    }
    assert(sv.take(spans.len() as int) =~= sv);
    push_line(&mut lines, StyledLine { spans: current });
    lines
}

/// How many times `c` occurs in `s`.
pub open spec fn count_char(s: Seq<char>, c: char) -> nat
    decreases s.len(),
{
    if s.len() == 0 {
        0
    } else {
        count_char(s.drop_last(), c) + if s.last() == c { 1nat } else { 0nat }
    }
}

/// How many line breaks the spans hold.
pub open spec fn spans_breaks(spans: Seq<SpanView>) -> nat
    decreases spans.len(),
{
    if spans.len() == 0 {
        0
    } else {
        spans_breaks(spans.drop_last()) + count_char(spans.last().0, '\n')
    }
}

/// A split has one piece more than the separator occurs.
pub proof fn lemma_split_on_len(s: Seq<char>, sep: char)
    ensures
        split_on(s, sep).len() == count_char(s, sep) + 1,
    decreases s.len(),
{
    if s.len() > 0 {
        lemma_split_on_len(s.drop_last(), sep);
    }
}

proof fn lemma_add_parts_lines(acc: SplitAcc, parts: Seq<Seq<char>>, style: TuiStyle)
    requires
        parts.len() >= 1,
    ensures
        add_parts(acc, parts, style).lines.len() == acc.lines.len() + parts.len() - 1,
    decreases parts.len(),
{
    let a = add_parts(acc, parts.drop_last(), style);
    if parts.len() > 1 {
        lemma_add_parts_lines(acc, parts.drop_last(), style);
        let b = SplitAcc { lines: a.lines.push(a.current), current: Seq::empty() };
        assert(add_parts(acc, parts, style) == add_part(b, parts.last(), style));
    } else {
        assert(parts.drop_last().len() == 0);
        assert(a == acc);
        assert(add_parts(acc, parts, style) == add_part(a, parts.last(), style));
    }
}

proof fn lemma_add_spans_lines(spans: Seq<SpanView>)
    ensures
        add_spans(SplitAcc { lines: Seq::empty(), current: Seq::empty() }, spans).lines.len() == spans_breaks(spans),
    decreases spans.len(),
{
    if spans.len() > 0 {
        lemma_add_spans_lines(spans.drop_last());
        let a = add_spans(SplitAcc { lines: Seq::empty(), current: Seq::empty() }, spans.drop_last());
        lemma_split_on_len(spans.last().0, '\n');
        lemma_add_parts_lines(a, split_on(spans.last().0, '\n'), spans.last().1);
    }
}

/// Breaking spans into lines gives one line more than they hold line breaks.
pub proof fn law_split_lines_count(spans: Seq<SpanView>)
    ensures
        split_lines_spec(spans).len() == spans_breaks(spans) + 1,
{
    lemma_add_spans_lines(spans);
}

// ----- blocks -----

/// A line of one span.
pub open spec fn single(t: Seq<char>, style: TuiStyle) -> Seq<SpanView> {
    seq![(t, style)]
}

/// Each line of a text as a line of one span in `style`.
pub open spec fn plain_lines_spec(content: Seq<char>, style: TuiStyle) -> Seq<Seq<SpanView>> {
    lines_spec(content).map_values(|l: Seq<char>| single(l, style))
}

/// Each line of `content` as a line of one span in `style`.
pub fn render_plain_lines(content: &str, style: TuiStyle) -> (r: Vec<StyledLine>)
    ensures
        lines_view(r@) == plain_lines_spec(content@, style),
{
    let v = chars_of(content);
    let ls = lines_of(v.as_slice());
    let mut out: Vec<StyledLine> = Vec::new();
    let mut i: usize = 0;
    while i < ls.len()
        invariant
            i <= ls.len(),
            views(ls@) == lines_spec(content@),
            v@ == content@,
            lines_view(out@) == plain_lines_spec(content@, style).take(i as int),
        decreases ls.len() - i,
    {
        let t = string_from_chars(ls[i].as_slice());
        push_line(&mut out, line_of(t, style));
        proof {
            assert(plain_lines_spec(content@, style).take(i + 1) =~= plain_lines_spec(content@, style).take(i as int).push(
                single(ls@[i as int]@, style)));
        }
        i = i + 1;
    }
    assert(plain_lines_spec(content@, style).take(ls.len() as int) =~= plain_lines_spec(content@, style));
    out
}

/// The style of code: light yellow on black.
pub open spec fn code_style() -> TuiStyle {
    TuiStyle { fg: Some(TuiColor::LightYellow), bg: Some(TuiColor::Black), ..TuiStyle::plain_spec() }
}

/// The style of frames: dark gray.
pub open spec fn frame_style() -> TuiStyle {
    TuiStyle { fg: Some(TuiColor::DarkGray), ..TuiStyle::plain_spec() }
}

/// The style of titles: dark gray and bold.
pub open spec fn title_style() -> TuiStyle {
    TuiStyle { fg: Some(TuiColor::DarkGray), bold: true, ..TuiStyle::plain_spec() }
}

/// The lines of a code block after its first: fence lines are dropped,
/// others indented by two spaces.
pub open spec fn code_body(rest: Seq<Seq<char>>) -> Seq<Seq<SpanView>>
    decreases rest.len(),
{
    if rest.len() == 0 {
        Seq::empty()
    } else {
        let init = code_body(rest.drop_last());
        let raw = rest.last();
        if is_prefix("```"@, trim_start(raw)) {
            init
        } else {
            init.push(single("  "@ + raw, code_style()))
        }
    }
}

/// The language named on a code block's first line (after its fence).
pub open spec fn code_language(content: Seq<char>) -> Seq<char> {
    let ls = lines_spec(content);
    let first = if ls.len() > 0 { ls[0] } else { Seq::empty() };
    let f = trim_start(first);
    if is_prefix("```"@, f) { trim(f.skip("```"@.len() as int)) } else { Seq::empty() }
}

/// A code block: a title naming its language, its lines indented and in the
/// code style, and a closing fence.
pub open spec fn code_block_spec(content: Seq<char>) -> Seq<Seq<SpanView>> {
    let ls = lines_spec(content);
    let language = code_language(content);
    let title = if language.len() == 0 { "``` code"@ } else { "``` code "@ + language };
    let rest = if ls.len() > 0 { ls.skip(1) } else { Seq::empty() };
    seq![single(title, title_style())] + code_body(rest) + seq![single("```"@, frame_style())]
}

/// The lines of a code block (see `code_block_spec`).
pub fn render_code_block(content: &str, lines: &mut Vec<StyledLine>)
    ensures
        lines_view(final(lines)@) == lines_view(old(lines)@) + code_block_spec(content@),
{
    proof {
        reveal_strlit("```");
    }
    let ghost start = lines_view(lines@);
    let v = chars_of(content);
    let ls = lines_of(v.as_slice());
    let fence = chars_of("```");
    let language = if ls.len() > 0 {
        let first = string_from_chars(ls[0].as_slice());
        let f = trim_start_str(first.as_str());
        let fv = chars_of(f.as_str());
        if chars_start_with(fv.as_slice(), fence.as_slice()) {
            let after = string_from_range(fv.as_slice(), 3, fv.len());
            assert(after@ =~= f@.skip(3));
            trim_str(after.as_str())
        } else {
            String::new()
        }
    } else {
        String::new()
    };
    assert(language@ == code_language(content@));
    let title = if language.as_str().unicode_len() == 0 {
        String::from_str("``` code")
    } else {
        let mut t = String::from_str("``` code ");
        t.append(language.as_str());
        t
    };
    let heading = TuiStyle::plain().fg(TuiColor::DarkGray).bold();
    push_line(lines, line_of(title, heading));
    let ghost rest = if ls@.len() > 0 { views(ls@).skip(1) } else { Seq::<Seq<char>>::empty() };
    let mut i: usize = 1;
    proof {
        if ls@.len() > 0 {
            assert(rest.take(0) =~= Seq::<Seq<char>>::empty());
        }
    }
    let body_style = TuiStyle::plain().fg(TuiColor::LightYellow).bg(TuiColor::Black);
    while i < ls.len()
        invariant
            1 <= i,
            i <= ls.len() || ls.len() == 0,
            views(ls@) == lines_spec(content@),
            ls@.len() > 0 ==> rest == views(ls@).skip(1),
            ls@.len() == 0 ==> rest.len() == 0 && i == 1,
            fence@ == "```"@,
            body_style == code_style(),
            lines_view(lines@) == start + seq![single(title@, title_style())] + code_body(rest.take(i - 1)),
        decreases ls.len() - i,
    {
        let raw = string_from_chars(ls[i].as_slice());
        let t = trim_start_str(raw.as_str());
        let tv = chars_of(t.as_str());
        proof {
            assert(rest[i - 1] == ls@[i as int]@);
            assert(rest.take(i as int).drop_last() =~= rest.take(i - 1));
            assert(rest.take(i as int).last() == raw@);
        }
        let ghost before = lines_view(lines@);
        proof {
            let rt = rest.take(i as int);
            assert(rt.len() == i);
            assert(rt.len() > 0);
            assert(code_body(rt) == if is_prefix("```"@, trim_start(rt.last())) {
                code_body(rt.drop_last())
            } else {
                code_body(rt.drop_last()).push(single("  "@ + rt.last(), code_style()))
            });
        }
        if !chars_start_with(tv.as_slice(), fence.as_slice()) {
            let mut indented = String::from_str("  ");
            indented.append(raw.as_str());
            push_line(lines, line_of(indented, body_style));
            proof {
                assert(code_body(rest.take(i as int)) == code_body(rest.take(i - 1)).push(
                    single("  "@ + raw@, code_style())));
                assert(lines_view(lines@) =~= start + seq![single(title@, title_style())] + code_body(rest.take(i as int)));
            }
        } else {
            proof {
                assert(code_body(rest.take(i as int)) == code_body(rest.take(i - 1)));
            }
        }
        i = i + 1;
    }
    proof {
        assert(views(ls@).len() == ls@.len());
        if ls@.len() > 0 {
            assert(i == ls@.len());
            assert(rest.len() == i - 1);
            assert(rest.take(i - 1) =~= rest);
        } else {
            assert(rest.take(i - 1) =~= rest);
        }
    }
    push_line(lines, line_of(String::from_str("```"), TuiStyle::plain().fg(TuiColor::DarkGray)));
    assert(lines_view(lines@) =~= start + code_block_spec(content@));
}

/// The style of formulas: light magenta.
pub open spec fn latex_style() -> TuiStyle {
    TuiStyle { fg: Some(TuiColor::LightMagenta), ..TuiStyle::plain_spec() }
}

/// A formula block: `$$`, the formula's lines, `$$`.
pub open spec fn latex_block_spec(content: Seq<char>) -> Seq<Seq<SpanView>> {
    seq![single("$$"@, title_style())] + plain_lines_spec(strip_latex_block_spec(content), latex_style())
        + seq![single("$$"@, frame_style())]
}

/// The lines of a formula block (see `latex_block_spec`).
pub fn render_latex_block(content: &str, lines: &mut Vec<StyledLine>)
    ensures
        lines_view(final(lines)@) == lines_view(old(lines)@) + latex_block_spec(content@),
{
    let ghost start = lines_view(lines@);
    push_line(lines, line_of(String::from_str("$$"), TuiStyle::plain().fg(TuiColor::DarkGray).bold()));
    let inner = strip_latex_block_delimiters(content);
    let mut body = render_plain_lines(inner.as_str(), TuiStyle::plain().fg(TuiColor::LightMagenta));
    let ghost mid = lines_view(lines@);
    let ghost added = lines_view(body@);
    lines.append(&mut body);
    assert(lines_view(lines@) =~= mid + added);
    push_line(lines, line_of(String::from_str("$$"), TuiStyle::plain().fg(TuiColor::DarkGray)));
    assert(lines_view(lines@) =~= start + latex_block_spec(content@));
}

// ----- inline text -----

/// The kinds of markdown pieces.
#[derive(Clone, Copy, Debug, PartialEq, Eq, Structural)]
pub enum MarkdownProcessorType {
    Header,
    BlockQuote,
    CodeBlock,
    OrderedList,
    UnorderedList,
    HorizontalRule,
    BlockLatex,
    Table,
    XmlBlock,
    Image,
    PlainText,
    HtmlBreak,
    Bold,
    Italic,
    InlineCode,
    Link,
    Strikethrough,
    Underline,
    InlineLatex,
}

/// A piece of inline markdown: its kind and its source text.
pub struct MarkdownInlineNode {
    pub node_type: MarkdownProcessorType,
    pub content: String,
}

/// Nodes as plain values.
pub open spec fn nodes_view(n: Seq<MarkdownInlineNode>) -> Seq<(MarkdownProcessorType, Seq<char>)> {
    n.map_values(|x: MarkdownInlineNode| (x.node_type, x.content@))
}

/// `c` without the delimiter `d` around it, or `c` itself.
pub open spec fn pair_or(c: Seq<char>, d: Seq<char>) -> Seq<char> {
    match strip_pair_spec(c, d) {
        Some(x) => x,
        None => c,
    }
}

/// The style of link labels: light blue, underlined.
pub open spec fn link_style() -> TuiStyle {
    TuiStyle { fg: Some(TuiColor::LightBlue), underlined: true, ..TuiStyle::plain_spec() }
}

/// The style of image labels: light magenta, bold.
pub open spec fn image_style() -> TuiStyle {
    TuiStyle { fg: Some(TuiColor::LightMagenta), bold: true, ..TuiStyle::plain_spec() }
}

/// A link: its label, then its address in brackets; the text as it is when
/// it is not a link.
pub open spec fn link_spans_spec(c: Seq<char>) -> Seq<SpanView> {
    match parse_link_spec(c) {
        None => seq![(c, TuiStyle::plain_spec())],
        Some((l, u)) => seq![(l, link_style()), (" ("@ + u + ")"@, frame_style())],
    }
}

/// An image: `[image: label]`, then its address; the text as it is when it
/// is not an image link.
pub open spec fn image_spans_spec(c: Seq<char>) -> Seq<SpanView> {
    let t = if c.len() > 0 && c[0] == '!' { c.drop_first() } else { c };
    match parse_link_spec(t) {
        None => seq![(c, latex_style())],
        Some((l, u)) => seq![("[image: "@ + l + "]"@, image_style()), (" "@ + u, frame_style())],
    }
}

/// The spans of one inline node, in the given base style.
pub open spec fn node_spans(n: (MarkdownProcessorType, Seq<char>), base: TuiStyle) -> Seq<SpanView> {
    let c = n.1;
    match n.0 {
        MarkdownProcessorType::Bold => seq![(pair_or(c, "**"@), TuiStyle { bold: true, ..base })],
        MarkdownProcessorType::Italic => seq![(pair_or(c, "*"@), TuiStyle { italic: true, ..base })],
        MarkdownProcessorType::InlineCode => seq![(pair_or(c, "`"@), code_style())],
        MarkdownProcessorType::Link => link_spans_spec(c),
        MarkdownProcessorType::Image => image_spans_spec(c),
        MarkdownProcessorType::Strikethrough => seq![(pair_or(c, "~~"@), TuiStyle { fg: Some(TuiColor::DarkGray), ..base })],
        MarkdownProcessorType::Underline => seq![(pair_or(c, "__"@), TuiStyle { underlined: true, ..base })],
        MarkdownProcessorType::InlineLatex => seq![(strip_inline_latex_spec(c), latex_style())],
        _ => seq![(c, base)],
    }
}

/// The spans of inline nodes, one after another.
pub open spec fn nodes_spans(nodes: Seq<(MarkdownProcessorType, Seq<char>)>, base: TuiStyle) -> Seq<SpanView>
    decreases nodes.len(),
{
    if nodes.len() == 0 {
        Seq::empty()
    } else {
        nodes_spans(nodes.drop_last(), base) + node_spans(nodes.last(), base)
    }
}

/// The spans of inline nodes; one empty span when there are none.
pub open spec fn inline_spans_spec(nodes: Seq<(MarkdownProcessorType, Seq<char>)>, base: TuiStyle) -> Seq<SpanView> {
    let s = nodes_spans(nodes, base);
    if s.len() == 0 { seq![(Seq::empty(), TuiStyle::plain_spec())] } else { s }
}

/// The spans of a link (see `link_spans_spec`).
pub fn render_link_spans(content: &str) -> (r: Vec<StyledSpan>)
    ensures
        spans_view(r@) == link_spans_spec(content@),
{
    let mut out: Vec<StyledSpan> = Vec::new();
    match parse_markdown_link(content) {
        None => {
            push_span(&mut out, span(String::from_str(content), TuiStyle::plain()));
        },
        Some((label, url)) => {
            push_span(&mut out, span(label, TuiStyle::plain().fg(TuiColor::LightBlue).underlined()));
            let mut tail = String::from_str(" (");
            tail.append(url.as_str());
            tail.append(")");
            push_span(&mut out, span(tail, TuiStyle::plain().fg(TuiColor::DarkGray)));
        },
    }
    assert(spans_view(out@) =~= link_spans_spec(content@));
    out
}

/// The spans of an image (see `image_spans_spec`).
pub fn render_image_spans(content: &str) -> (r: Vec<StyledSpan>)
    ensures
        spans_view(r@) == image_spans_spec(content@),
{
    let v = chars_of(content);
    let text = if v.len() > 0 && v[0] == '!' {
        let t = string_from_range(v.as_slice(), 1, v.len());
        assert(t@ =~= content@.drop_first());
        t
    } else {
        String::from_str(content)
    };
    let mut out: Vec<StyledSpan> = Vec::new();
    match parse_markdown_link(text.as_str()) {
        None => {
            push_span(&mut out, span(String::from_str(content), TuiStyle::plain().fg(TuiColor::LightMagenta)));
        },
        Some((label, url)) => {
            let mut head = String::from_str("[image: ");
            head.append(label.as_str());
            head.append("]");
            push_span(&mut out, span(head, TuiStyle::plain().fg(TuiColor::LightMagenta).bold()));
            let mut tail = String::from_str(" ");
            tail.append(url.as_str());
            push_span(&mut out, span(tail, TuiStyle::plain().fg(TuiColor::DarkGray)));
        },
    }
    assert(spans_view(out@) =~= image_spans_spec(content@));
    out
}

/// `content` without the delimiter around it, or as it is.
fn unpair(content: &String, d: &str) -> (r: String)
    ensures
        r@ == pair_or(content@, d@),
{
    match strip_pair(content.as_str(), d) {
        Some(x) => x,
        None => content.clone(),
    }
}

/// The spans of one inline node (see `node_spans`).
fn render_node_spans(node: &MarkdownInlineNode, base: TuiStyle, out: &mut Vec<StyledSpan>)
    ensures
        spans_view(final(out)@) == spans_view(old(out)@) + node_spans((node.node_type, node.content@), base),
{
    let ghost start = spans_view(out@);
    match node.node_type {
        MarkdownProcessorType::Bold => push_span(out, span(unpair(&node.content, "**"), base.bold())),
        MarkdownProcessorType::Italic => push_span(out, span(unpair(&node.content, "*"), base.italic())),
        MarkdownProcessorType::InlineCode => push_span(
            out,
            span(unpair(&node.content, "`"), TuiStyle::plain().fg(TuiColor::LightYellow).bg(TuiColor::Black)),
        ),
        MarkdownProcessorType::Link => {
            let mut more = render_link_spans(node.content.as_str());
            let ghost added = spans_view(more@);
            out.append(&mut more);
            assert(spans_view(out@) =~= start + added);
        },
        MarkdownProcessorType::Image => {
            let mut more = render_image_spans(node.content.as_str());
            let ghost added = spans_view(more@);
            out.append(&mut more);
            assert(spans_view(out@) =~= start + added);
        },
        MarkdownProcessorType::Strikethrough => push_span(out, span(unpair(&node.content, "~~"), base.fg(TuiColor::DarkGray))),
        MarkdownProcessorType::Underline => push_span(out, span(unpair(&node.content, "__"), base.underlined())),
        MarkdownProcessorType::InlineLatex => push_span(
            out,
            span(strip_inline_latex_delimiters(node.content.as_str()), TuiStyle::plain().fg(TuiColor::LightMagenta)),
        ),
        _ => push_span(out, span(node.content.clone(), base)),
    }
    assert(spans_view(out@) =~= start + node_spans((node.node_type, node.content@), base));
}

/// The spans of inline nodes (see `inline_spans_spec`).
pub fn render_inline_spans(nodes: &Vec<MarkdownInlineNode>, base_style: TuiStyle) -> (r: Vec<StyledSpan>)
    ensures
        spans_view(r@) == inline_spans_spec(nodes_view(nodes@), base_style),
{
    let ghost nv = nodes_view(nodes@);
    let mut out: Vec<StyledSpan> = Vec::new();
    let mut i: usize = 0;
    assert(nv.take(0) =~= Seq::<(MarkdownProcessorType, Seq<char>)>::empty());
    assert(spans_view(out@) =~= Seq::<SpanView>::empty());
    while i < nodes.len()
        invariant
            i <= nodes.len(),
            nv == nodes_view(nodes@),
            spans_view(out@) == nodes_spans(nv.take(i as int), base_style),
        decreases nodes.len() - i,
    {
        render_node_spans(&nodes[i], base_style, &mut out);
        proof {
            assert(nv.take(i + 1).drop_last() =~= nv.take(i as int));
            assert(nv.take(i + 1).last() == (nodes@[i as int].node_type, nodes@[i as int].content@));
        }
        i = i + 1;
    }
    assert(nv.take(nodes.len() as int) =~= nv);
    if out.len() == 0 {
        push_span(&mut out, span(String::new(), TuiStyle::plain()));
    }
    out
}

/// The lines of inline nodes: their spans broken at line breaks.
pub fn render_inline_nodes(nodes: &Vec<MarkdownInlineNode>, base_style: TuiStyle) -> (r: Vec<StyledLine>)
    ensures
        lines_view(r@) == split_lines_spec(inline_spans_spec(nodes_view(nodes@), base_style)),
{
    let spans = render_inline_spans(nodes, base_style);
    split_spans_by_newline(spans)
}

// ----- the transcript -----

/// What the transcript shows of a chat message: who sent it, the role name,
/// the model that wrote it, its output tokens, and its text (or, while it
/// streams, what has come so far).
pub struct ChatMessageHeader {
    pub sender: String,
    pub roleName: String,
    pub provider: String,
    pub modelName: String,
    pub outputTokens: i32,
    pub content: String,
}

/// The name a message is shown under: its role name (trimmed) or its sender.
pub open spec fn shown_sender(m: ChatMessageHeader) -> Seq<char> {
    if trim(m.roleName@).len() == 0 {
        m.sender@
    } else {
        trim(m.roleName@)
    }
}

/// The colour of a sender: green for the user, cyan for the model, magenta
/// for anyone else.
pub open spec fn sender_color(sender: Seq<char>) -> TuiColor {
    if sender == "user"@ {
        TuiColor::Green
    } else if sender == "ai"@ {
        TuiColor::Cyan
    } else {
        TuiColor::Magenta
    }
}

/// `part` added to `meta`, after ` / ` when `meta` already holds something.
pub open spec fn meta_add(meta: Seq<char>, part: Seq<char>) -> Seq<char> {
    if meta.len() == 0 {
        part
    } else {
        meta + " / "@ + part
    }
}

/// What the header says of the model: provider, model name and
/// `out=<tokens>`, each when present, separated by ` / `.
pub open spec fn header_meta(m: ChatMessageHeader) -> Seq<char> {
    let a: Seq<char> = if trim(m.provider@).len() == 0 { Seq::empty() } else { m.provider@ };
    let b: Seq<char> = if trim(m.modelName@).len() == 0 { a } else { meta_add(a, m.modelName@) };
    if m.outputTokens > 0 {
        meta_add(b, "out="@ + crate::link::decimal_padded(m.outputTokens as nat, 1))
    } else {
        b
    }
}

/// The header line of a message: the sender in bold colour, then the meta in grey.
pub open spec fn header_line_spec(m: ChatMessageHeader) -> Seq<SpanView> {
    seq![
        (shown_sender(m) + ": "@, TuiStyle { fg: Some(sender_color(m.sender@)), bold: true, ..TuiStyle::plain_spec() }),
        (header_meta(m), TuiStyle { fg: Some(TuiColor::DarkGray), ..TuiStyle::plain_spec() }),
    ]
}

/// An empty line.
pub open spec fn blank_line_spec() -> Seq<SpanView> {
    seq![(Seq::<char>::empty(), TuiStyle::plain_spec())]
}

/// The lines of one message: its header, its rendered text, an empty line
/// for a message with no text, and an empty line after it.
pub open spec fn message_block_spec(m: ChatMessageHeader, body: Seq<Seq<SpanView>>) -> Seq<Seq<SpanView>> {
    seq![header_line_spec(m)] + body + (if m.content@.len() == 0 { seq![blank_line_spec()] } else { Seq::empty() })
        + seq![blank_line_spec()]
}

/// The lines of the messages, one block after another.
pub open spec fn transcript_spec(ms: Seq<ChatMessageHeader>, bodies: Seq<Seq<Seq<SpanView>>>) -> Seq<Seq<SpanView>>
    decreases ms.len(),
{
    if ms.len() == 0 || bodies.len() == 0 {
        Seq::empty()
    } else {
        transcript_spec(ms.drop_last(), bodies.drop_last()) + message_block_spec(ms.last(), bodies.last())
    }
}

/// The lines of each message's text.
pub open spec fn body_views(bodies: Seq<Vec<StyledLine>>) -> Seq<Seq<Seq<SpanView>>> {
    bodies.map_values(|b: Vec<StyledLine>| lines_view(b@))
}

/// What the transcript shows before the first message.
pub open spec fn no_messages_spec() -> Seq<Seq<SpanView>> {
    seq![seq![("No messages yet. Type below to start."@, TuiStyle { fg: Some(TuiColor::DarkGray), ..TuiStyle::plain_spec() })]]
}

fn is_blank_text(v: &str) -> (r: bool)
    ensures
        r == (trim(v@).len() == 0),
{
    let t = trim_str(v);
    t.unicode_len() == 0
}

/// The header line of a message.
pub fn message_header_line(m: &ChatMessageHeader) -> (r: StyledLine)
    ensures
        spans_view(r.spans@) == header_line_spec(*m),
{
    proof {
        reveal_strlit("user");
        reveal_strlit("ai");
        reveal_strlit(": ");
        reveal_strlit(" / ");
        reveal_strlit("out=");
    }
    let role = trim_str(m.roleName.as_str());
    let mut shown = if role.unicode_len() == 0 {
        m.sender.clone()
    } else {
        role
    };
    shown.append(": ");
    let color = if crate::text::str_eq(m.sender.as_str(), "user") {
        TuiColor::Green
    } else if crate::text::str_eq(m.sender.as_str(), "ai") {
        TuiColor::Cyan
    } else {
        TuiColor::Magenta
    };
    let mut meta = String::new();
    if !is_blank_text(m.provider.as_str()) {
        meta.append(m.provider.as_str());
    }
    assert(meta@ == (if trim(m.provider@).len() == 0 { Seq::<char>::empty() } else { m.provider@ }));
    if !is_blank_text(m.modelName.as_str()) {
        if meta.unicode_len() > 0 {
            meta.append(" / ");
        }
        meta.append(m.modelName.as_str());
    }
    let ghost a: Seq<char> = if trim(m.provider@).len() == 0 { Seq::<char>::empty() } else { m.provider@ };
    assert(meta@ == (if trim(m.modelName@).len() == 0 { a } else { meta_add(a, m.modelName@) }));
    let ghost b = meta@;
    if m.outputTokens > 0 {
        if meta.unicode_len() > 0 {
            meta.append(" / ");
        }
        meta.append("out=");
        let digits = crate::mdns::decimal_text(m.outputTokens as u64);
        meta.append(digits.as_str());
        assert(meta@ == meta_add(b, "out="@ + crate::link::decimal_padded(m.outputTokens as nat, 1)));
    }
    assert(meta@ == header_meta(*m));
    assert(shown@ == shown_sender(*m) + ": "@);
    assert(color == sender_color(m.sender@));
    let mut spans: Vec<StyledSpan> = Vec::new();
    push_span(&mut spans, span(shown, TuiStyle::plain().fg(color).bold()));
    push_span(&mut spans, span(meta, TuiStyle::plain().fg(TuiColor::DarkGray)));
    StyledLine { spans }
}

/// The transcript's lines: a hint when there is no message; else each
/// message's header, its lines (`bodies`, one list per message: its text
/// rendered), an empty line for a message with no text, and an empty line.
pub fn render_message_lines(messages: &Vec<ChatMessageHeader>, bodies: Vec<Vec<StyledLine>>) -> (r: Vec<StyledLine>)
    requires
        bodies@.len() == messages@.len(),
    ensures
        messages@.len() == 0 ==> lines_view(r@) == no_messages_spec(),
        messages@.len() > 0 ==> lines_view(r@) == transcript_spec(
            messages@,
            body_views(bodies@),
        ),
{
    let ghost bv = body_views(bodies@);
    let mut out: Vec<StyledLine> = Vec::new();
    if messages.len() == 0 {
        push_line(&mut out, line_of(String::from_str("No messages yet. Type below to start."), TuiStyle::plain().fg(TuiColor::DarkGray)));
        proof {
            reveal_strlit("No messages yet. Type below to start.");
        }
        return out;
    }
    let mut rest = bodies;
    let mut k: usize = 0;
    assert(messages@.subrange(0, 0) =~= Seq::<ChatMessageHeader>::empty());
    while k < messages.len()
        invariant
            k <= messages.len(),
            rest@.len() == messages.len() - k,
            bv.len() == messages.len(),
            body_views(rest@) == bv.subrange(k as int, bv.len() as int),
            lines_view(out@) == transcript_spec(messages@.subrange(0, k as int), bv.subrange(0, k as int)),
        decreases messages.len() - k,
    {
        let ghost before = lines_view(out@);
        let ghost r0 = rest@;
        let mut body = rest.remove(0);
        assert(rest@ =~= r0.subrange(1, r0.len() as int));
        assert(body_views(r0)[0] == lines_view(body@));
        assert(body_views(rest@) =~= body_views(r0).subrange(1, r0.len() as int));
        assert(body_views(rest@) =~= bv.subrange(k + 1, bv.len() as int));
        let m = &messages[k];
        push_line(&mut out, message_header_line(m));
        let ghost bodyv = lines_view(body@);
        let ghost mid = lines_view(out@);
        let mut j: usize = 0;
        let n = body.len();
        let mut taken: Vec<StyledLine> = Vec::new();
        std::mem::swap(&mut taken, &mut body);
        let mut remaining = taken;
        while remaining.len() > 0
            invariant
                j + remaining@.len() == n,
                n == bodyv.len(),
                lines_view(remaining@) == bodyv.subrange(j as int, n as int),
                lines_view(out@) == mid + bodyv.subrange(0, j as int),
            decreases remaining.len(),
        {
            let ghost rv = remaining@;
            let l = remaining.remove(0);
            assert(remaining@ =~= rv.subrange(1, rv.len() as int));
            assert(lines_view(rv)[0] == spans_view(l.spans@));
            assert(lines_view(remaining@) =~= lines_view(rv).subrange(1, rv.len() as int));
            assert(lines_view(remaining@) =~= bodyv.subrange(j + 1, n as int));
            push_line(&mut out, l);
            assert(bodyv.subrange(0, j + 1) =~= bodyv.subrange(0, j as int).push(bodyv[j as int]));
            j = j + 1;
        }
        assert(bodyv.subrange(0, n as int) =~= bodyv);
        if m.content.unicode_len() == 0 {
            push_line(&mut out, line_of(String::new(), TuiStyle::plain()));
        }
        push_line(&mut out, line_of(String::new(), TuiStyle::plain()));
        proof {
            let ms = messages@.subrange(0, k + 1);
            let bs = bv.subrange(0, k + 1);
            assert(ms.drop_last() =~= messages@.subrange(0, k as int));
            assert(bs.drop_last() =~= bv.subrange(0, k as int));
            assert(ms.last() == messages@[k as int]);
            assert(bs.last() == bodyv);
            assert(lines_view(out@) =~= before + message_block_spec(messages@[k as int], bodyv));
        }
        k = k + 1;
    }
    assert(messages@.subrange(0, messages.len() as int) =~= messages@);
    assert(bv.subrange(0, messages.len() as int) =~= bv);
    out
}

} // verus!
