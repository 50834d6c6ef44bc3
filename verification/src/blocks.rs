use vstd::prelude::*;
use crate::markdown::{
    split_ordered_marker, split_ordered_spec, strip_bars, strip_lead, strip_trail, strip_unordered_marker,
    strip_unordered_spec, table_separator_spec, is_table_separator,
};
use crate::render::{
    inline_spans_spec, lines_view, nodes_view, plain_lines_spec, push_line, push_span, render_inline_nodes,
    render_inline_spans, render_plain_lines, span, spans_view, split_lines_spec, MarkdownInlineNode, SpanView,
    StyledLine, StyledSpan, TuiColor, TuiStyle,
};
use crate::text::{
    chars_of, lines_of, lines_spec, split_chars, split_on, string_from_chars, string_from_range, trim, trim_end,
    trim_start, trim_str, views,
};

verus! {

// ----- block renderers of the terminal transcript -----

/// Grey text.
pub open spec fn grey() -> TuiStyle {
    TuiStyle { fg: Some(TuiColor::DarkGray), ..TuiStyle::plain_spec() }
}

/// The rule drawn for `---` and under a table's header.
pub open spec fn rule_line() -> Seq<SpanView> {
    seq![("--------------------------------"@, grey())]
}

/// Draws a horizontal rule.
pub fn render_horizontal_rule(lines: &mut Vec<StyledLine>)
    ensures
        lines_view(final(lines)@) == lines_view(old(lines)@).push(rule_line()),
{
    let mut spans: Vec<StyledSpan> = Vec::new();
    push_span(&mut spans, span(String::from_str("--------------------------------"), TuiStyle::plain().fg(TuiColor::DarkGray)));
    assert(spans_view(spans@) =~= rule_line());
    push_line(lines, StyledLine { spans });
}

/// `n` copies of `c`.
pub open spec fn repeat_char(c: char, n: nat) -> Seq<char> {
    Seq::new(n, |i: int| c)
}

/// The level of a header: the `#` it starts with, kept between one and six.
pub open spec fn header_level_spec(content: Seq<char>) -> int {
    let t = trim_start(content);
    let count = t.len() - strip_lead(t, '#').len();
    if count < 1 {
        1
    } else if count > 6 {
        6
    } else {
        count
    }
}

/// The text of a header after its level's `#`. With no `#`, one character is
/// skipped when it is a single byte, else the text is empty (a byte
/// position inside a character gives nothing).
pub open spec fn header_text_spec(content: Seq<char>) -> Seq<char> {
    let t = trim_start(content);
    let count = t.len() - strip_lead(t, '#').len();
    if count >= 1 {
        trim_start(t.skip(header_level_spec(content)))
    } else if t.len() > 0 && (t[0] as u32) < 128 {
        trim_start(t.skip(1))
    } else {
        Seq::empty()
    }
}

/// The level and text of a header line.
pub fn header_parts(content: &str) -> (r: (usize, String))
    ensures
        r.0 as int == header_level_spec(content@),
        r.1@ == header_text_spec(content@),
{
    let t = crate::text::trim_start_str(content);
    let v = chars_of(t.as_str());
    let mut count: usize = 0;
    assert(v@.skip(0) =~= v@);
    while count < v.len() && v[count] == '#'
        invariant
            count <= v.len(),
            v@ == t@,
            strip_lead(v@, '#') == strip_lead(v@.skip(count as int), '#'),
        decreases v.len() - count,
    {
        assert(v@.skip(count as int).drop_first() =~= v@.skip(count + 1));
        count = count + 1;
    }
    proof {
        let s = v@.skip(count as int);
        assert(strip_lead(s, '#') == s) by {
            if s.len() > 0 {
                assert(s[0] == v@[count as int]);
            }
        }
        assert(v@.len() - strip_lead(v@, '#').len() == count);
    }
    let level: usize = if count < 1 {
        1
    } else if count > 6 {
        6
    } else {
        count
    };
    if count >= 1 {
        let rest = string_from_range(v.as_slice(), level, v.len());
        assert(rest@ =~= t@.skip(level as int));
        return (level, crate::text::trim_start_str(rest.as_str()));
    }
    if v.len() > 0 && (v[0] as u32) < 128 {
        let rest = string_from_range(v.as_slice(), 1, v.len());
        assert(rest@ =~= t@.skip(1));
        return (level, crate::text::trim_start_str(rest.as_str()));
    }
    (level, String::new())
}

/// The line of a header of `level` whose text is made of `nodes`: as many
/// `#` as the level (four at most), then the text in bold cyan.
pub open spec fn header_line_of(level: int, nodes: Seq<(crate::render::MarkdownProcessorType, Seq<char>)>) -> Seq<SpanView> {
    seq![(repeat_char('#', (if level < 4 { level } else { 4 }) as nat) + seq![' '], grey())]
        + inline_spans_spec(nodes, TuiStyle { fg: Some(TuiColor::Cyan), bold: true, ..TuiStyle::plain_spec() })
}

/// Draws a header of `level` whose text is made of `nodes`.
pub fn render_header(level: usize, nodes: &Vec<MarkdownInlineNode>, lines: &mut Vec<StyledLine>)
    requires
        1 <= level <= 6,
    ensures
        lines_view(final(lines)@) == lines_view(old(lines)@).push(header_line_of(level as int, nodes_view(nodes@))),
{
    let shown: usize = if level < 4 {
        level
    } else {
        4
    };
    let mut prefix = String::new();
    let mut i: usize = 0;
    while i < shown
        invariant
            i <= shown,
            prefix@ == repeat_char('#', i as nat),
        decreases shown - i,
    {
        crate::text::push_char(&mut prefix, '#');
        assert(prefix@ =~= repeat_char('#', (i + 1) as nat));
        i = i + 1;
    }
    crate::text::push_char(&mut prefix, ' ');
    let ghost pv = prefix@;
    assert(pv == repeat_char('#', (if level < 4 { level as int } else { 4 }) as nat) + seq![' ']);
    let mut spans: Vec<StyledSpan> = Vec::new();
    push_span(&mut spans, span(prefix, TuiStyle::plain().fg(TuiColor::DarkGray)));
    let ghost head = spans_view(spans@);
    assert(head =~= seq![(pv, grey())]);
    let mut rest = render_inline_spans(nodes, TuiStyle::plain().fg(TuiColor::Cyan).bold());
    let ghost tail = spans_view(rest@);
    spans.append(&mut rest);
    assert(spans_view(spans@) =~= head + tail);
    assert(spans_view(spans@) =~= header_line_of(level as int, nodes_view(nodes@)));
    push_line(lines, StyledLine { spans });
}

/// The marker and text of a list item: the item's own number (or `1. `) for
/// an ordered list, `- ` otherwise; the text without white space at its end.
pub open spec fn list_item_spec(content: Seq<char>, ordered: bool) -> (Seq<char>, Seq<char>) {
    if ordered {
        (split_ordered_spec(content).0, trim_end(split_ordered_spec(content).1))
    } else {
        ("- "@, trim_end(strip_unordered_spec(content)))
    }
}

fn trim_end_str(s: &str) -> (r: String)
    ensures
        r@ == trim_end(s@),
{
    let v = chars_of(s);
    let mut b: usize = v.len();
    assert(v@.subrange(0, b as int) =~= v@);
    while b > 0 && crate::text::is_whitespace(v[b - 1])
        invariant
            b <= v.len(),
            trim_end(v@) == trim_end(v@.subrange(0, b as int)),
        decreases b,
    {
        assert(v@.subrange(0, b as int).drop_last() =~= v@.subrange(0, b - 1));
        b = b - 1;
    }
    assert(trim_end(v@.subrange(0, b as int)) == v@.subrange(0, b as int)) by {
        if b > 0 {
            assert(v@.subrange(0, b as int).last() == v@[b - 1]);
        }
    }
    string_from_range(v.as_slice(), 0, b)
}

/// The marker and text of a list item.
pub fn list_item_parts(content: &str, ordered: bool) -> (r: (String, String))
    ensures
        (r.0@, r.1@) == list_item_spec(content@, ordered),
{
    if ordered {
        let (marker, text) = split_ordered_marker(content);
        (marker, trim_end_str(text.as_str()))
    } else {
        proof {
            reveal_strlit("- ");
        }
        let text = strip_unordered_marker(content);
        (String::from_str("- "), trim_end_str(text.as_str()))
    }
}

/// Draws a list item: its marker in cyan, then its text.
pub fn render_list_item(marker: String, nodes: &Vec<MarkdownInlineNode>, lines: &mut Vec<StyledLine>)
    ensures
        lines_view(final(lines)@) == lines_view(old(lines)@).push(
            seq![(marker@, TuiStyle { fg: Some(TuiColor::Cyan), ..TuiStyle::plain_spec() })]
                + inline_spans_spec(nodes_view(nodes@), TuiStyle::plain_spec()),
        ),
{
    let mut spans: Vec<StyledSpan> = Vec::new();
    let ghost m = marker@;
    push_span(&mut spans, span(marker, TuiStyle::plain().fg(TuiColor::Cyan)));
    let ghost head = spans_view(spans@);
    assert(head =~= seq![(m, TuiStyle { fg: Some(TuiColor::Cyan), ..TuiStyle::plain_spec() })]);
    let mut rest = render_inline_spans(nodes, TuiStyle::plain());
    let ghost tail = spans_view(rest@);
    spans.append(&mut rest);
    assert(spans_view(spans@) =~= head + tail);
    push_line(lines, StyledLine { spans });
}

/// Each line of inline text behind a prefix.
pub open spec fn prefixed_lines(ls: Seq<Seq<SpanView>>, prefix: Seq<char>, style: TuiStyle) -> Seq<Seq<SpanView>> {
    ls.map_values(|l: Seq<SpanView>| seq![(prefix, style)] + l)
}

/// Draws inline text line by line, each line behind `prefix`.
pub fn render_prefixed_inline_block(
    nodes: &Vec<MarkdownInlineNode>,
    prefix: &str,
    prefix_style: TuiStyle,
    content_style: TuiStyle,
    lines: &mut Vec<StyledLine>,
)
    ensures
        lines_view(final(lines)@) == lines_view(old(lines)@) + prefixed_lines(
            split_lines_spec(inline_spans_spec(nodes_view(nodes@), content_style)),
            prefix@,
            prefix_style,
        ),
{
    let body = render_inline_nodes(nodes, content_style);
    let ghost bv = lines_view(body@);
    let ghost start = lines_view(lines@);
    let mut rest = body;
    let mut k: usize = 0;
    let n = rest.len();
    while rest.len() > 0
        invariant
            k + rest@.len() == n,
            n == bv.len(),
            lines_view(rest@) == bv.subrange(k as int, n as int),
            lines_view(lines@) == start + prefixed_lines(bv.subrange(0, k as int), prefix@, prefix_style),
        decreases rest.len(),
    {
        let ghost r0 = rest@;
        let line = rest.remove(0);
        assert(rest@ =~= r0.subrange(1, r0.len() as int));
        assert(lines_view(rest@) =~= lines_view(r0).subrange(1, r0.len() as int));
        assert(lines_view(r0)[0] == spans_view(line.spans@));
        let mut spans: Vec<StyledSpan> = Vec::new();
        push_span(&mut spans, span(String::from_str(prefix), prefix_style));
        let ghost head = spans_view(spans@);
        assert(head =~= seq![(prefix@, prefix_style)]);
        let mut tail = line.spans;
        let ghost tv = spans_view(tail@);
        assert(tv == bv[k as int]);
        spans.append(&mut tail);
        assert(spans_view(spans@) =~= head + tv);
        push_line(lines, StyledLine { spans });
        assert(prefixed_lines(bv.subrange(0, k + 1), prefix@, prefix_style) =~= prefixed_lines(
            bv.subrange(0, k as int),
            prefix@,
            prefix_style,
        ).push(seq![(prefix@, prefix_style)] + bv[k as int]));
        k = k + 1;
    }
    assert(bv.subrange(0, n as int) =~= bv);
}

/// Draws a block quote whose text (without its `>` markers) is made of
/// `nodes`: each line behind a grey `> `, in grey italics.
pub fn render_block_quote(nodes: &Vec<MarkdownInlineNode>, lines: &mut Vec<StyledLine>)
    ensures
        lines_view(final(lines)@) == lines_view(old(lines)@) + prefixed_lines(
            split_lines_spec(inline_spans_spec(
                nodes_view(nodes@),
                TuiStyle { fg: Some(TuiColor::Gray), italic: true, ..TuiStyle::plain_spec() },
            )),
            "> "@,
            grey(),
        ),
{
    proof {
        reveal_strlit("> ");
    }
    render_prefixed_inline_block(
        nodes,
        "> ",
        TuiStyle::plain().fg(TuiColor::DarkGray),
        TuiStyle::plain().fg(TuiColor::Gray).italic(),
        lines,
    );
}

/// Grey text for bodies.
pub open spec fn body_grey() -> TuiStyle {
    TuiStyle { fg: Some(TuiColor::Gray), ..TuiStyle::plain_spec() }
}

/// An indented line of a tool's body.
pub open spec fn body_line(l: Seq<char>) -> Seq<SpanView> {
    seq![("  "@, grey()), (l, body_grey())]
}

/// The indented lines of a tool's body.
pub open spec fn body_lines(ls: Seq<Seq<char>>) -> Seq<Seq<SpanView>> {
    ls.map_values(|l: Seq<char>| body_line(l))
}

/// The head line of a tool call or result.
pub open spec fn tool_head_spec(name: Option<Seq<char>>, status: Option<Seq<char>>, is_result: bool) -> Seq<SpanView> {
    let cyan = TuiStyle { fg: Some(TuiColor::Cyan), ..TuiStyle::plain_spec() };
    seq![
        (if is_result { "->"@ } else { "*"@ }, cyan),
        (" "@, TuiStyle::plain_spec()),
        (match name { Some(n) => n, None => "tool"@ }, TuiStyle { bold: true, ..cyan }),
    ] + match status {
        Some(s) => seq![(" ["@ + s + "]"@, grey())],
        None => Seq::empty(),
    }
}

/// The lines of a tool call or result: `*` (or `->` for a result), the name
/// (`tool` when missing) and the status when there is one; then each line of
/// the trimmed body, indented.
pub open spec fn tool_xml_spec(name: Option<Seq<char>>, status: Option<Seq<char>>, body: Seq<char>, is_result: bool) -> Seq<Seq<SpanView>> {
    seq![tool_head_spec(name, status, is_result)] + if trim(body).len() == 0 {
        Seq::empty()
    } else {
        body_lines(lines_spec(trim(body)))
    }
}

/// Draws a tool call or result from its name and status attributes and its body.
pub fn render_tool_xml(name: Option<String>, status: Option<String>, body: &str, is_result: bool, lines: &mut Vec<StyledLine>)
    ensures
        lines_view(final(lines)@) == lines_view(old(lines)@) + tool_xml_spec(
            crate::prompt::opt_view(name),
            crate::prompt::opt_view(status),
            body@,
            is_result,
        ),
{
    let ghost start = lines_view(lines@);
    let ghost nv = crate::prompt::opt_view(name);
    let ghost sv = crate::prompt::opt_view(status);
    let mut head: Vec<StyledSpan> = Vec::new();
    let symbol = if is_result {
        String::from_str("->")
    } else {
        String::from_str("*")
    };
    push_span(&mut head, span(symbol, TuiStyle::plain().fg(TuiColor::Cyan)));
    push_span(&mut head, span(String::from_str(" "), TuiStyle::plain()));
    let shown = match name {
        Some(n) => n,
        None => String::from_str("tool"),
    };
    push_span(&mut head, span(shown, TuiStyle::plain().fg(TuiColor::Cyan).bold()));
    let ghost h3 = spans_view(head@);
    match status {
        Some(s) => {
            let mut t = String::from_str(" [");
            t.append(s.as_str());
            t.append("]");
            push_span(&mut head, span(t, TuiStyle::plain().fg(TuiColor::DarkGray)));
            assert(spans_view(head@) =~= h3 + seq![(" ["@ + s@ + "]"@, grey())]);
        },
        None => {
            assert(spans_view(head@) =~= h3 + Seq::<SpanView>::empty());
        },
    }
    assert(spans_view(head@) =~= tool_head_spec(nv, sv, is_result));
    push_line(lines, StyledLine { spans: head });
    let ghost mid = lines_view(lines@);
    let b = trim_str(body);
    let bv = chars_of(b.as_str());
    if bv.len() == 0 {
        assert(lines_view(lines@) =~= start + tool_xml_spec(nv, sv, body@, is_result));
        return;
    }
    let raw = lines_of(bv.as_slice());
    let ghost rv = views(raw@);
    let mut i: usize = 0;
    assert(body_lines(rv.subrange(0, 0)) =~= Seq::<Seq<SpanView>>::empty());
    while i < raw.len()
        invariant
            i <= raw.len(),
            rv == views(raw@),
            lines_view(lines@) == mid + body_lines(rv.subrange(0, i as int)),
        decreases raw.len() - i,
    {
        let mut spans: Vec<StyledSpan> = Vec::new();
        push_span(&mut spans, span(String::from_str("  "), TuiStyle::plain().fg(TuiColor::DarkGray)));
        let text = string_from_chars(raw[i].as_slice());
        push_span(&mut spans, span(text, TuiStyle::plain().fg(TuiColor::Gray)));
        assert(spans_view(spans@) =~= body_line(rv[i as int]));
        push_line(lines, StyledLine { spans });
        assert(rv.subrange(0, i + 1) =~= rv.subrange(0, i as int).push(rv[i as int]));
        assert(body_lines(rv.subrange(0, i + 1)) =~= body_lines(rv.subrange(0, i as int)).push(body_line(rv[i as int])));
        i = i + 1;
    }
    assert(rv.subrange(0, raw.len() as int) =~= rv);
    assert(lines_view(lines@) =~= start + tool_xml_spec(nv, sv, body@, is_result));
}

/// The line of a status block: its title, else its type, else `status`.
pub open spec fn status_line_spec(title: Option<Seq<char>>, status_type: Option<Seq<char>>) -> Seq<SpanView> {
    let label = match title {
        Some(t) => t,
        None => match status_type {
            Some(s) => s,
            None => "status"@,
        },
    };
    seq![("* "@, grey()), (label, body_grey())]
}

/// Draws a status block from its title and type attributes.
pub fn render_status_xml(title: Option<String>, status_type: Option<String>, lines: &mut Vec<StyledLine>)
    ensures
        lines_view(final(lines)@) == lines_view(old(lines)@).push(
            status_line_spec(crate::prompt::opt_view(title), crate::prompt::opt_view(status_type)),
        ),
{
    proof {
        reveal_strlit("* ");
        reveal_strlit("status");
    }
    let label = match title {
        Some(t) => t,
        None => match status_type {
            Some(s) => s,
            None => String::from_str("status"),
        },
    };
    let ghost lv = label@;
    let mut spans: Vec<StyledSpan> = Vec::new();
    push_span(&mut spans, span(String::from_str("* "), TuiStyle::plain().fg(TuiColor::DarkGray)));
    push_span(&mut spans, span(label, TuiStyle::plain().fg(TuiColor::Gray)));
    assert(spans_view(spans@) =~= seq![("* "@, grey()), (lv, body_grey())]);
    push_line(lines, StyledLine { spans });
}

/// The lines of a named block: `<name>` in grey, then the trimmed body's lines.
pub open spec fn named_xml_spec(name: Seq<char>, body: Seq<char>) -> Seq<Seq<SpanView>> {
    seq![seq![("<"@ + name + ">"@, grey())]] + if trim(body).len() == 0 {
        Seq::empty()
    } else {
        plain_lines_spec(trim(body), body_grey())
    }
}

/// Draws a named block (such as thinking) from its name and body.
pub fn render_named_xml_body(name: &str, body: &str, lines: &mut Vec<StyledLine>)
    ensures
        lines_view(final(lines)@) == lines_view(old(lines)@) + named_xml_spec(name@, body@),
{
    proof {
        reveal_strlit("<");
        reveal_strlit(">");
    }
    let ghost start = lines_view(lines@);
    let mut t = String::from_str("<");
    t.append(name);
    t.append(">");
    let mut spans: Vec<StyledSpan> = Vec::new();
    let ghost tv = t@;
    push_span(&mut spans, span(t, TuiStyle::plain().fg(TuiColor::DarkGray)));
    assert(spans_view(spans@) =~= seq![(tv, grey())]);
    push_line(lines, StyledLine { spans });
    assert(lines_view(lines@) =~= start + seq![seq![("<"@ + name@ + ">"@, grey())]]);
    let b = trim_str(body);
    if b.unicode_len() > 0 {
        let ghost mid = lines_view(lines@);
        let mut more = render_plain_lines(b.as_str(), TuiStyle::plain().fg(TuiColor::Gray));
        let ghost mv = lines_view(more@);
        lines.append(&mut more);
        assert(lines_view(lines@) =~= mid + mv);
    }
    assert(lines_view(lines@) =~= start + named_xml_spec(name@, body@));
}

/// A row of a table: the rule under the header, or its cells.
pub enum TableRow {
    Separator,
    Cells(Vec<String>),
}

/// A row as plain values.
pub enum TableRowView {
    Separator,
    Cells(Seq<Seq<char>>),
}

impl TableRow {
    /// The row as plain values.
    pub open spec fn view_row(&self) -> TableRowView {
        match self {
            TableRow::Separator => TableRowView::Separator,
            TableRow::Cells(c) => TableRowView::Cells(crate::text::str_views(c@)),
        }
    }
}

/// The row of one line of a table (already trimmed): the separator, or the
/// cells between the bars, each trimmed.
pub open spec fn table_row_spec(t: Seq<char>) -> TableRowView {
    if table_separator_spec(t) {
        TableRowView::Separator
    } else {
        TableRowView::Cells(split_on(strip_trail(strip_lead(t, '|'), '|'), '|').map_values(|c: Seq<char>| trim(c)))
    }
}

/// The rows of a table block: one per line that is not blank.
pub open spec fn table_rows_spec(ls: Seq<Seq<char>>) -> Seq<TableRowView>
    decreases ls.len(),
{
    if ls.len() == 0 {
        Seq::empty()
    } else {
        table_rows_spec(ls.drop_last()) + if trim(ls.last()).len() == 0 {
            Seq::empty()
        } else {
            seq![table_row_spec(trim(ls.last()))]
        }
    }
}

fn table_row(t: &str) -> (r: TableRow)
    ensures
        r.view_row() == table_row_spec(t@),
{
    if is_table_separator(t) {
        return TableRow::Separator;
    }
    let v = chars_of(t);
    let inner = strip_bars(v.as_slice());
    let parts = split_chars(inner.as_slice(), '|');
    let ghost pv = views(parts@);
    let mut cells: Vec<String> = Vec::new();
    let mut i: usize = 0;
    while i < parts.len()
        invariant
            i <= parts.len(),
            pv == views(parts@),
            crate::text::str_views(cells@) == pv.subrange(0, i as int).map_values(|c: Seq<char>| trim(c)),
        decreases parts.len() - i,
    {
        let c = string_from_chars(parts[i].as_slice());
        let tc = trim_str(c.as_str());
        let ghost before = cells@;
        cells.push(tc);
        assert(crate::text::str_views(cells@) =~= crate::text::str_views(before).push(tc@));
        assert(pv.subrange(0, i + 1) =~= pv.subrange(0, i as int).push(pv[i as int]));
        assert(pv.subrange(0, i + 1).map_values(|c: Seq<char>| trim(c)) =~= pv.subrange(0, i as int).map_values(
            |c: Seq<char>| trim(c),
        ).push(trim(pv[i as int])));
        i = i + 1;
    }
    assert(pv.subrange(0, parts.len() as int) =~= pv);
    TableRow::Cells(cells)
}

/// The rows of a table block.
pub fn table_rows(content: &str) -> (r: Vec<TableRow>)
    ensures
        r@.map_values(|x: TableRow| x.view_row()) == table_rows_spec(lines_spec(content@)),
{
    let v = chars_of(content);
    let raw = lines_of(v.as_slice());
    let ghost rv = views(raw@);
    let mut rows: Vec<TableRow> = Vec::new();
    let mut i: usize = 0;
    while i < raw.len()
        invariant
            i <= raw.len(),
            rv == views(raw@),
            rows@.map_values(|x: TableRow| x.view_row()) == table_rows_spec(rv.subrange(0, i as int)),
        decreases raw.len() - i,
    {
        let line = string_from_chars(raw[i].as_slice());
        let t = trim_str(line.as_str());
        let ghost before = rows@;
        proof {
            assert(rv.subrange(0, i + 1).drop_last() =~= rv.subrange(0, i as int));
            assert(rv.subrange(0, i + 1).last() == rv[i as int]);
        }
        if t.unicode_len() > 0 {
            let row = table_row(t.as_str());
            rows.push(row);
            assert(rows@.map_values(|x: TableRow| x.view_row()) =~= before.map_values(|x: TableRow| x.view_row()).push(
                row.view_row(),
            ));
        } else {
            assert(table_rows_spec(rv.subrange(0, i + 1)) =~= table_rows_spec(rv.subrange(0, i as int)));
        }
        i = i + 1;
    }
    assert(rv.subrange(0, raw.len() as int) =~= rv);
    rows
}

/// The spans of a row's cells: each cell's inline text in grey, with a grey
/// ` | ` between cells.
pub open spec fn cells_spans(cells: Seq<Seq<(crate::render::MarkdownProcessorType, Seq<char>)>>) -> Seq<SpanView>
    decreases cells.len(),
{
    if cells.len() == 0 {
        Seq::empty()
    } else if cells.len() == 1 {
        inline_spans_spec(cells[0], body_grey())
    } else {
        cells_spans(cells.drop_last()) + seq![(" | "@, grey())] + inline_spans_spec(cells.last(), body_grey())
    }
}

/// The inline nodes of each cell, as plain values.
pub open spec fn cell_views(cells: Seq<Vec<MarkdownInlineNode>>) -> Seq<Seq<(crate::render::MarkdownProcessorType, Seq<char>)>> {
    cells.map_values(|c: Vec<MarkdownInlineNode>| nodes_view(c@))
}

/// Draws a table row whose cells are made of `cells` (the inline nodes of
/// each cell); the separator row is drawn as a rule.
pub fn render_table_row(row: &TableRow, cells: &Vec<Vec<MarkdownInlineNode>>, lines: &mut Vec<StyledLine>)
    ensures
        row.view_row() is Separator ==> lines_view(final(lines)@) == lines_view(old(lines)@).push(rule_line()),
        row.view_row() is Cells ==> lines_view(final(lines)@) == lines_view(old(lines)@).push(cells_spans(cell_views(cells@))),
{
    match row {
        TableRow::Separator => {
            render_horizontal_rule(lines);
        },
        TableRow::Cells(_) => {
            proof {
                reveal_strlit(" | ");
            }
            let ghost cv = cell_views(cells@);
            let mut spans: Vec<StyledSpan> = Vec::new();
            let mut i: usize = 0;
            assert(cv.subrange(0, 0) =~= Seq::<Seq<(crate::render::MarkdownProcessorType, Seq<char>)>>::empty());
            while i < cells.len()
                invariant
                    i <= cells.len(),
                    cv == cell_views(cells@),
                    spans_view(spans@) == cells_spans(cv.subrange(0, i as int)),
                decreases cells.len() - i,
            {
                let ghost before = spans_view(spans@);
                if i > 0 {
                    push_span(&mut spans, span(String::from_str(" | "), TuiStyle::plain().fg(TuiColor::DarkGray)));
                }
                let ghost mid = spans_view(spans@);
                let mut more = render_inline_spans(&cells[i], TuiStyle::plain().fg(TuiColor::Gray));
                let ghost mv = spans_view(more@);
                spans.append(&mut more);
                assert(spans_view(spans@) =~= mid + mv);
                proof {
                    let sub = cv.subrange(0, i + 1);
                    assert(sub.drop_last() =~= cv.subrange(0, i as int));
                    assert(sub.last() == nodes_view(cells@[i as int]@));
                    if i == 0 {
                        assert(sub.len() == 1);
                        assert(sub[0] == sub.last());
                        assert(before =~= Seq::<SpanView>::empty());
                        assert(spans_view(spans@) =~= mv);
                    }
                }
                i = i + 1;
            }
            assert(cv.subrange(0, cells.len() as int) =~= cv);
            push_line(lines, StyledLine { spans });
        },
    }
}

} // verus!
