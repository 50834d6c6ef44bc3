use vstd::prelude::*;
use crate::text::{
    chars_of, chars_match_at, is_prefix, is_ws, is_whitespace, push_char, push_chars,
    split_chars, split_on, string_from_range, trim, trim_bounds, trim_start, views,
};
use crate::commands::lemma_trim_start_suffix;
use crate::text::{join_chars, join_spec, lines_of, lines_spec};

verus! {

/// Whether `d` ends `s`.
pub open spec fn is_suffix(d: Seq<char>, s: Seq<char>) -> bool {
    d.len() <= s.len() && s.skip(s.len() - d.len()) == d
}

/// `s` without a leading and a trailing `d` (which may not overlap), if it has both.
pub open spec fn strip_pair_spec(s: Seq<char>, d: Seq<char>) -> Option<Seq<char>> {
    if is_prefix(d, s) && is_suffix(d, s.skip(d.len() as int)) {
        Some(s.subrange(d.len() as int, s.len() - d.len()))
    } else {
        None
    }
}

fn chars_end_with(v: &[char], d: &[char]) -> (r: bool)
    ensures
        r == is_suffix(d@, v@),
{
    if d.len() > v.len() {
        return false;
    }
    let at = v.len() - d.len();
    let m = chars_match_at(v, at, d);
    proof {
        let rest = v@.subrange(at as int, v.len() as int);
        assert(rest == v@.skip(at as int));
        assert(rest.subrange(0, d.len() as int) == rest);
    }
    m
}

fn strip_pair_chars(v: &[char], d: &[char]) -> (r: Option<Vec<char>>)
    ensures
        match r {
            Some(x) => strip_pair_spec(v@, d@) == Some(x@),
            None => strip_pair_spec(v@, d@) is None,
        },
{
    if !chars_match_at(v, 0, d) {
        assert(v@.subrange(0, v.len() as int) == v@);
        return None;
    }
    assert(v@.subrange(0, v.len() as int) == v@);
    let dl = d.len();
    let mut rest: Vec<char> = Vec::new();
    let mut i: usize = dl;
    while i < v.len()
        invariant
            dl <= i <= v.len(),
            rest@ == v@.subrange(dl as int, i as int),
        decreases v.len() - i,
    {
        rest.push(v[i]);
        i = i + 1;
    }
    assert(rest@ == v@.skip(dl as int));
    if !chars_end_with(rest.as_slice(), d) {
        return None;
    }
    let mut out: Vec<char> = Vec::new();
    let end = rest.len() - dl;
    let mut j: usize = 0;
    while j < end
        invariant
            end <= rest.len(),
            j <= end,
            out@ == rest@.subrange(0, j as int),
        decreases end - j,
    {
        out.push(rest[j]);
        j = j + 1;
    }
    assert(out@ == v@.subrange(dl as int, v.len() - dl));
    Some(out)
}

/// `content` without a leading and a trailing `delimiter`, if it has both.
pub fn strip_pair(content: &str, delimiter: &str) -> (r: Option<String>)
    ensures
        match r {
            Some(x) => strip_pair_spec(content@, delimiter@) == Some(x@),
            None => strip_pair_spec(content@, delimiter@) is None,
        },
{
    let v = chars_of(content);
    let d = chars_of(delimiter);
    match strip_pair_chars(v.as_slice(), d.as_slice()) {
        Some(x) => Some(crate::text::string_from_chars(x.as_slice())),
        None => None,
    }
}

/// The body of a display formula: trimmed, without `$$ … $$` or `\[ … \]`
/// around it (trimmed again inside).
pub open spec fn strip_latex_block_spec(s: Seq<char>) -> Seq<char> {
    let t = trim(s);
    match strip_pair_spec(t, seq!['$', '$']) {
        Some(v) => trim(v),
        None => if is_prefix(seq!['\\', '['], t) && is_suffix(seq!['\\', ']'], t) {
            trim(t.subrange(2, t.len() - 2))
        } else {
            t
        },
    }
}

fn trimmed_chars(v: &[char]) -> (r: Vec<char>)
    ensures
        r@ == trim(v@),
{
    let (a, b) = trim_bounds(v);
    let mut out: Vec<char> = Vec::new();
    let mut i: usize = a;
    while i < b
        invariant
            a <= i <= b <= v.len(),
            out@ == v@.subrange(a as int, i as int),
        decreases b - i,
    {
        out.push(v[i]);
        i = i + 1;
    }
    out
}

fn sub_chars(v: &[char], from: usize, to: usize) -> (r: Vec<char>)
    requires
        from <= to <= v.len(),
    ensures
        r@ == v@.subrange(from as int, to as int),
{
    let mut out: Vec<char> = Vec::new();
    let mut i: usize = from;
    while i < to
        invariant
            from <= i <= to <= v.len(),
            out@ == v@.subrange(from as int, i as int),
        decreases to - i,
    {
        out.push(v[i]);
        i = i + 1;
    }
    out
}

proof fn lemma_two_delims_fit(t: Seq<char>, a: Seq<char>, b: Seq<char>)
    requires
        a.len() == 2,
        b.len() == 2,
        a[1] != b[0],
        a[1] != b[1],
        is_prefix(a, t),
        is_suffix(b, t),
    ensures
        t.len() >= 4,
{
    assert(t.subrange(0, 2)[1] == a[1]);
    if t.len() == 2 {
        assert(t.skip(0)[1] == b[1]);
    }
    if t.len() == 3 {
        assert(t.skip(1)[0] == b[0]);
    }
}

/// The body of a display formula.
pub fn strip_latex_block_delimiters(content: &str) -> (r: String)
    ensures
        r@ == strip_latex_block_spec(content@),
{
    let v = chars_of(content);
    let t = trimmed_chars(v.as_slice());
    let dd = vec!['$', '$'];
    assert(dd@ == seq!['$', '$']);
    if let Some(inner) = strip_pair_chars(t.as_slice(), dd.as_slice()) {
        let x = trimmed_chars(inner.as_slice());
        return crate::text::string_from_chars(x.as_slice());
    }
    let open = vec!['\\', '['];
    let close = vec!['\\', ']'];
    assert(open@ == seq!['\\', '[']);
    assert(close@ == seq!['\\', ']']);
    if chars_match_at(t.as_slice(), 0, open.as_slice()) && chars_end_with(t.as_slice(), close.as_slice()) {
        assert(t@.subrange(0, t.len() as int) == t@);
        proof {
            lemma_two_delims_fit(t@, open@, close@);
        }
        let body = sub_chars(t.as_slice(), 2, t.len() - 2);
        let x = trimmed_chars(body.as_slice());
        return crate::text::string_from_chars(x.as_slice());
    }
    assert(t@.subrange(0, t.len() as int) == t@);
    crate::text::string_from_chars(t.as_slice())
}

/// The body of an inline formula: without `$ … $` or `\( … \)` around it.
pub open spec fn strip_inline_latex_spec(s: Seq<char>) -> Seq<char> {
    match strip_pair_spec(s, seq!['$']) {
        Some(v) => v,
        None => if is_prefix(seq!['\\', '('], s) && is_suffix(seq!['\\', ')'], s) {
            s.subrange(2, s.len() - 2)
        } else {
            s
        },
    }
}

/// The body of an inline formula.
pub fn strip_inline_latex_delimiters(content: &str) -> (r: String)
    ensures
        r@ == strip_inline_latex_spec(content@),
{
    let t = chars_of(content);
    let dd = vec!['$'];
    assert(dd@ == seq!['$']);
    if let Some(inner) = strip_pair_chars(t.as_slice(), dd.as_slice()) {
        return crate::text::string_from_chars(inner.as_slice());
    }
    let open = vec!['\\', '('];
    let close = vec!['\\', ')'];
    assert(open@ == seq!['\\', '(']);
    assert(close@ == seq!['\\', ')']);
    if chars_match_at(t.as_slice(), 0, open.as_slice()) && chars_end_with(t.as_slice(), close.as_slice()) {
        assert(t@.subrange(0, t.len() as int) == t@);
        proof {
            lemma_two_delims_fit(t@, open@, close@);
        }
        let body = sub_chars(t.as_slice(), 2, t.len() - 2);
        return crate::text::string_from_chars(body.as_slice());
    }
    assert(t@.subrange(0, t.len() as int) == t@);
    crate::text::string_from_chars(t.as_slice())
}

/// A list item without its `- `, `* ` or `+ ` bullet, after leading white space.
pub open spec fn strip_unordered_spec(s: Seq<char>) -> Seq<char> {
    let t = trim_start(s);
    if t.len() >= 2 && (t[0] == '-' || t[0] == '*' || t[0] == '+') && t[1] == ' ' {
        t.skip(2)
    } else {
        t
    }
}

fn trim_start_chars(v: &[char]) -> (r: Vec<char>)
    ensures
        r@ == trim_start(v@),
{
    let (a, _b) = trim_bounds(v);
    proof {
        lemma_trim_start_suffix(v@);
    }
    sub_chars(v, a, v.len())
}

/// A list item without its bullet.
pub fn strip_unordered_marker(content: &str) -> (r: String)
    ensures
        r@ == strip_unordered_spec(content@),
{
    let v = chars_of(content);
    let t = trim_start_chars(v.as_slice());
    if t.len() >= 2 && (t[0] == '-' || t[0] == '*' || t[0] == '+') && t[1] == ' ' {
        return string_from_range(t.as_slice(), 2, t.len());
    }
    assert(t@.subrange(0, t.len() as int) == t@);
    string_from_range(t.as_slice(), 0, t.len())
}

/// Whether every character of `s` is an ASCII digit.
pub open spec fn all_digits(s: Seq<char>) -> bool {
    forall|i: int| 0 <= i < s.len() ==> '0' <= #[trigger] s[i] && s[i] <= '9'
}

/// Where the first `c` of `s` is, if anywhere.
pub open spec fn first_index(s: Seq<char>, c: char, k: int) -> bool {
    &&& 0 <= k < s.len()
    &&& s[k] == c
    &&& forall|j: int| 0 <= j < k ==> #[trigger] s[j] != c
}

fn find_char(v: &[char], c: char) -> (r: Option<usize>)
    ensures
        match r {
            Some(k) => first_index(v@, c, k as int),
            None => forall|j: int| 0 <= j < v.len() ==> #[trigger] v@[j] != c,
        },
{
    let mut i: usize = 0;
    while i < v.len()
        invariant
            i <= v.len(),
            forall|j: int| 0 <= j < i ==> #[trigger] v@[j] != c,
        decreases v.len() - i,
    {
        if v[i] == c {
            return Some(i);
        }
        i = i + 1;
    }
    None
}

/// An ordered list item split into its `N. ` marker and its text; `1. ` and the
/// whole (left-trimmed) item when it has no number before a dot.
pub open spec fn split_ordered_spec(s: Seq<char>) -> (Seq<char>, Seq<char>) {
    let t = trim_start(s);
    if exists|k: int| first_index(t, '.', k) && all_digits(t.take(k)) {
        let k = choose|k: int| first_index(t, '.', k);
        (t.take(k) + seq!['.', ' '], trim_start(t.skip(k + 1)))
    } else {
        (seq!['1', '.', ' '], t)
    }
}

proof fn lemma_first_index_unique(s: Seq<char>, c: char, a: int, b: int)
    requires
        first_index(s, c, a),
        first_index(s, c, b),
    ensures
        a == b,
{
    if a < b {
        assert(s[a] != c);
    } else if b < a {
        assert(s[b] != c);
    }
}

/// An ordered list item split into marker and text.
pub fn split_ordered_marker(content: &str) -> (r: (String, String))
    ensures
        (r.0@, r.1@) == split_ordered_spec(content@),
{
    let v = chars_of(content);
    let t = trim_start_chars(v.as_slice());
    let ghost ts = t@;
    match find_char(t.as_slice(), '.') {
        Some(k) => {
            let mut digits = true;
            let mut i: usize = 0;
            while i < k
                invariant
                    k < t.len(),
                    i <= k,
                    digits == all_digits(t@.take(i as int)),
                decreases k - i,
            {
                let d = '0' <= t[i] && t[i] <= '9';
                if !d {
                    digits = false;
                }
                proof {
                    let a = t@.take(i as int);
                    let b = t@.take(i + 1);
                    assert(b == a.push(t@[i as int]));
                    if all_digits(b) {
                        assert forall|j: int| 0 <= j < a.len() implies '0' <= #[trigger] a[j] && a[j] <= '9' by {
                            assert(b[j] == a[j]);
                        }
                        assert(b[i as int] == t@[i as int]);
                    }
                    if all_digits(a) && d {
                        assert forall|j: int| 0 <= j < b.len() implies '0' <= #[trigger] b[j] && b[j] <= '9' by {
                            if j < i {
                                assert(b[j] == a[j]);
                            }
                        }
                    }
                }
                i = i + 1;
            }
            if digits {
                let mut marker = string_from_range(t.as_slice(), 0, k);
                push_char(&mut marker, '.');
                push_char(&mut marker, ' ');
                let rest = sub_chars(t.as_slice(), k + 1, t.len());
                let rt = trim_start_chars(rest.as_slice());
                let text = crate::text::string_from_chars(rt.as_slice());
                proof {
                    let kk = choose|kk: int| first_index(ts, '.', kk);
                    lemma_first_index_unique(ts, '.', k as int, kk);
                    assert(rest@ == ts.skip(k + 1));
                    assert(marker@ == ts.take(k as int) + seq!['.', ' ']);
                }
                (marker, text)
            } else {
                proof {
                    assert forall|kk: int| first_index(ts, '.', kk) implies !all_digits(ts.take(kk)) by {
                        lemma_first_index_unique(ts, '.', k as int, kk);
                    }
                }
                let mut marker = String::new();
                push_char(&mut marker, '1');
                push_char(&mut marker, '.');
                push_char(&mut marker, ' ');
                assert(marker@ == seq!['1', '.', ' ']);
                (marker, crate::text::string_from_chars(t.as_slice()))
            }
        },
        None => {
            let mut marker = String::new();
            push_char(&mut marker, '1');
            push_char(&mut marker, '.');
            push_char(&mut marker, ' ');
            assert(marker@ == seq!['1', '.', ' ']);
            (marker, crate::text::string_from_chars(t.as_slice()))
        },
    }
}


/// One line of a quote without its `>` marker (and the white space around it).
pub open spec fn unquote_line(line: Seq<char>) -> Seq<char> {
    let t = trim_start(line);
    if t.len() > 0 && t[0] == '>' {
        trim_start(t.drop_first())
    } else {
        line
    }
}

/// A block quote with the marker taken off each line.
pub open spec fn strip_block_quote_spec(s: Seq<char>) -> Seq<char> {
    join_spec(lines_spec(s).map_values(|l: Seq<char>| unquote_line(l)), seq!['\n'])
}

/// A block quote with the marker taken off each line.
pub fn strip_block_quote_marker(content: &str) -> (r: String)
    ensures
        r@ == strip_block_quote_spec(content@),
{
    let v = chars_of(content);
    let ls = lines_of(v.as_slice());
    let ghost lv = views(ls@);
    let mut out: Vec<Vec<char>> = Vec::new();
    let mut i: usize = 0;
    assert(views(out@) == Seq::<Seq<char>>::empty());
    while i < ls.len()
        invariant
            lv == views(ls@),
            i <= ls.len(),
            views(out@) == lv.subrange(0, i as int).map_values(|l: Seq<char>| unquote_line(l)),
        decreases ls.len() - i,
    {
        let line = &ls[i];
        let t = trim_start_chars(line.as_slice());
        let x: Vec<char> = if t.len() > 0 && t[0] == '>' {
            let rest = sub_chars(t.as_slice(), 1, t.len());
            assert(rest@ == t@.drop_first());
            trim_start_chars(rest.as_slice())
        } else {
            sub_chars(line.as_slice(), 0, line.len())
        };
        assert(line@.subrange(0, line.len() as int) == line@);
        assert(x@ == unquote_line(lv[i as int]));
        let ghost before = views(out@);
        out.push(x);
        assert(views(out@) == before.push(x@));
        assert(lv.subrange(0, i + 1).map_values(|l: Seq<char>| unquote_line(l)) == lv.subrange(
            0,
            i as int,
        ).map_values(|l: Seq<char>| unquote_line(l)).push(unquote_line(lv[i as int])));
        i = i + 1;
    }
    assert(lv.subrange(0, ls.len() as int) == lv);
    let sep = vec!['\n'];
    assert(sep@ == seq!['\n']);
    join_chars(&out, sep.as_slice())
}

/// `s` without the `c` characters at its start.
pub open spec fn strip_lead(s: Seq<char>, c: char) -> Seq<char>
    decreases s.len(),
{
    if s.len() > 0 && s[0] == c {
        strip_lead(s.drop_first(), c)
    } else {
        s
    }
}

/// `s` without the `c` characters at its end.
pub open spec fn strip_trail(s: Seq<char>, c: char) -> Seq<char>
    decreases s.len(),
{
    if s.len() > 0 && s.last() == c {
        strip_trail(s.drop_last(), c)
    } else {
        s
    }
}

/// Whether one cell fits a table's header separator: after trimming, dashes
/// and colons, with at least one dash.
pub open spec fn separator_cell(c: Seq<char>) -> bool {
    let x = trim(c);
    (exists|i: int| 0 <= i < x.len() && #[trigger] x[i] == '-') && (forall|i: int|
        0 <= i < x.len() ==> #[trigger] x[i] == '-' || x[i] == ':')
}

/// Whether a table row is the separator under the header (`|---|:--:|`).
pub open spec fn table_separator_spec(line: Seq<char>) -> bool {
    let cells = split_on(strip_trail(strip_lead(line, '|'), '|'), '|');
    forall|i: int| 0 <= i < cells.len() ==> separator_cell(#[trigger] cells[i])
}

/// `v` without the `c` characters at its start and its end.
pub(crate) fn strip_bars_of(v: &[char], c: char) -> (r: Vec<char>)
    ensures
        r@ == strip_trail(strip_lead(v@, c), c),
{
    let n = v.len();
    let mut a: usize = 0;
    assert(v@.subrange(0, n as int) == v@);
    while a < n && v[a] == c
        invariant
            n == v.len(),
            a <= n,
            strip_lead(v@, c) == strip_lead(v@.subrange(a as int, n as int), c),
        decreases n - a,
    {
        assert(v@.subrange(a as int, n as int).drop_first() == v@.subrange(a + 1, n as int));
        a = a + 1;
    }
    let ghost ts = v@.subrange(a as int, n as int);
    assert(strip_lead(ts, c) == ts) by {
        if ts.len() > 0 {
            assert(ts[0] == v@[a as int]);
        }
    }
    let mut b: usize = n;
    assert(ts.subrange(0, n - a) == ts);
    while b > a && v[b - 1] == c
        invariant
            n == v.len(),
            a <= b <= n,
            ts == v@.subrange(a as int, n as int),
            strip_trail(ts, c) == strip_trail(ts.subrange(0, b - a), c),
        decreases b,
    {
        assert(ts.subrange(0, b - a).drop_last() == ts.subrange(0, b - a - 1));
        assert(ts.subrange(0, b - a).last() == v@[b - 1]);
        b = b - 1;
    }
    let ghost te = ts.subrange(0, b - a);
    assert(strip_trail(te, c) == te) by {
        if te.len() > 0 {
            assert(te.last() == v@[b - 1]);
        }
    }
    sub_chars(v, a, b)
}

pub(crate) fn strip_bars(v: &[char]) -> (r: Vec<char>)
    ensures
        r@ == strip_trail(strip_lead(v@, '|'), '|'),
{
    strip_bars_of(v, '|')
}

fn cell_ok(c: &[char]) -> (r: bool)
    ensures
        r == separator_cell(c@),
{
    let x = trimmed_chars(c);
    let mut dash = false;
    let mut i: usize = 0;
    while i < x.len()
        invariant
            x@ == trim(c@),
            i <= x.len(),
            forall|j: int| 0 <= j < i ==> #[trigger] x@[j] == '-' || x@[j] == ':',
            dash == (exists|j: int| 0 <= j < i && #[trigger] x@[j] == '-'),
        decreases x.len() - i,
    {
        if x[i] == '-' {
            assert(x@[i as int] == '-');
            dash = true;
        } else if x[i] != ':' {
            assert(!(x@[i as int] == '-' || x@[i as int] == ':'));
            assert(!separator_cell(c@)) by {
                let xx = trim(c@);
                assert(xx[i as int] == x@[i as int]);
            }
            return false;
        }
        i = i + 1;
    }
    proof {
        let xx = trim(c@);
        assert(xx == x@);
        if dash {
            let j = choose|j: int| 0 <= j < i && #[trigger] x@[j] == '-';
            assert(xx[j] == '-');
        }
    }
    dash
}

/// Whether a table row is the separator under the header.
pub fn is_table_separator(line: &str) -> (r: bool)
    ensures
        r == table_separator_spec(line@),
{
    let v = chars_of(line);
    let t = strip_bars(v.as_slice());
    let cells = split_chars(t.as_slice(), '|');
    let ghost cv = views(cells@);
    assert(cv == split_on(t@, '|'));
    let mut i: usize = 0;
    while i < cells.len()
        invariant
            cv == split_on(strip_trail(strip_lead(line@, '|'), '|'), '|'),
            cv == views(cells@),
            i <= cells.len(),
            forall|j: int| 0 <= j < i ==> separator_cell(#[trigger] cv[j]),
        decreases cells.len() - i,
    {
        if !cell_ok(cells[i].as_slice()) {
            assert(!separator_cell(cv[i as int]));
            return false;
        }
        i = i + 1;
    }
    assert(cv == split_on(t@, '|'));
    true
}

/// Where the first `](` of `s` starts.
pub open spec fn first_link_break(s: Seq<char>, k: int) -> bool {
    &&& 0 <= k && k + 1 < s.len()
    &&& s[k] == ']' && s[k + 1] == '('
    &&& forall|j: int| 0 <= j < k ==> !(#[trigger] s[j] == ']' && s[j + 1] == '(')
}

/// The label and the target of a `[label](url)` link: what lies between the
/// leading `[` and the first `](`, and what lies from there to the next `)`.
pub open spec fn parse_link_spec(s: Seq<char>) -> Option<(Seq<char>, Seq<char>)> {
    if s.len() > 0 && s[0] == '[' && (exists|k: int| first_link_break(s, k)) {
        let k = choose|k: int| first_link_break(s, k);
        let rest = s.skip(k + 2);
        if exists|m: int| first_index(rest, ')', m) {
            let m = choose|m: int| first_index(rest, ')', m);
            Some((s.subrange(1, k), rest.take(m)))
        } else {
            None
        }
    } else {
        None
    }
}

proof fn lemma_first_link_break_unique(s: Seq<char>, a: int, b: int)
    requires
        first_link_break(s, a),
        first_link_break(s, b),
    ensures
        a == b,
{
    if a < b {
        assert(!(s[a] == ']' && s[a + 1] == '('));
    } else if b < a {
        assert(!(s[b] == ']' && s[b + 1] == '('));
    }
}

/// The label and the target of a markdown link.
pub fn parse_markdown_link(content: &str) -> (r: Option<(String, String)>)
    ensures
        match r {
            Some((l, u)) => parse_link_spec(content@) == Some((l@, u@)),
            None => parse_link_spec(content@) is None,
        },
{
    let v = chars_of(content);
    let ghost s = v@;
    if v.len() < 2 {
        proof {
            assert forall|k2: int| !first_link_break(s, k2) by {}
        }
        return None;
    }
    let mut k: usize = 0;
    while k < v.len() - 1 && !(v[k] == ']' && v[k + 1] == '(')
        invariant
            s == v@,
            v.len() >= 2,
            k <= v.len() - 1,
            forall|j: int| 0 <= j < k && j + 1 < v.len() ==> !(#[trigger] v@[j] == ']' && v@[j + 1] == '('),
        decreases v.len() - k,
    {
        k = k + 1;
    }
    let found = k < v.len() - 1;
    proof {
        if !found {
            assert forall|k2: int| !first_link_break(s, k2) by {
                if first_link_break(s, k2) {
                    assert(!(s[k2] == ']' && s[k2 + 1] == '('));
                }
            }
        }
    }
    if !found {
        return None;
    }
    if v.len() == 0 || v[0] != '[' {
        return None;
    }
    let rest = sub_chars(v.as_slice(), k + 2, v.len());
    assert(rest@ == s.skip(k + 2));
    match find_char(rest.as_slice(), ')') {
        Some(m) => {
            proof {
                assert(first_link_break(s, k as int));
                assert(first_index(rest@, ')', m as int));
                let kk = choose|kk: int| first_link_break(s, kk);
                lemma_first_link_break_unique(s, k as int, kk);
                let mm = choose|mm: int| first_index(rest@, ')', mm);
                lemma_first_index_unique(rest@, ')', m as int, mm);
            }
            let label = string_from_range(v.as_slice(), 1, k);
            let url = string_from_range(rest.as_slice(), 0, m);
            Some((label, url))
        },
        None => {
            proof {
                assert(first_link_break(s, k as int));
                let kk = choose|kk: int| first_link_break(s, kk);
                lemma_first_link_break_unique(s, k as int, kk);
                assert forall|mm: int| !first_index(rest@, ')', mm) by {
                    if 0 <= mm < rest@.len() {
                        assert(rest@[mm] != ')');
                    }
                }
            }
            None
        },
    }
}

/// Wrapping text in a delimiter and stripping that delimiter gives the text
/// back.
pub proof fn law_strip_pair_undoes_wrapping(x: Seq<char>, d: Seq<char>)
    ensures
        strip_pair_spec(d + x + d, d) == Some(x),
{
    let s = d + x + d;
    assert(s.subrange(0, d.len() as int) =~= d);
    assert(s.skip(d.len() as int).skip(s.skip(d.len() as int).len() - d.len()) =~= d);
    assert(s.subrange(d.len() as int, s.len() - d.len()) =~= x);
}

} // verus!
