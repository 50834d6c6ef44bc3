use vstd::prelude::*;
use crate::text::{
    chars_of, is_ws, is_whitespace, push_char, split_chars, split_on, string_from_chars,
    string_from_range, str_views, views,
};

verus! {

/// The first eight characters of a chat id.
pub fn short_chat_label(chat_id: &str) -> (r: String)
    ensures
        r@ == chat_id@.take(if chat_id@.len() < 8 { chat_id@.len() as int } else { 8 }),
{
    let v = chars_of(chat_id);
    let n: usize = if v.len() < 8 {
        v.len()
    } else {
        8
    };
    string_from_range(v.as_slice(), 0, n)
}

/// How many bytes UTF-8 takes for `c`.
pub open spec fn utf8_width(c: char) -> int {
    let n = c as u32;
    if n <= 0x7f {
        1
    } else if n <= 0x7ff {
        2
    } else if n <= 0xffff {
        3
    } else {
        4
    }
}

/// How many bytes UTF-8 takes for `s`.
pub open spec fn utf8_len(s: Seq<char>) -> int
    decreases s.len(),
{
    if s.len() == 0 {
        0
    } else {
        utf8_width(s[0]) + utf8_len(s.drop_first())
    }
}

proof fn lemma_utf8_len_push(s: Seq<char>, c: char)
    ensures
        utf8_len(s.push(c)) == utf8_len(s) + utf8_width(c),
    decreases s.len(),
{
    if s.len() > 0 {
        lemma_utf8_len_push(s.drop_first(), c);
        assert(s.push(c).drop_first() == s.drop_first().push(c));
        assert(s.push(c)[0] == s[0]);
    } else {
        assert(s.push(c).drop_first() == Seq::<char>::empty());
        assert(s.push(c)[0] == c);
        assert(utf8_len(Seq::<char>::empty()) == 0);
    }
}

proof fn lemma_utf8_len_prefix(s: Seq<char>, i: int)
    requires
        0 <= i <= s.len(),
    ensures
        0 <= utf8_len(s.take(i)) <= utf8_len(s),
    decreases s.len() - i,
{
    if i < s.len() {
        lemma_utf8_len_prefix(s, i + 1);
        assert(s.take(i + 1) == s.take(i).push(s[i]));
        lemma_utf8_len_push(s.take(i), s[i]);
        lemma_utf8_len_nonneg(s.take(i));
    } else {
        assert(s.take(i) == s);
        lemma_utf8_len_nonneg(s);
    }
}

pub proof fn lemma_utf8_len_nonneg(s: Seq<char>)
    ensures
        utf8_len(s) >= 0,
    decreases s.len(),
{
    if s.len() > 0 {
        lemma_utf8_len_nonneg(s.drop_first());
    }
}

/// The byte offset of character `char_index` in `value`, or the byte length of
/// `value` when it has no such character.
pub fn char_to_byte_index(value: &str, char_index: usize) -> (r: usize)
    requires
        utf8_len(value@) <= usize::MAX,
    ensures
        char_index < value@.len() ==> r == utf8_len(value@.take(char_index as int)),
        char_index >= value@.len() ==> r == value.len(),
{
    let v = chars_of(value);
    if char_index >= v.len() {
        return value.len();
    }
    let mut acc: usize = 0;
    let mut i: usize = 0;
    while i < char_index
        invariant
            v@ == value@,
            char_index < v.len(),
            i <= char_index,
            utf8_len(value@) <= usize::MAX,
            acc == utf8_len(value@.take(i as int)),
        decreases char_index - i,
    {
        let c = v[i];
        let n = c as u32;
        let w: usize = if n <= 0x7f {
            1
        } else if n <= 0x7ff {
            2
        } else if n <= 0xffff {
            3
        } else {
            4
        };
        proof {
            assert(value@.take(i + 1) == value@.take(i as int).push(value@[i as int]));
            lemma_utf8_len_push(value@.take(i as int), value@[i as int]);
            lemma_utf8_len_prefix(value@, i + 1);
        }
        acc = acc + w;
        i = i + 1;
    }
    acc
}

/// How many bytes UTF-8 takes for `value` (`str::len`).
pub fn utf8_byte_len(value: &str) -> (r: usize)
    requires
        utf8_len(value@) <= usize::MAX,
    ensures
        r == utf8_len(value@),
{
    let v = chars_of(value);
    let mut acc: usize = 0;
    let mut i: usize = 0;
    while i < v.len()
        invariant
            v@ == value@,
            i <= v.len(),
            utf8_len(value@) <= usize::MAX,
            acc == utf8_len(value@.take(i as int)),
        decreases v.len() - i,
    {
        let c = v[i];
        let n = c as u32;
        let w: usize = if n <= 0x7f {
            1
        } else if n <= 0x7ff {
            2
        } else if n <= 0xffff {
            3
        } else {
            4
        };
        proof {
            assert(value@.take(i + 1) == value@.take(i as int).push(value@[i as int]));
            lemma_utf8_len_push(value@.take(i as int), value@[i as int]);
            lemma_utf8_len_prefix(value@, i + 1);
        }
        acc = acc + w;
        i = i + 1;
    }
    assert(value@.take(v.len() as int) =~= value@);
    acc
}

/// The pieces of `line`, `w` characters each, the last one shorter.
pub open spec fn chunks(line: Seq<char>, w: int) -> Seq<Seq<char>>
    recommends
        w >= 1,
    decreases line.len(),
    when w >= 1
{
    if line.len() == 0 {
        Seq::<Seq<char>>::empty()
    } else if line.len() <= w {
        seq![line]
    } else {
        seq![line.take(w)] + chunks(line.skip(w), w)
    }
}

/// The display lines of one line of text: one empty line, or its chunks.
pub open spec fn wrap_one(line: Seq<char>, w: int) -> Seq<Seq<char>> {
    if line.len() == 0 {
        seq![Seq::<char>::empty()]
    } else {
        chunks(line, w)
    }
}

/// The display lines of the lines `ls` in order.
pub open spec fn wrap_all(ls: Seq<Seq<char>>, w: int) -> Seq<Seq<char>>
    decreases ls.len(),
{
    if ls.len() == 0 {
        Seq::<Seq<char>>::empty()
    } else {
        wrap_all(ls.drop_last(), w) + wrap_one(ls.last(), w)
    }
}

/// The lines that `text` takes when wrapped at `width` characters (a width of
/// zero wraps after every character).
pub open spec fn wrap_spec(text: Seq<char>, width: int) -> Seq<Seq<char>> {
    wrap_all(split_on(text, '\n'), if width < 1 { 1 } else { width })
}

proof fn lemma_chunks_step(line: Seq<char>, i: int, w: int)
    requires
        w >= 1,
        0 <= i < line.len(),
    ensures
        chunks(line.skip(i), w) == seq![line.subrange(i, if i + w < line.len() { i + w } else { line.len() as int })]
            + chunks(line.skip(if i + w < line.len() { i + w } else { line.len() as int }), w),
{
    let rest = line.skip(i);
    if rest.len() <= w {
        assert(rest == line.subrange(i, line.len() as int));
        assert(line.skip(line.len() as int).len() == 0);
        assert(chunks(line.skip(line.len() as int), w) == Seq::<Seq<char>>::empty());
        assert(seq![rest] + Seq::<Seq<char>>::empty() == seq![rest]);
    } else {
        assert(rest.take(w) == line.subrange(i, i + w));
        assert(rest.skip(w) == line.skip(i + w));
    }
}

/// One line cut into pieces of `w` characters.
fn chunk_line(line: &[char], w: usize, out: &mut Vec<String>)
    requires
        w >= 1,
    ensures
        str_views(final(out)@) == str_views(old(out)@) + chunks(line@, w as int),
{
    let n = line.len();
    let mut i: usize = 0;
    assert(line@.skip(0) == line@);
    while i < n
        invariant
            n == line.len(),
            w >= 1,
            i <= n,
            str_views(out@) + chunks(line@.skip(i as int), w as int) == str_views(old(out)@)
                + chunks(line@, w as int),
        decreases n - i,
    {
        let end: usize = if w < n - i {
            i + w
        } else {
            n
        };
        proof {
            lemma_chunks_step(line@, i as int, w as int);
        }
        let piece = string_from_range(line, i, end);
        let ghost before = str_views(out@);
        out.push(piece);
        assert(str_views(out@) == before.push(piece@));
        proof {
            let a = chunks(line@.skip(end as int), w as int);
            assert(before + (seq![piece@] + a) == before.push(piece@) + a);
        }
        i = end;
    }
    assert(line@.skip(n as int).len() == 0);
    assert(chunks(line@.skip(n as int), w as int) == Seq::<Seq<char>>::empty());
    assert(str_views(out@) + Seq::<Seq<char>>::empty() == str_views(out@));
}

/// The lines that `text` takes in a box `width` characters wide.
pub fn wrap_approx_lines(text: &str, width: usize) -> (r: Vec<String>)
    ensures
        str_views(r@) == wrap_spec(text@, width as int),
{
    let w: usize = if width < 1 {
        1
    } else {
        width
    };
    let v = chars_of(text);
    let pieces = split_chars(v.as_slice(), '\n');
    let ghost ps = views(pieces@);
    let mut lines: Vec<String> = Vec::new();
    let mut k: usize = 0;
    assert(ps.subrange(0, 0) == Seq::<Seq<char>>::empty());
    while k < pieces.len()
        invariant
            w >= 1,
            w as int == (if width < 1 { 1 } else { width as int }),
            ps == views(pieces@),
            k <= pieces.len(),
            str_views(lines@) == wrap_all(ps.subrange(0, k as int), w as int),
        decreases pieces.len() - k,
    {
        let ghost before = ps.subrange(0, k as int);
        assert(ps.subrange(0, k + 1).drop_last() == before);
        assert(ps.subrange(0, k + 1).last() == pieces@[k as int]@);
        let piece = &pieces[k];
        if piece.len() == 0 {
            let ghost b = str_views(lines@);
            lines.push(String::new());
            assert(str_views(lines@) == b.push(Seq::<char>::empty()));
            assert(b.push(Seq::<char>::empty()) == b + seq![Seq::<char>::empty()]);
        } else {
            chunk_line(piece.as_slice(), w, &mut lines);
        }
        k = k + 1;
    }
    assert(ps.subrange(0, pieces.len() as int) == ps);
    lines
}

/// Every line that `wrap_approx_lines` makes fits the width.
pub proof fn law_wrapped_lines_fit(text: Seq<char>, width: int, i: int)
    requires
        0 <= i < wrap_spec(text, width).len(),
    ensures
        wrap_spec(text, width)[i].len() <= (if width < 1 { 1 } else { width }),
{
    let w = if width < 1 { 1 } else { width };
    lemma_wrap_all_fit(split_on(text, '\n'), w, i);
}

proof fn lemma_chunks_fit(line: Seq<char>, w: int, i: int)
    requires
        w >= 1,
        0 <= i < chunks(line, w).len(),
    ensures
        chunks(line, w)[i].len() <= w,
        chunks(line, w)[i].len() > 0,
    decreases line.len(),
{
    if line.len() > w && i > 0 {
        lemma_chunks_fit(line.skip(w), w, i - 1);
    }
}

proof fn lemma_wrap_all_fit(ls: Seq<Seq<char>>, w: int, i: int)
    requires
        w >= 1,
        0 <= i < wrap_all(ls, w).len(),
    ensures
        wrap_all(ls, w)[i].len() <= w,
    decreases ls.len(),
{
    if ls.len() > 0 {
        let a = wrap_all(ls.drop_last(), w);
        if i < a.len() {
            lemma_wrap_all_fit(ls.drop_last(), w, i);
        } else if ls.last().len() > 0 {
            lemma_chunks_fit(ls.last(), w, i - a.len());
        }
    }
}

/// The greatest scroll offset that still fills a box `area_height` rows high
/// (two rows go to the border) with `content_lines` lines.
pub fn transcript_max_scroll(content_lines: u16, area_height: u16) -> (r: u16)
    ensures
        r as int == (if content_lines as int > area_height - 2 && area_height >= 2 {
            content_lines - (area_height - 2)
        } else if area_height < 2 {
            content_lines as int
        } else {
            0
        }),
{
    let viewport = area_height.saturating_sub(2);
    content_lines.saturating_sub(viewport)
}


/// The words of a command line from position `i` on, given the words found so
/// far, the word being read and the open quote, if any. Outside quotes, white
/// space separates words and a backslash takes the next character as it is;
/// inside double quotes a backslash does the same; single quotes take all up to
/// the closing one. `None` when a quote is left open.
pub open spec fn split_words_from(
    s: Seq<char>,
    i: int,
    parts: Seq<Seq<char>>,
    cur: Seq<char>,
    quote: Option<char>,
) -> Option<Seq<Seq<char>>>
    decreases s.len() - i,
{
    if i >= s.len() || i < 0 {
        if quote is Some {
            None
        } else if cur.len() > 0 {
            Some(parts.push(cur))
        } else {
            Some(parts)
        }
    } else {
        let ch = s[i];
        match quote {
            Some(q) => {
                if ch == q {
                    split_words_from(s, i + 1, parts, cur, None)
                } else if ch == '\\' && q == '"' {
                    if i + 1 < s.len() {
                        split_words_from(s, i + 2, parts, cur.push(s[i + 1]), quote)
                    } else {
                        split_words_from(s, i + 1, parts, cur.push('\\'), quote)
                    }
                } else {
                    split_words_from(s, i + 1, parts, cur.push(ch), quote)
                }
            },
            None => {
                if ch == '"' || ch == '\'' {
                    split_words_from(s, i + 1, parts, cur, Some(ch))
                } else if ch == '\\' {
                    if i + 1 < s.len() {
                        split_words_from(s, i + 2, parts, cur.push(s[i + 1]), quote)
                    } else {
                        split_words_from(s, i + 1, parts, cur.push('\\'), quote)
                    }
                } else if is_ws(ch) {
                    if cur.len() > 0 {
                        split_words_from(s, i + 1, parts.push(cur), Seq::<char>::empty(), quote)
                    } else {
                        split_words_from(s, i + 1, parts, cur, quote)
                    }
                } else {
                    split_words_from(s, i + 1, parts, cur.push(ch), quote)
                }
            },
        }
    }
}

/// The words of a command line, `None` when a quote is left open.
pub open spec fn split_words(s: Seq<char>) -> Option<Seq<Seq<char>>> {
    split_words_from(s, 0, Seq::<Seq<char>>::empty(), Seq::<char>::empty(), None)
}

/// Inside single quotes every character is taken as it is, up to the
/// closing quote.
proof fn lemma_single_quoted_run(s: Seq<char>, i: int, k: int, parts: Seq<Seq<char>>, cur: Seq<char>)
    requires
        0 <= i <= k < s.len(),
        s[k] == '\'',
        forall|j: int| i <= j < k ==> s[j] != '\'',
    ensures
        split_words_from(s, i, parts, cur, Some('\'')) == split_words_from(s, k + 1, parts, cur + s.subrange(i, k), None),
    decreases k - i,
{
    if i == k {
        assert(cur + s.subrange(i, k) =~= cur);
    } else {
        lemma_single_quoted_run(s, i + 1, k, parts, cur.push(s[i]));
        assert(cur.push(s[i]) + s.subrange(i + 1, k) =~= cur + s.subrange(i, k));
    }
}

/// A word in single quotes is taken as it is, backslashes included: the
/// line `'x'` is the one word `x`, for any `x` without a single quote.
pub proof fn law_single_quotes_keep_text(x: Seq<char>)
    requires
        x.len() > 0,
        forall|j: int| 0 <= j < x.len() ==> x[j] != '\'',
    ensures
        split_words(seq!['\''] + x + seq!['\'']) == Some(seq![x]),
{
    let s = seq!['\''] + x + seq!['\''];
    let n: int = x.len() as int;
    assert(s[0] == '\'');
    assert forall|j: int| 1 <= j < n + 1 implies s[j] != '\'' by {
        assert(s[j] == x[j - 1]);
    }
    assert(s[n + 1] == '\'');
    lemma_single_quoted_run(s, 1, n + 1, Seq::<Seq<char>>::empty(), Seq::<char>::empty());
    assert(Seq::<char>::empty() + s.subrange(1, n + 1) =~= x);
    assert(Seq::<Seq<char>>::empty().push(x) =~= seq![x]);
}

/// Inside double quotes every character but the quote and the backslash is
/// taken as it is, up to the closing quote.
proof fn lemma_double_quoted_run(s: Seq<char>, i: int, k: int, parts: Seq<Seq<char>>, cur: Seq<char>)
    requires
        0 <= i <= k < s.len(),
        s[k] == '"',
        forall|j: int| i <= j < k ==> s[j] != '"' && s[j] != '\\',
    ensures
        split_words_from(s, i, parts, cur, Some('"')) == split_words_from(s, k + 1, parts, cur + s.subrange(i, k), None),
    decreases k - i,
{
    if i == k {
        assert(cur + s.subrange(i, k) =~= cur);
    } else {
        lemma_double_quoted_run(s, i + 1, k, parts, cur.push(s[i]));
        assert(cur.push(s[i]) + s.subrange(i + 1, k) =~= cur + s.subrange(i, k));
    }
}

/// A word in double quotes, with no quote or backslash in it, is taken as
/// it is, white space included.
pub proof fn law_double_quotes_keep_text(x: Seq<char>)
    requires
        x.len() > 0,
        forall|j: int| 0 <= j < x.len() ==> x[j] != '"' && x[j] != '\\',
    ensures
        split_words(seq!['"'] + x + seq!['"']) == Some(seq![x]),
{
    let s = seq!['"'] + x + seq!['"'];
    let n: int = x.len() as int;
    assert(s[0] == '"');
    assert forall|j: int| 1 <= j < n + 1 implies s[j] != '"' && s[j] != '\\' by {
        assert(s[j] == x[j - 1]);
    }
    assert(s[n + 1] == '"');
    lemma_double_quoted_run(s, 1, n + 1, Seq::<Seq<char>>::empty(), Seq::<char>::empty());
    assert(Seq::<char>::empty() + s.subrange(1, n + 1) =~= x);
    assert(Seq::<Seq<char>>::empty().push(x) =~= seq![x]);
}

/// Inside double quotes a backslash takes the next character as it is: the
/// line `"\c"` is the one word `c`.
pub proof fn law_double_quoted_escape(c: char)
    ensures
        split_words(seq!['"', '\\', c, '"']) == Some(seq![seq![c]]),
{
    let s = seq!['"', '\\', c, '"'];
    let e = Seq::<Seq<char>>::empty();
    assert(s.len() == 4);
    assert(split_words_from(s, 4, e, seq![c], None) == Some(e.push(seq![c])));
    assert(split_words_from(s, 3, e, seq![c], Some('"')) == split_words_from(s, 4, e, seq![c], None));
    assert(Seq::<char>::empty().push(s[2]) =~= seq![c]);
    assert(split_words_from(s, 1, e, Seq::<char>::empty(), Some('"')) == split_words_from(s, 3, e, seq![c], Some('"')));
    assert(split_words_from(s, 0, e, Seq::<char>::empty(), None) == split_words_from(s, 1, e, Seq::<char>::empty(), Some('"')));
    assert(Seq::<char>::empty().push(c) =~= seq![c]);
    assert(Seq::<Seq<char>>::empty().push(seq![c]) =~= seq![seq![c]]);
}

/// Splits a command line into words the way a shell does for quotes and
/// backslashes; an open quote is an error.
pub fn split_command_line(input: &str) -> (r: Result<Vec<String>, String>)
    ensures
        match r {
            Ok(parts) => split_words(input@) == Some(str_views(parts@)),
            Err(m) => split_words(input@) is None && m@ == "unterminated quote"@,
        },
{
    proof {
        reveal_strlit("unterminated quote");
    }
    let v = chars_of(input);
    let n = v.len();
    let mut parts: Vec<String> = Vec::new();
    let mut current = String::new();
    let mut quote: Option<char> = None;
    let mut i: usize = 0;
    assert(str_views(parts@) == Seq::<Seq<char>>::empty());
    while i < n
        invariant
            n == v.len(),
            v@ == input@,
            i <= n,
            split_words(input@) == split_words_from(input@, i as int, str_views(parts@), current@, quote),
        decreases n - i,
    {
        let ch = v[i];
        match quote {
            Some(active) => {
                if ch == active {
                    quote = None;
                    i = i + 1;
                } else if ch == '\\' && active == '"' {
                    if i + 1 < n {
                        push_char(&mut current, v[i + 1]);
                        i = i + 2;
                    } else {
                        push_char(&mut current, '\\');
                        i = i + 1;
                    }
                } else {
                    push_char(&mut current, ch);
                    i = i + 1;
                }
            },
            None => {
                if ch == '"' || ch == '\'' {
                    quote = Some(ch);
                    i = i + 1;
                } else if ch == '\\' {
                    if i + 1 < n {
                        push_char(&mut current, v[i + 1]);
                        i = i + 2;
                    } else {
                        push_char(&mut current, '\\');
                        i = i + 1;
                    }
                } else if is_whitespace(ch) {
                    if !current.as_str().is_empty() {
                        let word = current;
                        let ghost before = str_views(parts@);
                        parts.push(word);
                        assert(str_views(parts@) == before.push(word@));
                        current = String::new();
                    }
                    i = i + 1;
                } else {
                    push_char(&mut current, ch);
                    i = i + 1;
                }
            },
        }
    }
    if quote.is_some() {
        return Err(String::from_str("unterminated quote"));
    }
    if !current.as_str().is_empty() {
        let ghost before = str_views(parts@);
        parts.push(current);
        assert(str_views(parts@) == before.push(parts@.last()@));
    }
    Ok(parts)
}

} // verus!
