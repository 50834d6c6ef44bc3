use vstd::prelude::*;

verus! {

/// Unicode `White_Space` property, the set that `char::is_whitespace` tests.
pub open spec fn is_ws(c: char) -> bool {
    let n = c as u32;
    (0x09 <= n && n <= 0x0d) || n == 0x20 || n == 0x85 || n == 0xa0 || n == 0x1680
        || (0x2000 <= n && n <= 0x200a) || n == 0x2028 || n == 0x2029 || n == 0x202f
        || n == 0x205f || n == 0x3000
}

/// Whether `c` is Unicode white space.
pub fn is_whitespace(c: char) -> (b: bool)
    ensures
        b == is_ws(c),
{
    let n = c as u32;
    (0x09 <= n && n <= 0x0d) || n == 0x20 || n == 0x85 || n == 0xa0 || n == 0x1680 || (0x2000
        <= n && n <= 0x200a) || n == 0x2028 || n == 0x2029 || n == 0x202f || n == 0x205f || n
        == 0x3000
}

/// `s` with its leading white space removed.
pub open spec fn trim_start(s: Seq<char>) -> Seq<char>
    decreases s.len(),
{
    if s.len() > 0 && is_ws(s[0]) {
        trim_start(s.drop_first())
    } else {
        s
    }
}

/// `s` with its trailing white space removed.
pub open spec fn trim_end(s: Seq<char>) -> Seq<char>
    decreases s.len(),
{
    if s.len() > 0 && is_ws(s.last()) {
        trim_end(s.drop_last())
    } else {
        s
    }
}

/// `s` with white space removed at both ends.
pub open spec fn trim(s: Seq<char>) -> Seq<char> {
    trim_end(trim_start(s))
}

/// Whether some character of `s` is white space.
pub open spec fn has_ws(s: Seq<char>) -> bool {
    exists|i: int| 0 <= i < s.len() && is_ws(#[trigger] s[i])
}

/// Whether `s` holds nothing but white space (which includes being empty).
pub open spec fn is_blank(s: Seq<char>) -> bool {
    forall|i: int| 0 <= i < s.len() ==> is_ws(#[trigger] s[i])
}

/// Appends one character to a string (`String::push`).
#[verifier::external_body]
pub fn push_char(s: &mut String, c: char)
    ensures
        final(s)@ == old(s)@.push(c),
{
    s.push(c);
}

/// The characters of `s`, in order.
pub fn chars_of(s: &str) -> (v: Vec<char>)
    ensures
        v@ == s@,
{
    let n = s.unicode_len();
    let mut v: Vec<char> = Vec::new();
    let mut i: usize = 0;
    while i < n
        invariant
            n == s@.len(),
            i <= n,
            v@ == s@.subrange(0, i as int),
        decreases n - i,
    {
        let c = s.get_char(i);
        v.push(c);
        i = i + 1;
    }
    v
}

/// The string made of the characters of `v`, in order.
pub fn string_from_chars(v: &[char]) -> (s: String)
    ensures
        s@ == v@,
{
    let mut s = String::new();
    let mut i: usize = 0;
    while i < v.len()
        invariant
            i <= v.len(),
            s@ == v@.subrange(0, i as int),
        decreases v.len() - i,
    {
        push_char(&mut s, v[i]);
        i = i + 1;
    }
    s
}

/// The string made of the characters `v[from..to]`.
pub fn string_from_range(v: &[char], from: usize, to: usize) -> (s: String)
    requires
        from <= to <= v.len(),
    ensures
        s@ == v@.subrange(from as int, to as int),
{
    let mut s = String::new();
    let mut i: usize = from;
    while i < to
        invariant
            from <= i <= to <= v.len(),
            s@ == v@.subrange(from as int, i as int),
        decreases to - i,
    {
        push_char(&mut s, v[i]);
        i = i + 1;
    }
    s
}

/// Whether two character sequences are equal.
pub fn chars_eq(a: &[char], b: &[char]) -> (r: bool)
    ensures
        r == (a@ == b@),
{
    if a.len() != b.len() {
        return false;
    }
    let mut i: usize = 0;
    while i < a.len()
        invariant
            a.len() == b.len(),
            i <= a.len(),
            a@.subrange(0, i as int) == b@.subrange(0, i as int),
        decreases a.len() - i,
    {
        if a[i] != b[i] {
            assert(a@[i as int] != b@[i as int]);
            return false;
        }
        assert(a@.subrange(0, i + 1) == a@.subrange(0, i as int).push(a@[i as int]));
        assert(b@.subrange(0, i + 1) == b@.subrange(0, i as int).push(b@[i as int]));
        i = i + 1;
    }
    assert(a@ == a@.subrange(0, a.len() as int));
    assert(b@ == b@.subrange(0, b.len() as int));
    true
}

/// Whether two strings are equal.
pub fn str_eq(a: &str, b: &str) -> (r: bool)
    ensures
        r == (a@ == b@),
{
    let av = chars_of(a);
    let bv = chars_of(b);
    chars_eq(av.as_slice(), bv.as_slice())
}

/// Whether `p` is a prefix of `s`.
pub open spec fn is_prefix(p: Seq<char>, s: Seq<char>) -> bool {
    p.len() <= s.len() && s.subrange(0, p.len() as int) == p
}

/// Whether `v` starts with `p`.
pub fn chars_start_with(v: &[char], p: &[char]) -> (r: bool)
    ensures
        r == is_prefix(p@, v@),
{
    if p.len() > v.len() {
        return false;
    }
    let mut i: usize = 0;
    while i < p.len()
        invariant
            p.len() <= v.len(),
            i <= p.len(),
            v@.subrange(0, i as int) == p@.subrange(0, i as int),
        decreases p.len() - i,
    {
        if v[i] != p[i] {
            assert(v@.subrange(0, p.len() as int)[i as int] != p@[i as int]);
            return false;
        }
        assert(v@.subrange(0, i + 1) == v@.subrange(0, i as int).push(v@[i as int]));
        assert(p@.subrange(0, i + 1) == p@.subrange(0, i as int).push(p@[i as int]));
        i = i + 1;
    }
    assert(p@ == p@.subrange(0, p.len() as int));
    true
}

/// Whether `v[at..]` starts with `p`.
pub fn chars_match_at(v: &[char], at: usize, p: &[char]) -> (r: bool)
    requires
        at <= v.len(),
    ensures
        r == is_prefix(p@, v@.subrange(at as int, v.len() as int)),
{
    if p.len() > v.len() - at {
        return false;
    }
    let ghost rest = v@.subrange(at as int, v.len() as int);
    let mut i: usize = 0;
    while i < p.len()
        invariant
            at <= v.len(),
            p.len() <= v.len() - at,
            rest == v@.subrange(at as int, v.len() as int),
            i <= p.len(),
            rest.subrange(0, i as int) == p@.subrange(0, i as int),
        decreases p.len() - i,
    {
        if v[at + i] != p[i] {
            assert(rest.subrange(0, p.len() as int)[i as int] != p@[i as int]);
            return false;
        }
        assert(rest.subrange(0, i + 1) == rest.subrange(0, i as int).push(rest[i as int]));
        assert(p@.subrange(0, i + 1) == p@.subrange(0, i as int).push(p@[i as int]));
        i = i + 1;
    }
    assert(p@ == p@.subrange(0, p.len() as int));
    true
}

proof fn lemma_trim_start_step(s: Seq<char>, i: int)
    requires
        0 <= i < s.len(),
        is_ws(s[i]),
    ensures
        trim_start(s.subrange(i, s.len() as int)) == trim_start(s.subrange(i + 1, s.len() as int)),
{
    let t = s.subrange(i, s.len() as int);
    assert(t.drop_first() == s.subrange(i + 1, s.len() as int));
}

proof fn lemma_trim_end_step(s: Seq<char>, j: int)
    requires
        0 < j <= s.len(),
        is_ws(s[j - 1]),
    ensures
        trim_end(s.subrange(0, j)) == trim_end(s.subrange(0, j - 1)),
{
    let t = s.subrange(0, j);
    assert(t.drop_last() == s.subrange(0, j - 1));
}

/// The bounds `(a, b)` with `v[a..b]` equal to `v` trimmed of white space.
pub fn trim_bounds(v: &[char]) -> (r: (usize, usize))
    ensures
        r.0 <= r.1 <= v.len(),
        v@.subrange(r.0 as int, r.1 as int) == trim(v@),
        r.0 as int == v.len() - trim_start(v@).len(),
{
    let n = v.len();
    let mut a: usize = 0;
    assert(v@.subrange(0, n as int) == v@);
    while a < n && is_whitespace(v[a])
        invariant
            n == v.len(),
            a <= n,
            trim_start(v@) == trim_start(v@.subrange(a as int, n as int)),
        decreases n - a,
    {
        proof {
            lemma_trim_start_step(v@, a as int);
        }
        a = a + 1;
    }
    let ghost ts = v@.subrange(a as int, n as int);
    assert(trim_start(ts) == ts) by {
        if ts.len() > 0 {
            assert(ts[0] == v@[a as int]);
        }
    }
    let mut b: usize = n;
    assert(ts.subrange(0, n - a) == ts);
    while b > a && is_whitespace(v[b - 1])
        invariant
            n == v.len(),
            a <= b <= n,
            ts == v@.subrange(a as int, n as int),
            trim_end(ts) == trim_end(ts.subrange(0, b - a)),
        decreases b,
    {
        proof {
            lemma_trim_end_step(ts, (b - a) as int);
            assert(ts[b - a - 1] == v@[b - 1]);
        }
        b = b - 1;
    }
    let ghost te = ts.subrange(0, b - a);
    assert(trim_end(te) == te) by {
        if te.len() > 0 {
            assert(te.last() == v@[b - 1]);
        }
    }
    assert(te == v@.subrange(a as int, b as int));
    (a, b)
}

/// `s` with white space removed at both ends (`str::trim`).
pub fn trim_str(s: &str) -> (r: String)
    ensures
        r@ == trim(s@),
{
    let v = chars_of(s);
    let (a, b) = trim_bounds(v.as_slice());
    string_from_range(v.as_slice(), a, b)
}

/// Whether `v` holds a white space character.
pub fn chars_have_ws(v: &[char]) -> (r: bool)
    ensures
        r == has_ws(v@),
{
    let mut i: usize = 0;
    while i < v.len()
        invariant
            i <= v.len(),
            forall|k: int| 0 <= k < i ==> !is_ws(#[trigger] v@[k]),
        decreases v.len() - i,
    {
        if is_whitespace(v[i]) {
            return true;
        }
        i = i + 1;
    }
    false
}

/// Whether `v` holds only white space.
pub fn chars_blank(v: &[char]) -> (r: bool)
    ensures
        r == is_blank(v@),
{
    let mut i: usize = 0;
    while i < v.len()
        invariant
            i <= v.len(),
            forall|k: int| 0 <= k < i ==> is_ws(#[trigger] v@[k]),
        decreases v.len() - i,
    {
        if !is_whitespace(v[i]) {
            return false;
        }
        i = i + 1;
    }
    true
}

/// Appends the characters of `v` to `s`.
pub fn push_chars(s: &mut String, v: &[char])
    ensures
        final(s)@ == old(s)@ + v@,
{
    let ghost s0 = s@;
    let mut i: usize = 0;
    while i < v.len()
        invariant
            i <= v.len(),
            s@ == s0 + v@.subrange(0, i as int),
        decreases v.len() - i,
    {
        push_char(s, v[i]);
        assert(v@.subrange(0, i + 1) == v@.subrange(0, i as int).push(v@[i as int]));
        i = i + 1;
    }
    assert(v@ == v@.subrange(0, v.len() as int));
}


/// The views of a sequence of character vectors.
pub open spec fn views(v: Seq<Vec<char>>) -> Seq<Seq<char>> {
    v.map_values(|x: Vec<char>| x@)
}

/// The views of a sequence of strings.
pub open spec fn str_views(v: Seq<String>) -> Seq<Seq<char>> {
    v.map_values(|x: String| x@)
}

/// The pieces of `s` between occurrences of `sep` (`str::split` with a character).
pub open spec fn split_on(s: Seq<char>, sep: char) -> Seq<Seq<char>>
    decreases s.len(),
{
    if s.len() == 0 {
        seq![Seq::<char>::empty()]
    } else {
        let p = split_on(s.drop_last(), sep);
        if s.last() == sep {
            p.push(Seq::<char>::empty())
        } else {
            p.update(p.len() - 1, p.last().push(s.last()))
        }
    }
}

/// A split always yields at least one piece.
pub proof fn lemma_split_on_nonempty(s: Seq<char>, sep: char)
    ensures
        split_on(s, sep).len() >= 1,
    decreases s.len(),
{
    if s.len() > 0 {
        lemma_split_on_nonempty(s.drop_last(), sep);
    }
}

/// The pieces of `v` between occurrences of `sep`.
pub fn split_chars(v: &[char], sep: char) -> (r: Vec<Vec<char>>)
    ensures
        views(r@) == split_on(v@, sep),
{
    let mut parts: Vec<Vec<char>> = Vec::new();
    let mut cur: Vec<char> = Vec::new();
    let mut i: usize = 0;
    assert(v@.subrange(0, 0) == Seq::<char>::empty());
    assert(views(parts@).push(cur@) == seq![Seq::<char>::empty()]);
    while i < v.len()
        invariant
            i <= v.len(),
            split_on(v@.subrange(0, i as int), sep) == views(parts@).push(cur@),
        decreases v.len() - i,
    {
        let ghost before = v@.subrange(0, i as int);
        let ghost after = v@.subrange(0, i + 1);
        assert(after.drop_last() == before);
        assert(after.last() == v@[i as int]);
        let c = v[i];
        if c == sep {
            let done = cur;
            parts.push(done);
            cur = Vec::new();
            assert(views(parts@) == views(parts@.drop_last()).push(done@));
            assert(split_on(after, sep) == views(parts@).push(cur@));
        } else {
            cur.push(c);
            assert(split_on(after, sep) == views(parts@).push(cur@));
        }
        i = i + 1;
    }
    assert(v@.subrange(0, v.len() as int) == v@);
    parts.push(cur);
    assert(views(parts@) == views(parts@.drop_last()).push(parts@.last()@));
    parts
}


/// A line without the carriage return that ends it, if any.
pub open spec fn strip_cr(p: Seq<char>) -> Seq<char> {
    if p.len() > 0 && p.last() == '\r' {
        p.drop_last()
    } else {
        p
    }
}

/// The lines of `s` (`str::lines`): split at `\n`, a `\r` before a `\n` dropped,
/// and no empty line after a final `\n`.
pub open spec fn lines_spec(s: Seq<char>) -> Seq<Seq<char>> {
    let ps = split_on(s, '\n');
    let init = ps.drop_last().map_values(|p: Seq<char>| strip_cr(p));
    if ps.last().len() > 0 {
        init.push(ps.last())
    } else {
        init
    }
}

/// The lines of `v`.
pub fn lines_of(v: &[char]) -> (r: Vec<Vec<char>>)
    ensures
        views(r@) == lines_spec(v@),
{
    let pieces = split_chars(v, '\n');
    proof {
        lemma_split_on_nonempty(v@, '\n');
    }
    let ghost ps = split_on(v@, '\n');
    let n = pieces.len();
    let mut out: Vec<Vec<char>> = Vec::new();
    let mut i: usize = 0;
    assert(views(out@) == Seq::<Seq<char>>::empty());
    while i + 1 < n
        invariant
            n == pieces.len(),
            n >= 1,
            views(pieces@) == ps,
            i <= n - 1,
            views(out@) == ps.subrange(0, i as int).map_values(|p: Seq<char>| strip_cr(p)),
        decreases n - i,
    {
        let p = &pieces[i];
        assert(p@ == ps[i as int]);
        let mut q: Vec<char> = Vec::new();
        let m: usize = if p.len() > 0 && p[p.len() - 1] == '\r' {
            p.len() - 1
        } else {
            p.len()
        };
        let mut j: usize = 0;
        while j < m
            invariant
                m <= p.len(),
                j <= m,
                q@ == p@.subrange(0, j as int),
            decreases m - j,
        {
            q.push(p[j]);
            j = j + 1;
        }
        assert(q@ == strip_cr(p@));
        let ghost before = views(out@);
        out.push(q);
        assert(views(out@) == before.push(q@));
        assert(ps.subrange(0, i + 1).map_values(|p: Seq<char>| strip_cr(p)) == ps.subrange(
            0,
            i as int,
        ).map_values(|p: Seq<char>| strip_cr(p)).push(strip_cr(ps[i as int])));
        i = i + 1;
    }
    assert(ps.subrange(0, n - 1) == ps.drop_last());
    let last = &pieces[n - 1];
    assert(last@ == ps.last());
    if last.len() > 0 {
        let mut q: Vec<char> = Vec::new();
        let mut j: usize = 0;
        while j < last.len()
            invariant
                j <= last.len(),
                q@ == last@.subrange(0, j as int),
            decreases last.len() - j,
        {
            q.push(last[j]);
            j = j + 1;
        }
        assert(q@ == last@);
        let ghost before = views(out@);
        out.push(q);
        assert(views(out@) == before.push(q@));
    }
    out
}

/// The lines `ls` joined with `sep` between them.
pub open spec fn join_spec(ls: Seq<Seq<char>>, sep: Seq<char>) -> Seq<char>
    decreases ls.len(),
{
    if ls.len() == 0 {
        Seq::<char>::empty()
    } else if ls.len() == 1 {
        ls[0]
    } else {
        join_spec(ls.drop_last(), sep) + sep + ls.last()
    }
}

/// The pieces `ls` joined with `sep` between them.
pub fn join_chars(ls: &Vec<Vec<char>>, sep: &[char]) -> (r: String)
    ensures
        r@ == join_spec(views(ls@), sep@),
{
    let mut out = String::new();
    let mut i: usize = 0;
    let ghost vs = views(ls@);
    assert(vs.subrange(0, 0) == Seq::<Seq<char>>::empty());
    while i < ls.len()
        invariant
            vs == views(ls@),
            i <= ls.len(),
            out@ == join_spec(vs.subrange(0, i as int), sep@),
        decreases ls.len() - i,
    {
        let ghost sub = vs.subrange(0, i + 1);
        assert(sub.drop_last() == vs.subrange(0, i as int));
        assert(sub.last() == ls@[i as int]@);
        if i > 0 {
            push_chars(&mut out, sep);
        } else {
            assert(sub.len() == 1);
            assert(out@ == Seq::<char>::empty());
        }
        push_chars(&mut out, ls[i].as_slice());
        i = i + 1;
    }
    assert(vs.subrange(0, ls.len() as int) == vs);
    out
}


/// `s` with every occurrence of `p` replaced by `r`, scanning from the left
/// without overlaps (`str::replace` with a non-empty pattern).
pub open spec fn replace_spec(s: Seq<char>, p: Seq<char>, r: Seq<char>) -> Seq<char>
    decreases s.len(),
{
    if p.len() == 0 || s.len() < p.len() {
        s
    } else if is_prefix(p, s) {
        r + replace_spec(s.skip(p.len() as int), p, r)
    } else {
        seq![s[0]] + replace_spec(s.drop_first(), p, r)
    }
}

/// Replacing a pattern by itself changes nothing.
pub proof fn lemma_replace_same(s: Seq<char>, p: Seq<char>)
    ensures
        replace_spec(s, p, p) == s,
    decreases s.len(),
{
    if p.len() == 0 || s.len() < p.len() {
    } else if is_prefix(p, s) {
        lemma_replace_same(s.skip(p.len() as int), p);
        assert(p + s.skip(p.len() as int) == s);
    } else {
        lemma_replace_same(s.drop_first(), p);
        assert(seq![s[0]] + s.drop_first() == s);
    }
}

/// `v` with every occurrence of `p` replaced by `r`.
pub fn replace_chars(v: &[char], p: &[char], r: &[char]) -> (out: Vec<char>)
    requires
        p.len() > 0,
    ensures
        out@ == replace_spec(v@, p@, r@),
{
    let mut out: Vec<char> = Vec::new();
    let mut i: usize = 0;
    assert(v@.skip(0) == v@);
    while i < v.len()
        invariant
            p.len() > 0,
            i <= v.len(),
            out@ + replace_spec(v@.skip(i as int), p@, r@) == replace_spec(v@, p@, r@),
        decreases v.len() - i,
    {
        let ghost rest = v@.skip(i as int);
        let ghost o = out@;
        if chars_match_at(v, i, p) {
            assert(v@.subrange(i as int, v.len() as int) == rest);
            assert(rest.skip(p.len() as int) == v@.skip(i + p.len()));
            let mut k: usize = 0;
            while k < r.len()
                invariant
                    k <= r.len(),
                    out@ == o + r@.subrange(0, k as int),
                decreases r.len() - k,
            {
                out.push(r[k]);
                k = k + 1;
            }
            assert(r@.subrange(0, r.len() as int) == r@);
            assert(o + (r@ + replace_spec(rest.skip(p.len() as int), p@, r@)) == out@
                + replace_spec(rest.skip(p.len() as int), p@, r@));
            i = i + p.len();
        } else {
            assert(v@.subrange(i as int, v.len() as int) == rest);
            out.push(v[i]);
            assert(rest.drop_first() == v@.skip(i + 1));
            if v.len() - i >= p.len() {
                assert(o + (seq![rest[0]] + replace_spec(rest.drop_first(), p@, r@)) == out@
                    + replace_spec(rest.drop_first(), p@, r@));
            } else {
                proof {
                    lemma_replace_short(rest, p@, r@);
                    lemma_replace_short(rest.drop_first(), p@, r@);
                    assert(rest == seq![rest[0]] + rest.drop_first());
                    assert(o + rest == out@ + rest.drop_first());
                }
            }
            i = i + 1;
        }
    }
    assert(v@.skip(v.len() as int).len() == 0);
    assert(out@ + Seq::<char>::empty() == out@);
    out
}

proof fn lemma_replace_short(s: Seq<char>, p: Seq<char>, r: Seq<char>)
    requires
        s.len() < p.len(),
    ensures
        replace_spec(s, p, r) == s,
{
}

/// `s` with every occurrence of `p` replaced by `r` (`str::replace`).
pub fn replace_str(s: &str, p: &str, r: &str) -> (out: String)
    requires
        p@.len() > 0,
    ensures
        out@ == replace_spec(s@, p@, r@),
{
    let v = chars_of(s);
    let pv = chars_of(p);
    let rv = chars_of(r);
    let o = replace_chars(v.as_slice(), pv.as_slice(), rv.as_slice());
    string_from_chars(o.as_slice())
}

/// `k` is where `p` first occurs in `s` at or after `from`.
pub open spec fn first_occurrence(s: Seq<char>, p: Seq<char>, from: int, k: int) -> bool {
    &&& from <= k <= s.len()
    &&& is_prefix(p, s.skip(k))
    &&& forall|j: int| from <= j < k ==> !is_prefix(p, #[trigger] s.skip(j))
}

/// Whether `p` occurs in `s` at or after `from`.
pub open spec fn occurs_from(s: Seq<char>, p: Seq<char>, from: int) -> bool {
    exists|k: int| from <= k <= s.len() && is_prefix(p, #[trigger] s.skip(k))
}

/// The first occurrence of `p` in `v` at or after `from`.
pub fn find_from(v: &[char], p: &[char], from: usize) -> (r: Option<usize>)
    requires
        from <= v.len(),
    ensures
        match r {
            Some(k) => first_occurrence(v@, p@, from as int, k as int),
            None => !occurs_from(v@, p@, from as int),
        },
{
    let mut i: usize = from;
    loop
        invariant
            from <= i <= v.len(),
            forall|j: int| from <= j < i ==> !is_prefix(p@, #[trigger] v@.skip(j)),
        decreases v.len() - i,
    {
        assert(v@.subrange(i as int, v.len() as int) == v@.skip(i as int));
        if chars_match_at(v, i, p) {
            return Some(i);
        }
        if i == v.len() {
            assert forall|k: int| from <= k <= v.len() implies !is_prefix(p@, #[trigger] v@.skip(k)) by {
                if k == v.len() {
                    assert(v@.skip(k) == v@.subrange(i as int, v.len() as int));
                }
            }
            return None;
        }
        i = i + 1;
    }
}


/// `s` with its leading white space removed (`str::trim_start`).
pub fn trim_start_str(s: &str) -> (r: String)
    ensures
        r@ == trim_start(s@),
{
    let v = chars_of(s);
    let mut i: usize = 0;
    assert(v@.skip(0) =~= v@);
    while i < v.len() && is_whitespace(v[i])
        invariant
            i <= v.len(),
            v@ == s@,
            trim_start(v@) == trim_start(v@.skip(i as int)),
        decreases v.len() - i,
    {
        assert(v@.skip(i as int).drop_first() =~= v@.skip(i + 1));
        i = i + 1;
    }
    assert(v@.subrange(i as int, v.len() as int) =~= v@.skip(i as int));
    string_from_range(v.as_slice(), i, v.len())
}

/// `s` with every leading copy of `p` removed (`str::trim_start_matches`).
pub open spec fn strip_repeated(s: Seq<char>, p: Seq<char>) -> Seq<char>
    decreases s.len(),
{
    if p.len() > 0 && is_prefix(p, s) {
        strip_repeated(s.skip(p.len() as int), p)
    } else {
        s
    }
}

/// `s` with every leading copy of `p` removed.
pub fn strip_repeated_str(s: &str, p: &str) -> (r: String)
    ensures
        r@ == strip_repeated(s@, p@),
{
    let v = chars_of(s);
    let pv = chars_of(p);
    let mut i: usize = 0;
    assert(v@.skip(0) =~= v@);
    while pv.len() > 0 && chars_match_at(v.as_slice(), i, pv.as_slice())
        invariant
            i <= v.len(),
            v@ == s@,
            pv@ == p@,
            strip_repeated(v@, p@) == strip_repeated(v@.skip(i as int), p@),
        decreases v.len() - i,
    {
        assert(v@.subrange(i as int, v.len() as int) =~= v@.skip(i as int));
        assert(v@.skip(i as int).skip(pv.len() as int) =~= v@.skip(i + pv.len()));
        i = i + pv.len();
    }
    assert(v@.subrange(i as int, v.len() as int) =~= v@.skip(i as int));
    string_from_range(v.as_slice(), i, v.len())
}

} // verus!
