use vstd::prelude::*;
use crate::text::{
    chars_have_ws, chars_of, chars_start_with, has_ws, is_prefix, is_ws, is_whitespace,
    push_char, push_chars, trim_bounds, trim_start,
};

verus! {

/// A slash command of the chat screen.
#[derive(Clone, Copy, Debug)]
pub struct TuiCommandSpec {
    pub name: &'static str,
    pub usage: &'static str,
    pub description: &'static str,
}

impl View for TuiCommandSpec {
    type V = (Seq<char>, Seq<char>, Seq<char>);

    open spec fn view(&self) -> (Seq<char>, Seq<char>, Seq<char>) {
        (self.name@, self.usage@, self.description@)
    }
}

/// The views of a sequence of command specs.
pub open spec fn spec_views(v: Seq<TuiCommandSpec>) -> Seq<(Seq<char>, Seq<char>, Seq<char>)> {
    v.map_values(|c: TuiCommandSpec| c@)
}

/// The commands, in the order they are offered.
pub open spec fn command_table() -> Seq<(Seq<char>, Seq<char>, Seq<char>)> {
    seq![
        ("help"@, "/help"@, "show help"@),
        ("new"@, "/new [--character <name>] [--group-card <id>] [--group <name>]"@, "create chat"@),
        ("switch"@, "/switch"@, "toggle chats"@),
        ("attach"@, "/attach <path>"@, "queue attachment"@),
        ("attachments"@, "/attachments"@, "show queued attachments"@),
        ("clear-attachments"@, "/clear-attachments"@, "clear queued attachments"@),
        ("quit"@, "/quit"@, "quit"@),
        ("exit"@, "/exit"@, "quit"@),
    ]
}

/// All commands.
pub fn command_specs() -> (r: Vec<TuiCommandSpec>)
    ensures
        spec_views(r@) == command_table(),
{
    let mut v: Vec<TuiCommandSpec> = Vec::new();
    v.push(TuiCommandSpec { name: "help", usage: "/help", description: "show help" });
    v.push(
        TuiCommandSpec {
            name: "new",
            usage: "/new [--character <name>] [--group-card <id>] [--group <name>]",
            description: "create chat",
        },
    );
    v.push(TuiCommandSpec { name: "switch", usage: "/switch", description: "toggle chats" });
    v.push(
        TuiCommandSpec { name: "attach", usage: "/attach <path>", description: "queue attachment" },
    );
    v.push(
        TuiCommandSpec {
            name: "attachments",
            usage: "/attachments",
            description: "show queued attachments",
        },
    );
    v.push(
        TuiCommandSpec {
            name: "clear-attachments",
            usage: "/clear-attachments",
            description: "clear queued attachments",
        },
    );
    v.push(TuiCommandSpec { name: "quit", usage: "/quit", description: "quit" });
    v.push(TuiCommandSpec { name: "exit", usage: "/exit", description: "quit" });
    assert(spec_views(v@) == command_table());
    v
}

/// The command word being typed: the text after a leading `/`, as long as it
/// holds no white space.
pub open spec fn active_prefix(s: Seq<char>) -> Option<Seq<char>> {
    if s.len() > 0 && s[0] == '/' && !has_ws(s.drop_first()) {
        Some(s.drop_first())
    } else {
        None
    }
}

/// The command word being typed, if the input is one.
pub fn active_command_prefix(input: &str) -> (r: Option<&str>)
    ensures
        match r {
            Some(p) => active_prefix(input@) == Some(p@),
            None => active_prefix(input@) is None,
        },
{
    let n = input.unicode_len();
    if n == 0 {
        return None;
    }
    if input.get_char(0) != '/' {
        return None;
    }
    let rest = input.substring_char(1, n);
    let rv = chars_of(rest);
    assert(rest@ == input@.drop_first());
    if chars_have_ws(rv.as_slice()) {
        return None;
    }
    Some(rest)
}

/// The entries of `table` whose name starts with `p`, in order.
pub open spec fn with_prefix(
    table: Seq<(Seq<char>, Seq<char>, Seq<char>)>,
    p: Seq<char>,
) -> Seq<(Seq<char>, Seq<char>, Seq<char>)>
    decreases table.len(),
{
    if table.len() == 0 {
        table
    } else {
        let rest = with_prefix(table.drop_last(), p);
        if is_prefix(p, table.last().0) {
            rest.push(table.last())
        } else {
            rest
        }
    }
}

/// The commands offered for a prefix have names no longer than those of the
/// table.
pub proof fn lemma_with_prefix_names_bounded(table: Seq<(Seq<char>, Seq<char>, Seq<char>)>, p: Seq<char>, bound: nat)
    requires
        forall|j: int| 0 <= j < table.len() ==> (#[trigger] table[j]).0.len() <= bound,
    ensures
        forall|i: int| 0 <= i < with_prefix(table, p).len() ==> (#[trigger] with_prefix(table, p)[i]).0.len() <= bound,
    decreases table.len(),
{
    if table.len() > 0 {
        let t = table.drop_last();
        assert forall|j: int| 0 <= j < t.len() implies (#[trigger] t[j]).0.len() <= bound by {
            assert(t[j] == table[j]);
        }
        lemma_with_prefix_names_bounded(t, p, bound);
        assert(table.last() == table[table.len() - 1]);
        let w = with_prefix(table, p);
        let rest = with_prefix(t, p);
        assert forall|i: int| 0 <= i < w.len() implies (#[trigger] w[i]).0.len() <= bound by {
            if is_prefix(p, table.last().0) {
                assert(w == rest.push(table.last()));
                if i < rest.len() {
                    assert(w[i] == rest[i]);
                }
            } else {
                assert(w == rest);
            }
        }
    }
}

/// No command name is longer than seventeen characters.
pub proof fn lemma_command_names_short()
    ensures
        forall|j: int| 0 <= j < command_table().len() ==> (#[trigger] command_table()[j]).0.len() <= 17,
{
    reveal_strlit("help");
    reveal_strlit("new");
    reveal_strlit("switch");
    reveal_strlit("attach");
    reveal_strlit("attachments");
    reveal_strlit("clear-attachments");
    reveal_strlit("quit");
    reveal_strlit("exit");
}

/// The commands that complete the command word being typed.
pub fn matching_command_specs(input: &str) -> (r: Vec<TuiCommandSpec>)
    ensures
        spec_views(r@) == match active_prefix(input@) {
            Some(p) => with_prefix(command_table(), p),
            None => Seq::empty(),
        },
{
    let mut out: Vec<TuiCommandSpec> = Vec::new();
    let prefix = match active_command_prefix(input) {
        Some(p) => p,
        None => {
            assert(spec_views(out@) == Seq::<(Seq<char>, Seq<char>, Seq<char>)>::empty());
            return out;
        },
    };
    let pv = chars_of(prefix);
    let specs = command_specs();
    let ghost table = command_table();
    let mut i: usize = 0;
    assert(table.subrange(0, 0) == Seq::<(Seq<char>, Seq<char>, Seq<char>)>::empty());
    assert(spec_views(out@) == Seq::<(Seq<char>, Seq<char>, Seq<char>)>::empty());
    while i < specs.len()
        invariant
            spec_views(specs@) == table,
            table == command_table(),
            pv@ == prefix@,
            i <= specs.len(),
            spec_views(out@) == with_prefix(table.subrange(0, i as int), pv@),
        decreases specs.len() - i,
    {
        let spec = specs[i];
        let ghost sub = table.subrange(0, i + 1);
        assert(sub.drop_last() == table.subrange(0, i as int));
        assert(sub.last() == spec@);
        let nv = chars_of(spec.name);
        if chars_start_with(nv.as_slice(), pv.as_slice()) {
            let ghost before = spec_views(out@);
            out.push(spec);
            assert(spec_views(out@) == before.push(spec@));
        }
        i = i + 1;
    }
    assert(table.subrange(0, specs.len() as int) == table);
    out
}

/// Where the first word of `s` ends: the first white space, or the end.
pub open spec fn first_word_end(s: Seq<char>, k: int) -> bool {
    &&& 0 <= k <= s.len()
    &&& forall|j: int| 0 <= j < k ==> !is_ws(#[trigger] s[j])
    &&& (k == s.len() || is_ws(s[k]))
}

/// The input with its first word replaced by `/name `, and the cursor just
/// after that.
pub fn complete_command_input(input: &str, command_name: &str) -> (r: (String, usize))
    requires
        command_name@.len() + 2 <= usize::MAX,
    ensures
        exists|k: int|
            first_word_end(input@, k) && r.0@ == seq!['/'] + command_name@ + seq![' ']
                + trim_start(input@.skip(k)),
        r.1 == command_name@.len() + 2,
{
    let v = chars_of(input);
    let mut k: usize = 0;
    while k < v.len() && !is_whitespace(v[k])
        invariant
            k <= v.len(),
            v@ == input@,
            forall|j: int| 0 <= j < k ==> !is_ws(#[trigger] v@[j]),
        decreases v.len() - k,
    {
        k = k + 1;
    }
    assert(first_word_end(input@, k as int));
    let mut rest: Vec<char> = Vec::new();
    let mut j: usize = k;
    while j < v.len()
        invariant
            k <= j <= v.len(),
            rest@ == v@.subrange(k as int, j as int),
        decreases v.len() - j,
    {
        rest.push(v[j]);
        j = j + 1;
    }
    assert(rest@ == input@.skip(k as int));
    let (a, _b) = trim_bounds(rest.as_slice());
    let name = chars_of(command_name);
    let mut out = String::new();
    push_char(&mut out, '/');
    push_chars(&mut out, name.as_slice());
    push_char(&mut out, ' ');
    let ghost head = out@;
    let mut t: usize = a;
    while t < rest.len()
        invariant
            a <= t <= rest.len(),
            out@ == head + rest@.subrange(a as int, t as int),
        decreases rest.len() - t,
    {
        push_char(&mut out, rest[t]);
        t = t + 1;
    }
    proof {
        lemma_trim_start_suffix(rest@);
    }
    assert(out@ == seq!['/'] + command_name@ + seq![' '] + trim_start(input@.skip(k as int)));
    (out, name.len() + 2)
}

/// Trimming the start keeps a suffix: what is left is `s` from where the white
/// space ends.
pub proof fn lemma_trim_start_suffix(s: Seq<char>)
    ensures
        trim_start(s).len() <= s.len(),
        trim_start(s) == s.skip(s.len() - trim_start(s).len()),
    decreases s.len(),
{
    if s.len() > 0 && is_ws(s[0]) {
        lemma_trim_start_suffix(s.drop_first());
        assert(s.drop_first().skip(s.drop_first().len() - trim_start(s.drop_first()).len())
            == s.skip(s.len() - trim_start(s).len()));
    } else {
        assert(s.skip(0) == s);
    }
}

} // verus!
