use vstd::prelude::*;
use crate::text::{chars_of, chars_eq};

verus! {

/// Whether `a` comes before `b` in the order of `str` (character by character,
/// a proper prefix first).
pub open spec fn lex_lt(a: Seq<char>, b: Seq<char>) -> bool
    decreases a.len(),
{
    if a.len() == 0 {
        b.len() > 0
    } else if b.len() == 0 {
        false
    } else if a[0] < b[0] {
        true
    } else if a[0] == b[0] {
        lex_lt(a.drop_first(), b.drop_first())
    } else {
        false
    }
}

/// No key comes before itself.
pub proof fn lemma_lex_irreflexive(a: Seq<char>)
    ensures
        !lex_lt(a, a),
    decreases a.len(),
{
    if a.len() > 0 {
        lemma_lex_irreflexive(a.drop_first());
    }
}

/// The order is transitive.
pub proof fn lemma_lex_transitive(a: Seq<char>, b: Seq<char>, c: Seq<char>)
    requires
        lex_lt(a, b),
        lex_lt(b, c),
    ensures
        lex_lt(a, c),
    decreases a.len(),
{
    if a.len() > 0 && b.len() > 0 && c.len() > 0 && a[0] == b[0] && b[0] == c[0] {
        lemma_lex_transitive(a.drop_first(), b.drop_first(), c.drop_first());
    }
}

/// Two different keys are ordered one way or the other.
pub proof fn lemma_lex_total(a: Seq<char>, b: Seq<char>)
    requires
        a != b,
    ensures
        lex_lt(a, b) || lex_lt(b, a),
    decreases a.len(),
{
    if a.len() > 0 && b.len() > 0 && a[0] == b[0] {
        if a.drop_first() == b.drop_first() {
            assert(a == seq![a[0]] + a.drop_first());
            assert(b == seq![b[0]] + b.drop_first());
        }
        lemma_lex_total(a.drop_first(), b.drop_first());
    } else if a.len() == 0 && b.len() == 0 {
        assert(a == b);
    }
}

/// Whether the keys of `s` ascend strictly.
pub open spec fn ascending(s: Seq<Seq<char>>) -> bool {
    forall|i: int, j: int| 0 <= i < j < s.len() ==> lex_lt(#[trigger] s[i], #[trigger] s[j])
}

/// Two strictly ascending lists of the same keys are the same list.
pub proof fn lemma_ascending_unique(a: Seq<Seq<char>>, b: Seq<Seq<char>>)
    requires
        ascending(a),
        ascending(b),
        forall|k: Seq<char>| a.contains(k) <==> b.contains(k),
    ensures
        a == b,
    decreases a.len(),
{
    if a.len() == 0 {
        if b.len() > 0 {
            assert(b.contains(b[0]));
        }
        assert(a =~= b);
    } else {
        assert(a.contains(a[0]));
        let j = choose|j: int| 0 <= j < b.len() && b[j] == a[0];
        assert(b.contains(b[0]));
        let i = choose|i: int| 0 <= i < a.len() && a[i] == b[0];
        if j > 0 {
            assert(lex_lt(b[0], b[j]));
            if i > 0 {
                assert(lex_lt(a[0], a[i]));
                lemma_lex_transitive(a[0], b[0], a[0]);
            }
            lemma_lex_irreflexive(a[0]);
        }
        assert(b[0] == a[0]);
        let a1 = a.drop_first();
        let b1 = b.drop_first();
        assert forall|k: Seq<char>| a1.contains(k) <==> b1.contains(k) by {
            if a1.contains(k) {
                let x = choose|x: int| 0 <= x < a1.len() && a1[x] == k;
                assert(lex_lt(a[0], a[x + 1]));
                lemma_lex_irreflexive(k);
                assert(a.contains(k));
                let y = choose|y: int| 0 <= y < b.len() && b[y] == k;
                assert(y != 0);
                assert(b1[y - 1] == k);
            }
            if b1.contains(k) {
                let x = choose|x: int| 0 <= x < b1.len() && b1[x] == k;
                assert(lex_lt(b[0], b[x + 1]));
                lemma_lex_irreflexive(k);
                assert(b.contains(k));
                let y = choose|y: int| 0 <= y < a.len() && a[y] == k;
                assert(y != 0);
                assert(a1[y - 1] == k);
            }
        }
        assert(ascending(a1)) by {
            assert forall|x: int, y: int| 0 <= x < y < a1.len() implies lex_lt(#[trigger] a1[x], #[trigger] a1[y]) by {
                assert(lex_lt(a[x + 1], a[y + 1]));
            }
        }
        assert(ascending(b1)) by {
            assert forall|x: int, y: int| 0 <= x < y < b1.len() implies lex_lt(#[trigger] b1[x], #[trigger] b1[y]) by {
                assert(lex_lt(b[x + 1], b[y + 1]));
            }
        }
        lemma_ascending_unique(a1, b1);
        assert(a =~= seq![a[0]] + a1);
        assert(b =~= seq![b[0]] + b1);
    }
}

/// Whether `a` comes before `b`.
pub fn lex_less(a: &[char], b: &[char]) -> (r: bool)
    ensures
        r == lex_lt(a@, b@),
{
    let mut i: usize = 0;
    assert(a@.skip(0) == a@);
    assert(b@.skip(0) == b@);
    while i < a.len() && i < b.len() && a[i] == b[i]
        invariant
            i <= a.len(),
            i <= b.len(),
            lex_lt(a@, b@) == lex_lt(a@.skip(i as int), b@.skip(i as int)),
        decreases a.len() - i,
    {
        assert(a@.skip(i as int).drop_first() == a@.skip(i + 1));
        assert(b@.skip(i as int).drop_first() == b@.skip(i + 1));
        i = i + 1;
    }
    let ghost sa = a@.skip(i as int);
    let ghost sb = b@.skip(i as int);
    if i == a.len() {
        return i < b.len();
    }
    if i == b.len() {
        return false;
    }
    assert(sa[0] == a@[i as int]);
    assert(sb[0] == b@[i as int]);
    a[i] < b[i]
}

/// A map from strings to values that keeps its keys in ascending order, as a
/// `BTreeMap<String, V>` does.
pub struct StrMap<V> {
    entries: Vec<(String, V)>,
}

/// The key and value of each entry, in order.
pub open spec fn entry_views<V>(e: Seq<(String, V)>) -> Seq<(Seq<char>, V)> {
    e.map_values(|x: (String, V)| (x.0@, x.1))
}

/// The value that the first entry with key `k` holds.
pub open spec fn lookup<V>(s: Seq<(Seq<char>, V)>, k: Seq<char>) -> Option<V>
    decreases s.len(),
{
    if s.len() == 0 {
        None
    } else if s[0].0 == k {
        Some(s[0].1)
    } else {
        lookup(s.drop_first(), k)
    }
}

/// Whether the keys of `s` ascend strictly.
pub open spec fn keys_ascend<V>(s: Seq<(Seq<char>, V)>) -> bool {
    forall|i: int, j: int| 0 <= i < j < s.len() ==> lex_lt(#[trigger] s[i].0, #[trigger] s[j].0)
}

proof fn lemma_lookup_index<V>(s: Seq<(Seq<char>, V)>, k: Seq<char>, i: int)
    requires
        keys_ascend(s),
        0 <= i < s.len(),
        s[i].0 == k,
    ensures
        lookup(s, k) == Some(s[i].1),
    decreases s.len(),
{
    if i > 0 {
        assert(lex_lt(s[0].0, s[i].0));
        lemma_lex_irreflexive(k);
        assert(s[0].0 != k);
        assert(keys_ascend(s.drop_first())) by {
            assert forall|a: int, b: int| 0 <= a < b < s.drop_first().len() implies lex_lt(
                #[trigger] s.drop_first()[a].0,
                #[trigger] s.drop_first()[b].0,
            ) by {
                assert(lex_lt(s[a + 1].0, s[b + 1].0));
            }
        }
        lemma_lookup_index(s.drop_first(), k, i - 1);
    }
}

proof fn lemma_lookup_absent<V>(s: Seq<(Seq<char>, V)>, k: Seq<char>)
    requires
        forall|i: int| 0 <= i < s.len() ==> #[trigger] s[i].0 != k,
    ensures
        lookup(s, k) is None,
    decreases s.len(),
{
    if s.len() > 0 {
        assert(s[0].0 != k);
        assert forall|i: int| 0 <= i < s.drop_first().len() implies #[trigger] s.drop_first()[i].0 != k by {
            assert(s[i + 1].0 != k);
        }
        lemma_lookup_absent(s.drop_first(), k);
    }
}

/// A key has a value exactly when it is one of the keys.
pub proof fn lemma_lookup_some<V>(s: Seq<(Seq<char>, V)>, k: Seq<char>)
    requires
        keys_ascend(s),
    ensures
        lookup(s, k) is Some <==> exists|i: int| 0 <= i < s.len() && #[trigger] s[i].0 == k,
    decreases s.len(),
{
    if exists|i: int| 0 <= i < s.len() && #[trigger] s[i].0 == k {
        let i = choose|i: int| 0 <= i < s.len() && #[trigger] s[i].0 == k;
        lemma_lookup_index(s, k, i);
    } else {
        lemma_lookup_absent(s, k);
    }
}

/// Looking up among string entries gives the view of what looking up among
/// the entries gives.
pub proof fn lemma_lookup_strings(s: Seq<(Seq<char>, String)>, k: Seq<char>)
    ensures
        lookup(s.map_values(|e: (Seq<char>, String)| (e.0, e.1@)), k) == match lookup(s, k) {
            Some(v) => Some(v@),
            None => None::<Seq<char>>,
        },
    decreases s.len(),
{
    if s.len() > 0 {
        assert(s.map_values(|e: (Seq<char>, String)| (e.0, e.1@)).drop_first() =~= s.drop_first().map_values(
            |e: (Seq<char>, String)| (e.0, e.1@),
        ));
        lemma_lookup_strings(s.drop_first(), k);
    }
}

impl<V> StrMap<V> {
    /// The entries, ascending by key.
    pub closed spec fn entries_view(&self) -> Seq<(Seq<char>, V)> {
        entry_views(self.entries@)
    }

    /// The keys stay in ascending order.
    pub open spec fn wf(&self) -> bool {
        keys_ascend(self.entries_view())
    }

    /// The value under `k`, if any.
    pub open spec fn get_spec(&self, k: Seq<char>) -> Option<V> {
        lookup(self.entries_view(), k)
    }

    /// The keys, ascending.
    pub open spec fn keys_view(&self) -> Seq<Seq<char>> {
        self.entries_view().map_values(|e: (Seq<char>, V)| e.0)
    }

    /// The keys, ascending.
    pub fn keys(&self) -> (r: Vec<String>)
        ensures
            crate::text::str_views(r@) == self.keys_view(),
    {
        let mut out: Vec<String> = Vec::new();
        let mut i: usize = 0;
        while i < self.entries.len()
            invariant
                i <= self.entries.len(),
                self.entries_view().len() == self.entries.len(),
                crate::text::str_views(out@) == self.keys_view().subrange(0, i as int),
            decreases self.entries.len() - i,
        {
            let k = self.entries[i].0.clone();
            let ghost before = crate::text::str_views(out@);
            out.push(k);
            assert(crate::text::str_views(out@) == before.push(k@));
            assert(self.keys_view().subrange(0, i + 1) == self.keys_view().subrange(0, i as int).push(self.keys_view()[i as int]));
            i = i + 1;
        }
        assert(self.keys_view().subrange(0, self.entries.len() as int) == self.keys_view());
        out
    }

    /// The keys are exactly those with a value, ascending.
    pub proof fn lemma_keys_exact(&self)
        requires
            self.wf(),
        ensures
            ascending(self.keys_view()),
            forall|k: Seq<char>| #[trigger] self.keys_view().contains(k) <==> self.get_spec(k) is Some,
    {
        let s = self.entries_view();
        let ks = self.keys_view();
        assert forall|i: int, j: int| 0 <= i < j < ks.len() implies lex_lt(#[trigger] ks[i], #[trigger] ks[j]) by {
            assert(lex_lt(s[i].0, s[j].0));
        }
        assert forall|k: Seq<char>| #[trigger] ks.contains(k) <==> self.get_spec(k) is Some by {
            lemma_lookup_some(s, k);
            if ks.contains(k) {
                let i = choose|i: int| 0 <= i < ks.len() && ks[i] == k;
                assert(s[i].0 == k);
            }
            if self.get_spec(k) is Some {
                let i = choose|i: int| 0 <= i < s.len() && #[trigger] s[i].0 == k;
                assert(ks[i] == k);
            }
        }
    }

    /// A key of the map has a value.
    pub proof fn lemma_key_present(&self, i: int)
        requires
            self.wf(),
            0 <= i < self.keys_view().len(),
        ensures
            self.get_spec(self.keys_view()[i]) == Some(self.entries_view()[i].1),
    {
        lemma_lookup_index(self.entries_view(), self.keys_view()[i], i);
    }

    /// The values, in ascending key order.
    pub fn into_values(self) -> (r: Vec<V>)
        ensures
            r@ == self.entries_view().map_values(|e: (Seq<char>, V)| e.1),
    {
        let ghost all = self.entries_view();
        let mut rest = self.entries;
        let mut out: Vec<V> = Vec::new();
        while rest.len() > 0
            invariant
                all.len() == out@.len() + rest@.len(),
                entry_views(rest@) == all.subrange(out@.len() as int, all.len() as int),
                out@ == all.subrange(0, out@.len() as int).map_values(|e: (Seq<char>, V)| e.1),
            decreases rest.len(),
        {
            let ghost k: int = out@.len() as int;
            let ghost r0 = rest@;
            assert(entry_views(r0)[0] == all.subrange(k, all.len() as int)[0]);
            let (_key, v) = rest.remove(0);
            assert(rest@ == r0.subrange(1, r0.len() as int));
            assert(all[k as int].1 == v);
            assert(entry_views(rest@) == entry_views(r0).subrange(1, r0.len() as int));
            out.push(v);
            assert(all.subrange(0, k + 1).map_values(|e: (Seq<char>, V)| e.1) == all.subrange(0, k as int).map_values(|e: (Seq<char>, V)| e.1).push(v));
            assert(entry_views(rest@) == all.subrange(k + 1, all.len() as int));
        }
        assert(all.subrange(0, all.len() as int) == all);
        out
    }

    /// An empty map.
    pub fn new() -> (m: Self)
        ensures
            m.wf(),
            m.entries_view() == Seq::<(Seq<char>, V)>::empty(),
            m.keys_view() == Seq::<Seq<char>>::empty(),
            forall|k: Seq<char>| #[trigger] m.get_spec(k) is None,
    {
        let m = StrMap { entries: Vec::new() };
        assert(m.entries_view() == Seq::<(Seq<char>, V)>::empty());
        m
    }

    /// How many entries there are.
    pub fn len(&self) -> (n: usize)
        ensures
            n == self.entries_view().len(),
    {
        self.entries.len()
    }

    /// The key and value of entry `i` in ascending key order.
    pub fn entry_at(&self, i: usize) -> (r: (&String, &V))
        requires
            i < self.entries_view().len(),
        ensures
            (r.0@, *r.1) == self.entries_view()[i as int],
    {
        let e = &self.entries[i];
        (&e.0, &e.1)
    }

    /// Where key `k` stands, if present.
    fn position(&self, k: &[char]) -> (r: Option<usize>)
        requires
            self.wf(),
        ensures
            match r {
                Some(i) => i < self.entries_view().len() && self.entries_view()[i as int].0 == k@,
                None => forall|i: int|
                    0 <= i < self.entries_view().len() ==> #[trigger] self.entries_view()[i].0 != k@,
            },
    {
        let mut i: usize = 0;
        while i < self.entries.len()
            invariant
                i <= self.entries.len(),
                self.entries_view().len() == self.entries.len(),
                forall|j: int| 0 <= j < i ==> #[trigger] self.entries_view()[j].0 != k@,
            decreases self.entries.len() - i,
        {
            let kv = chars_of(self.entries[i].0.as_str());
            assert(self.entries_view()[i as int].0 == self.entries@[i as int].0@);
            if chars_eq(kv.as_slice(), k) {
                return Some(i);
            }
            i = i + 1;
        }
        None
    }

    /// The value under `key`.
    pub fn get(&self, key: &str) -> (r: Option<&V>)
        requires
            self.wf(),
        ensures
            match r {
                Some(v) => self.get_spec(key@) == Some(*v),
                None => self.get_spec(key@) is None,
            },
    {
        let k = chars_of(key);
        match self.position(k.as_slice()) {
            Some(i) => {
                proof {
                    lemma_lookup_index(self.entries_view(), key@, i as int);
                }
                Some(&self.entries[i].1)
            },
            None => {
                proof {
                    lemma_lookup_absent(self.entries_view(), key@);
                }
                None
            },
        }
    }

    /// Whether `key` is present.
    pub fn contains_key(&self, key: &str) -> (r: bool)
        requires
            self.wf(),
        ensures
            r == self.get_spec(key@) is Some,
    {
        match self.get(key) {
            Some(_) => true,
            None => false,
        }
    }

    /// Puts `value` under `key`, and returns what was there before.
    pub fn insert(&mut self, key: String, value: V) -> (r: Option<V>)
        requires
            old(self).wf(),
        ensures
            final(self).wf(),
            r == old(self).get_spec(key@),
            forall|k: Seq<char>| #[trigger] final(self).get_spec(k) == if k == key@ {
                Some(value)
            } else {
                old(self).get_spec(k)
            },
    {
        let kv = chars_of(key.as_str());
        let ghost s0 = self.entries_view();
        let mut i: usize = 0;
        while i < self.entries.len() && lex_less(chars_of(self.entries[i].0.as_str()).as_slice(), kv.as_slice())
            invariant
                self.entries_view() == s0,
                keys_ascend(s0),
                i <= self.entries.len(),
                s0.len() == self.entries.len(),
                kv@ == key@,
                forall|j: int| 0 <= j < i ==> lex_lt(#[trigger] s0[j].0, key@),
            decreases self.entries.len() - i,
        {
            assert(s0[i as int].0 == self.entries@[i as int].0@);
            i = i + 1;
        }
        let n = self.entries.len();
        let same = i < n && chars_eq(chars_of(self.entries[i].0.as_str()).as_slice(), kv.as_slice());
        if i < n {
            assert(s0[i as int].0 == self.entries@[i as int].0@);
        }
        if same {
            let (_k, old_v) = self.entries.remove(i);
            self.entries.insert(i, (key, value));
            let ghost s1 = self.entries_view();
            proof {
                assert(s1 == s0.update(i as int, (key@, value)));
                assert(keys_ascend(s1)) by {
                    assert forall|a: int, b: int| 0 <= a < b < s1.len() implies lex_lt(
                        #[trigger] s1[a].0,
                        #[trigger] s1[b].0,
                    ) by {
                        assert(lex_lt(s0[a].0, s0[b].0));
                    }
                }
                lemma_lookup_index(s0, key@, i as int);
                assert forall|k: Seq<char>| #[trigger] lookup(s1, k) == if k == key@ {
                    Some(value)
                } else {
                    lookup(s0, k)
                } by {
                    if k == key@ {
                        lemma_lookup_index(s1, k, i as int);
                    } else if exists|m: int| 0 <= m < s0.len() && #[trigger] s0[m].0 == k {
                        let m = choose|m: int| 0 <= m < s0.len() && #[trigger] s0[m].0 == k;
                        lemma_lookup_index(s0, k, m);
                        lemma_lookup_index(s1, k, m);
                    } else {
                        lemma_lookup_absent(s0, k);
                        assert forall|m: int| 0 <= m < s1.len() implies #[trigger] s1[m].0 != k by {
                            if m != i {
                                assert(s1[m] == s0[m]);
                            }
                        }
                        lemma_lookup_absent(s1, k);
                    }
                }
            }
            Some(old_v)
        } else {
            self.entries.insert(i, (key, value));
            let ghost s1 = self.entries_view();
            proof {
                assert(s1.len() == s0.len() + 1);
                assert forall|m: int| 0 <= m < i implies #[trigger] s1[m] == s0[m] by {}
                assert forall|m: int| i < m < s1.len() implies #[trigger] s1[m] == s0[m - 1] by {}
                assert(s1[i as int] == (key@, value));
                if i < n {
                    lemma_lex_total(s0[i as int].0, key@);
                    assert(lex_lt(key@, s0[i as int].0));
                }
                assert(keys_ascend(s1)) by {
                    assert forall|a: int, b: int| 0 <= a < b < s1.len() implies lex_lt(
                        #[trigger] s1[a].0,
                        #[trigger] s1[b].0,
                    ) by {
                        if b < i {
                            assert(lex_lt(s0[a].0, s0[b].0));
                        } else if b == i {
                            assert(lex_lt(s0[a].0, key@));
                        } else if a < i {
                            assert(lex_lt(s0[a].0, key@));
                            if b - 1 > i {
                                assert(lex_lt(s0[i as int].0, s0[b - 1].0));
                                lemma_lex_transitive(key@, s0[i as int].0, s0[b - 1].0);
                            }
                            lemma_lex_transitive(s0[a].0, key@, s0[b - 1].0);
                        } else if a == i {
                            if b - 1 > i {
                                assert(lex_lt(s0[i as int].0, s0[b - 1].0));
                                lemma_lex_transitive(key@, s0[i as int].0, s0[b - 1].0);
                            }
                        } else {
                            assert(lex_lt(s0[a - 1].0, s0[b - 1].0));
                        }
                    }
                }
                assert forall|m: int| 0 <= m < s0.len() implies #[trigger] s0[m].0 != key@ by {
                    if m < i {
                        assert(lex_lt(s0[m].0, key@));
                        lemma_lex_irreflexive(key@);
                    } else {
                        if m > i {
                            assert(lex_lt(s0[i as int].0, s0[m].0));
                            lemma_lex_transitive(key@, s0[i as int].0, s0[m].0);
                        }
                        lemma_lex_irreflexive(key@);
                    }
                }
                lemma_lookup_absent(s0, key@);
                assert forall|k: Seq<char>| #[trigger] lookup(s1, k) == if k == key@ {
                    Some(value)
                } else {
                    lookup(s0, k)
                } by {
                    if k == key@ {
                        lemma_lookup_index(s1, k, i as int);
                    } else if exists|m: int| 0 <= m < s0.len() && #[trigger] s0[m].0 == k {
                        let m = choose|m: int| 0 <= m < s0.len() && #[trigger] s0[m].0 == k;
                        lemma_lookup_index(s0, k, m);
                        if m < i {
                            lemma_lookup_index(s1, k, m);
                        } else {
                            lemma_lookup_index(s1, k, m + 1);
                        }
                    } else {
                        lemma_lookup_absent(s0, k);
                        assert forall|m: int| 0 <= m < s1.len() implies #[trigger] s1[m].0 != k by {
                            if m < i {
                                assert(s1[m] == s0[m]);
                            } else if m > i {
                                assert(s1[m] == s0[m - 1]);
                            }
                        }
                        lemma_lookup_absent(s1, k);
                    }
                }
            }
            None
        }
    }

    /// Takes the entry under `key` out, and returns its value.
    pub fn remove(&mut self, key: &str) -> (r: Option<V>)
        requires
            old(self).wf(),
        ensures
            final(self).wf(),
            r == old(self).get_spec(key@),
            forall|k: Seq<char>| #[trigger] final(self).get_spec(k) == if k == key@ {
                None
            } else {
                old(self).get_spec(k)
            },
    {
        let kv = chars_of(key);
        let ghost s0 = self.entries_view();
        match self.position(kv.as_slice()) {
            None => {
                proof {
                    lemma_lookup_absent(s0, key@);
                }
                None
            },
            Some(i) => {
                proof {
                    lemma_lookup_index(s0, key@, i as int);
                }
                let (_k, v) = self.entries.remove(i);
                let ghost s1 = self.entries_view();
                proof {
                    assert(s1 == s0.remove(i as int));
                    assert forall|m: int| 0 <= m < i implies #[trigger] s1[m] == s0[m] by {}
                    assert forall|m: int| i <= m < s1.len() implies #[trigger] s1[m] == s0[m + 1] by {}
                    assert(keys_ascend(s1)) by {
                        assert forall|a: int, b: int| 0 <= a < b < s1.len() implies lex_lt(
                            #[trigger] s1[a].0,
                            #[trigger] s1[b].0,
                        ) by {
                            let a0 = if a < i { a } else { a + 1 };
                            let b0 = if b < i { b } else { b + 1 };
                            assert(lex_lt(s0[a0].0, s0[b0].0));
                        }
                    }
                    assert forall|k: Seq<char>| #[trigger] lookup(s1, k) == if k == key@ {
                        None
                    } else {
                        lookup(s0, k)
                    } by {
                        if k == key@ {
                            assert forall|m: int| 0 <= m < s1.len() implies #[trigger] s1[m].0 != k by {
                                let m0 = if m < i { m } else { m + 1 };
                                assert(s1[m] == s0[m0]);
                                assert(m0 != i);
                                if m0 < i {
                                    assert(lex_lt(s0[m0].0, s0[i as int].0));
                                } else {
                                    assert(lex_lt(s0[i as int].0, s0[m0].0));
                                }
                                lemma_lex_irreflexive(k);
                            }
                            lemma_lookup_absent(s1, k);
                        } else if exists|m: int| 0 <= m < s0.len() && #[trigger] s0[m].0 == k {
                            let m = choose|m: int| 0 <= m < s0.len() && #[trigger] s0[m].0 == k;
                            lemma_lookup_index(s0, k, m);
                            if m < i {
                                lemma_lookup_index(s1, k, m);
                            } else {
                                lemma_lookup_index(s1, k, m - 1);
                            }
                        } else {
                            lemma_lookup_absent(s0, k);
                            assert forall|m: int| 0 <= m < s1.len() implies #[trigger] s1[m].0 != k by {
                                let m0 = if m < i { m } else { m + 1 };
                                assert(s1[m] == s0[m0]);
                            }
                            lemma_lookup_absent(s1, k);
                        }
                    }
                }
                Some(v)
            },
        }
    }
}


impl StrMap<String> {
    /// The entries with the values taken by their views.
    pub open spec fn string_entries(&self) -> Seq<(Seq<char>, Seq<char>)> {
        self.entries_view().map_values(|e: (Seq<char>, String)| (e.0, e.1@))
    }

    /// A copy with the same keys and values.
    pub fn copy_strings(&self) -> (r: Self)
        ensures
            r.wf() == self.wf(),
            r.entries_view() == self.entries_view(),
    {
        let mut out: Vec<(String, String)> = Vec::new();
        let mut i: usize = 0;
        while i < self.entries.len()
            invariant
                i <= self.entries.len(),
                entry_views(out@) == self.entries_view().subrange(0, i as int),
            decreases self.entries.len() - i,
        {
            let k = self.entries[i].0.clone();
            let v = self.entries[i].1.clone();
            let ghost before = entry_views(out@);
            out.push((k, v));
            assert(entry_views(out@) == before.push((k@, v)));
            assert(self.entries_view().subrange(0, i + 1) == self.entries_view().subrange(0, i as int).push(self.entries_view()[i as int]));
            i = i + 1;
        }
        assert(self.entries_view().subrange(0, self.entries.len() as int) == self.entries_view());
        StrMap { entries: out }
    }

    /// Whether two maps hold the same keys with the same values.
    pub fn same_strings(&self, other: &Self) -> (r: bool)
        ensures
            r == (self.string_entries() == other.string_entries()),
    {
        if self.entries.len() != other.entries.len() {
            assert(self.string_entries().len() != other.string_entries().len());
            return false;
        }
        let mut i: usize = 0;
        while i < self.entries.len()
            invariant
                i <= self.entries.len(),
                self.entries.len() == other.entries.len(),
                self.entries_view().len() == self.entries.len(),
                other.entries_view().len() == other.entries.len(),
                forall|j: int| 0 <= j < i ==> #[trigger] self.string_entries()[j] == other.string_entries()[j],
            decreases self.entries.len() - i,
        {
            let (ka, va) = self.entry_at(i);
            let (kb, vb) = other.entry_at(i);
            if !crate::text::str_eq(ka.as_str(), kb.as_str()) || !crate::text::str_eq(va.as_str(), vb.as_str()) {
                assert(self.string_entries()[i as int] != other.string_entries()[i as int]);
                return false;
            }
            i = i + 1;
        }
        assert(self.string_entries() =~= other.string_entries());
        true
    }
}

} // verus!
