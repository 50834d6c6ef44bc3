use vstd::prelude::*;
use std::collections::BTreeMap;
use vstd::std_specs::iter::IteratorSpec;
use crate::enhanced::{with_flag, MessageExecutionContext};

verus! {

broadcast use vstd::laws_cmp::group_laws_cmp, vstd::std_specs::btree::group_btree_axioms,
    vstd::std_specs::btree::axiom_spec_keys_iter;

/// The executions of a registry, each stopped.
pub open spec fn all_stopped(m: Map<i32, MessageExecutionContext>) -> Map<i32, MessageExecutionContext> {
    Map::new(|k: i32| m.contains_key(k), |k: i32| with_flag(m[k], false))
}

/// The registry with execution `id`'s active flag set to `flag`, when it is
/// registered.
pub open spec fn flagged(m: Map<i32, MessageExecutionContext>, id: i32, flag: bool) -> Map<i32, MessageExecutionContext> {
    if m.contains_key(id) {
        m.insert(id, with_flag(m[id], flag))
    } else {
        m
    }
}

/// Registers an execution under its id, in place of any there.
pub fn contexts_register(contexts: &mut BTreeMap<i32, MessageExecutionContext>, context: MessageExecutionContext)
    ensures
        final(contexts)@ == old(contexts)@.insert(context.executionId, context),
{
    contexts.insert(context.executionId, context);
}

/// Forgets execution `id`.
pub fn contexts_unregister(contexts: &mut BTreeMap<i32, MessageExecutionContext>, id: i32)
    ensures
        final(contexts)@ == old(contexts)@.remove(id),
{
    contexts.remove(&id);
}

/// Whether execution `id` is registered, and whether it is active.
pub fn contexts_flag(contexts: &BTreeMap<i32, MessageExecutionContext>, id: i32) -> (r: Option<bool>)
    ensures
        r == (if contexts@.contains_key(id) { Some(contexts@[id].isConversationActive) } else { None::<bool> }),
{
    match contexts.get(&id) {
        Some(c) => Some(c.isConversationActive),
        None => None,
    }
}

/// Sets execution `id`'s active flag, when it is registered.
pub fn contexts_set_flag(contexts: &mut BTreeMap<i32, MessageExecutionContext>, id: i32, flag: bool)
    ensures
        final(contexts)@ == flagged(old(contexts)@, id, flag),
{
    match contexts.remove(&id) {
        Some(mut c) => {
            c.isConversationActive = flag;
            contexts.insert(id, c);
            assert(contexts@ =~= flagged(old(contexts)@, id, flag));
        },
        None => {},
    }
}

/// Stops every registered execution; the registry keeps them.
pub fn contexts_invalidate_all(contexts: &mut BTreeMap<i32, MessageExecutionContext>)
    ensures
        final(contexts)@ == all_stopped(old(contexts)@),
{
    let ghost m0 = contexts@;
    let mut ids: Vec<i32> = Vec::new();
    for k in it: contexts.keys()
        invariant
            ids@.len() == it.index(),
            forall|i: int| 0 <= i < ids@.len() ==> ids@[i] == *it.seq()[i],
    {
        ids.push(*k);
    }
    assert(ids@ =~= vstd::std_specs::btree::spec_keys_iter(&*contexts).remaining().unref());
    assert(ids@.to_set() == m0.dom());
    let mut j: usize = 0;
    while j < ids.len()
        invariant
            j <= ids.len(),
            ids@.to_set() == m0.dom(),
            ids@.no_duplicates(),
            contexts@.dom() == m0.dom(),
            forall|k: i32| #[trigger] m0.contains_key(k) ==> contexts@[k] == if ids@.take(j as int).contains(k) {
                with_flag(m0[k], false)
            } else {
                m0[k]
            },
        decreases ids.len() - j,
    {
        let id = ids[j];
        proof {
            assert(ids@.take(j + 1) =~= ids@.take(j as int).push(id));
            assert(ids@.to_set().contains(id));
            assert(!ids@.take(j as int).contains(id)) by {
                if ids@.take(j as int).contains(id) {
                    let x = choose|x: int| 0 <= x < j && #[trigger] ids@.take(j as int)[x] == id;
                    assert(ids@[x] == ids@[j as int]);
                }
            }
        }
        let ghost before = contexts@;
        match contexts.remove(&id) {
            Some(mut c) => {
                assert(c == m0[id]);
                c.isConversationActive = false;
                assert(c == with_flag(m0[id], false));
                contexts.insert(id, c);
            },
            None => {
                assert(m0.contains_key(id));
            },
        }
        proof {
            assert forall|k: i32| #[trigger] m0.contains_key(k) implies contexts@[k] == if ids@.take(j + 1).contains(k) {
                with_flag(m0[k], false)
            } else {
                m0[k]
            } by {
                if k != id {
                    assert(contexts@[k] == before[k]);
                    if ids@.take(j + 1).contains(k) {
                        let x = choose|x: int| 0 <= x < j + 1 && #[trigger] ids@.take(j + 1)[x] == k;
                        assert(x < j);
                        assert(ids@.take(j as int)[x] == k);
                    }
                    if ids@.take(j as int).contains(k) {
                        let x = choose|x: int| 0 <= x < j && #[trigger] ids@.take(j as int)[x] == k;
                        assert(ids@.take(j + 1)[x] == k);
                    }
                } else {
                    assert(ids@.take(j + 1)[j as int] == id);
                }
            }
        }
        j = j + 1;
    }
    assert(ids@.take(ids@.len() as int) =~= ids@);
    assert forall|k: i32| m0.contains_key(k) implies ids@.contains(k) by {
        assert(ids@.to_set().contains(k));
    }
    assert(contexts@ =~= all_stopped(m0));
}

} // verus!
