use vstd::prelude::*;
use crate::strmap::{ascending, keys_ascend, lemma_ascending_unique, lex_lt, StrMap};
use crate::text::str_views;
use crate::tool_calls::{AITool, ToolResult, ToolValidationResult};

verus! {

/// The last executor under name `n` in a list of named executors.
pub open spec fn last_default<E>(ds: Seq<(String, E)>, n: Seq<char>) -> Option<E>
    decreases ds.len(),
{
    if ds.len() == 0 {
        None
    } else if ds.last().0@ == n {
        Some(ds.last().1)
    } else {
        last_default(ds.drop_last(), n)
    }
}

/// The tools a chat can call, by name, and whether the default set has been
/// registered.
pub struct AIToolHandler<E> {
    availableTools: StrMap<E>,
    defaultToolsRegistered: bool,
}

impl<E> AIToolHandler<E> {
    /// The executor under each name.
    pub closed spec fn tool(&self, name: Seq<char>) -> Option<E> {
        self.availableTools.get_spec(name)
    }

    /// The registered names, ascending.
    pub closed spec fn names(&self) -> Seq<Seq<char>> {
        self.availableTools.keys_view()
    }

    /// Whether the default tools have been registered.
    pub closed spec fn defaults_registered(&self) -> bool {
        self.defaultToolsRegistered
    }

    /// The map is in order.
    pub closed spec fn wf(&self) -> bool {
        self.availableTools.wf()
    }

    /// No tools yet.
    pub fn new() -> (h: Self)
        ensures
            h.wf(),
            forall|n: Seq<char>| #[trigger] h.tool(n) is None,
            h.names() == Seq::<Seq<char>>::empty(),
            !h.defaults_registered(),
    {
        let m = StrMap::new();
        AIToolHandler { availableTools: m, defaultToolsRegistered: false }
    }

    /// Removes the tool under `toolName`.
    #[allow(non_snake_case)]
    pub fn unregisterTool(&mut self, toolName: String)
        requires
            old(self).wf(),
        ensures
            final(self).wf(),
            forall|n: Seq<char>| #[trigger] final(self).tool(n) == if n == toolName@ {
                None
            } else {
                old(self).tool(n)
            },
            final(self).defaults_registered() == old(self).defaults_registered(),
    {
        self.availableTools.remove(toolName.as_str());
    }

    /// The registered names, in ascending order.
    #[allow(non_snake_case)]
    pub fn getAllToolNames(&self) -> (r: Vec<String>)
        requires
            self.wf(),
        ensures
            str_views(r@) == self.names(),
            forall|i: int, j: int| 0 <= i < j < r@.len() ==> lex_lt(#[trigger] r@[i]@, #[trigger] r@[j]@),
            forall|n: Seq<char>| #[trigger] self.names().contains(n) <==> self.tool(n) is Some,
    {
        let r = self.availableTools.keys();
        proof {
            self.availableTools.lemma_keys_exact();
            let s = self.availableTools.entries_view();
            assert(str_views(r@).len() == r@.len());
            assert(self.availableTools.keys_view().len() == s.len());
            assert(keys_ascend(s));
            assert forall|i: int, j: int| 0 <= i < j < r@.len() implies lex_lt(#[trigger] r@[i]@, #[trigger] r@[j]@) by {
                assert(self.availableTools.keys_view()[i] == s[i].0);
                assert(self.availableTools.keys_view()[j] == s[j].0);
                assert(str_views(r@)[i] == r@[i]@);
                assert(str_views(r@)[j] == r@[j]@);
                assert(lex_lt(s[i].0, s[j].0));
            }
        }
        r
    }

    /// The names are exactly those of the registered tools, ascending.
    pub proof fn lemma_names_are_tools(&self)
        requires
            self.wf(),
        ensures
            ascending(self.names()),
            forall|n: Seq<char>| #[trigger] self.names().contains(n) <==> self.tool(n) is Some,
    {
        self.availableTools.lemma_keys_exact();
    }

    /// Two handlers with tools under the same names list the same names: the
    /// list after registering, unregistering or restoring tools follows from
    /// which tools are there.
    pub proof fn law_names_follow_tools(a: &Self, b: &Self)
        requires
            a.wf(),
            b.wf(),
            forall|n: Seq<char>| (#[trigger] a.tool(n)) is Some <==> (#[trigger] b.tool(n)) is Some,
        ensures
            a.names() == b.names(),
    {
        a.lemma_names_are_tools();
        b.lemma_names_are_tools();
        assert forall|n: Seq<char>| a.names().contains(n) <==> b.names().contains(n) by {
            assert(a.names().contains(n) <==> a.tool(n) is Some);
            assert(b.names().contains(n) <==> b.tool(n) is Some);
        }
        lemma_ascending_unique(a.names(), b.names());
    }

    /// Puts `executor` under `name`, replacing any tool there.
    #[allow(non_snake_case)]
    pub fn registerTool(&mut self, name: String, executor: E)
        requires
            old(self).wf(),
        ensures
            final(self).wf(),
            forall|n: Seq<char>| #[trigger] final(self).tool(n) == if n == name@ {
                Some(executor)
            } else {
                old(self).tool(n)
            },
            final(self).defaults_registered() == old(self).defaults_registered(),
    {
        self.availableTools.insert(name, executor);
    }

    /// Registers the default tools, once, in order: a later tool of a name
    /// replaces an earlier one, and tools of other names stay.
    #[allow(non_snake_case)]
    pub fn registerDefaultTools(&mut self, defaults: Vec<(String, E)>)
        requires
            old(self).wf(),
        ensures
            final(self).wf(),
            final(self).defaults_registered(),
            old(self).defaults_registered() ==> forall|n: Seq<char>| #[trigger] final(self).tool(n) == old(self).tool(n),
            !old(self).defaults_registered() ==> forall|n: Seq<char>| #[trigger] final(self).tool(n) == match last_default(defaults@, n) {
                Some(e) => Some(e),
                None => old(self).tool(n),
            },
    {
        if self.defaultToolsRegistered {
            return;
        }
        let ghost start = *self;
        let mut d = defaults;
        let ghost all = d@;
        assert(all == defaults@);
        let n = d.len();
        while d.len() > 0
            invariant
                self.wf(),
                !self.defaultToolsRegistered,
                all.len() == n,
                d@.len() <= n,
                d@ == all.skip(n - d@.len()),
                forall|k: Seq<char>| #[trigger] self.tool(k) == match last_default(all.take(n - d@.len()), k) {
                    Some(e) => Some(e),
                    None => start.tool(k),
                },
            decreases d.len(),
        {
            let ghost done = (n - d@.len()) as int;
            let (name, e) = d.remove(0);
            proof {
                assert(all[done] == (name, e));
                assert(all.take(done + 1).drop_last() =~= all.take(done));
                assert(all.take(done + 1).last() == (name, e));
                assert(d@ =~= all.skip(done + 1));
            }
            let ghost nm = name@;
            let ghost before = *self;
            self.availableTools.insert(name, e);
            proof {
                assert forall|k: Seq<char>| #[trigger] self.tool(k) == match last_default(all.take(done + 1), k) {
                    Some(x) => Some(x),
                    None => start.tool(k),
                } by {
                    assert(all.take(done + 1).last().0@ == nm);
                    if k != nm {
                        assert(self.tool(k) == before.tool(k));
                        assert(last_default(all.take(done + 1), k) == last_default(all.take(done), k));
                    }
                }
                assert(done + 1 == n - d@.len());
            }
        }
        assert(d@.len() == 0);
        assert(all.take(n as int) =~= all);
        assert(forall|k: Seq<char>| #[trigger] self.tool(k) == match last_default(all, k) {
            Some(x) => Some(x),
            None => start.tool(k),
        });
        let ghost filled = *self;
        self.defaultToolsRegistered = true;
        assert(forall|k: Seq<char>| #[trigger] self.tool(k) == filled.tool(k));
    }

    /// The executor under `toolName`.
    #[allow(non_snake_case)]
    pub fn getToolExecutor(&self, toolName: &str) -> (r: Option<&E>)
        requires
            self.wf(),
        ensures
            match r {
                Some(e) => self.tool(toolName@) == Some(*e),
                None => self.tool(toolName@) is None,
            },
    {
        self.availableTools.get(toolName)
    }

    /// Takes all executors out, leaving none.
    #[allow(non_snake_case)]
    pub fn takeExecutors(&mut self) -> (r: StrMap<E>)
        requires
            old(self).wf(),
        ensures
            final(self).wf(),
            r.wf(),
            forall|n: Seq<char>| #[trigger] r.get_spec(n) == old(self).tool(n),
            forall|n: Seq<char>| #[trigger] final(self).tool(n) is None,
            final(self).defaults_registered() == old(self).defaults_registered(),
    {
        let mut empty = StrMap::new();
        std::mem::swap(&mut empty, &mut self.availableTools);
        empty
    }

    /// Puts a set of executors back, replacing what is there.
    #[allow(non_snake_case)]
    pub fn restoreExecutors(&mut self, executors: StrMap<E>)
        requires
            executors.wf(),
        ensures
            final(self).wf(),
            forall|n: Seq<char>| #[trigger] final(self).tool(n) == executors.get_spec(n),
            final(self).defaults_registered() == old(self).defaults_registered(),
    {
        self.availableTools = executors;
    }

    /// Forgets all tools and that the defaults were registered.
    pub fn reset(&mut self)
        ensures
            final(self).wf(),
            forall|n: Seq<char>| #[trigger] final(self).tool(n) is None,
            !final(self).defaults_registered(),
    {
        self.availableTools = StrMap::new();
        self.defaultToolsRegistered = false;
    }
}

/// A tool made of two functions: one that checks a call's parameters and
/// one that runs the call.
pub struct FnToolExecutor<I, V> {
    pub name: String,
    pub invoke: I,
    pub validate: V,
}

impl<I: Fn(&AITool) -> ToolResult, V: Fn(&AITool) -> ToolValidationResult> FnToolExecutor<I, V> {
    /// Checks a call's parameters with the tool's check.
    #[allow(non_snake_case)]
    pub fn validateParameters(&self, tool: &AITool) -> (r: ToolValidationResult)
        requires
            call_requires(self.validate, (tool,)),
        ensures
            call_ensures(self.validate, (tool,), r),
    {
        (self.validate)(tool)
    }

    /// Runs a call: its one result is what the tool's function returns.
    #[allow(non_snake_case)]
    pub fn invokeAndStream(&mut self, tool: &AITool) -> (r: Vec<ToolResult>)
        requires
            call_requires(old(self).invoke, (tool,)),
        ensures
            r@.len() == 1,
            call_ensures(old(self).invoke, (tool,), r@[0]),
            *final(self) == *old(self),
    {
        let result = (self.invoke)(tool);
        let mut out: Vec<ToolResult> = Vec::new();
        out.push(result);
        out
    }
}

} // verus!
