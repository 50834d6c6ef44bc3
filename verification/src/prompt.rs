use vstd::prelude::*;
use crate::strmap::StrMap;

verus! {

/// Who speaks in a turn of a prompt.
#[allow(non_camel_case_types)]
#[derive(Clone, Copy, Debug, PartialEq, Eq, Structural)]
pub enum PromptTurnKind {
    SYSTEM,
    USER,
    ASSISTANT,
    TOOL_CALL,
    TOOL_RESULT,
    SUMMARY,
}

/// One turn of the history sent to a model.
pub struct PromptTurn {
    pub kind: PromptTurnKind,
    pub content: String,
    pub tool_name: Option<String>,
    pub metadata: StrMap<String>,
}

/// What a turn holds, with strings taken by their characters.
pub type TurnView = (PromptTurnKind, Seq<char>, Option<Seq<char>>, Seq<(Seq<char>, Seq<char>)>);

/// The characters of an optional string.
pub open spec fn opt_view(o: Option<String>) -> Option<Seq<char>> {
    match o {
        Some(s) => Some(s@),
        None => None,
    }
}

impl PromptTurn {
    /// The turn as plain values.
    pub open spec fn view_turn(&self) -> TurnView {
        (self.kind, self.content@, opt_view(self.tool_name), self.metadata.string_entries())
    }

    /// Whether the metadata keeps its keys in order.
    pub open spec fn wf(&self) -> bool {
        self.metadata.wf()
    }

    /// A turn of `kind` saying `content`, with no tool and no metadata.
    pub fn new(kind: PromptTurnKind, content: String) -> (t: Self)
        ensures
            t.wf(),
            t.view_turn() == (kind, content@, None::<Seq<char>>, Seq::<(Seq<char>, Seq<char>)>::empty()),
    {
        let t = PromptTurn { kind, content, tool_name: None, metadata: StrMap::new() };
        assert(t.metadata.string_entries() == Seq::<(Seq<char>, Seq<char>)>::empty());
        t
    }

    /// An identical turn.
    pub fn duplicate(&self) -> (t: Self)
        ensures
            t.wf() == self.wf(),
            t.view_turn() == self.view_turn(),
    {
        let tool_name = match &self.tool_name {
            Some(n) => Some(n.clone()),
            None => None,
        };
        PromptTurn {
            kind: self.kind,
            content: self.content.clone(),
            tool_name,
            metadata: self.metadata.copy_strings(),
        }
    }
}

/// The views of a sequence of turns.
pub open spec fn turn_views(ts: Seq<PromptTurn>) -> Seq<TurnView> {
    ts.map_values(|t: PromptTurn| t.view_turn())
}

/// Whether every turn keeps its metadata keys in order.
pub open spec fn turns_wf(ts: Seq<PromptTurn>) -> bool {
    forall|i: int| 0 <= i < ts.len() ==> (#[trigger] ts[i]).wf()
}

/// A copy of a history.
pub fn copy_turns(ts: &Vec<PromptTurn>) -> (r: Vec<PromptTurn>)
    ensures
        turns_wf(ts@) ==> turns_wf(r@),
        turn_views(r@) == turn_views(ts@),
{
    let mut out: Vec<PromptTurn> = Vec::new();
    let mut i: usize = 0;
    while i < ts.len()
        invariant
            i <= ts.len(),
            forall|j: int| 0 <= j < i ==> (#[trigger] out@[j]).wf() == ts@[j].wf(),
            out@.len() == i,
            turn_views(out@) == turn_views(ts@).subrange(0, i as int),
        decreases ts.len() - i,
    {
        let t = ts[i].duplicate();
        let ghost before = turn_views(out@);
        out.push(t);
        assert(turn_views(out@) == before.push(t.view_turn()));
        assert(turn_views(ts@).subrange(0, i + 1) == turn_views(ts@).subrange(0, i as int).push(
            ts@[i as int].view_turn(),
        ));
        i = i + 1;
    }
    assert(turn_views(ts@).subrange(0, ts.len() as int) == turn_views(ts@));
    out
}

/// Whether two turns hold the same kind, text, tool and metadata.
pub fn turn_equal(a: &PromptTurn, b: &PromptTurn) -> (r: bool)
    ensures
        r == (a.view_turn() == b.view_turn()),
{
    let same_kind = match (a.kind, b.kind) {
        (PromptTurnKind::SYSTEM, PromptTurnKind::SYSTEM) => true,
        (PromptTurnKind::USER, PromptTurnKind::USER) => true,
        (PromptTurnKind::ASSISTANT, PromptTurnKind::ASSISTANT) => true,
        (PromptTurnKind::TOOL_CALL, PromptTurnKind::TOOL_CALL) => true,
        (PromptTurnKind::TOOL_RESULT, PromptTurnKind::TOOL_RESULT) => true,
        (PromptTurnKind::SUMMARY, PromptTurnKind::SUMMARY) => true,
        _ => false,
    };
    if !same_kind || !crate::text::str_eq(a.content.as_str(), b.content.as_str()) {
        return false;
    }
    let same_tool = match (&a.tool_name, &b.tool_name) {
        (Some(x), Some(y)) => crate::text::str_eq(x.as_str(), y.as_str()),
        (None, None) => true,
        _ => false,
    };
    if !same_tool {
        return false;
    }
    a.metadata.same_strings(&b.metadata)
}

/// Whether two histories hold the same turns.
pub fn turns_equal(a: &Vec<PromptTurn>, b: &Vec<PromptTurn>) -> (r: bool)
    ensures
        r == (turn_views(a@) == turn_views(b@)),
{
    if a.len() != b.len() {
        assert(turn_views(a@).len() != turn_views(b@).len());
        return false;
    }
    let mut i: usize = 0;
    while i < a.len()
        invariant
            i <= a.len(),
            a.len() == b.len(),
            forall|j: int| 0 <= j < i ==> #[trigger] turn_views(a@)[j] == turn_views(b@)[j],
        decreases a.len() - i,
    {
        if !turn_equal(&a[i], &b[i]) {
            assert(turn_views(a@)[i as int] != turn_views(b@)[i as int]);
            return false;
        }
        i = i + 1;
    }
    assert(turn_views(a@) =~= turn_views(b@));
    true
}

} // verus!
