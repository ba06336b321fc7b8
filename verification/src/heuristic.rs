//! What a heuristic is, and what it may change in the state it is handed.
use vstd::prelude::*;
use crate::entry::Probe;
use crate::entry::ProbeView;
use crate::lang::Lang;
use crate::lang::LangView;
use crate::match_data::ParamsView;
use crate::matching_state::first_named;
use crate::matching_state::MatchingState;
use crate::matching_state::StateView;
use crate::views::each_view;

verus! {

/// What one run of a heuristic may do to the state: add statements to the
/// entries and add files to its own bucket of inherited files. Nothing else
/// changes.
pub open spec fn heuristic_step(a: StateView, b: StateView) -> bool {
    &&& b.path == a.path
    &&& b.current == a.current
    &&& b.lang == a.lang
    &&& b.facts == a.facts
    &&& b.children.len() == a.children.len()
    &&& forall|i: int|
        0 <= i < a.children.len() ==> (#[trigger] b.children[i]).entry == a.children[i].entry
            && a.children[i].matches.is_prefix_of(b.children[i].matches)
    &&& b.cache.dangerous == a.cache.dangerous
    &&& b.cache.marked == a.cache.marked
    &&& b.cache.inherited.len() == a.cache.inherited.len()
    &&& forall|id: int|
        0 <= id < a.cache.inherited.len() && id != a.current ==> #[trigger] b.cache.inherited[id]
            == a.cache.inherited[id]
    &&& a.has_bucket() ==> a.bucket().is_prefix_of(b.bucket())
}

/// Doing nothing is a step.
pub proof fn step_reflexive(s: StateView)
    ensures
        heuristic_step(s, s),
{
}

/// A step after a step is a step.
pub proof fn step_transitive(a: StateView, b: StateView, c: StateView)
    requires
        heuristic_step(a, b),
        heuristic_step(b, c),
    ensures
        heuristic_step(a, c),
{
}

/// A step keeps the state well formed.
pub proof fn step_keeps_wf(a: StateView, b: StateView)
    requires
        a.wf(),
        heuristic_step(a, b),
    ensures
        b.wf(),
{
}

/// The index that `first_named` finds is in range and has the name.
pub proof fn first_named_in_range(s: StateView, name: Seq<char>, from: int)
    requires
        0 <= from,
    ensures
        first_named(s.children, name, from) matches Some(i) ==> from <= i < s.children.len()
            && s.children[i].entry.name == name,
    decreases s.children.len() - from,
{
    if from < s.children.len() && s.children[from].entry.name != name {
        first_named_in_range(s, name, from + 1);
    }
}

/// Making a statement about an entry is a step.
pub proof fn with_match_is_step(s: StateView, name: Seq<char>, p: ParamsView)
    ensures
        heuristic_step(s, s.with_match(name, p)),
{
    first_named_in_range(s, name, 0);
}

/// Recording a file for the running heuristic is a step.
pub proof fn with_inherited_is_step(s: StateView, path: Seq<char>)
    requires
        s.wf(),
    ensures
        heuristic_step(s, s.with_inherited(path)),
{
}

/// Two states show the running heuristic the same directory: the same path
/// and entries, and the same inherited files of its own.
pub open spec fn same_directory(a: StateView, b: StateView) -> bool {
    &&& a.path == b.path
    &&& a.current == b.current
    &&& a.children.len() == b.children.len()
    &&& forall|i: int|
        0 <= i < a.children.len() ==> (#[trigger] a.children[i]).entry == b.children[i].entry
    &&& a.bucket() == b.bucket()
}

/// States that show the same directory find the same entry under a name.
pub proof fn same_directory_finds_same(a: StateView, b: StateView, name: Seq<char>, from: int)
    requires
        same_directory(a, b),
        0 <= from,
    ensures
        first_named(a.children, name, from) == first_named(b.children, name, from),
    decreases a.children.len() - from,
{
    if from < a.children.len() {
        if a.children[from].entry.name != name {
            same_directory_finds_same(a, b, name, from + 1);
        }
    }
}

/// States that show the same directory have the same files and
/// directories.
pub proof fn same_directory_has_same(a: StateView, b: StateView, name: Seq<char>)
    requires
        same_directory(a, b),
    ensures
        a.has_file(name) == b.has_file(name),
        a.has_directory(name) == b.has_directory(name),
{
    same_directory_finds_same(a, b, name, 0);
    first_named_in_range(a, name, 0);
    match a.find(name) {
        Some(i) => {
        },
        None => {},
    }
}

/// A rule that looks at the entries of one directory and says which of them
/// can be deleted. It keeps nothing between directories but the files it
/// records through the state.
pub trait Heuristic {
    /// Identity of the heuristic.
    spec fn spec_info(&self) -> LangView;

    /// The marker files that the heuristic wants looked at before it runs
    /// on the state `s`.
    spec fn wanted(&self, s: StateView) -> Seq<ProbeView>;

    /// The state that the heuristic leaves when it runs on the state `s`.
    spec fn effect(&self, s: StateView) -> StateView;

    /// The heuristic only adds statements and inherited files of its own.
    proof fn effect_is_step(&self, s: StateView)
        requires
            s.wf(),
        ensures
            heuristic_step(s, self.effect(s)),
    ;

    /// What the heuristic wants looked at depends on the directory alone:
    /// on its path and entries and on the heuristic's own inherited files,
    /// not on what other heuristics have said or recorded.
    proof fn wanted_is_local(&self, a: StateView, b: StateView)
        requires
            same_directory(a, b),
        ensures
            self.wanted(a) == self.wanted(b),
    ;

    /// Identity of the heuristic, shown to the user with its matches.
    fn info(&self) -> (r: Lang)
        ensures
            r@ == self.spec_info(),
    ;

    /// The marker files that the caller is to look at before the heuristic
    /// runs.
    fn probes(&self, state: &MatchingState) -> (r: Vec<Probe>)
        requires
            state@.wf(),
        ensures
            each_view(r@) == self.wanted(state@),
    ;

    /// Looks for matches in the directory and leaves its statements in the
    /// state.
    fn check_for_matches(&self, state: &mut MatchingState)
        requires
            old(state)@.wf(),
            old(state)@.lang == self.spec_info(),
        ensures
            final(state)@ == self.effect(old(state)@),
    ;
}

} // verus!
