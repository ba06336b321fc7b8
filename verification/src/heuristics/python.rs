//! Bytecode caches of Python.
use vstd::prelude::*;
use crate::color::IconColor;
use crate::entry::Probe;
use crate::entry::ProbeView;
use crate::heuristic::step_reflexive;
use crate::heuristic::with_match_is_step;
use crate::heuristic::Heuristic;
use crate::heuristics::no_probes;
use crate::lang::Lang;
use crate::lang::LangView;
use crate::matching_state::MatchingState;
use crate::matching_state::StateView;

verus! {

/// Matches every `__pycache__` directory.
#[derive(Debug, Clone, Copy, Default)]
pub struct Python;

impl Heuristic for Python {
    open spec fn spec_info(&self) -> LangView {
        LangView {
            name: "Python"@,
            icon: "\u{e73c}"@,
            short: "py"@,
            color: IconColor { normal: 32, selected: 32 },
        }
    }

    open spec fn wanted(&self, s: StateView) -> Seq<ProbeView> {
        Seq::empty()
    }

    open spec fn effect(&self, s: StateView) -> StateView {
        if s.has_directory("__pycache__"@) is Some {
            s.with_match("__pycache__"@, s.fresh("Found __pycache__."@))
        } else {
            s
        }
    }

    proof fn effect_is_step(&self, s: StateView) {
        step_reflexive(s);
        with_match_is_step(s, "__pycache__"@, s.fresh("Found __pycache__."@));
    }

    proof fn wanted_is_local(&self, a: StateView, b: StateView) {
    }

    fn info(&self) -> (r: Lang) {
        Lang { name: "Python", icon: "\u{e73c}", short: "py", color: IconColor::uniform(32) }
    }

    fn probes(&self, state: &MatchingState) -> (r: Vec<Probe>) {
        no_probes()
    }

    fn check_for_matches(&self, state: &mut MatchingState) {
        if state.has_directory("__pycache__").is_some() {
            state.add_match("__pycache__", "Found __pycache__.");
        }
    }
}

/// Once the `__pycache__` directory is gone the heuristic says nothing.
pub proof fn python_silent_without_target(s: StateView)
    requires
        s.has_directory("__pycache__"@) is None,
    ensures
        Python.effect(s) == s,
{
}

} // verus!
