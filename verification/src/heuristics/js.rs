//! Installed packages of JavaScript projects.
use vstd::prelude::*;
use crate::color::IconColor;
use crate::entry::Probe;
use crate::entry::ProbeView;
use crate::heuristic::step_reflexive;
use crate::heuristic::with_match_is_step;
use crate::heuristic::Heuristic;
use crate::heuristics::no_probes;
use crate::lang::Lang;
use crate::lang::LangView;
use crate::matching_state::MatchingState;
use crate::matching_state::StateView;

verus! {

/// Matches every `node_modules` directory.
#[derive(Debug, Clone, Copy, Default)]
pub struct JavaScript;

impl Heuristic for JavaScript {
    open spec fn spec_info(&self) -> LangView {
        LangView {
            name: "JavaScript"@,
            icon: "\u{f2ee}"@,
            short: "js"@,
            color: IconColor { normal: 221, selected: 221 },
        }
    }

    open spec fn wanted(&self, s: StateView) -> Seq<ProbeView> {
        Seq::empty()
    }

    open spec fn effect(&self, s: StateView) -> StateView {
        if s.has_directory("node_modules"@) is Some {
            s.with_match("node_modules"@, s.fresh("Found node_modules directory."@))
        } else {
            s
        }
    }

    proof fn effect_is_step(&self, s: StateView) {
        step_reflexive(s);
        with_match_is_step(s, "node_modules"@, s.fresh("Found node_modules directory."@));
    }

    proof fn wanted_is_local(&self, a: StateView, b: StateView) {
    }

    fn info(&self) -> (r: Lang) {
        Lang { name: "JavaScript", icon: "\u{f2ee}", short: "js", color: IconColor::uniform(221) }
    }

    fn probes(&self, state: &MatchingState) -> (r: Vec<Probe>) {
        no_probes()
    }

    fn check_for_matches(&self, state: &mut MatchingState) {
        if state.has_directory("node_modules").is_some() {
            state.add_match("node_modules", "Found node_modules directory.");
        }
    }
}

/// Once the `node_modules` directory is gone the heuristic says nothing.
pub proof fn js_silent_without_target(s: StateView)
    requires
        s.has_directory("node_modules"@) is None,
    ensures
        JavaScript.effect(s) == s,
{
}

} // verus!
