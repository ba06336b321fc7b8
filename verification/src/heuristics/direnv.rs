//! Environments that direnv keeps beside an `.envrc`.
use vstd::prelude::*;
use crate::color::IconColor;
use crate::entry::Probe;
use crate::entry::ProbeView;
use crate::heuristic::step_reflexive;
use crate::heuristic::with_match_is_step;
use crate::heuristic::Heuristic;
use crate::heuristics::no_probes;
use crate::lang::Lang;
use crate::lang::LangView;
use crate::match_data::ParamsView;
use crate::matching_state::MatchingState;
use crate::matching_state::StateView;

verus! {

/// Matches the `.direnv` directory beside an `.envrc`.
#[derive(Debug, Clone, Copy, Default)]
pub struct Direnv;

/// The statement that the heuristic makes about `.direnv`.
pub open spec fn direnv_params(s: StateView) -> ParamsView {
    ParamsView { weight: 2000, ..s.fresh("Found .direnv directory"@) }
}

impl Heuristic for Direnv {
    open spec fn spec_info(&self) -> LangView {
        LangView {
            name: "Direnv"@,
            icon: "\u{f482}"@,
            short: "direnv"@,
            color: IconColor { normal: 126, selected: 126 },
        }
    }

    open spec fn wanted(&self, s: StateView) -> Seq<ProbeView> {
        Seq::empty()
    }

    open spec fn effect(&self, s: StateView) -> StateView {
        if s.has_directory(".direnv"@) is Some && s.has_file(".envrc"@) is Some {
            s.with_match(".direnv"@, direnv_params(s))
        } else {
            s
        }
    }

    proof fn effect_is_step(&self, s: StateView) {
        step_reflexive(s);
        with_match_is_step(s, ".direnv"@, direnv_params(s));
    }

    proof fn wanted_is_local(&self, a: StateView, b: StateView) {
    }

    fn info(&self) -> (r: Lang) {
        Lang { name: "Direnv", icon: "\u{f482}", short: "direnv", color: IconColor::uniform(126) }
    }

    fn probes(&self, state: &MatchingState) -> (r: Vec<Probe>) {
        no_probes()
    }

    fn check_for_matches(&self, state: &mut MatchingState) {
        if state.has_directory(".direnv").is_some() && state.has_file(".envrc").is_some() {
            state.add_match(".direnv", "Found .direnv directory").weight(2000);
        }
    }
}

/// Once the `.direnv` directory is gone the heuristic says nothing.
pub proof fn direnv_silent_without_target(s: StateView)
    requires
        s.has_directory(".direnv"@) is None,
    ensures
        Direnv.effect(s) == s,
{
}

} // verus!
