//! Build output of Cargo.
use vstd::prelude::*;
use crate::color::IconColor;
use crate::entry::Probe;
use crate::entry::ProbeView;
use crate::heuristic::step_reflexive;
use crate::heuristic::with_match_is_step;
use crate::heuristic::Heuristic;
use crate::heuristics::no_probes;
use crate::lang::Lang;
use crate::lang::LangView;
use crate::matching_state::MatchingState;
use crate::matching_state::StateView;

verus! {

/// Matches the `target` directory beside a `Cargo.toml`.
#[derive(Debug, Clone, Copy, Default)]
pub struct CargoTarget;

/// Whether the directory is a Cargo project with build output: it holds a
/// file `Cargo.toml` and a directory `target`.
pub open spec fn cargo_triggers(s: StateView) -> bool {
    s.has_file("Cargo.toml"@) is Some && s.has_directory("target"@) is Some
}

impl Heuristic for CargoTarget {
    open spec fn spec_info(&self) -> LangView {
        LangView {
            name: "Rust"@,
            icon: "\u{e7a8}"@,
            short: "rs"@,
            color: IconColor { normal: 166, selected: 166 },
        }
    }

    open spec fn wanted(&self, s: StateView) -> Seq<ProbeView> {
        Seq::empty()
    }

    open spec fn effect(&self, s: StateView) -> StateView {
        if cargo_triggers(s) {
            s.with_match("target"@, s.fresh("Found Cargo.toml and target directory."@))
        } else {
            s
        }
    }

    proof fn effect_is_step(&self, s: StateView) {
        step_reflexive(s);
        with_match_is_step(s, "target"@, s.fresh("Found Cargo.toml and target directory."@));
    }

    proof fn wanted_is_local(&self, a: StateView, b: StateView) {
    }

    fn info(&self) -> (r: Lang) {
        Lang { name: "Rust", icon: "\u{e7a8}", short: "rs", color: IconColor::uniform(166) }
    }

    fn probes(&self, state: &MatchingState) -> (r: Vec<Probe>) {
        no_probes()
    }

    fn check_for_matches(&self, state: &mut MatchingState) {
        if state.has_file("Cargo.toml").is_some() && state.has_directory("target").is_some() {
            state.add_match("target", "Found Cargo.toml and target directory.");
        }
    }
}

/// Once the `target` directory is gone the heuristic says nothing.
pub proof fn cargo_silent_without_target(s: StateView)
    requires
        s.has_directory("target"@) is None,
    ensures
        CargoTarget.effect(s) == s,
{
}

} // verus!
