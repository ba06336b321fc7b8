//! Build output of Flutter projects.
use vstd::prelude::*;
use crate::color::IconColor;
use crate::entry::Probe;
use crate::entry::ProbeView;
use crate::heuristic::step_reflexive;
use crate::heuristic::step_transitive;
use crate::heuristic::with_match_is_step;
use crate::heuristic::Heuristic;
use crate::heuristics::no_probes;
use crate::lang::Lang;
use crate::lang::LangView;
use crate::match_data::ParamsView;
use crate::matching_state::MatchingState;
use crate::matching_state::StateView;

verus! {

/// Matches `build` and `.dart_tool` in a Flutter project.
#[derive(Debug, Clone, Copy, Default)]
pub struct Flutter;

/// Whether the directory is a Flutter project: it holds the files `.metadata`
/// and `pubspec.yaml`.
pub open spec fn flutter_triggers(s: StateView) -> bool {
    s.has_file(".metadata"@) is Some && s.has_file("pubspec.yaml"@) is Some
}

/// The state after the heuristic has spoken about `build`.
pub open spec fn flutter_after_build(s: StateView) -> StateView {
    if s.has_directory("build"@) is Some {
        s.with_match("build"@, s.fresh("Found .metadata, pubspec.yaml files and build directory."@))
    } else {
        s
    }
}

/// The statement that the heuristic makes about `.dart_tool`.
pub open spec fn flutter_cache_params(s: StateView) -> ParamsView {
    ParamsView { weight: 2000, ..s.fresh("Found .metadata, pubspec.yaml files and .dart_tool directory."@) }
}

/// The state after the heuristic has spoken about `.dart_tool`.
pub open spec fn flutter_after_cache(s: StateView) -> StateView {
    if s.has_directory(".dart_tool"@) is Some {
        s.with_match(".dart_tool"@, flutter_cache_params(s))
    } else {
        s
    }
}

impl Heuristic for Flutter {
    open spec fn spec_info(&self) -> LangView {
        LangView {
            name: "Flutter"@,
            icon: "\u{e64c}"@,
            short: "flutter"@,
            color: IconColor { normal: 39, selected: 39 },
        }
    }

    open spec fn wanted(&self, s: StateView) -> Seq<ProbeView> {
        Seq::empty()
    }

    open spec fn effect(&self, s: StateView) -> StateView {
        if flutter_triggers(s) {
            flutter_after_cache(flutter_after_build(s))
        } else {
            s
        }
    }

    proof fn effect_is_step(&self, s: StateView) {
        let mid = flutter_after_build(s);
        step_reflexive(s);
        step_reflexive(mid);
        with_match_is_step(s, "build"@, s.fresh("Found .metadata, pubspec.yaml files and build directory."@));
        with_match_is_step(mid, ".dart_tool"@, flutter_cache_params(mid));
        step_transitive(s, mid, flutter_after_cache(mid));
    }

    proof fn wanted_is_local(&self, a: StateView, b: StateView) {
    }

    fn info(&self) -> (r: Lang) {
        Lang { name: "Flutter", icon: "\u{e64c}", short: "flutter", color: IconColor::uniform(39) }
    }

    fn probes(&self, state: &MatchingState) -> (r: Vec<Probe>) {
        no_probes()
    }

    fn check_for_matches(&self, state: &mut MatchingState) {
        if state.has_file(".metadata").is_some() && state.has_file("pubspec.yaml").is_some() {
            if state.has_directory("build").is_some() {
                state.add_match("build", "Found .metadata, pubspec.yaml files and build directory.");
            }
            if state.has_directory(".dart_tool").is_some() {
                state.add_match(".dart_tool", "Found .metadata, pubspec.yaml files and .dart_tool directory.").weight(2000);
            }
        }
    }
}

/// Once `build` and `.dart_tool` are gone the heuristic says nothing.
pub proof fn flutter_silent_without_targets(s: StateView)
    requires
        s.has_directory("build"@) is None,
        s.has_directory(".dart_tool"@) is None,
    ensures
        Flutter.effect(s) == s,
{
}

} // verus!
