//! Build output of Gradle projects.
use vstd::prelude::*;
use crate::color::IconColor;
use crate::entry::Probe;
use crate::entry::ProbeView;
use crate::heuristic::step_reflexive;
use crate::heuristic::step_transitive;
use crate::heuristic::with_match_is_step;
use crate::heuristic::Heuristic;
use crate::heuristics::no_probes;
use crate::lang::Lang;
use crate::lang::LangView;
use crate::match_data::ParamsView;
use crate::matching_state::MatchingState;
use crate::matching_state::StateView;
use crate::pattern::regex_compiles;

verus! {

/// The names of the Gradle wrapper scripts, as a regular expression.
pub const WRAPPER_PATTERN: &'static str = "^gradlew(\\.bat)?$";

/// Tells whether the directory holds a Gradle wrapper script.
fn has_wrapper(state: &MatchingState) -> (r: bool)
    ensures
        r == gradle_triggers(state@),
{
    match state.match_file(WRAPPER_PATTERN) {
        Some(found) => {
            found.len() > 0
        },
        None => false,
    }
}

/// Matches `build` and `.gradle` beside a Gradle wrapper script.
#[derive(Debug, Clone, Copy, Default)]
pub struct Gradle;

/// Whether the directory holds a Gradle wrapper script: a regular file called
/// `gradlew` or `gradlew.bat`.
pub open spec fn gradle_triggers(s: StateView) -> bool {
    regex_compiles(WRAPPER_PATTERN@) && s.match_file(WRAPPER_PATTERN@).len() > 0
}

/// The state after the heuristic has spoken about `build`.
pub open spec fn gradle_after_build(s: StateView) -> StateView {
    if s.has_directory("build"@) is Some {
        s.with_match("build"@, s.fresh("Found gradlew and build directory."@))
    } else {
        s
    }
}

/// The statement that the heuristic makes about `.gradle`.
pub open spec fn gradle_cache_params(s: StateView) -> ParamsView {
    ParamsView { weight: 2000, ..s.fresh("Found gradlew and .gradle directory."@) }
}

/// The state after the heuristic has spoken about `.gradle`.
pub open spec fn gradle_after_cache(s: StateView) -> StateView {
    if s.has_directory(".gradle"@) is Some {
        s.with_match(".gradle"@, gradle_cache_params(s))
    } else {
        s
    }
}

impl Heuristic for Gradle {
    open spec fn spec_info(&self) -> LangView {
        LangView {
            name: "Gradle"@,
            icon: "\u{e660}"@,
            short: "gradle"@,
            color: IconColor { normal: 25, selected: 25 },
        }
    }

    open spec fn wanted(&self, s: StateView) -> Seq<ProbeView> {
        Seq::empty()
    }

    open spec fn effect(&self, s: StateView) -> StateView {
        if gradle_triggers(s) {
            gradle_after_cache(gradle_after_build(s))
        } else {
            s
        }
    }

    proof fn effect_is_step(&self, s: StateView) {
        let mid = gradle_after_build(s);
        step_reflexive(s);
        step_reflexive(mid);
        with_match_is_step(s, "build"@, s.fresh("Found gradlew and build directory."@));
        with_match_is_step(mid, ".gradle"@, gradle_cache_params(mid));
        step_transitive(s, mid, gradle_after_cache(mid));
    }

    proof fn wanted_is_local(&self, a: StateView, b: StateView) {
    }

    fn info(&self) -> (r: Lang) {
        Lang { name: "Gradle", icon: "\u{e660}", short: "gradle", color: IconColor::uniform(25) }
    }

    fn probes(&self, state: &MatchingState) -> (r: Vec<Probe>) {
        no_probes()
    }

    fn check_for_matches(&self, state: &mut MatchingState) {
        if has_wrapper(state) {
            if state.has_directory("build").is_some() {
                state.add_match("build", "Found gradlew and build directory.");
            }
            if state.has_directory(".gradle").is_some() {
                state.add_match(".gradle", "Found gradlew and .gradle directory.").weight(2000);
            }
        }
    }
}

/// Once `build` and `.gradle` are gone the heuristic says nothing.
pub proof fn gradle_silent_without_targets(s: StateView)
    requires
        s.has_directory("build"@) is None,
        s.has_directory(".gradle"@) is None,
    ensures
        Gradle.effect(s) == s,
{
}

} // verus!
