//! The heuristics that come with the crate.
use vstd::prelude::*;
use crate::entry::Probe;
use crate::entry::ProbeView;
use crate::heuristic::Heuristic;
use crate::heuristics::cargo_target::CargoTarget;
use crate::heuristics::cmake::CMake;
use crate::heuristics::direnv::Direnv;
use crate::heuristics::flutter::Flutter;
use crate::heuristics::git::Git;
use crate::heuristics::gradle::Gradle;
use crate::heuristics::hidden::Hidden;
use crate::heuristics::js::JavaScript;
use crate::heuristics::python::Python;
use crate::heuristics::system::Platform;
use crate::heuristics::system::System;
use crate::heuristics::unity::Unity;
use crate::heuristics::venv::Venv;
use crate::lang::Lang;
use crate::lang::LangView;
use crate::matching_state::MatchingState;
use crate::matching_state::StateView;
use crate::views::each_view;

pub mod cargo_target;
pub mod cmake;
pub mod direnv;
pub mod flutter;
pub mod git;
pub mod gradle;
pub mod hidden;
pub mod js;
pub mod python;
pub mod system;
pub mod unity;
pub mod venv;

verus! {

/// No marker file to look at.
pub fn no_probes() -> (r: Vec<Probe>)
    ensures
        each_view(r@) == Seq::<ProbeView>::empty(),
{
    let r: Vec<Probe> = Vec::new();
    r
}

/// One of the heuristics that come with the crate.
#[derive(Debug, Clone, Copy, PartialEq, Eq, Structural)]
pub enum Bundled {
    Hidden,
    System(Platform),
    Rust,
    Unity,
    JavaScript,
    Python,
    Git,
    Venv,
    Direnv,
    Flutter,
    CMake,
    Gradle,
}

impl Heuristic for Bundled {
    open spec fn spec_info(&self) -> LangView {
        match self {
            Bundled::Hidden => Hidden.spec_info(),
            Bundled::System(platform) => (System { platform: *platform }).spec_info(),
            Bundled::Rust => CargoTarget.spec_info(),
            Bundled::Unity => Unity.spec_info(),
            Bundled::JavaScript => JavaScript.spec_info(),
            Bundled::Python => Python.spec_info(),
            Bundled::Git => Git.spec_info(),
            Bundled::Venv => Venv.spec_info(),
            Bundled::Direnv => Direnv.spec_info(),
            Bundled::Flutter => Flutter.spec_info(),
            Bundled::CMake => CMake.spec_info(),
            Bundled::Gradle => Gradle.spec_info(),
        }
    }

    open spec fn wanted(&self, s: StateView) -> Seq<ProbeView> {
        match self {
            Bundled::Hidden => Hidden.wanted(s),
            Bundled::System(platform) => (System { platform: *platform }).wanted(s),
            Bundled::Rust => CargoTarget.wanted(s),
            Bundled::Unity => Unity.wanted(s),
            Bundled::JavaScript => JavaScript.wanted(s),
            Bundled::Python => Python.wanted(s),
            Bundled::Git => Git.wanted(s),
            Bundled::Venv => Venv.wanted(s),
            Bundled::Direnv => Direnv.wanted(s),
            Bundled::Flutter => Flutter.wanted(s),
            Bundled::CMake => CMake.wanted(s),
            Bundled::Gradle => Gradle.wanted(s),
        }
    }

    open spec fn effect(&self, s: StateView) -> StateView {
        match self {
            Bundled::Hidden => Hidden.effect(s),
            Bundled::System(platform) => (System { platform: *platform }).effect(s),
            Bundled::Rust => CargoTarget.effect(s),
            Bundled::Unity => Unity.effect(s),
            Bundled::JavaScript => JavaScript.effect(s),
            Bundled::Python => Python.effect(s),
            Bundled::Git => Git.effect(s),
            Bundled::Venv => Venv.effect(s),
            Bundled::Direnv => Direnv.effect(s),
            Bundled::Flutter => Flutter.effect(s),
            Bundled::CMake => CMake.effect(s),
            Bundled::Gradle => Gradle.effect(s),
        }
    }

    proof fn effect_is_step(&self, s: StateView) {
        match self {
            Bundled::Hidden => Hidden.effect_is_step(s),
            Bundled::System(platform) => (System { platform: *platform }).effect_is_step(s),
            Bundled::Rust => CargoTarget.effect_is_step(s),
            Bundled::Unity => Unity.effect_is_step(s),
            Bundled::JavaScript => JavaScript.effect_is_step(s),
            Bundled::Python => Python.effect_is_step(s),
            Bundled::Git => Git.effect_is_step(s),
            Bundled::Venv => Venv.effect_is_step(s),
            Bundled::Direnv => Direnv.effect_is_step(s),
            Bundled::Flutter => Flutter.effect_is_step(s),
            Bundled::CMake => CMake.effect_is_step(s),
            Bundled::Gradle => Gradle.effect_is_step(s),
        }
    }

    proof fn wanted_is_local(&self, a: StateView, b: StateView) {
        match self {
            Bundled::Hidden => Hidden.wanted_is_local(a, b),
            Bundled::System(platform) => (System { platform: *platform }).wanted_is_local(a, b),
            Bundled::Rust => CargoTarget.wanted_is_local(a, b),
            Bundled::Unity => Unity.wanted_is_local(a, b),
            Bundled::JavaScript => JavaScript.wanted_is_local(a, b),
            Bundled::Python => Python.wanted_is_local(a, b),
            Bundled::Git => Git.wanted_is_local(a, b),
            Bundled::Venv => Venv.wanted_is_local(a, b),
            Bundled::Direnv => Direnv.wanted_is_local(a, b),
            Bundled::Flutter => Flutter.wanted_is_local(a, b),
            Bundled::CMake => CMake.wanted_is_local(a, b),
            Bundled::Gradle => Gradle.wanted_is_local(a, b),
        }
    }

    fn info(&self) -> (r: Lang) {
        match self {
            Bundled::Hidden => Hidden.info(),
            Bundled::System(platform) => (System { platform: *platform }).info(),
            Bundled::Rust => CargoTarget.info(),
            Bundled::Unity => Unity.info(),
            Bundled::JavaScript => JavaScript.info(),
            Bundled::Python => Python.info(),
            Bundled::Git => Git.info(),
            Bundled::Venv => Venv.info(),
            Bundled::Direnv => Direnv.info(),
            Bundled::Flutter => Flutter.info(),
            Bundled::CMake => CMake.info(),
            Bundled::Gradle => Gradle.info(),
        }
    }

    fn probes(&self, state: &MatchingState) -> (r: Vec<Probe>) {
        match self {
            Bundled::Hidden => Hidden.probes(state),
            Bundled::System(platform) => (System { platform: *platform }).probes(state),
            Bundled::Rust => CargoTarget.probes(state),
            Bundled::Unity => Unity.probes(state),
            Bundled::JavaScript => JavaScript.probes(state),
            Bundled::Python => Python.probes(state),
            Bundled::Git => Git.probes(state),
            Bundled::Venv => Venv.probes(state),
            Bundled::Direnv => Direnv.probes(state),
            Bundled::Flutter => Flutter.probes(state),
            Bundled::CMake => CMake.probes(state),
            Bundled::Gradle => Gradle.probes(state),
        }
    }

    fn check_for_matches(&self, state: &mut MatchingState) {
        match self {
            Bundled::Hidden => Hidden.check_for_matches(state),
            Bundled::System(platform) => (System { platform: *platform }).check_for_matches(state),
            Bundled::Rust => CargoTarget.check_for_matches(state),
            Bundled::Unity => Unity.check_for_matches(state),
            Bundled::JavaScript => JavaScript.check_for_matches(state),
            Bundled::Python => Python.check_for_matches(state),
            Bundled::Git => Git.check_for_matches(state),
            Bundled::Venv => Venv.check_for_matches(state),
            Bundled::Direnv => Direnv.check_for_matches(state),
            Bundled::Flutter => Flutter.check_for_matches(state),
            Bundled::CMake => CMake.check_for_matches(state),
            Bundled::Gradle => Gradle.check_for_matches(state),
        }
    }
}

/// The heuristics that come with the crate, in the order in which they run:
/// `Hidden` first, `System` before the language heuristics, `Git` after
/// them.
pub open spec fn bundled_list(platform: Platform) -> Seq<Bundled> {
    seq![
        Bundled::Hidden,
        Bundled::System(platform),
        Bundled::Rust,
        Bundled::Unity,
        Bundled::JavaScript,
        Bundled::Python,
        Bundled::Git,
        Bundled::Venv,
        Bundled::Direnv,
        Bundled::Flutter,
        Bundled::CMake,
        Bundled::Gradle,
    ]
}

/// The heuristics that come with the crate, in the order in which they run.
pub fn all_heuristics(platform: Platform) -> (r: Vec<Bundled>)
    ensures
        r@ == bundled_list(platform),
{
    let mut r: Vec<Bundled> = Vec::new();
    r.push(Bundled::Hidden);
    r.push(Bundled::System(platform));
    r.push(Bundled::Rust);
    r.push(Bundled::Unity);
    r.push(Bundled::JavaScript);
    r.push(Bundled::Python);
    r.push(Bundled::Git);
    r.push(Bundled::Venv);
    r.push(Bundled::Direnv);
    r.push(Bundled::Flutter);
    r.push(Bundled::CMake);
    r.push(Bundled::Gradle);
    r
}

} // verus!
