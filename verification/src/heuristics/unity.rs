//! Caches and logs of Unity projects.
use vstd::prelude::*;
use crate::color::IconColor;
use crate::entry::Probe;
use crate::entry::ProbeView;
use crate::heuristic::heuristic_step;
use crate::heuristic::step_reflexive;
use crate::heuristic::step_transitive;
use crate::heuristic::with_match_is_step;
use crate::heuristic::Heuristic;
use crate::heuristics::no_probes;
use crate::lang::Lang;
use crate::lang::LangView;
use crate::matching_state::MatchingState;
use crate::matching_state::StateView;
use crate::text::joined;

verus! {

/// Matches the directories that the Unity editor fills, in a directory that
/// holds `Assets`, `Packages` and `ProjectSettings`.
#[derive(Debug, Clone, Copy, Default)]
pub struct Unity;

/// Number of directory names that the heuristic looks for.
pub const UNITY_DIRS: usize = 14;

/// The directory names that the heuristic looks for, in its order.
pub open spec fn unity_dirs() -> Seq<Seq<char>> {
    seq![
        "Library"@,
        "library"@,
        "Logs"@,
        "logs"@,
        "Obj"@,
        "obj"@,
        "Temp"@,
        "temp"@,
        "UserSettings"@,
        "userSettings"@,
        "MemoryCaptures"@,
        "memoryCaptures"@,
        "Recordings"@,
        "recordings"@,
    ]
}

/// The `i`-th directory name that the heuristic looks for.
pub fn unity_dir(i: usize) -> (r: &'static str)
    requires
        i < UNITY_DIRS,
    ensures
        r@ == unity_dirs()[i as int],
{
    if i == 0 {
        "Library"
    } else if i == 1 {
        "library"
    } else if i == 2 {
        "Logs"
    } else if i == 3 {
        "logs"
    } else if i == 4 {
        "Obj"
    } else if i == 5 {
        "obj"
    } else if i == 6 {
        "Temp"
    } else if i == 7 {
        "temp"
    } else if i == 8 {
        "UserSettings"
    } else if i == 9 {
        "userSettings"
    } else if i == 10 {
        "MemoryCaptures"
    } else if i == 11 {
        "memoryCaptures"
    } else if i == 12 {
        "Recordings"
    } else {
        "recordings"
    }
}

/// Whether the directory is a Unity project.
pub open spec fn unity_triggers(s: StateView) -> bool {
    &&& s.has_directory("Assets"@) is Some
    &&& s.has_directory("Packages"@) is Some
    &&& s.has_directory("ProjectSettings"@) is Some
}

/// The reason given for the directory `dir`.
pub open spec fn unity_comment(dir: Seq<char>) -> Seq<char> {
    "Found Assets, Packages, ProjectSettings and "@ + dir + " directory."@
}

/// The state after the heuristic has looked for the first `n` names.
pub open spec fn unity_upto(s: StateView, n: int) -> StateView
    decreases n,
{
    if n <= 0 || n > UNITY_DIRS {
        s
    } else {
        let before = unity_upto(s, n - 1);
        let dir = unity_dirs()[n - 1];
        if before.has_directory(dir) is Some {
            before.with_match(dir, before.fresh(unity_comment(dir)))
        } else {
            before
        }
    }
}

/// Looking for the first `n` names is a step.
pub proof fn unity_upto_is_step(s: StateView, n: int)
    ensures
        heuristic_step(s, unity_upto(s, n)),
    decreases n,
{
    if n <= 0 || n > UNITY_DIRS {
        step_reflexive(s);
    } else {
        let before = unity_upto(s, n - 1);
        let dir = unity_dirs()[n - 1];
        unity_upto_is_step(s, n - 1);
        if before.has_directory(dir) is Some {
            with_match_is_step(before, dir, before.fresh(unity_comment(dir)));
            step_transitive(s, before, unity_upto(s, n));
        }
    }
}

impl Heuristic for Unity {
    open spec fn spec_info(&self) -> LangView {
        LangView {
            name: "Unity"@,
            icon: "\u{f06af}"@,
            short: "unity"@,
            color: IconColor { normal: 15, selected: 15 },
        }
    }

    open spec fn wanted(&self, s: StateView) -> Seq<ProbeView> {
        Seq::empty()
    }

    open spec fn effect(&self, s: StateView) -> StateView {
        if unity_triggers(s) {
            unity_upto(s, UNITY_DIRS as int)
        } else {
            s
        }
    }

    proof fn effect_is_step(&self, s: StateView) {
        step_reflexive(s);
        unity_upto_is_step(s, UNITY_DIRS as int);
    }

    proof fn wanted_is_local(&self, a: StateView, b: StateView) {
    }

    fn info(&self) -> (r: Lang) {
        Lang { name: "Unity", icon: "\u{f06af}", short: "unity", color: IconColor::uniform(15) }
    }

    fn probes(&self, state: &MatchingState) -> (r: Vec<Probe>) {
        no_probes()
    }

    fn check_for_matches(&self, state: &mut MatchingState) {
        if state.has_directory("Assets").is_some() && state.has_directory("Packages").is_some()
            && state.has_directory("ProjectSettings").is_some() {
            let ghost start = state@;
            let mut i: usize = 0;
            while i < UNITY_DIRS
                invariant
                    i <= UNITY_DIRS,
                    state@ == unity_upto(start, i as int),
                decreases UNITY_DIRS - i,
            {
                let dir = unity_dir(i);
                if state.has_directory(dir).is_some() {
                    let head = joined("Found Assets, Packages, ProjectSettings and ", dir);
                    let comment = joined(head.as_str(), " directory.");
                    state.add_match(dir, comment.as_str());
                }
                i += 1;
            }
        }
    }
}

/// Where none of the first `n` names is a directory, looking for them
/// changes nothing.
pub proof fn unity_upto_silent(s: StateView, n: int)
    requires
        forall|i: int| 0 <= i < UNITY_DIRS ==> s.has_directory(#[trigger] unity_dirs()[i]) is None,
    ensures
        unity_upto(s, n) == s,
    decreases n,
{
    if 0 < n <= UNITY_DIRS {
        unity_upto_silent(s, n - 1);
    }
}

/// Once the directories that the editor fills are gone the heuristic says
/// nothing.
pub proof fn unity_silent_without_targets(s: StateView)
    requires
        forall|i: int| 0 <= i < UNITY_DIRS ==> s.has_directory(#[trigger] unity_dirs()[i]) is None,
    ensures
        Unity.effect(s) == s,
{
    unity_upto_silent(s, UNITY_DIRS as int);
}

} // verus!
