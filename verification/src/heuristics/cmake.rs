//! Build trees of CMake.
use vstd::prelude::*;
use crate::color::IconColor;
use crate::entry::EntryKind;
use crate::entry::EntryView;
use crate::entry::Probe;
use crate::entry::ProbeView;
use crate::heuristic::heuristic_step;
use crate::heuristic::step_reflexive;
use crate::heuristic::step_transitive;
use crate::heuristic::with_match_is_step;
use crate::heuristic::Heuristic;
use crate::heuristics::no_probes;
use crate::lang::Lang;
use crate::lang::LangView;
use crate::matching_state::MatchingState;
use crate::matching_state::StateView;
use crate::pattern::name_matches;
use crate::pattern::regex_compiles;
use crate::pattern::regex_finds;
use crate::views::each_view;

verus! {

/// Matches every directory whose name begins with `build` and that holds a
/// `CMakeCache.txt`.
#[derive(Debug, Clone, Copy, Default)]
pub struct CMake;

/// The names of directories that may be build trees, as a regular
/// expression.
pub const BUILD_PATTERN: &'static str = "^build";

/// Whether the entry may be a build tree: a directory whose name begins
/// with `build`.
pub open spec fn cmake_candidate(e: EntryView) -> bool {
    e.kind == EntryKind::Directory && regex_finds(BUILD_PATTERN@, e.name)
}

/// The question about the file `CMakeCache.txt` in the directory `dir`.
pub open spec fn cmake_probe(dir: Seq<char>) -> ProbeView {
    ProbeView { dir, name: "CMakeCache.txt"@, read: false }
}

/// The questions about the first `n` entries.
pub open spec fn cmake_probes_upto(s: StateView, n: int) -> Seq<ProbeView>
    decreases n,
{
    if n <= 0 || n > s.children.len() {
        Seq::empty()
    } else {
        let before = cmake_probes_upto(s, n - 1);
        let e = s.children[n - 1].entry;
        if cmake_candidate(e) {
            before.push(cmake_probe(e.path))
        } else {
            before
        }
    }
}

/// The state after the heuristic has looked at the first `n` entries of `s`.
pub open spec fn cmake_upto(s: StateView, n: int) -> StateView
    decreases n,
{
    if n <= 0 || n > s.children.len() {
        s
    } else {
        let before = cmake_upto(s, n - 1);
        let e = s.children[n - 1].entry;
        if cmake_candidate(e) && s.file_in(e.path, "CMakeCache.txt"@) {
            before.with_match(e.name, before.fresh("Found cmake build directory."@))
        } else {
            before
        }
    }
}

/// Looking at the first `n` entries is a step.
pub proof fn cmake_upto_is_step(s: StateView, n: int)
    ensures
        heuristic_step(s, cmake_upto(s, n)),
    decreases n,
{
    if n <= 0 || n > s.children.len() {
        step_reflexive(s);
    } else {
        let before = cmake_upto(s, n - 1);
        let e = s.children[n - 1].entry;
        cmake_upto_is_step(s, n - 1);
        if cmake_candidate(e) && s.file_in(e.path, "CMakeCache.txt"@) {
            with_match_is_step(before, e.name, before.fresh("Found cmake build directory."@));
            step_transitive(s, before, cmake_upto(s, n));
        }
    }
}

/// States that show the same directory lead to the same questions.
pub proof fn cmake_probes_local(a: StateView, b: StateView, n: int)
    requires
        crate::heuristic::same_directory(a, b),
    ensures
        cmake_probes_upto(a, n) == cmake_probes_upto(b, n),
    decreases n,
{
    if 0 < n <= a.children.len() {
        cmake_probes_local(a, b, n - 1);
    }
}

impl CMake {
    /// Tells whether the entry at position `i` may be a build tree.
    fn is_candidate(state: &MatchingState, i: usize) -> (r: bool)
        requires
            i < state@.children.len(),
            regex_compiles(BUILD_PATTERN@),
        ensures
            r == cmake_candidate(state@.children[i as int].entry),
    {
        let e = state.entry(i);
        if e.is_dir() {
            match name_matches(BUILD_PATTERN, e.file_name.as_str()) {
                Some(found) => found,
                None => false,
            }
        } else {
            false
        }
    }
}

impl Heuristic for CMake {
    open spec fn spec_info(&self) -> LangView {
        LangView {
            name: "CMake"@,
            icon: "\u{e61d}"@,
            short: "cmake"@,
            color: IconColor { normal: 34, selected: 34 },
        }
    }

    open spec fn wanted(&self, s: StateView) -> Seq<ProbeView> {
        if regex_compiles(BUILD_PATTERN@) {
            cmake_probes_upto(s, s.children.len() as int)
        } else {
            Seq::empty()
        }
    }

    open spec fn effect(&self, s: StateView) -> StateView {
        if regex_compiles(BUILD_PATTERN@) {
            cmake_upto(s, s.children.len() as int)
        } else {
            s
        }
    }

    proof fn effect_is_step(&self, s: StateView) {
        step_reflexive(s);
        cmake_upto_is_step(s, s.children.len() as int);
    }

    proof fn wanted_is_local(&self, a: StateView, b: StateView) {
        cmake_probes_local(a, b, a.children.len() as int);
    }

    fn info(&self) -> (r: Lang) {
        Lang { name: "CMake", icon: "\u{e61d}", short: "cmake", color: IconColor::uniform(34) }
    }

    fn probes(&self, state: &MatchingState) -> (r: Vec<Probe>) {
        if name_matches(BUILD_PATTERN, "").is_none() {
            return no_probes();
        }
        let mut out = no_probes();
        let n = state.len();
        let mut i: usize = 0;
        while i < n
            invariant
                i <= n,
                n == state@.children.len(),
                regex_compiles(BUILD_PATTERN@),
                each_view(out@) == cmake_probes_upto(state@, i as int),
            decreases n - i,
        {
            if CMake::is_candidate(state, i) {
                let probe = Probe {
                    dir: state.entry(i).path.clone(),
                    name: "CMakeCache.txt".to_owned(),
                    read: false,
                };
                out.push(probe);
            }
            i += 1;
        }
        out
    }

    fn check_for_matches(&self, state: &mut MatchingState) {
        if name_matches(BUILD_PATTERN, "").is_none() {
            return ;
        }
        let ghost start = state@;
        let n = state.len();
        let mut i: usize = 0;
        while i < n
            invariant
                i <= n,
                n == start.children.len(),
                regex_compiles(BUILD_PATTERN@),
                state@ == cmake_upto(start, i as int),
            decreases n - i,
        {
            proof {
                cmake_upto_is_step(start, i as int);
            }
            if CMake::is_candidate(state, i) {
                let name = state.entry(i).file_name.clone();
                let path = state.entry(i).path.clone();
                if state.is_file_in(path.as_str(), "CMakeCache.txt") {
                    state.add_match(name.as_str(), "Found cmake build directory.");
                }
            }
            i += 1;
        }
    }
}

/// Where none of the first `n` entries is a build tree with its cache file,
/// looking at them changes nothing.
pub proof fn cmake_upto_silent(s: StateView, n: int)
    requires
        forall|i: int|
            0 <= i < s.children.len() ==> !(cmake_candidate((#[trigger] s.children[i]).entry)
                && s.file_in(s.children[i].entry.path, "CMakeCache.txt"@)),
    ensures
        cmake_upto(s, n) == s,
    decreases n,
{
    if 0 < n <= s.children.len() {
        cmake_upto_silent(s, n - 1);
    }
}

/// Once the build trees are gone the heuristic says nothing.
pub proof fn cmake_silent_without_targets(s: StateView)
    requires
        forall|i: int|
            0 <= i < s.children.len() ==> !(cmake_candidate((#[trigger] s.children[i]).entry)
                && s.file_in(s.children[i].entry.path, "CMakeCache.txt"@)),
    ensures
        CMake.effect(s) == s,
{
    cmake_upto_silent(s, s.children.len() as int);
}

} // verus!
