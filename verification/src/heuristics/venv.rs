//! Virtual environments of Python.
use vstd::prelude::*;
use crate::color::IconColor;
use crate::entry::Probe;
use crate::entry::ProbeView;
use crate::heuristic::step_reflexive;
use crate::heuristic::with_match_is_step;
use crate::heuristic::Heuristic;
use crate::heuristics::no_probes;
use crate::lang::Lang;
use crate::lang::LangView;
use crate::matching_state::MatchingState;
use crate::matching_state::StateView;
use crate::views::each_view;

verus! {

/// Matches a directory `venv`, or else `env`, that holds a `pyvenv.cfg`.
#[derive(Debug, Clone, Copy, Default)]
pub struct Venv;

/// Name of the directory that may be a virtual environment: `venv` if there
/// is such a directory, else `env`.
pub open spec fn venv_name(s: StateView) -> Seq<char> {
    if s.has_directory("venv"@) is Some {
        "venv"@
    } else {
        "env"@
    }
}

/// Path of the directory that may be a virtual environment.
pub open spec fn venv_dir(s: StateView) -> Option<Seq<char>> {
    s.has_directory(venv_name(s))
}

/// The question about the file `pyvenv.cfg` in the directory `dir`.
pub open spec fn venv_probe(dir: Seq<char>) -> ProbeView {
    ProbeView { dir, name: "pyvenv.cfg"@, read: false }
}

impl Venv {
    /// Name and path of the directory that may be a virtual environment.
    fn candidate(state: &MatchingState) -> (r: Option<(&'static str, String)>)
        ensures
            match r {
                Some((name, path)) => name@ == venv_name(state@) && venv_dir(state@) == Some(path@),
                None => venv_dir(state@) is None,
            },
    {
        match state.has_directory("venv") {
            Some(path) => Some(("venv", path)),
            None => match state.has_directory("env") {
                Some(path) => Some(("env", path)),
                None => None,
            },
        }
    }
}

impl Heuristic for Venv {
    open spec fn spec_info(&self) -> LangView {
        LangView {
            name: "Venv"@,
            icon: "\u{e73c}"@,
            short: "venv"@,
            color: IconColor { normal: 42, selected: 42 },
        }
    }

    open spec fn wanted(&self, s: StateView) -> Seq<ProbeView> {
        match venv_dir(s) {
            Some(dir) => seq![venv_probe(dir)],
            None => Seq::empty(),
        }
    }

    open spec fn effect(&self, s: StateView) -> StateView {
        match venv_dir(s) {
            Some(dir) => if s.file_in(dir, "pyvenv.cfg"@) {
                s.with_match(venv_name(s), s.fresh("Found python venv."@))
            } else {
                s
            },
            None => s,
        }
    }

    proof fn effect_is_step(&self, s: StateView) {
        step_reflexive(s);
        with_match_is_step(s, venv_name(s), s.fresh("Found python venv."@));
    }

    proof fn wanted_is_local(&self, a: StateView, b: StateView) {
        crate::heuristic::same_directory_has_same(a, b, "venv"@);
        crate::heuristic::same_directory_has_same(a, b, "env"@);
    }

    fn info(&self) -> (r: Lang) {
        Lang { name: "Venv", icon: "\u{e73c}", short: "venv", color: IconColor::uniform(42) }
    }

    fn probes(&self, state: &MatchingState) -> (r: Vec<Probe>) {
        match Venv::candidate(state) {
            Some((_, path)) => {
                let mut r: Vec<Probe> = Vec::new();
                r.push(Probe { dir: path, name: "pyvenv.cfg".to_owned(), read: false });
                r
            },
            None => no_probes(),
        }
    }

    fn check_for_matches(&self, state: &mut MatchingState) {
        match Venv::candidate(state) {
            Some((name, path)) => {
                if state.is_file_in(path.as_str(), "pyvenv.cfg") {
                    state.add_match(name, "Found python venv.");
                }
            },
            None => {},
        }
    }
}

/// Once the environment's directory is gone the heuristic says nothing.
pub proof fn venv_silent_without_target(s: StateView)
    requires
        s.has_directory("venv"@) is None,
        s.has_directory("env"@) is None,
    ensures
        Venv.effect(s) == s,
{
}

} // verus!
