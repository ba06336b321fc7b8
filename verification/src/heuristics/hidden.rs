//! Entries whose name begins with a dot.
use vstd::prelude::*;
use crate::color::IconColor;
use crate::entry::Probe;
use crate::entry::ProbeView;
use crate::heuristic::heuristic_step;
use crate::heuristic::step_reflexive;
use crate::heuristic::step_transitive;
use crate::heuristic::with_match_is_step;
use crate::heuristic::Heuristic;
use crate::heuristics::no_probes;
use crate::lang::Lang;
use crate::lang::LangView;
use crate::match_data::ParamsView;
use crate::matching_state::MatchingState;
use crate::matching_state::StateView;
use crate::text::joined;
use crate::text::has_dot_prefix;
use crate::text::starts_with_dot;

verus! {

/// Flags every entry whose name begins with a dot as hidden. The statement
/// weighs nothing: it neither makes nor prevents a match, whatever else is
/// said about the entry. The flag travels with a match for the consumer to
/// filter by.
#[derive(Debug, Clone, Copy, Default)]
pub struct Hidden;

/// The statement that the heuristic makes about the entry `name`.
pub open spec fn hidden_params(s: StateView, name: Seq<char>) -> ParamsView {
    ParamsView { weight: 0, hidden: true, ..s.fresh(name + " starts with a dot."@) }
}

/// The state after the heuristic has looked at the first `n` entries of `s`.
pub open spec fn hidden_upto(s: StateView, n: int) -> StateView
    decreases n,
{
    if n <= 0 || n > s.children.len() {
        s
    } else {
        let before = hidden_upto(s, n - 1);
        let name = s.children[n - 1].entry.name;
        if starts_with_dot(name) {
            before.with_match(name, hidden_params(before, name))
        } else {
            before
        }
    }
}

/// Looking at the first `n` entries is a step.
pub proof fn hidden_upto_is_step(s: StateView, n: int)
    ensures
        heuristic_step(s, hidden_upto(s, n)),
    decreases n,
{
    if n <= 0 || n > s.children.len() {
        step_reflexive(s);
    } else {
        let before = hidden_upto(s, n - 1);
        let name = s.children[n - 1].entry.name;
        hidden_upto_is_step(s, n - 1);
        if starts_with_dot(name) {
            with_match_is_step(before, name, hidden_params(before, name));
            step_transitive(s, before, hidden_upto(s, n));
        }
    }
}

impl Heuristic for Hidden {
    open spec fn spec_info(&self) -> LangView {
        LangView {
            name: "Hidden"@,
            icon: "\u{f0613}"@,
            short: "."@,
            color: IconColor { normal: 7, selected: 7 },
        }
    }

    open spec fn wanted(&self, s: StateView) -> Seq<ProbeView> {
        Seq::empty()
    }

    open spec fn effect(&self, s: StateView) -> StateView {
        hidden_upto(s, s.children.len() as int)
    }

    proof fn effect_is_step(&self, s: StateView) {
        hidden_upto_is_step(s, s.children.len() as int);
    }

    proof fn wanted_is_local(&self, a: StateView, b: StateView) {
    }

    fn info(&self) -> (r: Lang) {
        Lang { name: "Hidden", icon: "\u{f0613}", short: ".", color: IconColor::uniform(7) }
    }

    fn probes(&self, state: &MatchingState) -> (r: Vec<Probe>) {
        no_probes()
    }

    fn check_for_matches(&self, state: &mut MatchingState) {
        let ghost start = state@;
        let n = state.len();
        let mut i: usize = 0;
        while i < n
            invariant
                i <= n,
                n == start.children.len(),
                state@ == hidden_upto(start, i as int),
            decreases n - i,
        {
            proof {
                hidden_upto_is_step(start, i as int);
            }
            let name = state.entry(i).file_name.clone();
            if has_dot_prefix(name.as_str()) {
                let comment = joined(name.as_str(), " starts with a dot.");
                state.add_match(name.as_str(), comment.as_str()).weight(0).hidden();
            }
            i += 1;
        }
    }
}

} // verus!
