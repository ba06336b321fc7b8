//! Directories that belong to the operating system.
use vstd::prelude::*;
use crate::color::IconColor;
use crate::entry::Probe;
use crate::entry::ProbeView;
use crate::heuristic::step_reflexive;
use crate::heuristic::with_match_is_step;
use crate::heuristic::Heuristic;
use crate::heuristics::no_probes;
use crate::lang::Lang;
use crate::lang::LangView;
use crate::match_data::ParamsView;
use crate::matching_state::MatchingState;
use crate::matching_state::StateView;
use crate::text::joined;

verus! {

/// The weight that speaks against a system directory.
pub const SYSTEM_WEIGHT: i32 = -1000;

/// The family of operating systems that the scan runs on.
#[derive(Debug, Clone, Copy, PartialEq, Eq, Structural)]
pub enum Platform {
    Windows,
    MacOs,
    Linux,
}

/// Speaks against the directory that holds system-managed software, and
/// marks it as dangerous.
#[derive(Debug, Clone, Copy)]
pub struct System {
    /// The platform whose system directory is looked for.
    pub platform: Platform,
}

/// Name of the system directory of a platform.
pub open spec fn system_dir(platform: Platform) -> Seq<char> {
    match platform {
        Platform::Windows => "AppData"@,
        Platform::MacOs => "Applications"@,
        Platform::Linux => "opt"@,
    }
}

/// The statement that the heuristic makes about the system directory `dir`.
pub open spec fn system_params(s: StateView, dir: Seq<char>) -> ParamsView {
    ParamsView {
        weight: SYSTEM_WEIGHT as int,
        dangerous: true,
        ..s.fresh(dir + " is a system path."@)
    }
}

impl System {
    /// The heuristic for `platform`.
    pub fn new(platform: Platform) -> (r: Self)
        ensures
            r.platform == platform,
    {
        System { platform }
    }

    /// Name of the system directory.
    pub fn dir_name(&self) -> (r: &'static str)
        ensures
            r@ == system_dir(self.platform),
    {
        match self.platform {
            Platform::Windows => "AppData",
            Platform::MacOs => "Applications",
            Platform::Linux => "opt",
        }
    }
}

impl Heuristic for System {
    open spec fn spec_info(&self) -> LangView {
        match self.platform {
            Platform::Windows => LangView {
                name: "System"@,
                icon: "\u{e70f}"@,
                short: "os"@,
                color: IconColor { normal: 26, selected: 26 },
            },
            Platform::MacOs => LangView {
                name: "System"@,
                icon: "\u{e711}"@,
                short: "os"@,
                color: IconColor { normal: 255, selected: 255 },
            },
            Platform::Linux => LangView {
                name: "System"@,
                icon: "\u{ebc6}"@,
                short: "os"@,
                color: IconColor { normal: 255, selected: 255 },
            },
        }
    }

    open spec fn wanted(&self, s: StateView) -> Seq<ProbeView> {
        Seq::empty()
    }

    open spec fn effect(&self, s: StateView) -> StateView {
        let dir = system_dir(self.platform);
        if s.has_directory(dir) is Some {
            s.with_match(dir, system_params(s, dir))
        } else {
            s
        }
    }

    proof fn effect_is_step(&self, s: StateView) {
        let dir = system_dir(self.platform);
        step_reflexive(s);
        with_match_is_step(s, dir, system_params(s, dir));
    }

    proof fn wanted_is_local(&self, a: StateView, b: StateView) {
    }

    fn info(&self) -> (r: Lang) {
        match self.platform {
            Platform::Windows => Lang {
                name: "System",
                icon: "\u{e70f}",
                short: "os",
                color: IconColor::uniform(26),
            },
            Platform::MacOs => Lang {
                name: "System",
                icon: "\u{e711}",
                short: "os",
                color: IconColor::uniform(255),
            },
            Platform::Linux => Lang {
                name: "System",
                icon: "\u{ebc6}",
                short: "os",
                color: IconColor::uniform(255),
            },
        }
    }

    fn probes(&self, state: &MatchingState) -> (r: Vec<Probe>) {
        no_probes()
    }

    fn check_for_matches(&self, state: &mut MatchingState) {
        let dir = self.dir_name();
        if state.has_directory(dir).is_some() {
            let comment = joined(dir, " is a system path.");
            state.add_match(dir, comment.as_str()).weight(SYSTEM_WEIGHT).dangerous();
        }
    }
}

/// Where there is no system directory the heuristic says nothing.
pub proof fn system_silent_without_target(s: StateView, platform: Platform)
    requires
        s.has_directory(system_dir(platform)) is None,
    ensures
        (System { platform }).effect(s) == s,
{
}

} // verus!
