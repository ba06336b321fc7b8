//! The engine: what happens in one directory of the walk.
use vstd::prelude::*;
use crate::cache::entered;
use crate::cache::with_buckets;
use crate::cache::CacheView;
use crate::cache::ScannerCache;
use crate::entry::Entry;
use crate::entry::EntryView;
use crate::entry::FactView;
use crate::entry::FileFact;
use crate::entry::Probe;
use crate::entry::ProbeView;
use crate::heuristic::heuristic_step;
use crate::heuristic::Heuristic;
use crate::heuristics::all_heuristics;
use crate::heuristics::bundled_list;
use crate::heuristics::no_probes;
use crate::heuristics::system::Platform;
use crate::heuristics::Bundled;
use crate::matching_state::child_action;
use crate::matching_state::branch_after;
use crate::matching_state::consolidated;
use crate::matching_state::distinct_names;
use crate::matching_state::entry_after;
use crate::matching_state::marks;
use crate::matching_state::marks_are_decisions;
use crate::matching_state::fresh_state;
use crate::matching_state::MatchingState;
use crate::matching_state::Outcome;
use crate::matching_state::StateView;
use crate::views::each_view;
use crate::views::each_view_concat;

verus! {

/// Everything that a scan is set up with.
#[derive(Debug, Clone)]
pub struct Scanner<H: Heuristic> {
    /// Where the scan starts.
    pub root: String,
    /// The heuristics, in the order in which they run in every directory.
    pub heuristics: Vec<H>,
    /// Whether directories that are held for system paths are entered. If
    /// so, every match under them is flagged as dangerous; if not, the walk
    /// stays out of them.
    pub dangerous: bool,
}

/// The cache of a directory that is entered: under its name if it has one,
/// as it came if it has none.
pub open spec fn entered_as(c: CacheView, dir_name: Option<Seq<char>>) -> CacheView {
    match dir_name {
        Some(name) => entered(c, name),
        None => c,
    }
}

/// The state in which the scan of a directory starts.
pub open spec fn directory_start(
    cache: CacheView,
    dir_name: Option<Seq<char>>,
    path: Seq<char>,
    entries: Seq<EntryView>,
    facts: Seq<FactView>,
) -> StateView {
    fresh_state(entered_as(cache, dir_name), path, entries, facts)
}

/// The scan of a listing with distinct names starts in a state with
/// distinct names.
pub proof fn start_is_distinct(
    cache: CacheView,
    dir_name: Option<Seq<char>>,
    path: Seq<char>,
    entries: Seq<EntryView>,
    facts: Seq<FactView>,
)
    requires
        distinct_names(entries),
    ensures
        directory_start(cache, dir_name, path, entries, facts).distinct(),
{
    let s = directory_start(cache, dir_name, path, entries, facts);
    assert forall|i: int, j: int| 0 <= i < j < s.children.len() implies (
    #[trigger] s.children[i]).entry.name != (#[trigger] s.children[j]).entry.name by {
        assert(s.children[i].entry == entries[i]);
        assert(s.children[j].entry == entries[j]);
    }
}

/// The state after the first `n` heuristics of `hs` have run in their order
/// on the state `s`.
pub open spec fn run_upto<H: Heuristic>(hs: Seq<H>, s: StateView, n: int) -> StateView
    decreases n,
{
    if n <= 0 || n > hs.len() {
        s
    } else {
        let before = run_upto(hs, s, n - 1);
        hs[n - 1].effect(before.with_current(n - 1, hs[n - 1].spec_info()))
    }
}

/// The marker files that the first `n` heuristics of `hs` want looked at in
/// a directory whose scan starts in the state `s`.
pub open spec fn plan_upto<H: Heuristic>(hs: Seq<H>, s: StateView, n: int) -> Seq<ProbeView>
    decreases n,
{
    if n <= 0 || n > hs.len() {
        Seq::empty()
    } else {
        plan_upto(hs, s, n - 1) + hs[n - 1].wanted(s.with_current(n - 1, hs[n - 1].spec_info()))
    }
}

/// What a run of heuristics may do to the state: the entries stay, each
/// gets more statements at most, the flags of the branch stay, and every
/// bucket of inherited files is extended at most.
pub open spec fn pipeline_step(a: StateView, b: StateView) -> bool {
    &&& b.path == a.path
    &&& b.facts == a.facts
    &&& b.children.len() == a.children.len()
    &&& forall|i: int|
        0 <= i < a.children.len() ==> (#[trigger] b.children[i]).entry == a.children[i].entry
            && a.children[i].matches.is_prefix_of(b.children[i].matches)
    &&& b.cache.dangerous == a.cache.dangerous
    &&& b.cache.marked == a.cache.marked
    &&& a.cache.inherited.len() <= b.cache.inherited.len()
    &&& forall|id: int|
        0 <= id < a.cache.inherited.len() ==> (#[trigger] a.cache.inherited[id]).is_prefix_of(
            b.cache.inherited[id],
        )
}

/// Doing nothing is such a step.
pub proof fn pipeline_reflexive(s: StateView)
    ensures
        pipeline_step(s, s),
{
}

/// Such steps compose.
pub proof fn pipeline_transitive(a: StateView, b: StateView, c: StateView)
    requires
        pipeline_step(a, b),
        pipeline_step(b, c),
    ensures
        pipeline_step(a, c),
{
}

/// Making another heuristic the running one is such a step.
pub proof fn with_current_is_pipeline<H: Heuristic>(s: StateView, id: int, h: H)
    requires
        0 <= id,
        s.distinct(),
    ensures
        pipeline_step(s, s.with_current(id, h.spec_info())),
        s.with_current(id, h.spec_info()).wf(),
{
    pipeline_reflexive(s);
}

/// What one heuristic does is such a step.
pub proof fn heuristic_is_pipeline(a: StateView, b: StateView)
    requires
        a.wf(),
        heuristic_step(a, b),
    ensures
        pipeline_step(a, b),
{
}

/// Such a step keeps the names of the entries apart.
pub proof fn pipeline_keeps_names(a: StateView, b: StateView)
    requires
        a.distinct(),
        pipeline_step(a, b),
    ensures
        b.distinct(),
{
    assert forall|i: int, j: int| 0 <= i < j < b.children.len() implies (
    #[trigger] b.children[i]).entry.name != (#[trigger] b.children[j]).entry.name by {
        assert(b.children[i].entry == a.children[i].entry);
        assert(b.children[j].entry == a.children[j].entry);
    }
}

/// Whatever the heuristics are, running them keeps the entries and the
/// flags of the branch, and only extends the inherited files.
pub proof fn run_upto_is_pipeline<H: Heuristic>(hs: Seq<H>, s: StateView, n: int)
    requires
        s.distinct(),
    ensures
        pipeline_step(s, run_upto(hs, s, n)),
        run_upto(hs, s, n).distinct(),
    decreases n,
{
    if n <= 0 || n > hs.len() {
        pipeline_reflexive(s);
    } else {
        let before = run_upto(hs, s, n - 1);
        let h = hs[n - 1];
        let ready = before.with_current(n - 1, h.spec_info());
        run_upto_is_pipeline(hs, s, n - 1);
        with_current_is_pipeline(before, n - 1, h);
        h.effect_is_step(ready);
        heuristic_is_pipeline(ready, h.effect(ready));
        pipeline_transitive(s, before, ready);
        pipeline_transitive(s, ready, h.effect(ready));
        pipeline_keeps_names(s, h.effect(ready));
    }
}

/// A subdirectory starts as dangerous exactly if its parent is dangerous or
/// the scan of the parent marked an entry of its name. This holds of every
/// subdirectory whose name is not among the marks that the parent itself
/// started with.
pub proof fn dangerous_iff_marked(
    s: StateView,
    include_dangerous: bool,
    child_name: Seq<char>,
)
    requires
        !s.cache.marked.contains(child_name),
    ensures
        entered(branch_after(s, include_dangerous), child_name).dangerous <==> (s.cache.dangerous
            || exists|i: int|
            0 <= i < s.children.len() && (#[trigger] s.children[i]).entry.name == child_name
                && child_action(s.children[i], include_dangerous) is Mark),
{
    marks_are_decisions(s.children, include_dangerous, s.children.len() as int, child_name);
}

/// Once a branch is dangerous it stays so: entering a subdirectory never
/// clears the flag, and without the mode that includes dangerous paths
/// nothing is ever marked.
pub proof fn dangerous_is_monotonic(s: StateView, include_dangerous: bool, child_name: Seq<char>)
    ensures
        s.cache.dangerous ==> entered(branch_after(s, include_dangerous), child_name).dangerous,
        !include_dangerous ==> marks(s.children, include_dangerous, s.children.len() as int)
            == Set::<Seq<char>>::empty(),
{
    if !include_dangerous {
        assert forall|name: Seq<char>|
            !marks(s.children, include_dangerous, s.children.len() as int).contains(name) by {
            marks_are_decisions(s.children, include_dangerous, s.children.len() as int, name);
        }
    }
}

/// Along a branch from the root down, a directory is dangerous exactly if
/// it or a directory above it was marked where it was listed. `flags` are
/// the dangerous flags of the directories of the branch, the root first,
/// and `marked` says of each but the root whether the scan of its parent
/// marked it.
pub proof fn dangerous_along_branch(flags: Seq<bool>, marked: Seq<bool>, depth: int)
    requires
        flags.len() == marked.len() + 1,
        !flags[0],
        forall|i: int| 0 <= i < marked.len() ==> #[trigger] flags[i + 1] == (flags[i] || marked[i]),
        0 <= depth < flags.len(),
    ensures
        flags[depth] <==> exists|i: int| 0 <= i < depth && marked[i],
    decreases depth,
{
    if depth > 0 {
        dangerous_along_branch(flags, marked, depth - 1);
        assert(flags[(depth - 1) + 1] == (flags[depth - 1] || marked[depth - 1]));
        if flags[depth] {
            if marked[depth - 1] {
            } else {
                let i = choose|i: int| 0 <= i < depth - 1 && marked[i];
            }
        }
    }
}

/// The heuristics that run in a directory change neither the entries nor
/// the dangerous flag that the directory was entered with.
pub proof fn scan_keeps_flag<H: Heuristic>(
    hs: Seq<H>,
    cache: CacheView,
    dir_name: Option<Seq<char>>,
    path: Seq<char>,
    entries: Seq<EntryView>,
    facts: Seq<FactView>,
)
    requires
        distinct_names(entries),
    ensures
        run_upto(
            hs,
            directory_start(cache, dir_name, path, entries, facts),
            hs.len() as int,
        ).cache.dangerous == entered_as(cache, dir_name).dangerous,
{
    start_is_distinct(cache, dir_name, path, entries, facts);
    run_upto_is_pipeline(hs, directory_start(cache, dir_name, path, entries, facts), hs.len() as int);
}

/// The files that a heuristic has inherited in a directory are still
/// there, in the same order and at the front, when the scan of the
/// directory is over: what a subdirectory sees of them extends what the
/// directory saw.
pub proof fn inherited_files_extend<H: Heuristic>(
    hs: Seq<H>,
    cache: CacheView,
    dir_name: Option<Seq<char>>,
    path: Seq<char>,
    entries: Seq<EntryView>,
    facts: Seq<FactView>,
    include_dangerous: bool,
    id: int,
)
    requires
        0 <= id < cache.inherited.len(),
        distinct_names(entries),
    ensures
        cache.inherited[id].is_prefix_of(
            branch_after(
                run_upto(hs, directory_start(cache, dir_name, path, entries, facts), hs.len() as int),
                include_dangerous,
            ).inherited[id],
        ),
{
    let start = directory_start(cache, dir_name, path, entries, facts);
    start_is_distinct(cache, dir_name, path, entries, facts);
    run_upto_is_pipeline(hs, start, hs.len() as int);
}

/// The bucket of the heuristic at position `id`, whether the list of
/// buckets reaches that far yet or not.
pub open spec fn bucket_at(inherited: Seq<Seq<Seq<char>>>, id: int) -> Seq<Seq<char>> {
    with_buckets(inherited, id + 1)[id]
}

/// The heuristics that have run so far have not touched the inherited files
/// of those that are still to run.
pub proof fn run_upto_keeps_later_buckets<H: Heuristic>(hs: Seq<H>, s: StateView, n: int, id: int)
    requires
        0 <= n <= id,
        s.distinct(),
    ensures
        bucket_at(run_upto(hs, s, n).cache.inherited, id) == bucket_at(s.cache.inherited, id),
    decreases n,
{
    if 0 < n <= hs.len() {
        let before = run_upto(hs, s, n - 1);
        let h = hs[n - 1];
        let ready = before.with_current(n - 1, h.spec_info());
        run_upto_keeps_later_buckets(hs, s, n - 1, id);
        run_upto_is_pipeline(hs, s, n - 1);
        with_current_is_pipeline(before, n - 1, h);
        h.effect_is_step(ready);
    }
}

/// What [`plan_upto`] asks for a heuristic before any heuristic has run is
/// what that heuristic wants when its turn has come. `planned` is the state
/// in which the plan was made and `started` the one in which the scan
/// starts; they show the same directory and branch, and differ at most in
/// the facts.
pub proof fn plan_is_what_runs<H: Heuristic>(
    hs: Seq<H>,
    planned: StateView,
    started: StateView,
    k: int,
)
    requires
        0 <= k < hs.len(),
        planned.path == started.path,
        planned.children == started.children,
        planned.cache.inherited == started.cache.inherited,
        started.distinct(),
    ensures
        hs[k].wanted(planned.with_current(k, hs[k].spec_info())) == hs[k].wanted(
            run_upto(hs, started, k).with_current(k, hs[k].spec_info()),
        ),
{
    let run = run_upto(hs, started, k);
    run_upto_is_pipeline(hs, started, k);
    run_upto_keeps_later_buckets(hs, started, k, k);
    let a = planned.with_current(k, hs[k].spec_info());
    let b = run.with_current(k, hs[k].spec_info());
    hs[k].wanted_is_local(a, b);
}

impl Scanner<Bundled> {
    /// A scan from `root_path` with the heuristics that come with the crate,
    /// which stays out of system paths.
    pub fn new(root_path: &str, platform: Platform) -> (r: Self)
        ensures
            r.root@ == root_path@,
            r.heuristics@ == bundled_list(platform),
            !r.dangerous,
    {
        Scanner { root: root_path.to_owned(), heuristics: all_heuristics(platform), dangerous: false }
    }
}

impl<H: Heuristic> Scanner<H> {
    /// A scan from `root_path` with the given heuristics, which stays out of
    /// system paths.
    pub fn with_heuristics(root_path: &str, heuristics: Vec<H>) -> (r: Self)
        ensures
            r.root@ == root_path@,
            r.heuristics@ == heuristics@,
            !r.dangerous,
    {
        Scanner { root: root_path.to_owned(), heuristics, dangerous: false }
    }

    /// The cache with which the walk enters the root: nothing inherited,
    /// nothing marked, not dangerous.
    pub fn root_cache(&self) -> (c: ScannerCache)
        ensures
            c@.inherited == with_buckets(Seq::empty(), self.heuristics@.len() as int),
            !c@.dangerous,
            c@.marked == Set::<Seq<char>>::empty(),
    {
        ScannerCache::new(self.heuristics.len())
    }

    /// The marker files that the caller is to look at before the directory
    /// at `path` is scanned. `dir_name` is the name under which the walk
    /// entered the directory, if it has one.
    pub fn plan_directory(
        &self,
        cache: &ScannerCache,
        dir_name: Option<&str>,
        path: &str,
        children: &Vec<Entry>,
    ) -> (r: Vec<Probe>)
        requires
            distinct_names(each_view(children@)),
        ensures
            each_view(r@) == plan_upto(
                self.heuristics@,
                directory_start(
                    cache@,
                    match dir_name {
                        Some(name) => Some(name@),
                        None => None,
                    },
                    path@,
                    each_view(children@),
                    Seq::empty(),
                ),
                self.heuristics@.len() as int,
            ),
    {
        let mut listing: Vec<Entry> = Vec::new();
        let mut j: usize = 0;
        while j < children.len()
            invariant
                j <= children.len(),
                each_view(listing@) == each_view(children@).take(j as int),
            decreases children.len() - j,
        {
            let ghost before = listing@;
            listing.push(children[j].duplicate());
            proof {
                assert(each_view(listing@) =~= each_view(before).push(children@[j as int]@));
            }
            j += 1;
        }
        proof {
            assert(each_view(children@).take(j as int) =~= each_view(children@));
        }
        let mut branch = cache.fork();
        match dir_name {
            Some(name) => branch.enter(name),
            None => {},
        }
        let facts: Vec<FileFact> = Vec::new();
        assert(each_view(facts@) =~= Seq::<FactView>::empty());
        let mut state = MatchingState::new(listing, branch, path.to_owned(), facts);
        let ghost start = state@;
        let mut out = no_probes();
        let mut i: usize = 0;
        while i < self.heuristics.len()
            invariant
                i <= self.heuristics.len(),
                state@.path == start.path,
                state@.distinct(),
                state@.children == start.children,
                state@.facts == start.facts,
                state@.cache.dangerous == start.cache.dangerous,
                state@.cache.marked == start.cache.marked,
                state@.cache.inherited == with_buckets(start.cache.inherited, i as int),
                each_view(out@) == plan_upto(self.heuristics@, start, i as int),
            decreases self.heuristics.len() - i,
        {
            let h = &self.heuristics[i];
            state.set_current(i, h.info());
            proof {
                assert(with_buckets(with_buckets(start.cache.inherited, i as int), i + 1)
                    =~= with_buckets(start.cache.inherited, i + 1));
            }
            let mut wanted = h.probes(&state);
            let ghost a = out@;
            let ghost b = wanted@;
            out.append(&mut wanted);
            proof {
                each_view_concat(a, b);
            }
            i += 1;
        }
        out
    }

    /// Scans one directory: latches the dangerous flag if the directory was
    /// marked, lets every heuristic speak in its order, and takes the
    /// decision for every entry.
    ///
    /// `cache` is the copy of the branch's state that the directory starts
    /// from, `dir_name` the name under which the walk entered it, if it has
    /// one, `children` its listing and `facts` what the caller found out
    /// about the marker files that [`Self::plan_directory`] asked for.
    ///
    /// Whatever the heuristics are: the listing comes back in its order,
    /// with nothing changed but the decision on entering; the branch is
    /// dangerous afterwards exactly if it was before or the directory was
    /// marked; no heuristic has lost an inherited file; and every match has
    /// a weight of at least 1.
    pub fn scan_directory(
        &self,
        cache: ScannerCache,
        dir_name: Option<&str>,
        path: String,
        children: Vec<Entry>,
        facts: Vec<FileFact>,
    ) -> (out: Outcome)
        requires
            distinct_names(each_view(children@)),
        ensures
            consolidated(
                run_upto(
                    self.heuristics@,
                    directory_start(
                        cache@,
                        match dir_name {
                            Some(name) => Some(name@),
                            None => None,
                        },
                        path@,
                        each_view(children@),
                        each_view(facts@),
                    ),
                    self.heuristics@.len() as int,
                ),
                self.dangerous,
                out,
            ),
            out.children@.len() == children@.len(),
            forall|i: int|
                0 <= i < children@.len() ==> (#[trigger] out.children@[i]@) == (EntryView {
                    descend: out.children@[i]@.descend,
                    ..children@[i]@
                }) && (out.children@[i]@.descend ==> children@[i]@.descend),
            out.cache@.dangerous == (cache@.dangerous || match dir_name {
                Some(name) => cache@.marked.contains(name@),
                None => false,
            }),
            forall|id: int|
                0 <= id < cache@.inherited.len() ==> (#[trigger] cache@.inherited[id]).is_prefix_of(
                    out.cache@.inherited[id],
                ),
            forall|i: int|
                0 <= i < out.matches@.len() ==> (#[trigger] out.matches@[i]@).params.weight >= 1,
    {
        let ghost name_view: Option<Seq<char>> = match dir_name {
            Some(name) => Some(name@),
            None => None,
        };
        let ghost begin = directory_start(
            cache@,
            name_view,
            path@,
            each_view(children@),
            each_view(facts@),
        );
        proof {
            start_is_distinct(cache@, name_view, path@, each_view(children@), each_view(facts@));
            run_upto_is_pipeline(self.heuristics@, begin, self.heuristics@.len() as int);
        }
        let mut branch = cache;
        match dir_name {
            Some(name) => branch.enter(name),
            None => {},
        }
        let mut state = MatchingState::new(children, branch, path, facts);
        let ghost start = state@;
        let mut i: usize = 0;
        while i < self.heuristics.len()
            invariant
                i <= self.heuristics.len(),
                start.distinct(),
                state@ == run_upto(self.heuristics@, start, i as int),
            decreases self.heuristics.len() - i,
        {
            let h = &self.heuristics[i];
            proof {
                run_upto_is_pipeline(self.heuristics@, start, i as int);
            }
            state.set_current(i, h.info());
            h.check_for_matches(&mut state);
            i += 1;
        }
        let out = state.process_collected_data(self.dangerous);
        proof {
            let end = run_upto(self.heuristics@, begin, self.heuristics@.len() as int);
            assert forall|i: int| 0 <= i < children@.len() implies (#[trigger] out.children@[i]@)
                == (EntryView { descend: out.children@[i]@.descend, ..children@[i]@ }) && (
            out.children@[i]@.descend ==> children@[i]@.descend) by {
                assert(each_view(out.children@)[i] == entry_after(end.children[i], self.dangerous));
                assert(end.children[i].entry == begin.children[i].entry);
                assert(each_view(children@)[i] == children@[i]@);
            }
            assert forall|id: int| 0 <= id < cache@.inherited.len() implies (
            #[trigger] cache@.inherited[id]).is_prefix_of(out.cache@.inherited[id]) by {
                assert(begin.cache.inherited[id] == cache@.inherited[id]);
            }
        }
        out
    }
}

} // verus!
