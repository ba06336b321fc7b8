//! The view of one directory that a heuristic works on, and the decision
//! that the engine takes for each entry once every heuristic has spoken.
use vstd::prelude::*;
use crate::cache::buckets_view;
use crate::cache::with_buckets;
use crate::cache::CacheView;
use crate::cache::ScannerCache;
use crate::entry::find_fact;
use crate::entry::known_file;
use crate::entry::known_lines;
use crate::entry::Entry;
use crate::entry::EntryKind;
use crate::entry::EntryView;
use crate::entry::FactView;
use crate::entry::FileFact;
use crate::lang::CommentedLang;
use crate::lang::CommentedLangView;
use crate::lang::Lang;
use crate::lang::unnamed_lang;
use crate::lang::LangView;
use crate::match_data::clamp_params;
use crate::match_data::fresh_params;
use crate::match_data::sum_params;
use crate::match_data::MatchData;
use crate::match_data::MatchDataView;
use crate::match_data::MatchParameters;
use crate::match_data::ParamsView;
use crate::pattern::regex_compiles;
use crate::pattern::regex_finds;
use crate::pattern::regex_search;
use crate::text::str_eq;
use crate::text::views;
use crate::views::each_view;

verus! {

/// One entry of the directory with what the heuristics said about it so far.
pub struct ChildView {
    pub entry: EntryView,
    pub matches: Seq<ParamsView>,
}

/// Mathematical value of a [`MatchingState`].
pub struct StateView {
    /// Path of the directory that is being scanned.
    pub path: Seq<char>,
    /// Its entries, in the order of the listing.
    pub children: Seq<ChildView>,
    /// Position of the heuristic that is running.
    pub current: int,
    /// Identity of the heuristic that is running.
    pub lang: LangView,
    /// State of the branch.
    pub cache: CacheView,
    /// What is known about marker files.
    pub facts: Seq<FactView>,
}

/// Index of the first entry at or after `from` that is called `name`.
pub open spec fn first_named(children: Seq<ChildView>, name: Seq<char>, from: int) -> Option<int>
    decreases children.len() - from,
{
    if from < 0 || from >= children.len() {
        None
    } else if children[from].entry.name == name {
        Some(from)
    } else {
        first_named(children, name, from + 1)
    }
}

/// The paths of the entries before `upto` that are of kind `kind` and in
/// whose name `pattern` has a match, in the order of the listing.
pub open spec fn matching_paths(
    children: Seq<ChildView>,
    pattern: Seq<char>,
    kind: EntryKind,
    upto: int,
) -> Seq<Seq<char>>
    decreases upto,
{
    if upto <= 0 || upto > children.len() {
        Seq::empty()
    } else {
        let before = matching_paths(children, pattern, kind, upto - 1);
        let e = children[upto - 1].entry;
        if e.kind == kind && regex_finds(pattern, e.name) {
            before.push(e.path)
        } else {
            before
        }
    }
}

/// No two entries of a listing have one name, as in every directory.
pub open spec fn distinct_names(entries: Seq<EntryView>) -> bool {
    forall|i: int, j: int|
        0 <= i < j < entries.len() ==> (#[trigger] entries[i]).name != (#[trigger] entries[j]).name
}

/// Tells whether no two entries of the listing have one name.
pub fn has_distinct_names(children: &Vec<Entry>) -> (r: bool)
    ensures
        r == distinct_names(each_view(children@)),
{
    let ghost names = each_view(children@);
    let mut j: usize = 0;
    while j < children.len()
        invariant
            j <= children.len(),
            names == each_view(children@),
            forall|a: int, b: int|
                0 <= a < b < j ==> (#[trigger] names[a]).name != (#[trigger] names[b]).name,
        decreases children.len() - j,
    {
        let mut i: usize = 0;
        while i < j
            invariant
                i <= j < children.len(),
                names == each_view(children@),
                forall|a: int| 0 <= a < i ==> (#[trigger] names[a]).name != names[j as int].name,
            decreases j - i,
        {
            if str_eq(children[i].file_name.as_str(), children[j].file_name.as_str()) {
                assert(names[i as int].name == names[j as int].name);
                return false;
            }
            i += 1;
        }
        j += 1;
    }
    true
}

impl StateView {
    /// The state has a bucket of inherited files for the running heuristic.
    pub open spec fn has_bucket(self) -> bool {
        0 <= self.current < self.cache.inherited.len()
    }

    /// No two entries of the directory have one name.
    pub open spec fn distinct(self) -> bool {
        forall|i: int, j: int|
            0 <= i < j < self.children.len() ==> (#[trigger] self.children[i]).entry.name != (
            #[trigger] self.children[j]).entry.name
    }

    /// The state is well formed: a name stands for one entry, and the
    /// running heuristic has its bucket of inherited files.
    pub open spec fn wf(self) -> bool {
        self.has_bucket() && self.distinct()
    }

    /// Index of the entry called `name`.
    pub open spec fn find(self, name: Seq<char>) -> Option<int> {
        first_named(self.children, name, 0)
    }

    /// Path of the regular file called `name`, if there is one.
    pub open spec fn has_file(self, name: Seq<char>) -> Option<Seq<char>> {
        match self.find(name) {
            Some(i) => if self.children[i].entry.kind == EntryKind::File {
                Some(self.children[i].entry.path)
            } else {
                None
            },
            None => None,
        }
    }

    /// Path of the directory called `name`, if there is one.
    pub open spec fn has_directory(self, name: Seq<char>) -> Option<Seq<char>> {
        match self.find(name) {
            Some(i) => if self.children[i].entry.kind == EntryKind::Directory {
                Some(self.children[i].entry.path)
            } else {
                None
            },
            None => None,
        }
    }

    /// Paths of the regular files in whose name `pattern` has a match.
    pub open spec fn match_file(self, pattern: Seq<char>) -> Seq<Seq<char>> {
        matching_paths(self.children, pattern, EntryKind::File, self.children.len() as int)
    }

    /// Paths of the directories in whose name `pattern` has a match.
    pub open spec fn match_directory(self, pattern: Seq<char>) -> Seq<Seq<char>> {
        matching_paths(self.children, pattern, EntryKind::Directory, self.children.len() as int)
    }

    /// Path and kind of every entry.
    pub open spec fn contents(self) -> Seq<(Seq<char>, EntryKind)> {
        Seq::new(self.children.len(), |i: int| (self.children[i].entry.path, self.children[i].entry.kind))
    }

    /// The statement that the running heuristic makes with `comment` before
    /// it tunes it: the default weight and one reason.
    pub open spec fn fresh(self, comment: Seq<char>) -> ParamsView {
        fresh_params(CommentedLangView { lang: self.lang, comment })
    }

    /// The state after the statement `p` was made about the entry `name`.
    /// A name that is not in the directory changes nothing.
    pub open spec fn with_match(self, name: Seq<char>, p: ParamsView) -> StateView {
        match self.find(name) {
            Some(i) => StateView {
                children: self.children.update(
                    i,
                    ChildView { matches: self.children[i].matches.push(p), ..self.children[i] },
                ),
                ..self
            },
            None => self,
        }
    }

    /// The files that the running heuristic recorded in the directories
    /// above and in this one.
    pub open spec fn bucket(self) -> Seq<Seq<char>> {
        self.cache.inherited[self.current]
    }

    /// The state with `b` as the recorded files of the running heuristic.
    pub open spec fn with_bucket(self, b: Seq<Seq<char>>) -> StateView {
        StateView {
            cache: CacheView {
                inherited: self.cache.inherited.update(self.current, b),
                ..self.cache
            },
            ..self
        }
    }

    /// The state with `path` recorded by the running heuristic.
    pub open spec fn with_inherited(self, path: Seq<char>) -> StateView {
        self.with_bucket(self.bucket().push(path))
    }

    /// The state when the heuristic at position `id` with identity `lang`
    /// starts to run.
    pub open spec fn with_current(self, id: int, lang: LangView) -> StateView {
        StateView {
            current: id,
            lang,
            cache: CacheView {
                inherited: with_buckets(self.cache.inherited, id + 1),
                ..self.cache
            },
            ..self
        }
    }

    /// Whether `name` is known to be a regular file in directory `dir`.
    pub open spec fn file_in(self, dir: Seq<char>, name: Seq<char>) -> bool {
        known_file(self.facts, dir, name)
    }

    /// The known lines of the file `name` in directory `dir`.
    pub open spec fn lines_in(self, dir: Seq<char>, name: Seq<char>) -> Seq<Seq<char>> {
        known_lines(self.facts, dir, name)
    }
}

/// The entries of a listing, with no statement made about any of them.
pub open spec fn untouched(entries: Seq<EntryView>) -> Seq<ChildView> {
    Seq::new(entries.len(), |i: int| ChildView { entry: entries[i], matches: Seq::empty() })
}

/// The state in which the scan of a directory starts.
pub open spec fn fresh_state(
    cache: CacheView,
    path: Seq<char>,
    entries: Seq<EntryView>,
    facts: Seq<FactView>,
) -> StateView {
    StateView {
        path,
        children: untouched(entries),
        current: 0,
        lang: unnamed_lang(),
        cache: CacheView { inherited: with_buckets(cache.inherited, 1), ..cache },
        facts,
    }
}

/// What the engine does with an entry.
pub enum Action {
    /// Report the entry as a match and do not enter it.
    Emit,
    /// Do not enter the entry.
    Suppress,
    /// Enter the entry, and treat everything under it as dangerous.
    Mark,
    /// Leave the entry as it is.
    Nothing,
}

/// The engine's decision for an entry of kind `kind` whose statements sum to
/// `sum`.
pub open spec fn decide(sum: ParamsView, kind: EntryKind, include_dangerous: bool) -> Action {
    if sum.weight >= 1 {
        Action::Emit
    } else if sum.weight == 0 || !sum.dangerous {
        Action::Nothing
    } else if !include_dangerous {
        Action::Suppress
    } else if kind == EntryKind::Directory {
        Action::Mark
    } else {
        Action::Nothing
    }
}

/// The decision for a child.
pub open spec fn child_action(c: ChildView, include_dangerous: bool) -> Action {
    decide(sum_params(c.matches), c.entry.kind, include_dangerous)
}

/// The entry of a child after the decision was taken.
pub open spec fn entry_after(c: ChildView, include_dangerous: bool) -> EntryView {
    match child_action(c, include_dangerous) {
        Action::Emit => EntryView { descend: false, ..c.entry },
        Action::Suppress => EntryView { descend: false, ..c.entry },
        _ => c.entry,
    }
}

/// The record that is emitted for a child in the directory `dir` on a branch
/// whose dangerous flag is `dangerous`.
pub open spec fn record_of(c: ChildView, dir: Seq<char>, dangerous: bool) -> MatchDataView {
    MatchDataView {
        path: c.entry.path,
        dangerous,
        group: dir,
        params: ParamsView { dangerous, ..clamp_params(sum_params(c.matches)) },
    }
}

/// The records emitted for the children before `upto`, in their order.
pub open spec fn emitted(
    children: Seq<ChildView>,
    dir: Seq<char>,
    dangerous: bool,
    include_dangerous: bool,
    upto: int,
) -> Seq<MatchDataView>
    decreases upto,
{
    if upto <= 0 || upto > children.len() {
        Seq::empty()
    } else {
        let before = emitted(children, dir, dangerous, include_dangerous, upto - 1);
        let c = children[upto - 1];
        if child_action(c, include_dangerous) is Emit {
            before.push(record_of(c, dir, dangerous))
        } else {
            before
        }
    }
}

/// The names that are marked as dangerous for the children before `upto`.
pub open spec fn marks(children: Seq<ChildView>, include_dangerous: bool, upto: int) -> Set<
    Seq<char>,
>
    decreases upto,
{
    if upto <= 0 || upto > children.len() {
        Set::empty()
    } else {
        let before = marks(children, include_dangerous, upto - 1);
        let c = children[upto - 1];
        if child_action(c, include_dangerous) is Mark {
            before.insert(c.entry.name)
        } else {
            before
        }
    }
}

/// A name is marked exactly if an entry of that name was decided to be
/// marked.
pub proof fn marks_are_decisions(
    children: Seq<ChildView>,
    include_dangerous: bool,
    upto: int,
    name: Seq<char>,
)
    requires
        0 <= upto <= children.len(),
    ensures
        marks(children, include_dangerous, upto).contains(name) <==> exists|i: int|
            0 <= i < upto && (#[trigger] children[i]).entry.name == name && child_action(
                children[i],
                include_dangerous,
            ) is Mark,
    decreases upto,
{
    if upto > 0 {
        marks_are_decisions(children, include_dangerous, upto - 1, name);
        if marks(children, include_dangerous, upto).contains(name) {
            if marks(children, include_dangerous, upto - 1).contains(name) {
                let i = choose|i: int|
                    0 <= i < upto - 1 && (#[trigger] children[i]).entry.name == name && child_action(
                        children[i],
                        include_dangerous,
                    ) is Mark;
            }
        }
    }
}

/// An entry is marked only in the mode that includes dangerous paths, only
/// if it is a directory, and only if the statements about it sum to a
/// negative weight and one of them holds it for a system path.
pub proof fn mark_needs_dangerous_statement(c: ChildView, include_dangerous: bool)
    requires
        child_action(c, include_dangerous) is Mark,
    ensures
        include_dangerous,
        c.entry.kind == EntryKind::Directory,
        sum_params(c.matches).weight <= -1,
        sum_params(c.matches).dangerous,
{
}

/// Every record that is emitted belongs to an entry of the listing that the
/// walk does not enter, and has a weight of at least 1.
pub proof fn emitted_entries_are_closed(
    children: Seq<ChildView>,
    dir: Seq<char>,
    dangerous: bool,
    include_dangerous: bool,
    upto: int,
    k: int,
)
    requires
        0 <= upto <= children.len(),
        0 <= k < emitted(children, dir, dangerous, include_dangerous, upto).len(),
    ensures
        exists|i: int|
            0 <= i < upto && (#[trigger] entries_after(children, include_dangerous)[i]).path
                == emitted(children, dir, dangerous, include_dangerous, upto)[k].path
                && !entries_after(children, include_dangerous)[i].descend && emitted(
                children,
                dir,
                dangerous,
                include_dangerous,
                upto,
            )[k] == record_of(children[i], dir, dangerous),
        emitted(children, dir, dangerous, include_dangerous, upto)[k].params.weight >= 1,
    decreases upto,
{
    let before = emitted(children, dir, dangerous, include_dangerous, upto - 1);
    if k < before.len() {
        emitted_entries_are_closed(children, dir, dangerous, include_dangerous, upto - 1, k);
        let i = choose|i: int|
            0 <= i < upto - 1 && (#[trigger] entries_after(children, include_dangerous)[i]).path
                == before[k].path && !entries_after(children, include_dangerous)[i].descend
                && before[k] == record_of(children[i], dir, dangerous);
    } else {
        let i = upto - 1;
        assert(entries_after(children, include_dangerous)[i].path == children[i].entry.path);
    }
}

/// The state of the branch after the scan of a directory, from which its
/// subdirectories start: the names that were marked are added.
pub open spec fn branch_after(s: StateView, include_dangerous: bool) -> CacheView {
    CacheView {
        marked: s.cache.marked.union(marks(s.children, include_dangerous, s.children.len() as int)),
        ..s.cache
    }
}

/// Every record that is emitted carries the dangerous flag of the branch.
pub proof fn emitted_carry_the_flag(
    children: Seq<ChildView>,
    dir: Seq<char>,
    dangerous: bool,
    include_dangerous: bool,
    upto: int,
    k: int,
)
    requires
        0 <= upto <= children.len(),
        0 <= k < emitted(children, dir, dangerous, include_dangerous, upto).len(),
    ensures
        emitted(children, dir, dangerous, include_dangerous, upto)[k].dangerous == dangerous,
        emitted(children, dir, dangerous, include_dangerous, upto)[k].params.dangerous == dangerous,
    decreases upto,
{
    let before = emitted(children, dir, dangerous, include_dangerous, upto - 1);
    if k < before.len() {
        emitted_carry_the_flag(children, dir, dangerous, include_dangerous, upto - 1, k);
    }
}

/// Where no statement was made about any entry, no record is emitted.
pub proof fn nothing_said_nothing_emitted(
    children: Seq<ChildView>,
    dir: Seq<char>,
    dangerous: bool,
    include_dangerous: bool,
    upto: int,
)
    requires
        forall|i: int| 0 <= i < children.len() ==> (#[trigger] children[i]).matches.len() == 0,
    ensures
        emitted(children, dir, dangerous, include_dangerous, upto).len() == 0,
    decreases upto,
{
    if 0 < upto <= children.len() {
        nothing_said_nothing_emitted(children, dir, dangerous, include_dangerous, upto - 1);
        assert(children[upto - 1].matches.len() == 0);
    }
}

/// What a directory's scan hands back to the walk.
pub struct Outcome {
    /// The entries of the listing, in their order, each with the decision on
    /// whether to enter it.
    pub children: Vec<Entry>,
    /// The state of the branch, from which subdirectories start.
    pub cache: ScannerCache,
    /// The matches to report.
    pub matches: Vec<MatchData>,
}

/// The entries of the children after the decisions.
pub open spec fn entries_after(children: Seq<ChildView>, include_dangerous: bool) -> Seq<
    EntryView,
> {
    Seq::new(children.len(), |i: int| entry_after(children[i], include_dangerous))
}

/// The whole outcome of consolidating the state `s`.
pub open spec fn consolidated(s: StateView, include_dangerous: bool, out: Outcome) -> bool {
    &&& each_view(out.children@) == entries_after(s.children, include_dangerous)
    &&& each_view(out.matches@) == emitted(
        s.children,
        s.path,
        s.cache.dangerous,
        include_dangerous,
        s.children.len() as int,
    )
    &&& out.cache@ == branch_after(s, include_dangerous)
}

/// One entry of the directory with the statements made about it.
pub struct Child {
    entry: Entry,
    matches: Vec<MatchParameters>,
}

impl View for Child {
    type V = ChildView;

    closed spec fn view(&self) -> ChildView {
        ChildView { entry: self.entry@, matches: each_view(self.matches@) }
    }
}

/// What a heuristic sees of the directory that is being scanned, and where
/// it leaves its statements.
pub struct MatchingState {
    /// Entries of the directory.
    children: Vec<Child>,
    /// Path of the directory.
    parent_path: String,
    /// Position of the running heuristic in the scanner's list.
    current_id: usize,
    /// Identity of the running heuristic.
    current_lang: Lang,
    /// State of the branch.
    cache: ScannerCache,
    /// What the caller found out about marker files.
    facts: Vec<FileFact>,
    /// Where a statement about a name that is not in the directory ends up.
    rejected: MatchParameters,
}

impl View for MatchingState {
    type V = StateView;

    closed spec fn view(&self) -> StateView {
        StateView {
            path: self.parent_path@,
            children: each_view(self.children@),
            current: self.current_id as int,
            lang: self.current_lang@,
            cache: self.cache@,
            facts: each_view(self.facts@),
        }
    }
}

impl MatchingState {
    /// The state for the directory at `path` with the given entries, on a
    /// branch with the given cache. No statement has been made yet and no
    /// heuristic is running. The entries are those of one directory: no two
    /// of them have one name, so that a name stands for one entry.
    pub fn new(children: Vec<Entry>, cache: ScannerCache, path: String, facts: Vec<FileFact>) -> (s:
        Self)
        requires
            distinct_names(each_view(children@)),
        ensures
            s@ == fresh_state(cache@, path@, each_view(children@), each_view(facts@)),
            s@.wf(),
    {
        let mut table: Vec<Child> = Vec::new();
        let mut rest = children;
        let ghost all = rest@;
        let mut cache = cache;
        cache.reserve_buckets(1);
        // Entries are taken from the end of the listing and put back in order below.
        let mut reversed: Vec<Child> = Vec::new();
        while rest.len() > 0
            invariant
                rest@.len() + reversed@.len() == all.len(),
                rest@ == all.take(rest@.len() as int),
                forall|j: int|
                    0 <= j < reversed@.len() ==> #[trigger] reversed@[j]@ == (ChildView {
                        entry: all[all.len() - 1 - j]@,
                        matches: Seq::empty(),
                    }),
            decreases rest.len(),
        {
            let e = rest.pop().unwrap();
            let c = Child { entry: e, matches: Vec::new() };
            assert(c@.matches =~= Seq::<ParamsView>::empty());
            reversed.push(c);
        }
        while reversed.len() > 0
            invariant
                table@.len() + reversed@.len() == all.len(),
                forall|j: int|
                    0 <= j < reversed@.len() ==> #[trigger] reversed@[j]@ == (ChildView {
                        entry: all[all.len() - 1 - j]@,
                        matches: Seq::empty(),
                    }),
                forall|j: int|
                    0 <= j < table@.len() ==> #[trigger] table@[j]@ == (ChildView {
                        entry: all[j]@,
                        matches: Seq::empty(),
                    }),
            decreases reversed.len(),
        {
            let c = reversed.pop().unwrap();
            table.push(c);
        }
        let s = MatchingState {
            children: table,
            parent_path: path,
            current_id: 0,
            current_lang: Lang::unnamed(),
            cache,
            facts,
            rejected: MatchParameters::empty(),
        };
        assert(s@.children =~= untouched(each_view(all)));
        s
    }

    /// Makes the heuristic at position `id` with identity `lang` the one
    /// that runs.
    pub fn set_current(&mut self, id: usize, lang: Lang)
        requires
            id < usize::MAX,
            old(self)@.distinct(),
        ensures
            final(self)@ == old(self)@.with_current(id as int, lang@),
            final(self)@.wf(),
    {
        self.current_id = id;
        self.current_lang = lang;
        self.cache.reserve_buckets(id + 1);
    }

    /// Path of the directory that is being scanned.
    pub fn path(&self) -> (r: &str)
        ensures
            r@ == self@.path,
    {
        self.parent_path.as_str()
    }

    /// Number of entries of the directory.
    pub fn len(&self) -> (n: usize)
        ensures
            n == self@.children.len(),
    {
        self.children.len()
    }

    /// The entry at position `i` of the listing.
    pub fn entry(&self, i: usize) -> (e: &Entry)
        requires
            i < self@.children.len(),
        ensures
            e@ == self@.children[i as int].entry,
    {
        &self.children[i].entry
    }

    /// Position of the entry called `name`.
    pub fn find(&self, name: &str) -> (r: Option<usize>)
        ensures
            match r {
                Some(i) => self@.find(name@) == Some(i as int) && i < self@.children.len(),
                None => self@.find(name@) is None,
            },
    {
        let mut i: usize = 0;
        while i < self.children.len()
            invariant
                i <= self.children.len(),
                first_named(self@.children, name@, 0) == first_named(self@.children, name@, i as int),
            decreases self.children.len() - i,
        {
            if str_eq(self.children[i].entry.file_name.as_str(), name) {
                return Some(i);
            }
            i += 1;
        }
        None
    }

    /// Path of the entry called `name` if it is a regular file.
    pub fn has_file(&self, name: &str) -> (r: Option<String>)
        ensures
            match r {
                Some(p) => self@.has_file(name@) == Some(p@),
                None => self@.has_file(name@) is None,
            },
    {
        match self.find(name) {
            Some(i) => if self.children[i].entry.is_file() {
                Some(self.children[i].entry.path.clone())
            } else {
                None
            },
            None => None,
        }
    }

    /// Path of the entry called `name` if it is a directory.
    pub fn has_directory(&self, name: &str) -> (r: Option<String>)
        ensures
            match r {
                Some(p) => self@.has_directory(name@) == Some(p@),
                None => self@.has_directory(name@) is None,
            },
    {
        match self.find(name) {
            Some(i) => if self.children[i].entry.is_dir() {
                Some(self.children[i].entry.path.clone())
            } else {
                None
            },
            None => None,
        }
    }

    /// Paths of the entries of kind `kind` in whose name `pattern` has a
    /// match; `None` if `pattern` is no valid regular expression.
    fn match_kind(&self, pattern: &str, kind: EntryKind) -> (r: Option<Vec<String>>)
        ensures
            r is Some <==> regex_compiles(pattern@),
            r matches Some(paths) ==> views(paths@) == matching_paths(
                self@.children,
                pattern@,
                kind,
                self@.children.len() as int,
            ),
    {
        // An empty name decides whether the pattern compiles at all.
        if regex_search(pattern, "").is_none() {
            return None;
        }
        let mut out: Vec<String> = Vec::new();
        let mut i: usize = 0;
        while i < self.children.len()
            invariant
                i <= self.children.len(),
                regex_compiles(pattern@),
                views(out@) == matching_paths(self@.children, pattern@, kind, i as int),
            decreases self.children.len() - i,
        {
            let e = &self.children[i].entry;
            let same_kind = match (e.kind, kind) {
                (EntryKind::File, EntryKind::File) => true,
                (EntryKind::Directory, EntryKind::Directory) => true,
                (EntryKind::Other, EntryKind::Other) => true,
                _ => false,
            };
            if same_kind {
                let found = regex_search(pattern, e.file_name.as_str());
                if found == Some(true) {
                    out.push(e.path.clone());
                }
            }
            i += 1;
        }
        Some(out)
    }

    /// Paths of the regular files in whose name `pattern` has a match, in
    /// the order of the listing; `None` if `pattern` is no valid regular
    /// expression.
    pub fn match_file(&self, pattern: &str) -> (r: Option<Vec<String>>)
        ensures
            r is Some <==> regex_compiles(pattern@),
            r matches Some(paths) ==> views(paths@) == self@.match_file(pattern@),
    {
        self.match_kind(pattern, EntryKind::File)
    }

    /// Paths of the directories in whose name `pattern` has a match, in the
    /// order of the listing; `None` if `pattern` is no valid regular
    /// expression.
    pub fn match_directory(&self, pattern: &str) -> (r: Option<Vec<String>>)
        ensures
            r is Some <==> regex_compiles(pattern@),
            r matches Some(paths) ==> views(paths@) == self@.match_directory(pattern@),
    {
        self.match_kind(pattern, EntryKind::Directory)
    }

    /// Path and kind of every entry, in the order of the listing.
    pub fn get_all_contents(&self) -> (r: Vec<(String, EntryKind)>)
        ensures
            r@.len() == self@.children.len(),
            forall|i: int|
                0 <= i < r@.len() ==> (#[trigger] r@[i]).0@ == self@.children[i].entry.path && r@[i].1
                    == self@.children[i].entry.kind,
    {
        let mut out: Vec<(String, EntryKind)> = Vec::new();
        let mut i: usize = 0;
        while i < self.children.len()
            invariant
                i <= self.children.len(),
                out@.len() == i,
                forall|j: int|
                    0 <= j < i ==> (#[trigger] out@[j]).0@ == self@.children[j].entry.path && out@[j].1
                        == self@.children[j].entry.kind,
            decreases self.children.len() - i,
        {
            let e = &self.children[i].entry;
            out.push((e.path.clone(), e.kind));
            i += 1;
        }
        out
    }

    /// Whether the caller found a regular file called `name` in the
    /// directory `dir`.
    pub fn is_file_in(&self, dir: &str, name: &str) -> (r: bool)
        ensures
            r == self@.file_in(dir@, name@),
    {
        match find_fact(&self.facts, dir, name) {
            Some(i) => self.facts[i].is_file,
            None => false,
        }
    }

    /// The lines that the caller read from the file `name` in the directory
    /// `dir`; none if it read nothing there.
    pub fn lines_of(&self, dir: &str, name: &str) -> (r: Vec<String>)
        ensures
            views(r@) == self@.lines_in(dir@, name@),
    {
        match find_fact(&self.facts, dir, name) {
            Some(i) => if self.facts[i].is_file {
                let r = crate::cache::copy_strings(&self.facts[i].lines);
                r
            } else {
                let r: Vec<String> = Vec::new();
                r
            },
            None => {
                let r: Vec<String> = Vec::new();
                r
            },
        }
    }

    /// The files that the running heuristic recorded, for it to read and to
    /// extend. They are handed down to every subdirectory.
    pub fn inherited_files(&mut self) -> (r: &mut Vec<String>)
        requires
            old(self)@.wf(),
        ensures
            views(r@) == old(self)@.bucket(),
            final(self)@ == old(self)@.with_bucket(views(final(r)@)),
    {
        let id = self.current_id;
        proof {
            assert(forall|b: Vec<String>|
                buckets_view(self.cache.inherited_files@.update(id as int, b)) =~= buckets_view(
                    self.cache.inherited_files@,
                ).update(id as int, #[trigger] views(b@)));
        }
        &mut self.cache.inherited_files[id]
    }

    /// A copy of the files that the running heuristic recorded.
    pub fn inherited(&self) -> (r: Vec<String>)
        requires
            self@.wf(),
        ensures
            views(r@) == self@.bucket(),
    {
        crate::cache::copy_strings(&self.cache.inherited_files[self.current_id])
    }

    /// Records `path` for the running heuristic.
    pub fn inherit(&mut self, path: String)
        requires
            old(self)@.wf(),
        ensures
            final(self)@ == old(self)@.with_inherited(path@),
            final(self)@.wf(),
    {
        let id = self.current_id;
        let ghost before = self.cache.inherited_files@;
        self.cache.inherited_files[id].push(path);
        proof {
            assert(views(self.cache.inherited_files@[id as int]@) =~= views(before[id as int]@).push(
                path@,
            ));
            assert(buckets_view(self.cache.inherited_files@) =~= buckets_view(before).update(
                id as int,
                views(before[id as int]@).push(path@),
            ));
        }
    }

    /// Appends `new` to the statements about the entry at position `i`.
    fn push_match(&mut self, i: usize, new: MatchParameters) -> (r: &mut MatchParameters)
        requires
            i < old(self)@.children.len(),
        ensures
            r@ == new@,
            final(self)@ == (StateView {
                children: old(self)@.children.update(
                    i as int,
                    ChildView {
                        matches: old(self)@.children[i as int].matches.push(final(r)@),
                        ..old(self)@.children[i as int]
                    },
                ),
                ..old(self)@
            }),
    {
        let ghost before = self.children@;
        self.children[i].matches.push(new);
        let last = self.children[i].matches.len() - 1;
        proof {
            let mid = self.children@;
            assert(forall|p: MatchParameters|
                #[trigger] each_view(mid[i as int].matches@.update(last as int, p)) =~= each_view(
                    before[i as int].matches@,
                ).push(p@));
            assert(forall|c: Child|
                #[trigger] each_view(mid.update(i as int, c)) =~= each_view(before).update(
                    i as int,
                    c@,
                ));
        }
        &mut self.children[i].matches[last]
    }

    /// Puts `new` where statements about unknown names go.
    fn reject(&mut self, new: MatchParameters) -> (r: &mut MatchParameters)
        ensures
            r@ == new@,
            final(self)@ == old(self)@,
    {
        self.rejected = new;
        &mut self.rejected
    }

    /// States that the entry called `name` is a match, for the reason
    /// `comment`. The statement has the default weight; the returned handle
    /// tunes it. A statement about a name that is not in the directory is
    /// dropped.
    pub fn add_match(&mut self, name: &str, comment: &str) -> (r: &mut MatchParameters)
        ensures
            r@ == old(self)@.fresh(comment@),
            final(self)@ == old(self)@.with_match(name@, final(r)@),
    {
        let new = MatchParameters::new(
            CommentedLang { lang: self.current_lang, comment: comment.to_owned() },
        );
        match self.find(name) {
            Some(i) => self.push_match(i, new),
            None => self.reject(new),
        }
    }

    /// Takes the decision for every entry once all heuristics have run:
    /// sums the statements about it and, by the sum's weight, reports the
    /// entry, keeps the walk out of it, marks it as dangerous or leaves it
    /// alone. Every reported match has a weight of at least 1.
    ///
    /// With `include_dangerous` an entry that is held for a system path is
    /// entered and everything under it is flagged; without it the walk
    /// stays out of the entry.
    pub fn process_collected_data(self, include_dangerous: bool) -> (out: Outcome)
        ensures
            consolidated(self@, include_dangerous, out),
            out.children@.len() == self@.children.len(),
            forall|i: int|
                0 <= i < out.matches@.len() ==> (#[trigger] out.matches@[i]@).params.weight >= 1,
    {
        let ghost s = self@;
        let ghost n = s.children.len() as int;
        let mut cache = self.cache;
        let mut entries: Vec<Entry> = Vec::new();
        let mut matches: Vec<MatchData> = Vec::new();
        let mut i: usize = 0;
        proof {
            assert(cache@.marked =~= s.cache.marked.union(marks(s.children, include_dangerous, 0)));
        }
        while i < self.children.len()
            invariant
                i <= self.children.len(),
                s.children == each_view(self.children@),
                s.path == self.parent_path@,
                n == s.children.len(),
                each_view(entries@) == entries_after(s.children, include_dangerous).take(i as int),
                each_view(matches@) == emitted(
                    s.children,
                    s.path,
                    s.cache.dangerous,
                    include_dangerous,
                    i as int,
                ),
                forall|j: int|
                    0 <= j < matches@.len() ==> (#[trigger] matches@[j]@).params.weight >= 1,
                cache@ == (CacheView {
                    marked: s.cache.marked.union(marks(s.children, include_dangerous, i as int)),
                    ..s.cache
                }),
            decreases self.children.len() - i,
        {
            let child = &self.children[i];
            let sum = MatchParameters::sum(&child.matches);
            let mut entry = child.entry.duplicate();
            if sum.weight >= 1 {
                entry.descend = false;
                let mut params = sum;
                params.dangerous = cache.dangerous;
                let record = MatchData::new(
                    entry.path.clone(),
                    self.parent_path.clone(),
                    cache.dangerous,
                    params,
                );
                let ghost before = matches@;
                matches.push(record);
            } else if sum.weight <= -1 && sum.dangerous {
                if !include_dangerous {
                    entry.descend = false;
                } else if entry.is_dir() {
                    cache.mark(entry.file_name.as_str());
                }
            }
            proof {
                assert(cache@.marked =~= s.cache.marked.union(
                    marks(s.children, include_dangerous, i + 1),
                ));
            }
            let ghost before = entries@;
            entries.push(entry);
            proof {
                assert(each_view(entries@) =~= each_view(before).push(entry@));
            }
            i += 1;
        }
        proof {
            assert(entries_after(s.children, include_dangerous).take(n) =~= entries_after(
                s.children,
                include_dangerous,
            ));
        }
        Outcome { children: entries, cache, matches }
    }
}

} // verus!
