//! A directory tree held in memory, and the walk of the scanner over it.
//!
//! The walk over a real file system is the caller's business. This one
//! shows, on a tree that is plain data, what every such walk has to do:
//! scan a directory, report its matches, and enter exactly those
//! subdirectories that the scan left open, each with its own copy of the
//! branch's state.
use vstd::prelude::*;
use crate::cache::CacheView;
use crate::cache::ScannerCache;
use crate::entry::Entry;
use crate::entry::EntryKind;
use crate::entry::EntryView;
use crate::entry::FactView;
use crate::entry::FileFact;
use crate::heuristic::Heuristic;
use crate::match_data::MatchData;
use crate::match_data::MatchDataView;
use crate::matching_state::emitted;
use crate::matching_state::entries_after;
use crate::matching_state::StateView;
use crate::matching_state::branch_after;
use crate::scanner::directory_start;
use crate::scanner::run_upto;
use crate::scanner::Scanner;
use crate::text::joined;
use crate::text::views;
use crate::views::each_view;
use crate::views::each_view_concat;

verus! {

/// A file or a directory of the tree.
#[derive(Debug)]
pub struct Node {
    /// Name of the entry inside its directory.
    pub name: String,
    /// Kind of the entry.
    pub kind: EntryKind,
    /// The lines of a regular file.
    pub lines: Vec<String>,
    /// The entries of a directory.
    pub children: Vec<Node>,
}

impl Node {
    /// A regular file with the given lines.
    pub fn file(name: &str, lines: Vec<String>) -> (n: Self)
        ensures
            n.name@ == name@,
            n.kind == EntryKind::File,
            n.lines == lines,
            n.children@.len() == 0,
    {
        Node { name: name.to_owned(), kind: EntryKind::File, lines, children: Vec::new() }
    }

    /// A directory with the given entries.
    pub fn directory(name: &str, children: Vec<Node>) -> (n: Self)
        ensures
            n.name@ == name@,
            n.kind == EntryKind::Directory,
            n.lines@.len() == 0,
            n.children == children,
    {
        Node { name: name.to_owned(), kind: EntryKind::Directory, lines: Vec::new(), children }
    }
}

/// No two of `kids` have one name.
pub open spec fn distinct_kids(kids: Seq<Node>) -> bool {
    forall|i: int, j: int|
        0 <= i < j < kids.len() ==> (#[trigger] kids[i]).name@ != (#[trigger] kids[j]).name@
}

/// In every directory of the tree under `node`, no two entries have one
/// name.
pub open spec fn well_formed(node: Node) -> bool
    decreases node,
{
    distinct_kids(node.children@) && forall|i: int|
        0 <= i < node.children@.len() ==> well_formed(#[trigger] node.children@[i])
}

/// Tells whether no two of `kids` have one name.
fn kids_are_distinct(kids: &Vec<Node>) -> (r: bool)
    ensures
        r == distinct_kids(kids@),
{
    let mut j: usize = 0;
    while j < kids.len()
        invariant
            j <= kids.len(),
            forall|a: int, b: int|
                0 <= a < b < j ==> (#[trigger] kids@[a]).name@ != (#[trigger] kids@[b]).name@,
        decreases kids.len() - j,
    {
        let mut i: usize = 0;
        while i < j
            invariant
                i <= j < kids.len(),
                forall|a: int| 0 <= a < i ==> (#[trigger] kids@[a]).name@ != kids@[j as int].name@,
            decreases j - i,
        {
            if crate::text::str_eq(kids[i].name.as_str(), kids[j].name.as_str()) {
                assert(kids@[i as int].name@ == kids@[j as int].name@);
                return false;
            }
            i += 1;
        }
        j += 1;
    }
    true
}

impl Node {
    /// Tells whether in every directory of the tree no two entries have one
    /// name.
    pub fn is_well_formed(&self) -> (r: bool)
        ensures
            r == well_formed(*self),
        decreases self,
    {
        if !kids_are_distinct(&self.children) {
            return false;
        }
        let mut i: usize = 0;
        while i < self.children.len()
            invariant
                i <= self.children.len(),
                distinct_kids(self.children@),
                forall|a: int| 0 <= a < i ==> well_formed(#[trigger] self.children@[a]),
            decreases self.children.len() - i,
        {
            if !self.children[i].is_well_formed() {
                assert(!well_formed(self.children@[i as int]));
                return false;
            }
            i += 1;
        }
        true
    }
}

/// Path of the entry `name` in the directory `parent`.
pub open spec fn child_path(parent: Seq<char>, name: Seq<char>) -> Seq<char> {
    if parent.len() > 0 && parent.last() == '/' {
        parent + name
    } else {
        parent + "/"@ + name
    }
}

/// Path of the entry `name` in the directory `parent`.
pub fn join_path(parent: &str, name: &str) -> (r: String)
    ensures
        r@ == child_path(parent@, name@),
{
    let len = parent.unicode_len();
    if len > 0 && parent.get_char(len - 1) == '/' {
        joined(parent, name)
    } else {
        let head = joined(parent, "/");
        joined(head.as_str(), name)
    }
}

/// The listing of the directory at `path` whose entries are `kids`.
pub open spec fn listing(kids: Seq<Node>, path: Seq<char>) -> Seq<EntryView> {
    Seq::new(
        kids.len(),
        |i: int|
            EntryView {
                name: kids[i].name@,
                path: child_path(path, kids[i].name@),
                kind: kids[i].kind,
                descend: kids[i].kind == EntryKind::Directory,
            },
    )
}

/// What is known of the regular files among the first `n` of `kids`, which
/// lie in the directory at `path`.
pub open spec fn file_facts(kids: Seq<Node>, path: Seq<char>, n: int) -> Seq<FactView>
    decreases n,
{
    if n <= 0 || n > kids.len() {
        Seq::empty()
    } else {
        let before = file_facts(kids, path, n - 1);
        let k = kids[n - 1];
        if k.kind == EntryKind::File {
            before.push(FactView { dir: path, name: k.name@, is_file: true, lines: views(k.lines@) })
        } else {
            before
        }
    }
}

/// What is known of the regular files in the directories among the first
/// `n` of `kids`, which lie in the directory at `path`.
pub open spec fn nested_facts(kids: Seq<Node>, path: Seq<char>, n: int) -> Seq<FactView>
    decreases n,
{
    if n <= 0 || n > kids.len() {
        Seq::empty()
    } else {
        let before = nested_facts(kids, path, n - 1);
        let k = kids[n - 1];
        if k.kind == EntryKind::Directory {
            before + file_facts(k.children@, child_path(path, k.name@), k.children@.len() as int)
        } else {
            before
        }
    }
}

/// The facts that the scan of a directory is given: what is known of the
/// files in the directories above, in the directory itself and in its
/// subdirectories.
pub open spec fn facts_at(kids: Seq<Node>, path: Seq<char>, branch: Seq<FactView>) -> Seq<FactView> {
    branch + file_facts(kids, path, kids.len() as int) + nested_facts(kids, path, kids.len() as int)
}

/// The listing of entries with distinct names has distinct names.
pub proof fn listing_is_distinct(kids: Seq<Node>, path: Seq<char>)
    requires
        distinct_kids(kids),
    ensures
        crate::matching_state::distinct_names(listing(kids, path)),
{
    let l = listing(kids, path);
    assert forall|i: int, j: int| 0 <= i < j < l.len() implies (#[trigger] l[i]).name != (
    #[trigger] l[j]).name by {
        assert(kids[i].name@ != kids[j].name@);
    }
}

/// What a walk yields: the matches in the order in which they were found,
/// and the paths of the directories that were scanned.
pub struct WalkView {
    pub matches: Seq<MatchDataView>,
    pub visited: Seq<Seq<char>>,
}

/// One walk after another.
pub open spec fn join_walks(a: WalkView, b: WalkView) -> WalkView {
    WalkView { matches: a.matches + b.matches, visited: a.visited + b.visited }
}

/// The state of the directory at `path` after every heuristic has run.
pub open spec fn scanned<H: Heuristic>(
    hs: Seq<H>,
    kids: Seq<Node>,
    path: Seq<char>,
    dir_name: Option<Seq<char>>,
    cache: CacheView,
    branch: Seq<FactView>,
) -> StateView {
    run_upto(
        hs,
        directory_start(cache, dir_name, path, listing(kids, path), facts_at(kids, path, branch)),
        hs.len() as int,
    )
}

/// The walk of the directory `node` at `path`, which was entered under
/// `dir_name` with the branch state `cache`, knowing `branch` of the files
/// further up.
pub open spec fn walk<H: Heuristic>(
    hs: Seq<H>,
    include_dangerous: bool,
    node: Node,
    path: Seq<char>,
    dir_name: Option<Seq<char>>,
    cache: CacheView,
    branch: Seq<FactView>,
) -> WalkView
    decreases node,
{
    let kids = node.children@;
    let s = scanned(hs, kids, path, dir_name, cache, branch);
    let here = WalkView {
        matches: emitted(s.children, s.path, s.cache.dangerous, include_dangerous, s.children.len() as int),
        visited: seq![path],
    };
    join_walks(
        here,
        walk_below(
            hs,
            include_dangerous,
            kids,
            entries_after(s.children, include_dangerous),
            branch_after(s, include_dangerous),
            branch + file_facts(kids, path, kids.len() as int),
            0,
        ),
    )
}

/// The walks of the subdirectories from position `from` on that the scan
/// left open, one after another.
pub open spec fn walk_below<H: Heuristic>(
    hs: Seq<H>,
    include_dangerous: bool,
    kids: Seq<Node>,
    entries: Seq<EntryView>,
    cache: CacheView,
    branch: Seq<FactView>,
    from: nat,
) -> WalkView
    decreases kids, kids.len() - from,
{
    if from >= kids.len() || from >= entries.len() {
        WalkView { matches: Seq::empty(), visited: Seq::empty() }
    } else {
        let e = entries[from as int];
        let first = if e.descend && e.kind == EntryKind::Directory {
            walk(hs, include_dangerous, kids[from as int], e.path, Some(e.name), cache, branch)
        } else {
            WalkView { matches: Seq::empty(), visited: Seq::empty() }
        };
        join_walks(first, walk_below(hs, include_dangerous, kids, entries, cache, branch, from + 1))
    }
}

/// A subdirectory that was reported as a match is not walked: neither is it
/// scanned, nor is anything under it reported.
pub proof fn matched_subtree_not_walked<H: Heuristic>(
    hs: Seq<H>,
    include_dangerous: bool,
    kids: Seq<Node>,
    s: StateView,
    cache: CacheView,
    branch: Seq<FactView>,
    i: nat,
)
    requires
        i < kids.len(),
        s.children.len() == kids.len(),
        crate::matching_state::child_action(s.children[i as int], include_dangerous) is Emit,
    ensures
        walk_below(
            hs,
            include_dangerous,
            kids,
            entries_after(s.children, include_dangerous),
            cache,
            branch,
            i,
        ) == walk_below(
            hs,
            include_dangerous,
            kids,
            entries_after(s.children, include_dangerous),
            cache,
            branch,
            i + 1,
        ),
{
}

/// Two walks of the same tree from the same state yield the same matches:
/// in the same order, and so the same multiset.
pub proof fn walk_is_repeatable<H: Heuristic>(
    first: WalkView,
    second: WalkView,
    hs: Seq<H>,
    include_dangerous: bool,
    node: Node,
    path: Seq<char>,
    dir_name: Option<Seq<char>>,
    cache: CacheView,
    branch: Seq<FactView>,
)
    requires
        first == walk(hs, include_dangerous, node, path, dir_name, cache, branch),
        second == walk(hs, include_dangerous, node, path, dir_name, cache, branch),
    ensures
        first.matches == second.matches,
        first.matches.to_multiset() == second.matches.to_multiset(),
        first.visited == second.visited,
{
}

/// What a walk yields.
pub struct TreeScan {
    /// The matches, in the order in which they were found.
    pub matches: Vec<MatchData>,
    /// The paths of the directories that were scanned, in the order of the
    /// walk.
    pub visited: Vec<String>,
}

impl View for TreeScan {
    type V = WalkView;

    open spec fn view(&self) -> WalkView {
        WalkView { matches: each_view(self.matches@), visited: views(self.visited@) }
    }
}

/// The listing of a directory.
fn list_children(kids: &Vec<Node>, path: &str) -> (r: Vec<Entry>)
    ensures
        each_view(r@) == listing(kids@, path@),
{
    let mut out: Vec<Entry> = Vec::new();
    let mut i: usize = 0;
    while i < kids.len()
        invariant
            i <= kids.len(),
            each_view(out@) == listing(kids@, path@).take(i as int),
        decreases kids.len() - i,
    {
        let k = &kids[i];
        let e = Entry::new(k.name.clone(), join_path(path, k.name.as_str()), k.kind);
        let ghost before = out@;
        out.push(e);
        proof {
            assert(each_view(out@) =~= each_view(before).push(e@));
        }
        i += 1;
    }
    out
}

/// Adds to `out` what is known of the regular files among `kids`.
fn push_file_facts(out: &mut Vec<FileFact>, kids: &Vec<Node>, path: &str)
    ensures
        each_view(final(out)@) == each_view(old(out)@) + file_facts(
            kids@,
            path@,
            kids@.len() as int,
        ),
{
    let ghost start = each_view(out@);
    let mut i: usize = 0;
    while i < kids.len()
        invariant
            i <= kids.len(),
            each_view(out@) == start + file_facts(kids@, path@, i as int),
        decreases kids.len() - i,
    {
        let k = &kids[i];
        if k.kind == EntryKind::File {
            let lines = crate::cache::copy_strings(&k.lines);
            let fact = FileFact {
                dir: path.to_owned(),
                name: k.name.clone(),
                is_file: true,
                lines,
            };
            let ghost before = out@;
            out.push(fact);
            proof {
                assert(each_view(out@) =~= each_view(before).push(fact@));
            }
        }
        i += 1;
    }
}

/// Adds to `out` what is known of the regular files in the directories
/// among `kids`.
fn push_nested_facts(out: &mut Vec<FileFact>, kids: &Vec<Node>, path: &str)
    ensures
        each_view(final(out)@) == each_view(old(out)@) + nested_facts(
            kids@,
            path@,
            kids@.len() as int,
        ),
{
    let ghost start = each_view(out@);
    let mut i: usize = 0;
    while i < kids.len()
        invariant
            i <= kids.len(),
            each_view(out@) == start + nested_facts(kids@, path@, i as int),
        decreases kids.len() - i,
    {
        let k = &kids[i];
        if k.kind == EntryKind::Directory {
            let below = join_path(path, k.name.as_str());
            push_file_facts(out, &k.children, below.as_str());
        }
        i += 1;
    }
}

/// A copy of a list of facts.
fn copy_facts(facts: &Vec<FileFact>) -> (r: Vec<FileFact>)
    ensures
        each_view(r@) == each_view(facts@),
{
    let mut out: Vec<FileFact> = Vec::new();
    let mut i: usize = 0;
    while i < facts.len()
        invariant
            i <= facts.len(),
            each_view(out@) == each_view(facts@).take(i as int),
        decreases facts.len() - i,
    {
        let ghost before = out@;
        out.push(facts[i].duplicate());
        proof {
            assert(each_view(out@) =~= each_view(before).push(facts@[i as int]@));
        }
        i += 1;
    }
    out
}

impl<H: Heuristic> Scanner<H> {
    /// Walks the directory `node` at `path`, which was entered under
    /// `dir_name` with the branch state `cache`, knowing `branch` of the
    /// files further up.
    pub fn walk_directory(
        &self,
        node: &Node,
        path: &str,
        dir_name: Option<&str>,
        cache: ScannerCache,
        branch: &Vec<FileFact>,
    ) -> (r: TreeScan)
        requires
            well_formed(*node),
        ensures
            r@ == walk(
                self.heuristics@,
                self.dangerous,
                *node,
                path@,
                match dir_name {
                    Some(name) => Some(name@),
                    None => None,
                },
                cache@,
                each_view(branch@),
            ),
        decreases node,
    {
        let kids = &node.children;
        let entries = list_children(kids, path);
        let mut known = copy_facts(branch);
        push_file_facts(&mut known, kids, path);
        let mut facts = copy_facts(&known);
        push_nested_facts(&mut facts, kids, path);
        let ghost name_view: Option<Seq<char>> = match dir_name {
            Some(name) => Some(name@),
            None => None,
        };
        let ghost s = scanned(self.heuristics@, kids@, path@, name_view, cache@, each_view(branch@));
        proof {
            listing_is_distinct(kids@, path@);
        }
        let outcome = self.scan_directory(cache, dir_name, path.to_owned(), entries, facts);
        let mut matches = outcome.matches;
        let mut visited: Vec<String> = Vec::new();
        visited.push(path.to_owned());
        let ghost here = WalkView { matches: each_view(matches@), visited: seq![path@] };
        let ghost after = entries_after(s.children, self.dangerous);
        let ghost branch_cache = branch_after(s, self.dangerous);
        let ghost below = each_view(known@);
        proof {
            assert(views(visited@) =~= seq![path@]);
            crate::scanner::start_is_distinct(
                cache@,
                name_view,
                path@,
                listing(kids@, path@),
                facts_at(kids@, path@, each_view(branch@)),
            );
            crate::scanner::run_upto_is_pipeline(
                self.heuristics@,
                directory_start(
                    cache@,
                    name_view,
                    path@,
                    listing(kids@, path@),
                    facts_at(kids@, path@, each_view(branch@)),
                ),
                self.heuristics@.len() as int,
            );
        }
        let mut i: usize = 0;
        while i < kids.len()
            invariant
                i <= kids.len(),
                kids == &node.children,
                well_formed(*node),
                each_view(outcome.children@) == after,
                after.len() == kids@.len(),
                outcome.cache@ == branch_cache,
                each_view(known@) == below,
                join_walks(
                    WalkView { matches: each_view(matches@), visited: views(visited@) },
                    walk_below(
                        self.heuristics@,
                        self.dangerous,
                        kids@,
                        after,
                        branch_cache,
                        below,
                        i as nat,
                    ),
                ) == join_walks(
                    here,
                    walk_below(self.heuristics@, self.dangerous, kids@, after, branch_cache, below, 0),
                ),
            decreases kids.len() - i,
        {
            let e = &outcome.children[i];
            let ghost rest = walk_below(
                self.heuristics@,
                self.dangerous,
                kids@,
                after,
                branch_cache,
                below,
                (i + 1) as nat,
            );
            if e.descend && e.is_dir() {
                let mut sub = self.walk_directory(
                    &kids[i],
                    e.path.as_str(),
                    Some(e.file_name.as_str()),
                    outcome.cache.fork(),
                    &known,
                );
                let ghost first = sub@;
                let ghost m0 = matches@;
                let ghost m1 = sub.matches@;
                let ghost v0 = visited@;
                let ghost v1 = sub.visited@;
                matches.append(&mut sub.matches);
                visited.append(&mut sub.visited);
                proof {
                    each_view_concat(m0, m1);
                    assert(views(visited@) =~= views(v0) + views(v1));
                    assert((each_view(m0) + first.matches) + rest.matches =~= each_view(m0) + (
                    first.matches + rest.matches));
                    assert((views(v0) + first.visited) + rest.visited =~= views(v0) + (first.visited
                        + rest.visited));
                }
            }
            i += 1;
        }
        TreeScan { matches, visited }
    }

    /// Scans the tree under the directory `root`, which lies at the path
    /// that the scanner was set up with, and returns the matches.
    pub fn scan(&self, root: &Node) -> (r: Vec<MatchData>)
        requires
            well_formed(*root),
        ensures
            each_view(r@) == walk(
                self.heuristics@,
                self.dangerous,
                *root,
                self.root@,
                None,
                crate::cache::CacheView {
                    inherited: crate::cache::with_buckets(Seq::empty(), self.heuristics@.len() as int),
                    dangerous: false,
                    marked: Set::empty(),
                },
                Seq::empty(),
            ).matches,
    {
        self.scan_with_progress(root).matches
    }

    /// Scans the tree under the directory `root`, which lies at the path
    /// that the scanner was set up with, and returns the matches together
    /// with the directories that the walk went through.
    pub fn scan_with_progress(&self, root: &Node) -> (r: TreeScan)
        requires
            well_formed(*root),
        ensures
            r@ == walk(
                self.heuristics@,
                self.dangerous,
                *root,
                self.root@,
                None,
                crate::cache::CacheView {
                    inherited: crate::cache::with_buckets(Seq::empty(), self.heuristics@.len() as int),
                    dangerous: false,
                    marked: Set::empty(),
                },
                Seq::empty(),
            ),
    {
        let branch: Vec<FileFact> = Vec::new();
        self.walk_directory(root, self.root.as_str(), None, self.root_cache(), &branch)
    }
}

} // verus!
