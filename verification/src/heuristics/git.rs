//! Files that `.gitignore` files speak of.
use vstd::prelude::*;
use crate::color::IconColor;
use crate::entry::EntryKind;
use crate::entry::EntryView;
use crate::entry::Probe;
use crate::entry::ProbeView;
use crate::gitignore::files_verdict;
use crate::gitignore::matcher_files;
use crate::gitignore::verdict_of;
use crate::gitignore::IgnoreFileView;
use crate::gitignore::Matcher;
use crate::heuristic::heuristic_step;
use crate::heuristic::step_keeps_wf;
use crate::heuristic::step_reflexive;
use crate::heuristic::step_transitive;
use crate::heuristic::with_inherited_is_step;
use crate::heuristic::with_match_is_step;
use crate::heuristic::Heuristic;
use crate::heuristics::no_probes;
use crate::lang::Lang;
use crate::lang::LangView;
use crate::match_data::GroupView;
use crate::match_data::ParamsView;
use crate::matching_state::MatchingState;
use crate::matching_state::StateView;
use crate::text::views;
use crate::views::each_view;

verus! {

/// What the `.gitignore` files say of an entry, as the heuristic weighs it.
#[derive(Debug, Clone, Copy, PartialEq, Eq, Structural)]
pub enum GitMatchWeight {
    /// No file speaks of the entry; it is probably meant to stay.
    NotMatched,
    /// The entry is ignored, so it can probably be removed.
    Ignored,
    /// The entry is explicitly kept; it is not to be touched.
    Whitelisted,
}

/// The weight that a verdict gets: the entry is spoken of by no line, is
/// ignored, or is whitelisted.
pub open spec fn git_weight(v: Option<bool>) -> int {
    match v {
        None => -1000,
        Some(true) => 500,
        Some(false) => -10000,
    }
}

/// The reason given for a verdict.
pub open spec fn git_comment(v: Option<bool>) -> Seq<char> {
    match v {
        None => "File was not included in any .gitignore files that were found."@,
        Some(true) => "File was included in one of .gitignore files."@,
        Some(false) => "File was explicitly whitelisted in one of .gitignore files."@,
    }
}

/// The verdict that a weight class stands for.
pub open spec fn class_verdict(w: GitMatchWeight) -> Option<bool> {
    match w {
        GitMatchWeight::NotMatched => None,
        GitMatchWeight::Ignored => Some(true),
        GitMatchWeight::Whitelisted => Some(false),
    }
}

impl GitMatchWeight {
    /// The weight class of a verdict.
    pub fn from_verdict(v: Option<bool>) -> (r: Self)
        ensures
            class_verdict(r) == v,
    {
        match v {
            None => GitMatchWeight::NotMatched,
            Some(true) => GitMatchWeight::Ignored,
            Some(false) => GitMatchWeight::Whitelisted,
        }
    }

    /// The weight of a statement of this class.
    pub fn weight(&self) -> (r: i32)
        ensures
            r == git_weight(class_verdict(*self)),
    {
        match self {
            GitMatchWeight::NotMatched => -1000,
            GitMatchWeight::Ignored => 500,
            GitMatchWeight::Whitelisted => -10000,
        }
    }

    /// The reason given with a statement of this class.
    pub fn comment(&self) -> (r: &'static str)
        ensures
            r@ == git_comment(class_verdict(*self)),
    {
        match self {
            GitMatchWeight::NotMatched => "File was not included in any .gitignore files that were found.",
            GitMatchWeight::Ignored => "File was included in one of .gitignore files.",
            GitMatchWeight::Whitelisted => "File was explicitly whitelisted in one of .gitignore files.",
        }
    }
}

/// Weighs every entry by what the `.gitignore` files of this directory and
/// of the directories above say of it, and groups its matches under the
/// root of the working tree.
///
/// The heuristic records two things on its way down, and never takes
/// anything back: a directory that holds a `.gitignore` file is recorded by
/// its path; a directory that holds a `.git` directory is recorded by an
/// empty entry followed by its path. The root of the working tree is the
/// deepest directory with a `.git` directory, or, where there is none on
/// the branch, the first directory with a `.gitignore` file.
#[derive(Debug, Clone, Copy, Default)]
pub struct Git;

/// Whether the directory holds a `.gitignore` file.
pub open spec fn has_ignore_file(s: StateView) -> bool {
    s.has_file(".gitignore"@) is Some
}

/// Whether a recorded entry is the empty one that stands before the path of
/// a directory with a `.git` directory.
pub open spec fn is_mark(entry: Seq<char>) -> bool {
    entry.len() == 0
}

/// The directories with a `.gitignore` file among the first `n` recorded
/// entries, in the order in which they were recorded.
pub open spec fn ignore_dirs(bucket: Seq<Seq<char>>, n: int) -> Seq<Seq<char>>
    decreases n,
{
    if n <= 0 || n > bucket.len() {
        Seq::empty()
    } else {
        let before = ignore_dirs(bucket, n - 1);
        if !is_mark(bucket[n - 1]) && (n == 1 || !is_mark(bucket[n - 2])) {
            before.push(bucket[n - 1])
        } else {
            before
        }
    }
}

/// The deepest directory with a `.git` directory among the first `n`
/// recorded entries.
pub open spec fn repository_root(bucket: Seq<Seq<char>>, n: int) -> Option<Seq<char>>
    decreases n,
{
    if n <= 1 || n > bucket.len() {
        None
    } else if is_mark(bucket[n - 2]) && !is_mark(bucket[n - 1]) {
        Some(bucket[n - 1])
    } else {
        repository_root(bucket, n - 1)
    }
}

/// The directory under which matches are grouped, where at least one
/// directory with a `.gitignore` file is recorded.
pub open spec fn git_group(bucket: Seq<Seq<char>>) -> Seq<char> {
    match repository_root(bucket, bucket.len() as int) {
        Some(root) => root,
        None => ignore_dirs(bucket, bucket.len() as int)[0],
    }
}

/// The state after this directory was recorded as one with a `.git`
/// directory, if it is one.
pub open spec fn git_rooted(s: StateView) -> StateView {
    if s.has_directory(".git"@) is Some {
        s.with_inherited(Seq::empty()).with_inherited(s.path)
    } else {
        s
    }
}

/// The state after this directory was recorded, with what it holds.
pub open spec fn git_recorded(s: StateView) -> StateView {
    let rooted = git_rooted(s);
    if has_ignore_file(rooted) {
        rooted.with_inherited(rooted.path)
    } else {
        rooted
    }
}

/// The question about the `.gitignore` file of the directory `dir`.
pub open spec fn git_probe(dir: Seq<char>) -> ProbeView {
    ProbeView { dir, name: ".gitignore"@, read: true }
}

/// The questions about the `.gitignore` files of the directories `dirs`.
pub open spec fn git_probes(dirs: Seq<Seq<char>>) -> Seq<ProbeView> {
    Seq::new(dirs.len(), |i: int| git_probe(dirs[i]))
}

/// The `.gitignore` files of the directories `dirs`, with the lines that
/// are known of them.
pub open spec fn git_files(s: StateView, dirs: Seq<Seq<char>>) -> Seq<IgnoreFileView> {
    Seq::new(
        dirs.len(),
        |i: int| IgnoreFileView { root: dirs[i], lines: s.lines_in(dirs[i], ".gitignore"@) },
    )
}

/// The statement about the entry `e`, given the `.gitignore` files on the
/// branch and the root of the working tree.
pub open spec fn git_params(
    s: StateView,
    files: Seq<IgnoreFileView>,
    group: Seq<char>,
    e: EntryView,
) -> ParamsView {
    let v = files_verdict(files, e.path, e.kind == EntryKind::Directory);
    ParamsView {
        weight: git_weight(v),
        group_override: GroupView::Override(group),
        ..s.fresh(git_comment(v))
    }
}

/// The state after the heuristic has spoken about the first `n` entries of
/// `s`.
pub open spec fn git_upto(s: StateView, files: Seq<IgnoreFileView>, group: Seq<char>, n: int)
    -> StateView
    decreases n,
{
    if n <= 0 || n > s.children.len() {
        s
    } else {
        let before = git_upto(s, files, group, n - 1);
        let e = s.children[n - 1].entry;
        before.with_match(e.name, git_params(before, files, group, e))
    }
}

/// Speaking about the first `n` entries is a step.
pub proof fn git_upto_is_step(s: StateView, files: Seq<IgnoreFileView>, group: Seq<char>, n: int)
    ensures
        heuristic_step(s, git_upto(s, files, group, n)),
    decreases n,
{
    if n <= 0 || n > s.children.len() {
        step_reflexive(s);
    } else {
        let before = git_upto(s, files, group, n - 1);
        let e = s.children[n - 1].entry;
        git_upto_is_step(s, files, group, n - 1);
        with_match_is_step(before, e.name, git_params(before, files, group, e));
        step_transitive(s, before, git_upto(s, files, group, n));
    }
}

/// Recording the directory is a step.
pub proof fn git_recorded_is_step(s: StateView)
    requires
        s.wf(),
    ensures
        heuristic_step(s, git_recorded(s)),
        git_rooted(s).wf(),
        git_recorded(s).wf(),
{
    let marked = s.with_inherited(Seq::empty());
    let rooted = git_rooted(s);
    step_reflexive(s);
    with_inherited_is_step(s, Seq::empty());
    step_keeps_wf(s, marked);
    with_inherited_is_step(marked, s.path);
    step_transitive(s, marked, marked.with_inherited(s.path));
    step_keeps_wf(s, rooted);
    step_reflexive(rooted);
    with_inherited_is_step(rooted, rooted.path);
    step_transitive(s, rooted, git_recorded(s));
    step_keeps_wf(s, git_recorded(s));
}

/// The directories with a `.gitignore` file among the recorded entries.
fn recorded_ignore_dirs(bucket: &Vec<String>) -> (r: Vec<String>)
    ensures
        views(r@) == ignore_dirs(views(bucket@), bucket@.len() as int),
{
    let ghost all = views(bucket@);
    let mut out: Vec<String> = Vec::new();
    let mut i: usize = 0;
    while i < bucket.len()
        invariant
            i <= bucket.len(),
            all == views(bucket@),
            views(out@) == ignore_dirs(all, i as int),
        decreases bucket.len() - i,
    {
        if !bucket[i].as_str().is_empty() && (i == 0 || !bucket[i - 1].as_str().is_empty()) {
            out.push(bucket[i].clone());
        }
        i += 1;
    }
    out
}

/// The deepest directory with a `.git` directory among the recorded
/// entries.
fn recorded_root(bucket: &Vec<String>) -> (r: Option<String>)
    ensures
        match r {
            Some(root) => repository_root(views(bucket@), bucket@.len() as int) == Some(root@),
            None => repository_root(views(bucket@), bucket@.len() as int) is None,
        },
{
    let ghost all = views(bucket@);
    let mut found: Option<String> = None;
    let mut i: usize = 1;
    while i < bucket.len()
        invariant
            1 <= i,
            all == views(bucket@),
            match found {
                Some(root) => repository_root(
                    all,
                    if i <= bucket.len() {
                        i as int
                    } else {
                        bucket.len() as int
                    },
                ) == Some(root@),
                None => repository_root(
                    all,
                    if i <= bucket.len() {
                        i as int
                    } else {
                        bucket.len() as int
                    },
                ) is None,
            },
        decreases bucket.len() - i,
    {
        if bucket[i - 1].as_str().is_empty() && !bucket[i].as_str().is_empty() {
            found = Some(bucket[i].clone());
        }
        i += 1;
    }
    found
}

impl Heuristic for Git {
    open spec fn spec_info(&self) -> LangView {
        LangView {
            name: "Git"@,
            icon: "\u{e702}"@,
            short: "git"@,
            color: IconColor { normal: 202, selected: 166 },
        }
    }

    open spec fn wanted(&self, s: StateView) -> Seq<ProbeView> {
        let above = git_probes(ignore_dirs(s.bucket(), s.bucket().len() as int));
        if has_ignore_file(s) {
            above.push(git_probe(s.path))
        } else {
            above
        }
    }

    open spec fn effect(&self, s: StateView) -> StateView {
        let r = git_recorded(s);
        let dirs = ignore_dirs(r.bucket(), r.bucket().len() as int);
        if dirs.len() == 0 {
            r
        } else {
            git_upto(r, git_files(r, dirs), git_group(r.bucket()), r.children.len() as int)
        }
    }

    proof fn effect_is_step(&self, s: StateView) {
        let r = git_recorded(s);
        let dirs = ignore_dirs(r.bucket(), r.bucket().len() as int);
        git_recorded_is_step(s);
        if dirs.len() > 0 {
            git_upto_is_step(
                r,
                git_files(r, dirs),
                git_group(r.bucket()),
                r.children.len() as int,
            );
            step_transitive(s, r, self.effect(s));
        }
    }

    proof fn wanted_is_local(&self, a: StateView, b: StateView) {
        crate::heuristic::same_directory_has_same(a, b, ".gitignore"@);
    }

    fn info(&self) -> (r: Lang) {
        Lang { name: "Git", icon: "\u{e702}", short: "git", color: IconColor::new(202, 166) }
    }

    fn probes(&self, state: &MatchingState) -> (r: Vec<Probe>) {
        let bucket = state.inherited();
        let dirs = recorded_ignore_dirs(&bucket);
        let mut out = no_probes();
        let mut k: usize = 0;
        while k < dirs.len()
            invariant
                k <= dirs.len(),
                each_view(out@) == git_probes(views(dirs@)).take(k as int),
            decreases dirs.len() - k,
        {
            let ghost before = out@;
            let probe = Probe { dir: dirs[k].clone(), name: ".gitignore".to_owned(), read: true };
            out.push(probe);
            proof {
                assert(each_view(out@) =~= each_view(before).push(probe@));
            }
            k += 1;
        }
        proof {
            assert(git_probes(views(dirs@)).take(k as int) =~= git_probes(views(dirs@)));
        }
        if state.has_file(".gitignore").is_some() {
            let ghost before = out@;
            let probe = Probe {
                dir: state.path().to_owned(),
                name: ".gitignore".to_owned(),
                read: true,
            };
            out.push(probe);
        }
        out
    }

    fn check_for_matches(&self, state: &mut MatchingState) {
        proof {
            git_recorded_is_step(old(state)@);
        }
        if state.has_directory(".git").is_some() {
            let here = state.path().to_owned();
            state.inherit(String::new());
            state.inherit(here);
        }
        if state.has_file(".gitignore").is_some() {
            let here = state.path().to_owned();
            state.inherit(here);
        }
        let bucket = state.inherited();
        let dirs = recorded_ignore_dirs(&bucket);
        if dirs.len() == 0 {
            return ;
        }
        let group = match recorded_root(&bucket) {
            Some(root) => root,
            None => dirs[0].clone(),
        };
        let ghost r = state@;
        let ghost files = git_files(r, views(dirs@));
        let mut matchers: Vec<Matcher> = Vec::new();
        let mut k: usize = 0;
        while k < dirs.len()
            invariant
                k <= dirs.len(),
                state@ == r,
                files == git_files(r, views(dirs@)),
                matcher_files(matchers@) == files.take(k as int),
            decreases dirs.len() - k,
        {
            let dir = dirs[k].as_str();
            let lines = state.lines_of(dir, ".gitignore");
            let m = Matcher::new(dir, &lines);
            let ghost before = matchers@;
            matchers.push(m);
            proof {
                assert(matcher_files(matchers@) =~= matcher_files(before).push(m.file()));
            }
            k += 1;
        }
        let n = state.len();
        let mut i: usize = 0;
        while i < n
            invariant
                i <= n,
                n == r.children.len(),
                files == matcher_files(matchers@),
                state@ == git_upto(r, files, group@, i as int),
            decreases n - i,
        {
            proof {
                git_upto_is_step(r, files, group@, i as int);
            }
            let e = state.entry(i);
            let name = e.file_name.clone();
            let verdict = verdict_of(&matchers, e.path.as_str(), e.is_dir());
            let class = GitMatchWeight::from_verdict(verdict);
            state.add_match(name.as_str(), class.comment()).weight(class.weight()).custom_group(
                group.clone(),
            );
            i += 1;
        }
    }
}

} // verus!
