//! The listing of one directory, as the caller hands it to the engine, and the
//! facts about marker files that the caller looked up for the heuristics.
use vstd::prelude::*;
use crate::text::str_eq;
use crate::views::each_view;

verus! {

/// What kind of thing a directory entry is.
#[derive(Debug, Clone, Copy, PartialEq, Eq, Structural)]
pub enum EntryKind {
    /// A regular file.
    File,
    /// A directory.
    Directory,
    /// Anything else, a symbolic link for one.
    Other,
}

/// One entry of the directory that is being scanned.
#[derive(Debug, Clone)]
pub struct Entry {
    /// Name of the entry inside its directory.
    pub file_name: String,
    /// Full path of the entry.
    pub path: String,
    /// Kind of the entry.
    pub kind: EntryKind,
    /// Whether the walk is to enter the entry later. Only directories are
    /// entered.
    pub descend: bool,
}

/// Mathematical value of an [`Entry`].
pub struct EntryView {
    pub name: Seq<char>,
    pub path: Seq<char>,
    pub kind: EntryKind,
    pub descend: bool,
}

impl View for Entry {
    type V = EntryView;

    open spec fn view(&self) -> EntryView {
        EntryView {
            name: self.file_name@,
            path: self.path@,
            kind: self.kind,
            descend: self.descend,
        }
    }
}

impl Entry {
    /// An entry as the walk first sees it: a directory is to be entered,
    /// anything else is not.
    pub fn new(file_name: String, path: String, kind: EntryKind) -> (e: Self)
        ensures
            e@ == (EntryView {
                name: file_name@,
                path: path@,
                kind,
                descend: kind == EntryKind::Directory,
            }),
    {
        let descend = match kind {
            EntryKind::Directory => true,
            _ => false,
        };
        Entry { file_name, path, kind, descend }
    }

    /// True for a regular file.
    pub fn is_file(&self) -> (r: bool)
        ensures
            r == (self.kind == EntryKind::File),
    {
        match self.kind {
            EntryKind::File => true,
            _ => false,
        }
    }

    /// True for a directory.
    pub fn is_dir(&self) -> (r: bool)
        ensures
            r == (self.kind == EntryKind::Directory),
    {
        match self.kind {
            EntryKind::Directory => true,
            _ => false,
        }
    }

    /// A copy of this entry.
    pub fn duplicate(&self) -> (r: Self)
        ensures
            r@ == self@,
    {
        Entry {
            file_name: self.file_name.clone(),
            path: self.path.clone(),
            kind: self.kind,
            descend: self.descend,
        }
    }
}

/// A question that a heuristic has about the file `name` in directory `dir`:
/// whether it is a regular file and, if `read` is set, what its lines are.
#[derive(Debug, Clone)]
pub struct Probe {
    /// Path of the directory.
    pub dir: String,
    /// Name of the file in it.
    pub name: String,
    /// Whether the lines of the file are wanted too.
    pub read: bool,
}

/// Mathematical value of a [`Probe`].
pub struct ProbeView {
    pub dir: Seq<char>,
    pub name: Seq<char>,
    pub read: bool,
}

impl View for Probe {
    type V = ProbeView;

    open spec fn view(&self) -> ProbeView {
        ProbeView { dir: self.dir@, name: self.name@, read: self.read }
    }
}

/// What the caller found out about the file `name` in directory `dir`.
#[derive(Debug, Clone)]
pub struct FileFact {
    /// Path of the directory.
    pub dir: String,
    /// Name of the file in it.
    pub name: String,
    /// Whether there is a regular file of that name.
    pub is_file: bool,
    /// The lines of the file, where they were asked for and could be read.
    pub lines: Vec<String>,
}

/// Mathematical value of a [`FileFact`].
pub struct FactView {
    pub dir: Seq<char>,
    pub name: Seq<char>,
    pub is_file: bool,
    pub lines: Seq<Seq<char>>,
}

impl View for FileFact {
    type V = FactView;

    open spec fn view(&self) -> FactView {
        FactView {
            dir: self.dir@,
            name: self.name@,
            is_file: self.is_file,
            lines: each_view(self.lines@),
        }
    }
}

impl FileFact {
    /// A copy of this fact.
    pub fn duplicate(&self) -> (r: Self)
        ensures
            r@ == self@,
    {
        let lines = crate::cache::copy_strings(&self.lines);
        FileFact { dir: self.dir.clone(), name: self.name.clone(), is_file: self.is_file, lines }
    }
}

/// Index of the first fact at or after `from` that is about `name` in `dir`.
pub open spec fn first_fact(facts: Seq<FactView>, dir: Seq<char>, name: Seq<char>, from: int)
    -> Option<int>
    decreases facts.len() - from,
{
    if from < 0 || from >= facts.len() {
        None
    } else if facts[from].dir == dir && facts[from].name == name {
        Some(from)
    } else {
        first_fact(facts, dir, name, from + 1)
    }
}

/// Whether the facts say that `name` is a regular file in `dir`. What no fact
/// speaks of is held not to be one.
pub open spec fn known_file(facts: Seq<FactView>, dir: Seq<char>, name: Seq<char>) -> bool {
    match first_fact(facts, dir, name, 0) {
        Some(i) => facts[i].is_file,
        None => false,
    }
}

/// The lines that the facts give for the file `name` in `dir`; none where no
/// fact speaks of it or it is no regular file.
pub open spec fn known_lines(facts: Seq<FactView>, dir: Seq<char>, name: Seq<char>) -> Seq<
    Seq<char>,
> {
    match first_fact(facts, dir, name, 0) {
        Some(i) => if facts[i].is_file {
            facts[i].lines
        } else {
            Seq::empty()
        },
        None => Seq::empty(),
    }
}

/// Finds the first fact about `name` in `dir`.
pub fn find_fact(facts: &Vec<FileFact>, dir: &str, name: &str) -> (r: Option<usize>)
    ensures
        match r {
            Some(i) => first_fact(each_view(facts@), dir@, name@, 0) == Some(i as int) && i
                < facts.len(),
            None => first_fact(each_view(facts@), dir@, name@, 0) is None,
        },
{
    let mut i: usize = 0;
    while i < facts.len()
        invariant
            i <= facts.len(),
            first_fact(each_view(facts@), dir@, name@, 0) == first_fact(
                each_view(facts@),
                dir@,
                name@,
                i as int,
            ),
        decreases facts.len() - i,
    {
        if str_eq(facts[i].dir.as_str(), dir) && str_eq(facts[i].name.as_str(), name) {
            return Some(i);
        }
        i += 1;
    }
    None
}

} // verus!
