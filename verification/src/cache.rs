//! State that travels down one branch of the walk.
use vstd::prelude::*;
use crate::text::str_eq;
use crate::text::views;

verus! {

/// State of one branch of the walk. It is copied whenever the walk enters a
/// subdirectory, so that sibling branches never see each other's additions.
#[derive(Debug)]
pub struct ScannerCache {
    /// For each heuristic, by its position in the scanner's list, the paths
    /// that it recorded in the directories above.
    pub inherited_files: Vec<Vec<String>>,
    /// True once a directory above was marked as dangerous.
    pub dangerous: bool,
    /// Names of subdirectories that become dangerous when they are entered.
    pub marked_to_be_dangerous: Vec<String>,
}

/// Mathematical value of a [`ScannerCache`].
pub struct CacheView {
    pub inherited: Seq<Seq<Seq<char>>>,
    pub dangerous: bool,
    pub marked: Set<Seq<char>>,
}

/// The paths in each bucket, as character sequences.
pub open spec fn buckets_view(b: Seq<Vec<String>>) -> Seq<Seq<Seq<char>>> {
    Seq::new(b.len(), |i: int| views(b[i]@))
}

/// The names in `v`, as a set.
pub open spec fn names_of(v: Seq<String>) -> Set<Seq<char>> {
    Set::new(|n: Seq<char>| exists|i: int| 0 <= i < v.len() && #[trigger] v[i]@ == n)
}

impl View for ScannerCache {
    type V = CacheView;

    open spec fn view(&self) -> CacheView {
        CacheView {
            inherited: buckets_view(self.inherited_files@),
            dangerous: self.dangerous,
            marked: names_of(self.marked_to_be_dangerous@),
        }
    }
}

/// `inherited` with empty buckets added at its end until it has `n` of them.
pub open spec fn with_buckets(inherited: Seq<Seq<Seq<char>>>, n: int) -> Seq<Seq<Seq<char>>> {
    if inherited.len() >= n {
        inherited
    } else {
        inherited + Seq::new((n - inherited.len()) as nat, |i: int| Seq::<Seq<char>>::empty())
    }
}

/// The cache of a directory that is entered under the name `dir_name`: if
/// the name was marked, the branch is dangerous from here on and the marks
/// are used up.
pub open spec fn entered(c: CacheView, dir_name: Seq<char>) -> CacheView {
    if c.marked.contains(dir_name) {
        CacheView { dangerous: true, marked: Set::empty(), ..c }
    } else {
        c
    }
}

impl ScannerCache {
    /// The cache of the root of a walk with `heuristics` heuristics: nothing
    /// inherited, nothing marked, not dangerous.
    pub fn new(heuristics: usize) -> (c: Self)
        ensures
            c@.inherited == with_buckets(Seq::empty(), heuristics as int),
            !c@.dangerous,
            c@.marked == Set::<Seq<char>>::empty(),
    {
        let mut c = ScannerCache {
            inherited_files: Vec::new(),
            dangerous: false,
            marked_to_be_dangerous: Vec::new(),
        };
        c.reserve_buckets(heuristics);
        c
    }

    /// Makes sure that there is a bucket for each of `n` heuristics.
    pub fn reserve_buckets(&mut self, n: usize)
        ensures
            final(self)@ == (CacheView {
                inherited: with_buckets(old(self)@.inherited, n as int),
                ..old(self)@
            }),
    {
        let ghost start = self@.inherited;
        while self.inherited_files.len() < n
            invariant
                self.dangerous == old(self).dangerous,
                self.marked_to_be_dangerous == old(self).marked_to_be_dangerous,
                start == old(self)@.inherited,
                start.len() <= self@.inherited.len(),
                self@.inherited.len() <= n || self@.inherited == start,
                self@.inherited == with_buckets(start, self.inherited_files.len() as int),
            decreases n - self.inherited_files.len(),
        {
            let ghost before = self@.inherited;
            self.inherited_files.push(Vec::new());
            assert(self@.inherited =~~= before.push(Seq::<Seq<char>>::empty()));
        }
    }

    /// Tells whether `name` is marked.
    pub fn is_marked(&self, name: &str) -> (r: bool)
        ensures
            r == self@.marked.contains(name@),
    {
        let mut i: usize = 0;
        while i < self.marked_to_be_dangerous.len()
            invariant
                i <= self.marked_to_be_dangerous.len(),
                forall|j: int| 0 <= j < i ==> self.marked_to_be_dangerous@[j]@ != name@,
            decreases self.marked_to_be_dangerous.len() - i,
        {
            if str_eq(self.marked_to_be_dangerous[i].as_str(), name) {
                return true;
            }
            i += 1;
        }
        false
    }

    /// Marks the subdirectory `name`: it becomes dangerous when it is
    /// entered.
    pub fn mark(&mut self, name: &str)
        ensures
            final(self)@ == (CacheView {
                marked: old(self)@.marked.insert(name@),
                ..old(self)@
            }),
    {
        if !self.is_marked(name) {
            let ghost before = self.marked_to_be_dangerous@;
            self.marked_to_be_dangerous.push(name.to_owned());
            assert(self@.marked =~= old(self)@.marked.insert(name@)) by {
                assert forall|n: Seq<char>| #[trigger]
                    self@.marked.contains(n) <==> old(self)@.marked.insert(name@).contains(
                        n,
                    ) by {
                    if self@.marked.contains(n) {
                        let i = choose|i: int|
                            0 <= i < self.marked_to_be_dangerous@.len()
                                && #[trigger] self.marked_to_be_dangerous@[i]@ == n;
                    }
                    if old(self)@.marked.contains(n) {
                        let i = choose|i: int| 0 <= i < before.len() && #[trigger] before[i]@ == n;
                        assert(self.marked_to_be_dangerous@[i]@ == n);
                    }
                    if n == name@ {
                        assert(self.marked_to_be_dangerous@[before.len() as int]@ == n);
                    }
                }
            }
        } else {
            assert(self@.marked =~= old(self)@.marked.insert(name@));
        }
    }

    /// Latches the dangerous flag on entering the directory `dir_name`.
    pub fn enter(&mut self, dir_name: &str)
        ensures
            final(self)@ == entered(old(self)@, dir_name@),
    {
        if self.is_marked(dir_name) {
            self.dangerous = true;
            self.marked_to_be_dangerous.clear();
            assert(self@.marked =~= Set::<Seq<char>>::empty());
        }
    }

    /// The copy that a subdirectory starts from.
    pub fn fork(&self) -> (c: Self)
        ensures
            c@ == self@,
    {
        let mut inherited_files: Vec<Vec<String>> = Vec::new();
        let mut i: usize = 0;
        while i < self.inherited_files.len()
            invariant
                i <= self.inherited_files.len(),
                buckets_view(inherited_files@) == buckets_view(self.inherited_files@).take(i as int),
            decreases self.inherited_files.len() - i,
        {
            let bucket = copy_strings(&self.inherited_files[i]);
            let ghost before = inherited_files@;
            inherited_files.push(bucket);
            assert(buckets_view(inherited_files@) =~= buckets_view(before).push(
                buckets_view(self.inherited_files@)[i as int],
            ));
            i += 1;
        }
        assert(buckets_view(self.inherited_files@).take(i as int) =~= buckets_view(
            self.inherited_files@,
        ));
        let marked = copy_strings(&self.marked_to_be_dangerous);
        let c = ScannerCache {
            inherited_files,
            dangerous: self.dangerous,
            marked_to_be_dangerous: marked,
        };
        assert(c@.marked =~= self@.marked) by {
            assert forall|n: Seq<char>| c@.marked.contains(n) <==> self@.marked.contains(n) by {
                assert(views(marked@).len() == views(self.marked_to_be_dangerous@).len());
                if c@.marked.contains(n) {
                    let i = choose|i: int| 0 <= i < marked@.len() && #[trigger] marked@[i]@ == n;
                    assert(views(marked@)[i] == views(self.marked_to_be_dangerous@)[i]);
                }
                if self@.marked.contains(n) {
                    let i = choose|i: int|
                        0 <= i < self.marked_to_be_dangerous@.len()
                            && #[trigger] self.marked_to_be_dangerous@[i]@ == n;
                    assert(views(marked@)[i] == views(self.marked_to_be_dangerous@)[i]);
                }
            }
        }
        c
    }
}

impl Default for ScannerCache {
    fn default() -> (c: Self)
        ensures
            c@.inherited == Seq::<Seq<Seq<char>>>::empty(),
            !c@.dangerous,
            c@.marked == Set::<Seq<char>>::empty(),
    {
        ScannerCache::new(0)
    }
}

/// A copy of a list of strings.
pub fn copy_strings(v: &Vec<String>) -> (r: Vec<String>)
    ensures
        views(r@) == views(v@),
{
    let mut out: Vec<String> = Vec::new();
    let mut i: usize = 0;
    while i < v.len()
        invariant
            i <= v.len(),
            views(out@) == views(v@).take(i as int),
        decreases v.len() - i,
    {
        let ghost before = out@;
        out.push(v[i].clone());
        assert(views(out@) =~= views(before).push(v@[i as int]@));
        i += 1;
    }
    out
}

} // verus!
