//! Size and age of what lies under a path.
use vstd::prelude::*;
use core::cmp::Ordering;
use vstd::std_specs::cmp::PartialOrdSpecImpl;
use crate::seen::FileKey;
use crate::seen::SeenFiles;
use crate::views::each_view;

verus! {

/// A point in time: whole seconds since the Unix epoch, negative before it,
/// and the nanoseconds past that second.
#[derive(Debug, Clone, Copy, PartialEq, Eq, Structural)]
pub struct ModTime {
    pub secs: i64,
    pub nanos: u32,
}

/// True if `a` is earlier than `b`.
pub open spec fn time_before(a: ModTime, b: ModTime) -> bool {
    a.secs < b.secs || (a.secs == b.secs && a.nanos < b.nanos)
}

/// True if `a` is earlier than `b`, where no time at all is earlier than
/// any time.
pub open spec fn opt_time_before(a: Option<ModTime>, b: Option<ModTime>) -> bool {
    match (a, b) {
        (None, Some(_)) => true,
        (Some(x), Some(y)) => time_before(x, y),
        _ => false,
    }
}

/// The later of two times, where no time at all is earlier than any time.
pub open spec fn later(a: Option<ModTime>, b: Option<ModTime>) -> Option<ModTime> {
    if opt_time_before(a, b) {
        b
    } else {
        a
    }
}

impl ModTime {
    /// Tells whether this time is earlier than `other`.
    pub fn is_before(&self, other: &ModTime) -> (r: bool)
        ensures
            r == time_before(*self, *other),
    {
        self.secs < other.secs || (self.secs == other.secs && self.nanos < other.nanos)
    }
}

/// Tells whether `a` is earlier than `b`, where no time at all is earlier
/// than any time.
pub fn earlier(a: Option<ModTime>, b: Option<ModTime>) -> (r: bool)
    ensures
        r == opt_time_before(a, b),
{
    match (a, b) {
        (None, Some(_)) => true,
        (Some(x), Some(y)) => x.is_before(&y),
        _ => false,
    }
}

/// Total size in bytes of the regular files under a path, and the latest
/// time at which one of them was modified. Either is missing where nothing
/// is known.
#[derive(Debug, Clone, Copy, PartialEq, Eq, Structural)]
pub struct DirStats {
    pub size: Option<u64>,
    pub last_mod: Option<ModTime>,
}

/// Mathematical value of a [`DirStats`]: the size is an unbounded integer.
pub struct StatsView {
    pub size: Option<int>,
    pub last_mod: Option<ModTime>,
}

impl View for DirStats {
    type V = StatsView;

    open spec fn view(&self) -> StatsView {
        StatsView {
            size: match self.size {
                Some(bytes) => Some(bytes as int),
                None => None,
            },
            last_mod: self.last_mod,
        }
    }
}

/// Statistics of nothing.
pub open spec fn no_stats() -> StatsView {
    StatsView { size: None, last_mod: None }
}

/// Sum of two sizes; a missing size counts as absent, not as zero.
pub open spec fn add_sizes(a: Option<int>, b: Option<int>) -> Option<int> {
    match (a, b) {
        (Some(x), Some(y)) => Some(x + y),
        (Some(x), None) => Some(x),
        (None, other) => other,
    }
}

/// Statistics of two paths taken together: sizes add, the later time stays.
pub open spec fn add_stats(a: StatsView, b: StatsView) -> StatsView {
    StatsView { size: add_sizes(a.size, b.size), last_mod: later(a.last_mod, b.last_mod) }
}

/// Statistics of a list of paths taken together.
pub open spec fn sum_stats(s: Seq<StatsView>) -> StatsView
    decreases s.len(),
{
    if s.len() == 0 {
        no_stats()
    } else {
        add_stats(sum_stats(s.drop_last()), s.last())
    }
}

/// True if `a` is smaller than `b`, where no size at all is smaller than
/// any size.
pub open spec fn size_below(a: Option<u64>, b: Option<u64>) -> bool {
    match (a, b) {
        (None, Some(_)) => true,
        (Some(x), Some(y)) => x < y,
        _ => false,
    }
}

/// True if `a` sorts before `b`: it is larger, or as large and last
/// modified earlier.
pub open spec fn stats_before(a: DirStats, b: DirStats) -> bool {
    size_below(b.size, a.size) || (a.size == b.size && opt_time_before(a.last_mod, b.last_mod))
}

/// No statistics sort before themselves.
pub proof fn stats_before_irreflexive(a: DirStats)
    ensures
        !stats_before(a, a),
{
}

/// Of two different statistics exactly one sorts before the other.
pub proof fn stats_before_total(a: DirStats, b: DirStats)
    ensures
        a == b || stats_before(a, b) || stats_before(b, a),
        !(stats_before(a, b) && stats_before(b, a)),
{
}

/// The order is transitive.
pub proof fn stats_before_transitive(a: DirStats, b: DirStats, c: DirStats)
    requires
        stats_before(a, b),
        stats_before(b, c),
    ensures
        stats_before(a, c),
{
}

impl PartialOrd for DirStats {
    fn partial_cmp(&self, other: &Self) -> (r: Option<Ordering>) {
        if self.sorts_before(other) {
            Some(Ordering::Less)
        } else if other.sorts_before(self) {
            Some(Ordering::Greater)
        } else {
            Some(Ordering::Equal)
        }
    }
}

impl PartialOrdSpecImpl for DirStats {
    open spec fn obeys_partial_cmp_spec() -> bool {
        true
    }

    open spec fn partial_cmp_spec(&self, other: &Self) -> Option<Ordering> {
        if stats_before(*self, *other) {
            Some(Ordering::Less)
        } else if stats_before(*other, *self) {
            Some(Ordering::Greater)
        } else {
            Some(Ordering::Equal)
        }
    }
}

/// Seconds in a day.
pub const SECONDS_PER_DAY: u64 = 86400;

/// Whole seconds from `then` to `now`; negative if `now` is the earlier.
pub open spec fn seconds_between(then: ModTime, now: ModTime) -> int {
    if now.nanos < then.nanos {
        now.secs - then.secs - 1
    } else {
        now.secs - then.secs
    }
}

impl DirStats {
    /// Statistics of nothing.
    pub fn empty() -> (r: Self)
        ensures
            r@ == no_stats(),
    {
        DirStats { size: None, last_mod: None }
    }

    /// Tells whether these statistics sort before `other`: a larger size
    /// comes first, and of equal sizes the one modified earlier.
    pub fn sorts_before(&self, other: &Self) -> (r: bool)
        ensures
            r == stats_before(*self, *other),
    {
        let larger = match (other.size, self.size) {
            (None, Some(_)) => true,
            (Some(x), Some(y)) => x < y,
            _ => false,
        };
        let same = match (other.size, self.size) {
            (None, None) => true,
            (Some(x), Some(y)) => x == y,
            _ => false,
        };
        larger || (same && earlier(self.last_mod, other.last_mod))
    }

    /// Statistics of two paths taken together.
    pub fn add(self, rhs: Self) -> (r: Self)
        requires
            add_stats(self@, rhs@).size matches Some(total) ==> total <= u64::MAX,
        ensures
            r@ == add_stats(self@, rhs@),
    {
        let size = match (self.size, rhs.size) {
            (Some(a), Some(b)) => Some(a + b),
            (Some(a), None) => Some(a),
            (None, other) => other,
        };
        let last_mod = if earlier(self.last_mod, rhs.last_mod) {
            rhs.last_mod
        } else {
            self.last_mod
        };
        DirStats { size, last_mod }
    }

    /// Whole days since the last modification, seen from the time `now`.
    /// None if no time of modification is known or it lies after `now`.
    pub fn last_mod_days(&self, now: ModTime) -> (r: Option<u64>)
        ensures
            match self.last_mod {
                Some(then) => if time_before(now, then) {
                    r is None
                } else {
                    r == Some((seconds_between(then, now) / 86400) as u64)
                },
                None => r is None,
            },
    {
        match self.last_mod {
            Some(then) => {
                if now.is_before(&then) {
                    None
                } else {
                    let borrow: i128 = if now.nanos < then.nanos {
                        1
                    } else {
                        0
                    };
                    let seconds: i128 = now.secs as i128 - then.secs as i128 - borrow;
                    let days: i128 = seconds / 86400;
                    Some(days as u64)
                }
            },
            None => None,
        }
    }
}

/// What a walk found out about one entry under a path.
#[derive(Debug, Clone, Copy, PartialEq, Eq, Structural)]
pub struct FileRecord {
    /// Identity of the file; hard links to one file share it.
    pub key: FileKey,
    /// Whether the entry is a regular file.
    pub is_file: bool,
    /// Length of the file in bytes, where it could be read.
    pub size: Option<u64>,
    /// Time of the last modification, where it could be read.
    pub last_mod: Option<ModTime>,
}

/// The identities of the first `n` records.
pub open spec fn keys_before(files: Seq<FileRecord>, n: int) -> Set<FileKey> {
    Set::new(|k: FileKey| exists|j: int| 0 <= j < n && j < files.len() && #[trigger] files[j].key == k)
}

/// The bytes that the record at position `i` adds to the total: its length
/// if it is a regular file that no earlier record has the identity of and
/// whose length could be read, else nothing.
pub open spec fn counted(files: Seq<FileRecord>, i: int) -> int {
    if files[i].is_file && !keys_before(files, i).contains(files[i].key) {
        match files[i].size {
            Some(bytes) => bytes as int,
            None => 0,
        }
    } else {
        0
    }
}

/// The bytes of the regular files among the first `n` records, every file
/// counted once, however many paths lead to it.
pub open spec fn counted_total(files: Seq<FileRecord>, n: int) -> int
    decreases n,
{
    if n <= 0 || n > files.len() {
        0
    } else {
        counted_total(files, n - 1) + counted(files, n - 1)
    }
}

/// The latest modification among the first `n` records.
pub open spec fn latest_of(files: Seq<FileRecord>, n: int) -> Option<ModTime>
    decreases n,
{
    if n <= 0 || n > files.len() {
        None
    } else {
        later(latest_of(files, n - 1), files[n - 1].last_mod)
    }
}

/// Statistics of the first `n` records of a walk. Where anything was walked
/// there is a size: the bytes of the regular files, which is 0 where there
/// is none. Where nothing was walked nothing is known.
pub open spec fn tally(files: Seq<FileRecord>, n: int) -> StatsView {
    StatsView {
        size: if 0 < n <= files.len() {
            Some(counted_total(files, n))
        } else {
            None
        },
        last_mod: latest_of(files, n),
    }
}

/// The total of the first `n` records is not negative and at most `n` times
/// the largest length that a record can hold.
pub proof fn tally_size_bound(files: Seq<FileRecord>, n: int)
    requires
        0 <= n <= files.len(),
    ensures
        0 <= counted_total(files, n) <= n * u64::MAX,
    decreases n,
{
    if n > 0 {
        tally_size_bound(files, n - 1);
        assert(n * u64::MAX == (n - 1) * u64::MAX + u64::MAX) by (nonlinear_arith);
    }
}

/// The sum of a list with one more element at its end.
pub proof fn sum_stats_push(s: Seq<StatsView>, x: StatsView)
    ensures
        sum_stats(s.push(x)) == add_stats(sum_stats(s), x),
{
    assert(s.push(x).drop_last() =~= s);
}

/// The size of a sum of `n` statistics of bounded sizes is bounded.
pub proof fn sum_stats_size_bound(s: Seq<StatsView>)
    requires
        forall|i: int|
            0 <= i < s.len() ==> ((#[trigger] s[i]).size matches Some(bytes) ==> 0 <= bytes
                <= u64::MAX),
    ensures
        sum_stats(s).size matches Some(total) ==> 0 <= total <= s.len() * u64::MAX,
    decreases s.len(),
{
    if s.len() > 0 {
        sum_stats_size_bound(s.drop_last());
    }
}

impl DirStats {
    /// Statistics of the records of one walk, or nothing if the total size
    /// is beyond `u64`. A walk that came across anything has a size, which
    /// is 0 where it came across no regular file; only where nothing was
    /// walked is no size known.
    pub fn try_new(files: &Vec<FileRecord>) -> (r: Option<Self>)
        ensures
            match r {
                Some(stats) => stats@ == tally(files@, files@.len() as int),
                None => tally(files@, files@.len() as int).size matches Some(total) && total
                    > u64::MAX,
            },
    {
        let mut seen = SeenFiles::new();
        let mut total: u128 = 0;
        let mut latest: Option<ModTime> = None;
        let mut i: usize = 0;
        while i < files.len()
            invariant
                i <= files.len(),
                seen@ == keys_before(files@, i as int),
                latest == latest_of(files@, i as int),
                total == counted_total(files@, i as int),
            decreases files.len() - i,
        {
            let f = &files[i];
            proof {
                tally_size_bound(files@, i as int);
                assert(i * u64::MAX <= usize::MAX * u64::MAX) by (nonlinear_arith)
                    requires
                        i <= usize::MAX,
                ;
            }
            let fresh = seen.insert(f.key);
            proof {
                assert(seen@ =~= keys_before(files@, i + 1)) by {
                    assert forall|k: FileKey|
                        keys_before(files@, i as int).insert(f.key).contains(k) == keys_before(
                            files@,
                            i + 1,
                        ).contains(k) by {
                        if keys_before(files@, i + 1).contains(k) {
                            let j = choose|j: int|
                                0 <= j < i + 1 && j < files@.len() && #[trigger] files@[j].key == k;
                            if j < i {
                                assert(keys_before(files@, i as int).contains(k));
                            }
                        }
                        if keys_before(files@, i as int).insert(f.key).contains(k) {
                            if k == f.key {
                                assert(files@[i as int].key == k);
                            } else {
                                let j = choose|j: int|
                                    0 <= j < i && j < files@.len() && #[trigger] files@[j].key == k;
                                assert(files@[j].key == k);
                            }
                        }
                    }
                }
            }
            if fresh && f.is_file {
                match f.size {
                    Some(bytes) => {
                        total = total + bytes as u128;
                    },
                    None => {},
                }
            }
            if earlier(latest, f.last_mod) {
                latest = f.last_mod;
            }
            i += 1;
        }
        if files.len() == 0 {
            Some(DirStats { size: None, last_mod: latest })
        } else if total > u64::MAX as u128 {
            None
        } else {
            Some(DirStats { size: Some(total as u64), last_mod: latest })
        }
    }

    /// Statistics of the records of one walk: the bytes of its regular
    /// files, each file counted once, and the latest modification of
    /// anything it came across.
    pub fn new(files: &Vec<FileRecord>) -> (r: Self)
        requires
            tally(files@, files@.len() as int).size matches Some(total) ==> total <= u64::MAX,
        ensures
            r@ == tally(files@, files@.len() as int),
    {
        match DirStats::try_new(files) {
            Some(stats) => stats,
            None => DirStats::empty(),
        }
    }

    /// Statistics of several paths taken together.
    pub fn sum(list: &Vec<DirStats>) -> (r: Self)
        requires
            sum_stats(each_view(list@)).size matches Some(total) ==> total <= u64::MAX,
        ensures
            r@ == sum_stats(each_view(list@)),
    {
        let ghost all = each_view(list@);
        let mut total: Option<u128> = None;
        let mut latest: Option<ModTime> = None;
        let mut i: usize = 0;
        while i < list.len()
            invariant
                i <= list.len(),
                all == each_view(list@),
                latest == sum_stats(all.take(i as int)).last_mod,
                match total {
                    Some(bytes) => sum_stats(all.take(i as int)).size == Some(bytes as int),
                    None => sum_stats(all.take(i as int)).size is None,
                },
            decreases list.len() - i,
        {
            let d = &list[i];
            proof {
                assert(all.take(i + 1) =~= all.take(i as int).push(all[i as int]));
                sum_stats_push(all.take(i as int), all[i as int]);
                sum_stats_size_bound(all.take(i as int));
            }
            match d.size {
                Some(bytes) => {
                    total = match total {
                        Some(sum) => Some(sum + bytes as u128),
                        None => Some(bytes as u128),
                    };
                },
                None => {},
            }
            if earlier(latest, d.last_mod) {
                latest = d.last_mod;
            }
            i += 1;
        }
        proof {
            assert(all.take(list.len() as int) =~= all);
        }
        match total {
            Some(bytes) => DirStats { size: Some(bytes as u64), last_mod: latest },
            None => DirStats { size: None, last_mod: latest },
        }
    }
}

impl Default for DirStats {
    fn default() -> (r: Self)
        ensures
            r@ == no_stats(),
    {
        DirStats { size: None, last_mod: None }
    }
}

} // verus!
