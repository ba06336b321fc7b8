//! The table of matches that the interface shows: matches grouped by
//! directory, with the user's selection and sort order.
use vstd::prelude::*;
use crate::dir_stats::add_stats;
use crate::dir_stats::earlier;
use crate::dir_stats::no_stats;
use crate::dir_stats::DirStats;
use crate::dir_stats::ModTime;
use crate::dir_stats::StatsView;
use crate::lang::CommentedLang;
use crate::lang::CommentedLangView;
use crate::lang::Lang;
use crate::lang::LangView;
use crate::text::joined;
use crate::text::str_eq;
use crate::text::str_lt;
use crate::text::text_less;
use crate::views::each_view;

verus! {

/// Whether the user has selected a group for deletion.
#[derive(Debug, Clone, Copy, PartialEq, Eq, Structural)]
pub enum MatchDataUIStatus {
    Found,
    Selected,
}

/// A column of the table by which it can be sorted.
#[derive(Debug, Clone, Copy, PartialEq, Eq, Structural)]
pub enum Field {
    Path,
    Lang,
    Size,
    LastMod,
}

impl Default for Field {
    fn default() -> (r: Self)
        ensures
            r == Field::Size,
    {
        Field::Size
    }
}

/// One match as the table holds it.
#[derive(Debug, Clone)]
pub struct MatchDataUI {
    /// Number of the match, in the order in which matches arrived.
    pub idx: usize,
    /// Path of the matched entry.
    pub path: String,
    /// Size and age of the entry, once they are known.
    pub dir_stats: DirStats,
    /// The reasons for the match.
    pub lang: Vec<CommentedLang>,
}

/// Mathematical value of a [`MatchDataUI`].
pub struct RowView {
    pub idx: int,
    pub path: Seq<char>,
    pub stats: StatsView,
    pub lang: Seq<CommentedLangView>,
}

impl View for MatchDataUI {
    type V = RowView;

    open spec fn view(&self) -> RowView {
        RowView {
            idx: self.idx as int,
            path: self.path@,
            stats: self.dir_stats@,
            lang: each_view(self.lang@),
        }
    }
}

/// The matches that are shown under one directory.
#[derive(Debug, Clone)]
pub struct MatchGroup {
    /// Whether one of the matches lies under a dangerous path.
    pub dangerous: bool,
    /// The directory under which the matches are shown.
    pub group_path: String,
    /// Whether the user has selected the group.
    pub status: MatchDataUIStatus,
    /// The matches, in the order in which they arrived.
    pub matches: Vec<MatchDataUI>,
}

/// Mathematical value of a [`MatchGroup`].
pub struct GroupRows {
    pub dangerous: bool,
    pub path: Seq<char>,
    pub status: MatchDataUIStatus,
    pub matches: Seq<RowView>,
}

impl View for MatchGroup {
    type V = GroupRows;

    open spec fn view(&self) -> GroupRows {
        GroupRows {
            dangerous: self.dangerous,
            path: self.group_path@,
            status: self.status,
            matches: each_view(self.matches@),
        }
    }
}

/// Statistics of the first `n` of `rows` taken together.
pub open spec fn rows_stats(rows: Seq<RowView>, n: int) -> StatsView
    decreases n,
{
    if n <= 0 || n > rows.len() {
        no_stats()
    } else {
        add_stats(rows_stats(rows, n - 1), rows[n - 1].stats)
    }
}

/// Statistics of a group: those of its matches taken together.
pub open spec fn group_stats(g: GroupRows) -> StatsView {
    rows_stats(g.matches, g.matches.len() as int)
}

/// Size of a group in bytes; 0 where no size is known.
pub open spec fn group_size(g: GroupRows) -> int {
    match group_stats(g).size {
        Some(bytes) => bytes,
        None => 0,
    }
}

/// The start of the Unix epoch.
pub open spec fn epoch() -> ModTime {
    ModTime { secs: 0, nanos: 0 }
}

/// Time of the last modification in a group; the start of the epoch where
/// none is known.
pub open spec fn group_last_mod(g: GroupRows) -> ModTime {
    match group_stats(g).last_mod {
        Some(t) => t,
        None => epoch(),
    }
}

/// `icons` with `l` put in its place by name, unless a language of that name
/// is there already. `icons` is in the order of names.
pub open spec fn with_icon(icons: Seq<LangView>, l: LangView) -> Seq<LangView>
    decreases icons.len(),
{
    if icons.len() == 0 {
        seq![l]
    } else {
        let last = icons.last();
        if last.name == l.name {
            icons
        } else if text_less(last.name, l.name) {
            icons.push(l)
        } else {
            with_icon(icons.drop_last(), l).push(last)
        }
    }
}

/// The languages of the first `n` of `reasons`, each once, in the order of
/// their names.
pub open spec fn icons_of_reasons(
    icons: Seq<LangView>,
    reasons: Seq<CommentedLangView>,
    n: int,
) -> Seq<LangView>
    decreases n,
{
    if n <= 0 || n > reasons.len() {
        icons
    } else {
        with_icon(icons_of_reasons(icons, reasons, n - 1), reasons[n - 1].lang)
    }
}

/// The languages of the first `n` of `rows`, each once, in the order of
/// their names.
pub open spec fn icons_of_rows(rows: Seq<RowView>, n: int) -> Seq<LangView>
    decreases n,
{
    if n <= 0 || n > rows.len() {
        Seq::empty()
    } else {
        icons_of_reasons(
            icons_of_rows(rows, n - 1),
            rows[n - 1].lang,
            rows[n - 1].lang.len() as int,
        )
    }
}

/// The languages of a group, each once, in the order of their names.
pub open spec fn group_icons(g: GroupRows) -> Seq<LangView> {
    icons_of_rows(g.matches, g.matches.len() as int)
}

/// The names of the first `n` of `icons`, one after another.
pub open spec fn names_joined(icons: Seq<LangView>, n: int) -> Seq<char>
    decreases n,
{
    if n <= 0 || n > icons.len() {
        Seq::empty()
    } else {
        names_joined(icons, n - 1) + icons[n - 1].name
    }
}

/// The names of the languages of a group, one after another.
pub open spec fn group_lang(g: GroupRows) -> Seq<char> {
    names_joined(group_icons(g), group_icons(g).len() as int)
}

/// Statistics of a group. The size is wide enough for any number of
/// matches.
#[derive(Debug, Clone, Copy, PartialEq, Eq, Structural)]
pub struct GroupStats {
    pub size: Option<u128>,
    pub last_mod: Option<ModTime>,
}

impl View for GroupStats {
    type V = StatsView;

    open spec fn view(&self) -> StatsView {
        StatsView {
            size: match self.size {
                Some(bytes) => Some(bytes as int),
                None => None,
            },
            last_mod: self.last_mod,
        }
    }
}

/// The size of the first `n` rows taken together is within `n` times the
/// largest size of a row.
pub proof fn rows_stats_bound(rows: Seq<RowView>, n: int)
    requires
        0 <= n <= rows.len(),
        forall|i: int|
            0 <= i < rows.len() ==> ((#[trigger] rows[i]).stats.size matches Some(bytes) ==> 0
                <= bytes <= u64::MAX),
    ensures
        rows_stats(rows, n).size matches Some(total) ==> 0 <= total <= n * u64::MAX,
    decreases n,
{
    if n > 0 {
        rows_stats_bound(rows, n - 1);
    }
}

/// Puts `l` in its place among `icons`.
fn insert_icon(icons: &mut Vec<Lang>, l: Lang)
    ensures
        each_view(final(icons)@) == with_icon(each_view(old(icons)@), l@),
{
    let ghost start = each_view(icons@);
    let mut at: usize = icons.len();
    let mut found = false;
    proof {
        assert(start.take(at as int) =~= start);
    }
    // Walk down from the end to the place of `l`.
    while at > 0 && !found
        invariant
            at <= icons.len(),
            icons@ == old(icons)@,
            start == each_view(icons@),
            with_icon(start, l@) == with_icon(start.take(at as int), l@) + start.skip(at as int),
            found ==> at > 0 && start[at - 1].name != l@.name && text_less(
                start[at - 1].name,
                l@.name,
            ),
        decreases at + (if found { 0int } else { 1int }),
    {
        let last = icons[at - 1];
        proof {
            let head = start.take(at as int);
            assert(head.drop_last() =~= start.take(at - 1));
        }
        if str_eq(last.name, l.name) {
            return ;
        }
        if str_lt(last.name, l.name) {
            found = true;
        } else {
            proof {
                let head = start.take(at as int);
            }
            at -= 1;
        }
    }
    proof {
        let head = start.take(at as int);
    }
    icons.insert(at, l);
}

impl MatchGroup {
    /// Statistics of the group: those of its matches taken together.
    pub fn stats(&self) -> (r: GroupStats)
        ensures
            r@ == group_stats(self@),
    {
        let ghost rows = each_view(self.matches@);
        let mut total: Option<u128> = None;
        let mut latest: Option<ModTime> = None;
        let mut i: usize = 0;
        while i < self.matches.len()
            invariant
                i <= self.matches.len(),
                rows == each_view(self.matches@),
                latest == rows_stats(rows, i as int).last_mod,
                match total {
                    Some(bytes) => rows_stats(rows, i as int).size == Some(bytes as int),
                    None => rows_stats(rows, i as int).size is None,
                },
            decreases self.matches.len() - i,
        {
            let d = &self.matches[i].dir_stats;
            proof {
                rows_stats_bound(rows, i as int);
            }
            match d.size {
                Some(bytes) => {
                    total = match total {
                        Some(sum) => Some(sum + bytes as u128),
                        None => Some(bytes as u128),
                    };
                },
                None => {},
            }
            if earlier(latest, d.last_mod) {
                latest = d.last_mod;
            }
            i += 1;
        }
        GroupStats { size: total, last_mod: latest }
    }

    /// The directory under which the matches are shown.
    pub fn path(&self) -> (r: String)
        ensures
            r@ == self@.path,
    {
        self.group_path.clone()
    }

    /// Size of the group in bytes; 0 where no size is known.
    pub fn size(&self) -> (r: u128)
        ensures
            r == group_size(self@),
    {
        match self.stats().size {
            Some(bytes) => bytes,
            None => 0,
        }
    }

    /// Time of the last modification in the group; the start of the Unix
    /// epoch where none is known.
    pub fn last_mod(&self) -> (r: ModTime)
        ensures
            r == group_last_mod(self@),
    {
        match self.stats().last_mod {
            Some(t) => t,
            None => ModTime { secs: 0, nanos: 0 },
        }
    }

    /// The languages of the group, each once, in the order of their names.
    pub fn get_icons(&self) -> (r: Vec<Lang>)
        ensures
            each_view(r@) == group_icons(self@),
    {
        let ghost rows = each_view(self.matches@);
        let mut icons: Vec<Lang> = Vec::new();
        let mut i: usize = 0;
        while i < self.matches.len()
            invariant
                i <= self.matches.len(),
                rows == each_view(self.matches@),
                each_view(icons@) == icons_of_rows(rows, i as int),
            decreases self.matches.len() - i,
        {
            let reasons = &self.matches[i].lang;
            let ghost before = each_view(icons@);
            let mut j: usize = 0;
            while j < reasons.len()
                invariant
                    j <= reasons.len(),
                    each_view(icons@) == icons_of_reasons(before, each_view(reasons@), j as int),
                decreases reasons.len() - j,
            {
                insert_icon(&mut icons, reasons[j].lang);
                j += 1;
            }
            i += 1;
        }
        icons
    }

    /// The names of the languages of the group, one after another.
    pub fn lang(&self) -> (r: String)
        ensures
            r@ == group_lang(self@),
    {
        let icons = self.get_icons();
        let mut out = String::new();
        let mut i: usize = 0;
        while i < icons.len()
            invariant
                i <= icons.len(),
                out@ == names_joined(each_view(icons@), i as int),
            decreases icons.len() - i,
        {
            out = joined(out.as_str(), icons[i].name);
            i += 1;
        }
        out
    }
}

} // verus!
