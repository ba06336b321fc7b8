//! The table itself: groups of matches, the row under the cursor, the sort
//! order.
use vstd::prelude::*;
use crate::dir_stats::no_stats;
use crate::dir_stats::time_before;
use crate::dir_stats::DirStats;
use crate::dir_stats::StatsView;
use crate::lang::CommentedLang;
use crate::match_data::effective_group;
use crate::match_data::MatchData;
use crate::match_data::MatchDataView;
use crate::text::str_eq;
use crate::text::str_lt;
use crate::text::text_less;
use crate::text::views;
use crate::ui::model::group_lang;
use crate::ui::model::group_last_mod;
use crate::ui::model::group_size;
use crate::ui::model::Field;
use crate::ui::model::GroupRows;
use crate::ui::model::MatchDataUI;
use crate::ui::model::MatchDataUIStatus;
use crate::ui::model::MatchGroup;
use crate::ui::model::RowView;
use crate::views::each_view;

verus! {

/// The table of matches.
#[derive(Debug, Clone)]
pub struct TableData {
    /// Number that the next match gets.
    pub idx: usize,
    /// Position of the group under the cursor.
    pub selected_row: Option<usize>,
    /// The groups, in the order in which they are shown.
    pub data: Vec<MatchGroup>,
    /// The column that the table is sorted by.
    pub sort_by: Field,
    /// Whether small values come first.
    pub ascending: bool,
    /// The column under the cursor of the sort popup.
    pub selected: Field,
    /// Bytes that deleting every match would free, as far as sizes are
    /// known.
    pub cleanable_space: u128,
}

/// Mathematical value of a [`TableData`].
pub struct TableView {
    pub idx: int,
    pub selected_row: Option<int>,
    pub data: Seq<GroupRows>,
    pub sort_by: Field,
    pub ascending: bool,
    pub selected: Field,
    pub cleanable_space: int,
}

impl View for TableData {
    type V = TableView;

    open spec fn view(&self) -> TableView {
        TableView {
            idx: self.idx as int,
            selected_row: match self.selected_row {
                Some(i) => Some(i as int),
                None => None,
            },
            data: each_view(self.data@),
            sort_by: self.sort_by,
            ascending: self.ascending,
            selected: self.selected,
            cleanable_space: self.cleanable_space as int,
        }
    }
}

/// The table before any match has arrived: sorted by size, large groups
/// first.
pub open spec fn empty_table() -> TableView {
    TableView {
        idx: 0,
        selected_row: None,
        data: Seq::empty(),
        sort_by: Field::Size,
        ascending: false,
        selected: Field::Size,
        cleanable_space: 0,
    }
}

/// True if `a` may stand before `b` in a table sorted by `field` with small
/// values first.
pub open spec fn group_le(a: GroupRows, b: GroupRows, field: Field) -> bool {
    match field {
        Field::Path => !text_less(b.path, a.path),
        Field::Lang => !text_less(group_lang(b), group_lang(a)),
        Field::Size => group_size(a) <= group_size(b),
        Field::LastMod => !time_before(group_last_mod(b), group_last_mod(a)),
    }
}

/// Any two groups can be put in order.
pub proof fn group_le_total(a: GroupRows, b: GroupRows, field: Field)
    ensures
        group_le(a, b, field) || group_le(b, a, field),
{
    crate::text::text_less_total(a.path, b.path);
    crate::text::text_less_total(group_lang(a), group_lang(b));
}

/// The order of groups is transitive.
pub proof fn group_le_transitive(a: GroupRows, b: GroupRows, c: GroupRows, field: Field)
    requires
        group_le(a, b, field),
        group_le(b, c, field),
    ensures
        group_le(a, c, field),
{
    match field {
        Field::Path => {
            text_le_transitive(a.path, b.path, c.path);
        },
        Field::Lang => {
            text_le_transitive(group_lang(a), group_lang(b), group_lang(c));
        },
        _ => {},
    }
}

/// If `a` does not come after `b` and `b` not after `c`, then `a` does not
/// come after `c`.
pub proof fn text_le_transitive(a: Seq<char>, b: Seq<char>, c: Seq<char>)
    requires
        !text_less(b, a),
        !text_less(c, b),
    ensures
        !text_less(c, a),
{
    crate::text::text_less_total(a, b);
    crate::text::text_less_total(b, c);
    crate::text::text_less_total(a, c);
    crate::text::text_less_irreflexive(a);
    if text_less(c, a) {
        if a == b {
        } else {
            crate::text::text_less_transitive(a, b, c);
        }
    }
}

/// `sorted` with `x` put behind every group that may stand before it.
pub open spec fn insert_group(sorted: Seq<GroupRows>, x: GroupRows, field: Field) -> Seq<GroupRows>
    decreases sorted.len(),
{
    if sorted.len() == 0 {
        seq![x]
    } else if group_le(sorted.last(), x, field) {
        sorted.push(x)
    } else {
        insert_group(sorted.drop_last(), x, field).push(sorted.last())
    }
}

/// The first `n` of `groups` sorted by `field`, small values first, and
/// groups of equal value in the order in which they stood.
pub open spec fn sorted_groups(groups: Seq<GroupRows>, field: Field, n: int) -> Seq<GroupRows>
    decreases n,
{
    if n <= 0 || n > groups.len() {
        Seq::empty()
    } else {
        insert_group(sorted_groups(groups, field, n - 1), groups[n - 1], field)
    }
}

/// True if every group of `s` may stand before every group behind it.
pub open spec fn is_sorted(s: Seq<GroupRows>, field: Field) -> bool {
    forall|i: int, j: int| 0 <= i <= j < s.len() ==> group_le(#[trigger] s[i], #[trigger] s[j], field)
}

/// Putting a group into a sorted sequence keeps it sorted and adds just
/// that group.
pub proof fn insert_group_sorted(sorted: Seq<GroupRows>, x: GroupRows, field: Field)
    requires
        is_sorted(sorted, field),
    ensures
        is_sorted(insert_group(sorted, x, field), field),
        insert_group(sorted, x, field).to_multiset() == sorted.to_multiset().insert(x),
        insert_group(sorted, x, field).len() == sorted.len() + 1,
    decreases sorted.len(),
{
    broadcast use vstd::seq_lib::group_to_multiset_ensures;

    let r = insert_group(sorted, x, field);
    if sorted.len() == 0 {
        group_le_total(x, x, field);
    } else if group_le(sorted.last(), x, field) {
        group_le_total(x, x, field);
        assert forall|i: int, j: int| 0 <= i <= j < r.len() implies group_le(
            #[trigger] r[i],
            #[trigger] r[j],
            field,
        ) by {
            if j < sorted.len() {
            } else if i < sorted.len() {
                group_le_transitive(sorted[i], sorted.last(), x, field);
            }
        }
    } else {
        let head = sorted.drop_last();
        let last = sorted.last();
        insert_group_sorted(head, x, field);
        let inner = insert_group(head, x, field);
        group_le_total(last, x, field);
        group_le_total(last, last, field);
        assert forall|i: int, j: int| 0 <= i <= j < r.len() implies group_le(
            #[trigger] r[i],
            #[trigger] r[j],
            field,
        ) by {
            if j < inner.len() {
            } else if i < inner.len() {
                // every group of `inner` is `x` or a group of `head`
                assert(inner.to_multiset().count(inner[i]) > 0);
                if inner[i] == x {
                } else {
                    let k = choose|k: int| 0 <= k < head.len() && head[k] == inner[i];
                }
            }
        }
        assert(sorted =~= head.push(last));
    }
}

/// Sorting yields a sorted sequence of the same groups.
pub proof fn sorted_groups_sorted(groups: Seq<GroupRows>, field: Field, n: int)
    requires
        0 <= n <= groups.len(),
    ensures
        is_sorted(sorted_groups(groups, field, n), field),
        sorted_groups(groups, field, n).to_multiset() == groups.take(n).to_multiset(),
        sorted_groups(groups, field, n).len() == n,
    decreases n,
{
    broadcast use vstd::seq_lib::group_to_multiset_ensures;

    if n > 0 {
        sorted_groups_sorted(groups, field, n - 1);
        insert_group_sorted(sorted_groups(groups, field, n - 1), groups[n - 1], field);
        assert(groups.take(n) =~= groups.take(n - 1).push(groups[n - 1]));
    }
}

/// The groups in the order in which the table shows them.
pub open spec fn shown_order(groups: Seq<GroupRows>, field: Field, ascending: bool) -> Seq<
    GroupRows,
> {
    let sorted = sorted_groups(groups, field, groups.len() as int);
    if ascending {
        sorted
    } else {
        sorted.reverse()
    }
}

/// Position of the first group at or after `from` that is shown under
/// `path`.
pub open spec fn position_of(groups: Seq<GroupRows>, path: Seq<char>, from: int) -> Option<int>
    decreases groups.len() - from,
{
    if from < 0 || from >= groups.len() {
        None
    } else if groups[from].path == path {
        Some(from)
    } else {
        position_of(groups, path, from + 1)
    }
}

/// The table after it was put in order. The cursor stays on the group it
/// was on; a table without a cursor gets it on the first row, if there is
/// one.
pub open spec fn sorted_table(t: TableView) -> TableView {
    let data = shown_order(t.data, t.sort_by, t.ascending);
    let cursor = match t.selected_row {
        Some(i) => if 0 <= i < t.data.len() {
            match position_of(data, t.data[i].path, 0) {
                Some(j) => Some(j),
                None => Some(i),
            }
        } else {
            first_row(data)
        },
        None => first_row(data),
    };
    TableView { data, selected_row: cursor, ..t }
}

/// The first row of a table, if it has one.
pub open spec fn first_row(data: Seq<GroupRows>) -> Option<int> {
    if data.len() > 0 {
        Some(0)
    } else {
        None
    }
}

/// The row that a match becomes when it arrives as number `idx`.
pub open spec fn row_of(m: MatchDataView, idx: int) -> RowView {
    RowView { idx, path: m.path, stats: no_stats(), lang: m.params.languages }
}

/// The table after the match `m` arrived: it joins the group of its
/// directory, or starts a new group, after which the table is put in order.
pub open spec fn with_added(t: TableView, m: MatchDataView) -> TableView {
    let row = row_of(m, t.idx);
    let path = effective_group(m);
    match position_of(t.data, path, 0) {
        Some(i) => TableView {
            idx: t.idx + 1,
            data: t.data.update(
                i,
                GroupRows {
                    dangerous: t.data[i].dangerous || m.dangerous,
                    matches: t.data[i].matches.push(row),
                    ..t.data[i]
                },
            ),
            ..t
        },
        None => sorted_table(
            TableView {
                idx: t.idx + 1,
                data: t.data.push(
                    GroupRows {
                        dangerous: m.dangerous,
                        path,
                        status: MatchDataUIStatus::Found,
                        matches: seq![row],
                    },
                ),
                ..t
            },
        ),
    }
}

/// Position of the first row at or after `from` with the number `idx`.
pub open spec fn row_position(rows: Seq<RowView>, idx: int, from: int) -> Option<int>
    decreases rows.len() - from,
{
    if from < 0 || from >= rows.len() {
        None
    } else if rows[from].idx == idx {
        Some(from)
    } else {
        row_position(rows, idx, from + 1)
    }
}

/// Position of the first group at or after `from` that holds a row with the
/// number `idx`.
pub open spec fn holder_of(groups: Seq<GroupRows>, idx: int, from: int) -> Option<int>
    decreases groups.len() - from,
{
    if from < 0 || from >= groups.len() {
        None
    } else if row_position(groups[from].matches, idx, 0) is Some {
        Some(from)
    } else {
        holder_of(groups, idx, from + 1)
    }
}

/// `a + b`, held at the largest `u128`.
pub open spec fn capped_sum(a: int, b: int) -> int {
    if a + b > u128::MAX {
        u128::MAX as int
    } else {
        a + b
    }
}

/// The table after the statistics of the match with the number `idx`
/// arrived. A number that no match has changes nothing.
pub open spec fn with_stats(t: TableView, idx: int, stats: StatsView) -> TableView {
    match holder_of(t.data, idx, 0) {
        Some(g) => {
            let r = row_position(t.data[g].matches, idx, 0).unwrap();
            TableView {
                data: t.data.update(
                    g,
                    GroupRows {
                        matches: t.data[g].matches.update(
                            r,
                            RowView { stats, ..t.data[g].matches[r] },
                        ),
                        ..t.data[g]
                    },
                ),
                cleanable_space: match stats.size {
                    Some(bytes) => capped_sum(t.cleanable_space, bytes),
                    None => t.cleanable_space,
                },
                ..t
            }
        },
        None => t,
    }
}

/// The status after the user toggled it.
pub open spec fn toggled(status: MatchDataUIStatus) -> MatchDataUIStatus {
    match status {
        MatchDataUIStatus::Found => MatchDataUIStatus::Selected,
        MatchDataUIStatus::Selected => MatchDataUIStatus::Found,
    }
}

/// The table after the user toggled the selection of the group under the
/// cursor.
pub open spec fn with_toggled(t: TableView) -> TableView {
    match t.selected_row {
        Some(i) => if 0 <= i < t.data.len() {
            TableView {
                data: t.data.update(i, GroupRows { status: toggled(t.data[i].status), ..t.data[i] }),
                ..t
            }
        } else {
            t
        },
        None => t,
    }
}

/// Whether the group under the cursor is selected.
pub open spec fn cursor_selected(t: TableView) -> bool {
    match t.selected_row {
        Some(i) => 0 <= i < t.data.len() && t.data[i].status == MatchDataUIStatus::Selected,
        None => false,
    }
}

/// Whether any group is selected.
pub open spec fn any_selected(t: TableView) -> bool {
    exists|i: int| 0 <= i < t.data.len() && (#[trigger] t.data[i]).status == MatchDataUIStatus::Selected
}

/// The paths of the first `n` of `rows`.
pub open spec fn row_paths(rows: Seq<RowView>, n: int) -> Seq<Seq<char>>
    decreases n,
{
    if n <= 0 || n > rows.len() {
        Seq::empty()
    } else {
        row_paths(rows, n - 1).push(rows[n - 1].path)
    }
}

/// The paths of the matches of the selected groups among the first `n`
/// groups, in the order of the table.
pub open spec fn selected_paths(groups: Seq<GroupRows>, n: int) -> Seq<Seq<char>>
    decreases n,
{
    if n <= 0 || n > groups.len() {
        Seq::empty()
    } else {
        let before = selected_paths(groups, n - 1);
        let g = groups[n - 1];
        if g.status == MatchDataUIStatus::Selected {
            before + row_paths(g.matches, g.matches.len() as int)
        } else {
            before
        }
    }
}

/// Bytes that deleting the selected groups among the first `n` groups would
/// free, as far as sizes are known; held at the largest `u128`.
pub open spec fn selected_bytes(groups: Seq<GroupRows>, n: int) -> int
    decreases n,
{
    if n <= 0 || n > groups.len() {
        0
    } else {
        let before = selected_bytes(groups, n - 1);
        let g = groups[n - 1];
        if g.status == MatchDataUIStatus::Selected {
            capped_sum(before, group_size(g))
        } else {
            before
        }
    }
}

/// The column to the left of `f` in the sort popup.
pub open spec fn left_of(f: Field) -> Field {
    match f {
        Field::Lang => Field::Size,
        Field::Path => Field::Lang,
        Field::LastMod => Field::Path,
        Field::Size => Field::LastMod,
    }
}

/// The column to the right of `f` in the sort popup.
pub open spec fn right_of(f: Field) -> Field {
    match f {
        Field::Lang => Field::Path,
        Field::Path => Field::LastMod,
        Field::LastMod => Field::Size,
        Field::Size => Field::Lang,
    }
}

/// The table after the user chose the column under the cursor of the sort
/// popup: choosing the column that the table is sorted by turns the order
/// round; another column is sorted with large values first.
pub open spec fn with_sort_toggled(t: TableView) -> TableView {
    if t.selected == t.sort_by {
        sorted_table(TableView { ascending: !t.ascending, ..t })
    } else {
        sorted_table(TableView { sort_by: t.selected, ascending: false, ..t })
    }
}

/// Tells whether `a` may stand before `b`.
fn may_precede(a: &MatchGroup, b: &MatchGroup, field: Field) -> (r: bool)
    ensures
        r == group_le(a@, b@, field),
{
    match field {
        Field::Path => !str_lt(b.group_path.as_str(), a.group_path.as_str()),
        Field::Lang => {
            let x = a.lang();
            let y = b.lang();
            !str_lt(y.as_str(), x.as_str())
        },
        Field::Size => a.size() <= b.size(),
        Field::LastMod => {
            let x = a.last_mod();
            let y = b.last_mod();
            !y.is_before(&x)
        },
    }
}

/// Puts `x` in its place among `sorted`.
fn insert_sorted(sorted: &mut Vec<MatchGroup>, x: MatchGroup, field: Field)
    ensures
        each_view(final(sorted)@) == insert_group(each_view(old(sorted)@), x@, field),
{
    let ghost start = each_view(sorted@);
    let mut at: usize = sorted.len();
    let mut found = false;
    proof {
        assert(start.take(at as int) =~= start);
    }
    while at > 0 && !found
        invariant
            at <= sorted.len(),
            sorted@ == old(sorted)@,
            start == each_view(sorted@),
            insert_group(start, x@, field) == insert_group(start.take(at as int), x@, field)
                + start.skip(at as int),
            found ==> at > 0 && group_le(start[at - 1], x@, field),
        decreases at + (if found { 0int } else { 1int }),
    {
        proof {
            let head = start.take(at as int);
            assert(head.drop_last() =~= start.take(at - 1));
        }
        if may_precede(&sorted[at - 1], &x, field) {
            found = true;
        } else {
            proof {
                let head = start.take(at as int);
            }
            at -= 1;
        }
    }
    proof {
        let head = start.take(at as int);
    }
    sorted.insert(at, x);
}

/// The groups in reverse order.
fn reversed(groups: Vec<MatchGroup>) -> (r: Vec<MatchGroup>)
    ensures
        each_view(r@) == each_view(groups@).reverse(),
{
    let ghost all = each_view(groups@);
    let mut rest = groups;
    let mut out: Vec<MatchGroup> = Vec::new();
    while rest.len() > 0
        invariant
            rest@.len() + out@.len() == all.len(),
            each_view(rest@) == all.take(rest@.len() as int),
            forall|j: int| 0 <= j < out@.len() ==> (#[trigger] out@[j])@ == all[all.len() - 1 - j],
        decreases rest.len(),
    {
        let ghost prev = rest@;
        let g = rest.pop().unwrap();
        proof {
            assert(each_view(prev)[prev.len() - 1] == g@);
        }
        out.push(g);
    }
    out
}

/// Finds the first group that is shown under `path`.
fn find_group(groups: &Vec<MatchGroup>, path: &str) -> (r: Option<usize>)
    ensures
        match r {
            Some(i) => position_of(each_view(groups@), path@, 0) == Some(i as int) && i
                < groups@.len(),
            None => position_of(each_view(groups@), path@, 0) is None,
        },
{
    let mut i: usize = 0;
    while i < groups.len()
        invariant
            i <= groups.len(),
            position_of(each_view(groups@), path@, 0) == position_of(
                each_view(groups@),
                path@,
                i as int,
            ),
        decreases groups.len() - i,
    {
        if str_eq(groups[i].group_path.as_str(), path) {
            return Some(i);
        }
        i += 1;
    }
    None
}

/// Finds the first row with the number `idx`.
fn find_row(rows: &Vec<MatchDataUI>, idx: usize) -> (r: Option<usize>)
    ensures
        match r {
            Some(i) => row_position(each_view(rows@), idx as int, 0) == Some(i as int) && i
                < rows@.len(),
            None => row_position(each_view(rows@), idx as int, 0) is None,
        },
{
    let mut i: usize = 0;
    while i < rows.len()
        invariant
            i <= rows.len(),
            row_position(each_view(rows@), idx as int, 0) == row_position(
                each_view(rows@),
                idx as int,
                i as int,
            ),
        decreases rows.len() - i,
    {
        if rows[i].idx == idx {
            return Some(i);
        }
        i += 1;
    }
    None
}

/// `a + b`, held at the largest `u128`.
fn add_capped(a: u128, b: u128) -> (r: u128)
    ensures
        r == capped_sum(a as int, b as int),
{
    if a > u128::MAX - b {
        u128::MAX
    } else {
        a + b
    }
}

impl TableData {
    /// The table before any match has arrived.
    pub fn new() -> (t: Self)
        ensures
            t@ == empty_table(),
    {
        let t = TableData {
            idx: 0,
            selected_row: None,
            data: Vec::new(),
            sort_by: Field::Size,
            ascending: false,
            selected: Field::Size,
            cleanable_space: 0,
        };
        assert(t@.data =~= Seq::<GroupRows>::empty());
        t
    }

    /// Puts the groups in the order of the column that the table is sorted
    /// by. Groups of equal value keep their order, or swap it where large
    /// values come first.
    pub fn sort(&mut self)
        ensures
            final(self)@ == sorted_table(old(self)@),
    {
        let cursor_path: Option<String> = match self.selected_row {
            Some(i) => if i < self.data.len() {
                Some(self.data[i].group_path.clone())
            } else {
                None
            },
            None => None,
        };
        let mut rest: Vec<MatchGroup> = Vec::new();
        core::mem::swap(&mut rest, &mut self.data);
        let ghost all = each_view(rest@);
        let mut out: Vec<MatchGroup> = Vec::new();
        let field = self.sort_by;
        while rest.len() > 0
            invariant
                rest@.len() + out@.len() == all.len(),
                each_view(rest@) == all.skip(out@.len() as int),
                each_view(out@) == sorted_groups(all, field, out@.len() as int),
            decreases rest.len(),
        {
            let ghost done = out@.len() as int;
            let ghost prev = rest@;
            let x = rest.remove(0);
            proof {
                assert(each_view(prev)[0] == x@);
                assert forall|k: int| 0 <= k < rest@.len() implies each_view(rest@)[k] == all.skip(
                    done + 1,
                )[k] by {
                    assert(each_view(prev)[k + 1] == all.skip(done)[k + 1]);
                }
            }
            insert_sorted(&mut out, x, field);
            proof {
                sorted_groups_sorted(all, field, done);
                insert_group_sorted(sorted_groups(all, field, done), all[done], field);
            }
        }
        let shown = if self.ascending {
            out
        } else {
            reversed(out)
        };
        self.selected_row = match cursor_path {
            Some(path) => match find_group(&shown, path.as_str()) {
                Some(j) => Some(j),
                None => self.selected_row,
            },
            None => if shown.len() > 0 {
                Some(0)
            } else {
                None
            },
        };
        self.data = shown;
    }

    /// Takes in a match that the scanner found.
    pub fn add_match(&mut self, data: MatchData)
        requires
            old(self).idx < usize::MAX,
        ensures
            final(self)@ == with_added(old(self)@, data@),
    {
        let reasons = data.languages();
        let mut lang: Vec<CommentedLang> = Vec::new();
        let mut k: usize = 0;
        while k < reasons.len()
            invariant
                k <= reasons.len(),
                each_view(lang@) == each_view(reasons@).take(k as int),
            decreases reasons.len() - k,
        {
            let ghost prev = lang@;
            lang.push(reasons[k].duplicate());
            proof {
                assert(each_view(lang@) =~= each_view(prev).push(reasons@[k as int]@));
            }
            k += 1;
        }
        proof {
            assert(each_view(reasons@).take(k as int) =~= each_view(reasons@));
        }
        let row = MatchDataUI {
            idx: self.idx,
            path: data.path().to_owned(),
            dir_stats: DirStats::empty(),
            lang,
        };
        self.idx = self.idx + 1;
        let group = data.group().to_owned();
        match find_group(&self.data, group.as_str()) {
            Some(i) => {
                let ghost before = self.data@;
                let flag = self.data[i].dangerous || data.dangerous();
                self.data[i].dangerous = flag;
                self.data[i].matches.push(row);
                proof {
                    assert(self.data@[i as int]@.matches =~= each_view(before)[i as int].matches.push(
                        row@,
                    ));
                    assert(each_view(self.data@) =~= each_view(before).update(
                        i as int,
                        self.data@[i as int]@,
                    ));
                }
            },
            None => {
                let mut matches: Vec<MatchDataUI> = Vec::new();
                matches.push(row);
                let fresh = MatchGroup {
                    dangerous: data.dangerous(),
                    group_path: group,
                    status: MatchDataUIStatus::Found,
                    matches,
                };
                let ghost before = self.data@;
                proof {
                    assert(fresh@.matches =~= seq![row@]);
                }
                self.data.push(fresh);
                proof {
                    assert(each_view(self.data@) =~= each_view(before).push(fresh@));
                }
                self.sort();
            },
        }
    }

    /// Takes in the statistics of the match with the number `idx`, and
    /// tells whether they brought a size for a match of the table.
    pub fn update_match(&mut self, idx: usize, data: DirStats) -> (r: bool)
        ensures
            final(self)@ == with_stats(old(self)@, idx as int, data@),
            r == (holder_of(old(self)@.data, idx as int, 0) is Some && data.size is Some),
    {
        let ghost groups = each_view(self.data@);
        let mut g: usize = 0;
        while g < self.data.len()
            invariant
                g <= self.data.len(),
                *self == *old(self),
                groups == each_view(self.data@),
                holder_of(groups, idx as int, 0) == holder_of(groups, idx as int, g as int),
            decreases self.data.len() - g,
        {
            match find_row(&self.data[g].matches, idx) {
                Some(r) => {
                    self.data[g].matches[r].dir_stats = data;
                    proof {
                        assert(self.data@[g as int]@.matches =~= groups[g as int].matches.update(
                            r as int,
                            RowView { stats: data@, ..groups[g as int].matches[r as int] },
                        ));
                        assert(each_view(self.data@) =~= groups.update(
                            g as int,
                            self.data@[g as int]@,
                        ));
                    }
                    match data.size {
                        Some(bytes) => {
                            self.cleanable_space = add_capped(self.cleanable_space, bytes as u128);
                            return true;
                        },
                        None => {
                            return false;
                        },
                    }
                },
                None => {},
            }
            g += 1;
        }
        false
    }

    /// Chooses the column under the cursor of the sort popup.
    pub fn sort_toggle(&mut self)
        ensures
            final(self)@ == with_sort_toggled(old(self)@),
    {
        if self.selected == self.sort_by {
            self.ascending = !self.ascending;
        } else {
            self.sort_by = self.selected;
            self.ascending = false;
        }
        self.sort();
    }

    /// Moves the cursor of the sort popup one column to the left.
    pub fn sort_left(&mut self)
        ensures
            final(self)@ == (TableView { selected: left_of(old(self)@.selected), ..old(self)@ }),
    {
        self.selected = match self.selected {
            Field::Lang => Field::Size,
            Field::Path => Field::Lang,
            Field::LastMod => Field::Path,
            Field::Size => Field::LastMod,
        };
    }

    /// Moves the cursor of the sort popup one column to the right.
    pub fn sort_right(&mut self)
        ensures
            final(self)@ == (TableView { selected: right_of(old(self)@.selected), ..old(self)@ }),
    {
        self.selected = match self.selected {
            Field::Lang => Field::Path,
            Field::Path => Field::LastMod,
            Field::LastMod => Field::Size,
            Field::Size => Field::Lang,
        };
    }

    /// The first group that is shown under `path`.
    pub fn get_by_path(&self, path: &str) -> (r: Option<&MatchGroup>)
        ensures
            match r {
                Some(g) => position_of(self@.data, path@, 0) matches Some(i) && g@ == self@.data[i],
                None => position_of(self@.data, path@, 0) is None,
            },
    {
        match find_group(&self.data, path) {
            Some(i) => Some(&self.data[i]),
            None => None,
        }
    }

    /// Selects the group under the cursor for deletion, or takes the
    /// selection back.
    pub fn toggle_select(&mut self)
        ensures
            final(self)@ == with_toggled(old(self)@),
    {
        match self.selected_row {
            Some(i) => if i < self.data.len() {
                let ghost before = self.data@;
                let next = match self.data[i].status {
                    MatchDataUIStatus::Found => MatchDataUIStatus::Selected,
                    MatchDataUIStatus::Selected => MatchDataUIStatus::Found,
                };
                self.data[i].status = next;
                proof {
                    assert(each_view(self.data@) =~= each_view(before).update(
                        i as int,
                        self.data@[i as int]@,
                    ));
                }
            },
            None => {},
        }
    }

    /// Tells whether the group under the cursor is selected.
    pub fn is_selected(&self) -> (r: bool)
        ensures
            r == cursor_selected(self@),
    {
        match self.selected_row {
            Some(i) => i < self.data.len() && self.data[i].status == MatchDataUIStatus::Selected,
            None => false,
        }
    }

    /// Tells whether any group is selected.
    pub fn is_any_selected(&self) -> (r: bool)
        ensures
            r == any_selected(self@),
    {
        let mut i: usize = 0;
        while i < self.data.len()
            invariant
                i <= self.data.len(),
                forall|j: int|
                    0 <= j < i ==> (#[trigger] self@.data[j]).status != MatchDataUIStatus::Selected,
            decreases self.data.len() - i,
        {
            if self.data[i].status == MatchDataUIStatus::Selected {
                assert(self@.data[i as int].status == MatchDataUIStatus::Selected);
                return true;
            }
            i += 1;
        }
        false
    }

    /// The paths of the matches of all selected groups, in the order of the
    /// table.
    pub fn get_selected_path(&self) -> (r: Vec<String>)
        ensures
            views(r@) == selected_paths(self@.data, self@.data.len() as int),
    {
        let ghost groups = self@.data;
        let mut out: Vec<String> = Vec::new();
        let mut i: usize = 0;
        while i < self.data.len()
            invariant
                i <= self.data.len(),
                groups == self@.data,
                views(out@) == selected_paths(groups, i as int),
            decreases self.data.len() - i,
        {
            let g = &self.data[i];
            if g.status == MatchDataUIStatus::Selected {
                let ghost start = views(out@);
                let ghost rows = each_view(g.matches@);
                let mut j: usize = 0;
                while j < g.matches.len()
                    invariant
                        j <= g.matches.len(),
                        rows == each_view(g.matches@),
                        views(out@) == start + row_paths(rows, j as int),
                    decreases g.matches.len() - j,
                {
                    let ghost prev = out@;
                    out.push(g.matches[j].path.clone());
                    proof {
                        assert(views(out@) =~= views(prev).push(g.matches@[j as int].path@));
                    }
                    j += 1;
                }
            }
            i += 1;
        }
        out
    }

    /// Bytes that deleting every match would free, as far as sizes are
    /// known.
    pub fn cleanable_space(&self) -> (r: u128)
        ensures
            r == self@.cleanable_space,
    {
        self.cleanable_space
    }

    /// Bytes that deleting the selected groups would free, as far as sizes
    /// are known.
    pub fn selected_space(&self) -> (r: u128)
        ensures
            r == selected_bytes(self@.data, self@.data.len() as int),
    {
        let mut total: u128 = 0;
        let mut i: usize = 0;
        while i < self.data.len()
            invariant
                i <= self.data.len(),
                total == selected_bytes(self@.data, i as int),
            decreases self.data.len() - i,
        {
            let g = &self.data[i];
            if g.status == MatchDataUIStatus::Selected {
                total = add_capped(total, g.size());
            }
            i += 1;
        }
        total
    }
}

impl Default for TableData {
    fn default() -> (t: Self)
        ensures
            t@ == empty_table(),
    {
        TableData::new()
    }
}

} // verus!
