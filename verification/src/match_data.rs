//! What heuristics say about one entry, and the record that is emitted for a
//! match.
use vstd::prelude::*;
use crate::lang::CommentedLang;
use crate::lang::CommentedLangView;
use crate::views::each_view;

verus! {

/// Weight of a match whose heuristic set none.
pub const DEFAULT_WEIGHT: i32 = 1000;

/// Verdict on replacing the default group of a match.
#[derive(Debug, Clone)]
pub enum GroupOverride {
    /// No heuristic asked for another group.
    Unset,
    /// One group was asked for, perhaps several times.
    Override(String),
    /// Different groups were asked for; the default group is used.
    Conflict,
}

/// Mathematical value of a [`GroupOverride`].
pub enum GroupView {
    Unset,
    Override(Seq<char>),
    Conflict,
}

impl View for GroupOverride {
    type V = GroupView;

    open spec fn view(&self) -> GroupView {
        match self {
            GroupOverride::Unset => GroupView::Unset,
            GroupOverride::Override(p) => GroupView::Override(p@),
            GroupOverride::Conflict => GroupView::Conflict,
        }
    }
}

/// How two verdicts on the group combine: `Unset` yields to the other side,
/// equal overrides stay, anything else is a conflict.
pub open spec fn combine_groups(a: GroupView, b: GroupView) -> GroupView {
    match (a, b) {
        (GroupView::Unset, other) => other,
        (other, GroupView::Unset) => other,
        (GroupView::Override(p), GroupView::Override(q)) => if p == q {
            GroupView::Override(p)
        } else {
            GroupView::Conflict
        },
        _ => GroupView::Conflict,
    }
}

impl GroupOverride {
    /// Combines two verdicts.
    pub fn add(self, rhs: Self) -> (r: Self)
        ensures
            r@ == combine_groups(self@, rhs@),
    {
        match (self, rhs) {
            (GroupOverride::Unset, other) => other,
            (other, GroupOverride::Unset) => other,
            (GroupOverride::Override(p), GroupOverride::Override(q)) => if p == q {
                GroupOverride::Override(p)
            } else {
                GroupOverride::Conflict
            },
            _ => GroupOverride::Conflict,
        }
    }

    /// A copy of this verdict.
    pub fn duplicate(&self) -> (r: Self)
        ensures
            r@ == self@,
    {
        match self {
            GroupOverride::Unset => GroupOverride::Unset,
            GroupOverride::Override(p) => GroupOverride::Override(p.clone()),
            GroupOverride::Conflict => GroupOverride::Conflict,
        }
    }
}

impl Default for GroupOverride {
    fn default() -> (r: Self)
        ensures
            r@ == GroupView::Unset,
    {
        GroupOverride::Unset
    }
}

/// Combining a verdict with an equal one changes nothing.
pub proof fn group_combine_idempotent(a: GroupView)
    ensures
        combine_groups(a, a) == a,
{
}

/// `Unset` on either side yields the other side.
pub proof fn group_combine_absorbs_unset(a: GroupView)
    ensures
        combine_groups(GroupView::Unset, a) == a,
        combine_groups(a, GroupView::Unset) == a,
{
}

/// Two overrides that name different groups conflict.
pub proof fn group_combine_unequal_conflicts(p: Seq<char>, q: Seq<char>)
    requires
        p != q,
    ensures
        combine_groups(GroupView::Override(p), GroupView::Override(q)) == GroupView::Conflict,
{
}

/// A conflict stays a conflict whatever it is combined with.
pub proof fn group_combine_conflict_absorbing(a: GroupView)
    ensures
        combine_groups(GroupView::Conflict, a) == GroupView::Conflict,
        combine_groups(a, GroupView::Conflict) == GroupView::Conflict,
{
}

/// The order of the two sides does not matter.
pub proof fn group_combine_commutative(a: GroupView, b: GroupView)
    ensures
        combine_groups(a, b) == combine_groups(b, a),
{
}

/// Combining is associative.
pub proof fn group_combine_associative(a: GroupView, b: GroupView, c: GroupView)
    ensures
        combine_groups(combine_groups(a, b), c) == combine_groups(a, combine_groups(b, c)),
{
}

/// What one heuristic says about one entry; also the sum of several such
/// statements.
#[derive(Debug, Clone)]
pub struct MatchParameters {
    /// Strength and polarity of the match.
    pub weight: i32,
    /// Reasons for the match, in the order in which they were given.
    pub languages: Vec<CommentedLang>,
    /// Whether the default group is to be replaced.
    pub group_override: GroupOverride,
    /// In a statement of a heuristic: whether it holds the entry for a
    /// system path. In an emitted record: whether the match lies under a
    /// path that was marked as dangerous.
    pub dangerous: bool,
    /// Set by a heuristic that holds the entry for a hidden one.
    pub hidden: bool,
}

/// Mathematical value of a [`MatchParameters`]. The weight is an unbounded
/// integer, so that sums of any length can be spoken of.
pub struct ParamsView {
    pub weight: int,
    pub languages: Seq<CommentedLangView>,
    pub group_override: GroupView,
    pub dangerous: bool,
    pub hidden: bool,
}

impl View for MatchParameters {
    type V = ParamsView;

    open spec fn view(&self) -> ParamsView {
        ParamsView {
            weight: self.weight as int,
            languages: each_view(self.languages@),
            group_override: self.group_override@,
            dangerous: self.dangerous,
            hidden: self.hidden,
        }
    }
}

/// The parameters that say nothing: the neutral element of the sum.
pub open spec fn no_params() -> ParamsView {
    ParamsView {
        weight: 0,
        languages: Seq::empty(),
        group_override: GroupView::Unset,
        dangerous: false,
        hidden: false,
    }
}

/// The parameters of a fresh match: the default weight and one reason.
pub open spec fn fresh_params(lang: CommentedLangView) -> ParamsView {
    ParamsView {
        weight: DEFAULT_WEIGHT as int,
        languages: seq![lang],
        group_override: GroupView::Unset,
        dangerous: false,
        hidden: false,
    }
}

/// Sum of two statements: weights add, reasons concatenate left to right,
/// group verdicts combine, and a flag is set if either side set it.
pub open spec fn add_params(a: ParamsView, b: ParamsView) -> ParamsView {
    ParamsView {
        weight: a.weight + b.weight,
        languages: a.languages + b.languages,
        group_override: combine_groups(a.group_override, b.group_override),
        dangerous: a.dangerous || b.dangerous,
        hidden: a.hidden || b.hidden,
    }
}

/// Sum of a list of statements, from the left, starting at [`no_params`].
pub open spec fn sum_params(s: Seq<ParamsView>) -> ParamsView
    decreases s.len(),
{
    if s.len() == 0 {
        no_params()
    } else {
        add_params(sum_params(s.drop_last()), s.last())
    }
}

/// `w` held to the range of `i32`.
pub open spec fn clamp_weight(w: int) -> int {
    if w > i32::MAX {
        i32::MAX as int
    } else if w < i32::MIN {
        i32::MIN as int
    } else {
        w
    }
}

/// `p` with its weight held to the range of `i32`.
pub open spec fn clamp_params(p: ParamsView) -> ParamsView {
    ParamsView { weight: clamp_weight(p.weight), ..p }
}

/// The sum is associative.
pub proof fn add_params_associative(a: ParamsView, b: ParamsView, c: ParamsView)
    ensures
        add_params(add_params(a, b), c) == add_params(a, add_params(b, c)),
{
    assert((a.languages + b.languages) + c.languages =~= a.languages + (b.languages
        + c.languages));
}

/// Swapping the two sides keeps the weight, the group verdict and the flags,
/// and keeps the reasons up to their order.
pub proof fn add_params_commutative(a: ParamsView, b: ParamsView)
    ensures
        add_params(a, b).weight == add_params(b, a).weight,
        add_params(a, b).group_override == add_params(b, a).group_override,
        add_params(a, b).dangerous == add_params(b, a).dangerous,
        add_params(a, b).hidden == add_params(b, a).hidden,
        add_params(a, b).languages.to_multiset() == add_params(b, a).languages.to_multiset(),
{
    vstd::seq_lib::lemma_multiset_commutative(a.languages, b.languages);
    vstd::seq_lib::lemma_multiset_commutative(b.languages, a.languages);
}

/// The reasons of a sum are those of the left side followed by those of the
/// right side.
pub proof fn add_params_keeps_order(a: ParamsView, b: ParamsView)
    ensures
        add_params(a, b).languages == a.languages + b.languages,
{
}

/// The sum of a list with one more statement at its end.
pub proof fn sum_params_push(s: Seq<ParamsView>, p: ParamsView)
    ensures
        sum_params(s.push(p)) == add_params(sum_params(s), p),
{
    assert(s.push(p).drop_last() =~= s);
}

/// The weight of a sum of `n` statements of `i32` weights lies within `n`
/// times the range of `i32`.
pub proof fn sum_params_weight_bound(s: Seq<ParamsView>)
    requires
        forall|i: int| 0 <= i < s.len() ==> i32::MIN <= (#[trigger] s[i]).weight <= i32::MAX,
    ensures
        s.len() * (i32::MIN as int) <= sum_params(s).weight <= s.len() * (i32::MAX as int),
    decreases s.len(),
{
    if s.len() > 0 {
        sum_params_weight_bound(s.drop_last());
    }
}

impl MatchParameters {
    /// Weight of a match whose heuristic set none.
    pub const DEFAULT_WEIGHT: i32 = 1000;

    /// Parameters of a fresh match with one reason.
    pub fn new(lang: CommentedLang) -> (r: Self)
        ensures
            r@ == fresh_params(lang@),
    {
        let mut languages: Vec<CommentedLang> = Vec::new();
        languages.push(lang);
        let r = MatchParameters {
            weight: DEFAULT_WEIGHT,
            languages,
            group_override: GroupOverride::Unset,
            dangerous: false,
            hidden: false,
        };
        assert(r@.languages =~= seq![lang@]);
        r
    }

    /// Parameters that say nothing.
    pub fn empty() -> (r: Self)
        ensures
            r@ == no_params(),
    {
        let r = MatchParameters {
            weight: 0,
            languages: Vec::new(),
            group_override: GroupOverride::Unset,
            dangerous: false,
            hidden: false,
        };
        assert(r@.languages =~= Seq::<CommentedLangView>::empty());
        r
    }

    /// Sets the weight. A negative weight speaks against the entry.
    pub fn weight(&mut self, weight: i32) -> (r: &mut Self)
        ensures
            r@ == (ParamsView { weight: weight as int, ..old(self)@ }),
            *final(self) == *final(r),
    {
        self.weight = weight;
        self
    }

    /// Asks for `group` in place of the default group. The request is dropped
    /// if another heuristic asks for a different group.
    pub fn custom_group(&mut self, group: String) -> (r: &mut Self)
        ensures
            r@ == (ParamsView { group_override: GroupView::Override(group@), ..old(self)@ }),
            *final(self) == *final(r),
    {
        self.group_override = GroupOverride::Override(group);
        self
    }

    /// Marks the entry as a system path.
    pub fn dangerous(&mut self) -> (r: &mut Self)
        ensures
            r@ == (ParamsView { dangerous: true, ..old(self)@ }),
            *final(self) == *final(r),
    {
        self.dangerous = true;
        self
    }

    /// Marks the entry as hidden.
    pub fn hidden(&mut self) -> (r: &mut Self)
        ensures
            r@ == (ParamsView { hidden: true, ..old(self)@ }),
            *final(self) == *final(r),
    {
        self.hidden = true;
        self
    }

    /// Sum of two statements.
    pub fn add(self, rhs: Self) -> (r: Self)
        requires
            i32::MIN <= self.weight + rhs.weight <= i32::MAX,
        ensures
            r@ == add_params(self@, rhs@),
    {
        let mut out = self;
        let mut rest = rhs;
        let ghost left = out.languages@;
        let ghost right = rest.languages@;
        out.weight = out.weight + rest.weight;
        out.languages.append(&mut rest.languages);
        out.group_override = out.group_override.add(rest.group_override);
        out.dangerous = out.dangerous || rest.dangerous;
        out.hidden = out.hidden || rest.hidden;
        proof {
            crate::views::each_view_concat(left, right);
        }
        out
    }

    /// Sum of a list of statements, from the left. The weight of the result
    /// is the true sum held to the range of `i32`.
    pub fn sum(list: &Vec<MatchParameters>) -> (r: Self)
        ensures
            r@ == clamp_params(sum_params(each_view(list@))),
    {
        let mut weight: i128 = 0;
        let mut languages: Vec<CommentedLang> = Vec::new();
        let mut group_override = GroupOverride::Unset;
        let mut dangerous = false;
        let mut hidden = false;
        let ghost all = each_view(list@);
        let mut i: usize = 0;
        while i < list.len()
            invariant
                i <= list.len(),
                all == each_view(list@),
                weight == sum_params(all.take(i as int)).weight,
                each_view(languages@) == sum_params(all.take(i as int)).languages,
                group_override@ == sum_params(all.take(i as int)).group_override,
                dangerous == sum_params(all.take(i as int)).dangerous,
                hidden == sum_params(all.take(i as int)).hidden,
            decreases list.len() - i,
        {
            let p = &list[i];
            proof {
                assert(all.take(i + 1) =~= all.take(i as int).push(all[i as int]));
                sum_params_push(all.take(i as int), all[i as int]);
                sum_params_weight_bound(all.take(i as int));
            }
            weight = weight + p.weight as i128;
            let ghost before = languages@;
            let mut j: usize = 0;
            while j < p.languages.len()
                invariant
                    j <= p.languages.len(),
                    each_view(languages@) == each_view(before) + each_view(p.languages@).take(
                        j as int,
                    ),
                decreases p.languages.len() - j,
            {
                let ghost prev = languages@;
                languages.push(p.languages[j].duplicate());
                proof {
                    assert(each_view(languages@) =~= each_view(prev).push(p.languages[j as int]@));
                }
                j += 1;
            }
            group_override = group_override.add(p.group_override.duplicate());
            dangerous = dangerous || p.dangerous;
            hidden = hidden || p.hidden;
            i += 1;
        }
        proof {
            assert(all.take(list.len() as int) =~= all);
        }
        let clamped: i32 = if weight > i32::MAX as i128 {
            i32::MAX
        } else if weight < i32::MIN as i128 {
            i32::MIN
        } else {
            weight as i32
        };
        MatchParameters { weight: clamped, languages, group_override, dangerous, hidden }
    }

    /// A copy of these parameters.
    pub fn duplicate(&self) -> (r: Self)
        ensures
            r@ == self@,
    {
        let mut languages: Vec<CommentedLang> = Vec::new();
        let mut j: usize = 0;
        while j < self.languages.len()
            invariant
                j <= self.languages.len(),
                each_view(languages@) == each_view(self.languages@).take(j as int),
            decreases self.languages.len() - j,
        {
            let ghost prev = languages@;
            languages.push(self.languages[j].duplicate());
            proof {
                assert(each_view(languages@) =~= each_view(prev).push(self.languages[j as int]@));
            }
            j += 1;
        }
        proof {
            assert(each_view(self.languages@).take(self.languages.len() as int) =~= each_view(
                self.languages@,
            ));
        }
        MatchParameters {
            weight: self.weight,
            languages,
            group_override: self.group_override.duplicate(),
            dangerous: self.dangerous,
            hidden: self.hidden,
        }
    }
}

impl Default for MatchParameters {
    fn default() -> (r: Self)
        ensures
            r@ == no_params(),
    {
        MatchParameters::empty()
    }
}

/// A match found by one or more heuristics, as it is handed to the consumer.
/// Its weight is at least 1.
#[derive(Debug)]
pub struct MatchData {
    /// Path of the matched entry.
    path: String,
    /// Whether the match lies under a path that was marked as dangerous.
    dangerous: bool,
    /// Path of the directory that was being scanned when the match was found.
    group: String,
    /// The summed statements of all heuristics about the entry.
    params: MatchParameters,
}

/// Mathematical value of a [`MatchData`].
pub struct MatchDataView {
    pub path: Seq<char>,
    pub dangerous: bool,
    pub group: Seq<char>,
    pub params: ParamsView,
}

impl View for MatchData {
    type V = MatchDataView;

    closed spec fn view(&self) -> MatchDataView {
        MatchDataView {
            path: self.path@,
            dangerous: self.dangerous,
            group: self.group@,
            params: self.params@,
        }
    }
}

/// The group under which a match is shown: the override if exactly one group
/// was asked for, else the directory in which the match was found.
pub open spec fn effective_group(m: MatchDataView) -> Seq<char> {
    match m.params.group_override {
        GroupView::Override(custom) => custom,
        _ => m.group,
    }
}

impl Clone for MatchData {
    fn clone(&self) -> (r: Self)
        ensures
            r@ == self@,
    {
        proof {
            use_type_invariant(self);
        }
        MatchData {
            path: self.path.clone(),
            dangerous: self.dangerous,
            group: self.group.clone(),
            params: self.params.duplicate(),
        }
    }
}

impl MatchData {
    #[verifier::type_invariant]
    spec fn positive(self) -> bool {
        self.params.weight >= 1
    }

    /// The record of a match of weight at least 1.
    pub fn new(path: String, group: String, dangerous: bool, params: MatchParameters) -> (r: Self)
        requires
            params.weight >= 1,
        ensures
            r@ == (MatchDataView { path: path@, dangerous, group: group@, params: params@ }),
    {
        MatchData { path, dangerous, group, params }
    }

    /// Path of the matched entry.
    pub fn path(&self) -> (r: &str)
        ensures
            r@ == self@.path,
    {
        self.path.as_str()
    }

    /// Whether the match lies under a path that was marked as dangerous.
    pub fn dangerous(&self) -> (r: bool)
        ensures
            r == self@.dangerous,
    {
        self.dangerous
    }

    /// Whether a heuristic marked the entry as hidden.
    pub fn hidden(&self) -> (r: bool)
        ensures
            r == self@.params.hidden,
    {
        self.params.hidden
    }

    /// The directory under which the match is to be shown.
    pub fn group(&self) -> (r: &str)
        ensures
            r@ == effective_group(self@),
    {
        match &self.params.group_override {
            GroupOverride::Override(custom) => custom.as_str(),
            _ => self.group.as_str(),
        }
    }

    /// The summed weight of the match, which is at least 1.
    pub fn weight(&self) -> (r: u32)
        ensures
            r >= 1,
            r == self@.params.weight,
    {
        proof {
            use_type_invariant(self);
        }
        self.params.weight as u32
    }

    /// The reasons for the match, in the order in which heuristics gave them.
    pub fn languages(&self) -> (r: &[CommentedLang])
        ensures
            each_view(r@) == self@.params.languages,
    {
        self.params.languages.as_slice()
    }
}

} // verus!
