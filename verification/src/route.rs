//! Where a walk gets to, and what holds of every directory on its way.
//!
//! A walk enters a subdirectory only if the scan of its parent left it
//! open. A route names a directory by the positions of the entries that
//! lead to it from the directory in which the walk starts.
use vstd::prelude::*;
use crate::cache::CacheView;
use crate::entry::EntryKind;
use crate::entry::FactView;
use crate::heuristic::Heuristic;
use crate::match_data::MatchDataView;
use crate::matching_state::branch_after;
use crate::matching_state::child_action;
use crate::matching_state::emitted;
use crate::matching_state::emitted_carry_the_flag;
use crate::matching_state::entries_after;
use crate::matching_state::marks_are_decisions;
use crate::matching_state::nothing_said_nothing_emitted;
use crate::matching_state::StateView;
use crate::scanner::directory_start;
use crate::scanner::run_upto;
use crate::scanner::run_upto_is_pipeline;
use crate::scanner::start_is_distinct;
use crate::tree::facts_at;
use crate::tree::file_facts;
use crate::tree::listing;
use crate::tree::listing_is_distinct;
use crate::tree::scanned;
use crate::tree::walk;
use crate::tree::walk_below;
use crate::tree::well_formed;
use crate::tree::Node;
use crate::tree::WalkView;

verus! {

/// A directory as the walk enters it: the tree under it, its path, the
/// name under which it is entered, the state of the branch that it starts
/// from, and what is known of the files further up.
pub struct Place {
    pub node: Node,
    pub path: Seq<char>,
    pub dir_name: Option<Seq<char>>,
    pub cache: CacheView,
    pub branch: Seq<FactView>,
}

/// The state in which the scan of the directory starts.
pub open spec fn start_at(p: Place) -> StateView {
    directory_start(
        p.cache,
        p.dir_name,
        p.path,
        listing(p.node.children@, p.path),
        facts_at(p.node.children@, p.path, p.branch),
    )
}

/// The state of the directory after every heuristic has run.
pub open spec fn state_at<H: Heuristic>(hs: Seq<H>, p: Place) -> StateView {
    scanned(hs, p.node.children@, p.path, p.dir_name, p.cache, p.branch)
}

/// The matches that are reported in the directory itself.
pub open spec fn matches_at<H: Heuristic>(hs: Seq<H>, include_dangerous: bool, p: Place) -> Seq<
    MatchDataView,
> {
    let s = state_at(hs, p);
    emitted(s.children, s.path, s.cache.dangerous, include_dangerous, s.children.len() as int)
}

/// The walk from the directory on.
pub open spec fn walk_at<H: Heuristic>(hs: Seq<H>, include_dangerous: bool, p: Place) -> WalkView {
    walk(hs, include_dangerous, p.node, p.path, p.dir_name, p.cache, p.branch)
}

/// Whether the walk enters the entry at position `i` of the directory.
pub open spec fn enters<H: Heuristic>(hs: Seq<H>, include_dangerous: bool, p: Place, i: int) -> bool {
    let after = entries_after(state_at(hs, p).children, include_dangerous);
    0 <= i < p.node.children@.len() && i < after.len() && after[i].descend && after[i].kind
        == EntryKind::Directory
}

/// The entry at position `i` of the directory, as the walk enters it.
pub open spec fn below<H: Heuristic>(hs: Seq<H>, include_dangerous: bool, p: Place, i: int) -> Place {
    let s = state_at(hs, p);
    let e = entries_after(s.children, include_dangerous)[i];
    Place {
        node: p.node.children@[i],
        path: e.path,
        dir_name: Some(e.name),
        cache: branch_after(s, include_dangerous),
        branch: p.branch + file_facts(p.node.children@, p.path, p.node.children@.len() as int),
    }
}

/// The directory that the walk from `p` gets to along `route`, or nothing
/// if it does not enter one of the entries on the way.
pub open spec fn arrival<H: Heuristic>(
    hs: Seq<H>,
    include_dangerous: bool,
    p: Place,
    route: Seq<int>,
) -> Option<Place>
    decreases route.len(),
{
    if route.len() == 0 {
        Some(p)
    } else if enters(hs, include_dangerous, p, route[0]) {
        arrival(hs, include_dangerous, below(hs, include_dangerous, p, route[0]), route.drop_first())
    } else {
        None
    }
}

/// Going along one route and then along another is going along both.
pub proof fn arrival_joined<H: Heuristic>(
    hs: Seq<H>,
    include_dangerous: bool,
    p: Place,
    first: Seq<int>,
    second: Seq<int>,
)
    ensures
        arrival(hs, include_dangerous, p, first + second) == match arrival(
            hs,
            include_dangerous,
            p,
            first,
        ) {
            Some(q) => arrival(hs, include_dangerous, q, second),
            None => None,
        },
    decreases first.len(),
{
    if first.len() == 0 {
        assert(first + second =~= second);
    } else {
        assert((first + second)[0] == first[0]);
        assert((first + second).drop_first() =~= first.drop_first() + second);
        if enters(hs, include_dangerous, p, first[0]) {
            arrival_joined(
                hs,
                include_dangerous,
                below(hs, include_dangerous, p, first[0]),
                first.drop_first(),
                second,
            );
        }
    }
}

/// The walk keeps to well-formed trees.
pub proof fn arrival_is_well_formed<H: Heuristic>(
    hs: Seq<H>,
    include_dangerous: bool,
    p: Place,
    route: Seq<int>,
)
    requires
        well_formed(p.node),
    ensures
        arrival(hs, include_dangerous, p, route) matches Some(q) ==> well_formed(q.node),
    decreases route.len(),
{
    if route.len() > 0 && enters(hs, include_dangerous, p, route[0]) {
        arrival_is_well_formed(
            hs,
            include_dangerous,
            below(hs, include_dangerous, p, route[0]),
            route.drop_first(),
        );
    }
}

/// The walk never enters an entry that was reported as a match, and so
/// never gets to anything under it.
pub proof fn reported_entry_is_never_entered<H: Heuristic>(
    hs: Seq<H>,
    include_dangerous: bool,
    p: Place,
    route: Seq<int>,
    i: int,
    rest: Seq<int>,
)
    requires
        arrival(hs, include_dangerous, p, route) matches Some(q) && 0 <= i < state_at(
            hs,
            q,
        ).children.len() && child_action(state_at(hs, q).children[i], include_dangerous) is Emit,
    ensures
        arrival(hs, include_dangerous, p, route + seq![i] + rest) is None,
{
    let q = arrival(hs, include_dangerous, p, route).unwrap();
    assert(route + seq![i] + rest =~= route + (seq![i] + rest));
    arrival_joined(hs, include_dangerous, p, route, seq![i] + rest);
    assert((seq![i] + rest)[0] == i);
    assert(!enters(hs, include_dangerous, q, i));
}

/// What a directory starts with, compared with what its parent ended
/// with: the inherited files are the same, and it is dangerous exactly if
/// the parent is or its name was marked.
pub proof fn below_starts_from_parent<H: Heuristic>(
    hs: Seq<H>,
    include_dangerous: bool,
    p: Place,
    i: int,
    id: int,
)
    requires
        enters(hs, include_dangerous, p, i),
        0 <= id < state_at(hs, p).cache.inherited.len(),
    ensures
        start_at(below(hs, include_dangerous, p, i)).cache.inherited[id] == state_at(
            hs,
            p,
        ).cache.inherited[id],
        state_at(hs, p).cache.dangerous ==> start_at(
            below(hs, include_dangerous, p, i),
        ).cache.dangerous,
{
}

/// The scan of a directory keeps the flag it started with and only extends
/// the inherited files.
pub proof fn scan_extends_start<H: Heuristic>(hs: Seq<H>, p: Place, id: int)
    requires
        well_formed(p.node),
        0 <= id < start_at(p).cache.inherited.len(),
    ensures
        start_at(p).cache.inherited[id].is_prefix_of(state_at(hs, p).cache.inherited[id]),
        id < state_at(hs, p).cache.inherited.len(),
        state_at(hs, p).cache.dangerous == start_at(p).cache.dangerous,
{
    listing_is_distinct(p.node.children@, p.path);
    start_is_distinct(
        p.cache,
        p.dir_name,
        p.path,
        listing(p.node.children@, p.path),
        facts_at(p.node.children@, p.path, p.branch),
    );
    run_upto_is_pipeline(hs, start_at(p), hs.len() as int);
}

/// Down the walk the inherited files only grow: what a heuristic finds in
/// its bucket when it starts in a directory begins with what it left in its
/// bucket in any directory above, on the way from the start of the walk.
pub proof fn inherited_files_grow_down_the_walk<H: Heuristic>(
    hs: Seq<H>,
    include_dangerous: bool,
    p: Place,
    above: Seq<int>,
    further: Seq<int>,
    id: int,
)
    requires
        well_formed(p.node),
        further.len() > 0,
        arrival(hs, include_dangerous, p, above) is Some,
        arrival(hs, include_dangerous, p, above + further) is Some,
        0 <= id < state_at(
            hs,
            arrival(hs, include_dangerous, p, above).unwrap(),
        ).cache.inherited.len(),
    ensures
        ({
            let a = arrival(hs, include_dangerous, p, above).unwrap();
            let b = arrival(hs, include_dangerous, p, above + further).unwrap();
            state_at(hs, a).cache.inherited[id].is_prefix_of(start_at(b).cache.inherited[id])
        }),
{
    let a = arrival(hs, include_dangerous, p, above).unwrap();
    arrival_joined(hs, include_dangerous, p, above, further);
    arrival_is_well_formed(hs, include_dangerous, p, above);
    grow_from(hs, include_dangerous, a, further, id);
}

/// The same, from the directory in which the walk starts.
pub proof fn grow_from<H: Heuristic>(
    hs: Seq<H>,
    include_dangerous: bool,
    p: Place,
    route: Seq<int>,
    id: int,
)
    requires
        well_formed(p.node),
        route.len() > 0,
        arrival(hs, include_dangerous, p, route) is Some,
        0 <= id < state_at(hs, p).cache.inherited.len(),
    ensures
        state_at(hs, p).cache.inherited[id].is_prefix_of(
            start_at(arrival(hs, include_dangerous, p, route).unwrap()).cache.inherited[id],
        ),
        id < start_at(arrival(hs, include_dangerous, p, route).unwrap()).cache.inherited.len(),
    decreases route.len(),
{
    let i = route[0];
    let c = below(hs, include_dangerous, p, i);
    below_starts_from_parent(hs, include_dangerous, p, i, id);
    let mine = state_at(hs, p).cache.inherited[id];
    if route.len() == 1 {
        assert(route.drop_first().len() == 0);
        assert(mine.is_prefix_of(mine)) by {
            assert(mine =~= mine.subrange(0, mine.len() as int));
        }
    } else {
        assert(well_formed(c.node));
        scan_extends_start(hs, c, id);
        grow_from(hs, include_dangerous, c, route.drop_first(), id);
        let mid = state_at(hs, c).cache.inherited[id];
        let end = start_at(
            arrival(hs, include_dangerous, p, route).unwrap(),
        ).cache.inherited[id];
        assert(mine.is_prefix_of(mid));
        assert(mid.is_prefix_of(end));
        assert(mine.is_prefix_of(end));
    }
}

/// Down the walk a dangerous branch stays dangerous: every directory that
/// the walk gets to from a dangerous one is dangerous.
pub proof fn flag_stays_down_the_walk<H: Heuristic>(
    hs: Seq<H>,
    include_dangerous: bool,
    p: Place,
    route: Seq<int>,
)
    requires
        well_formed(p.node),
        start_at(p).cache.dangerous,
        arrival(hs, include_dangerous, p, route) is Some,
    ensures
        state_at(hs, arrival(hs, include_dangerous, p, route).unwrap()).cache.dangerous,
    decreases route.len(),
{
    scan_keeps_the_flag(hs, p);
    if route.len() > 0 {
        let c = below(hs, include_dangerous, p, route[0]);
        assert(well_formed(c.node));
        flag_stays_down_the_walk(hs, include_dangerous, c, route.drop_first());
    }
}

/// The scan of a directory keeps the flag it started with.
pub proof fn scan_keeps_the_flag<H: Heuristic>(hs: Seq<H>, p: Place)
    requires
        well_formed(p.node),
    ensures
        state_at(hs, p).cache.dangerous == start_at(p).cache.dangerous,
{
    listing_is_distinct(p.node.children@, p.path);
    start_is_distinct(
        p.cache,
        p.dir_name,
        p.path,
        listing(p.node.children@, p.path),
        facts_at(p.node.children@, p.path, p.branch),
    );
    run_upto_is_pipeline(hs, start_at(p), hs.len() as int);
}

/// Every match that is reported in or under a directory that was marked as
/// dangerous is flagged. `route` leads to the directory in which the mark
/// was set, `i` is the position of the marked entry there, and `rest` leads
/// on from that entry to the directory in which the match is reported.
pub proof fn matches_under_a_mark_are_flagged<H: Heuristic>(
    hs: Seq<H>,
    include_dangerous: bool,
    p: Place,
    route: Seq<int>,
    i: int,
    rest: Seq<int>,
    k: int,
)
    requires
        well_formed(p.node),
        arrival(hs, include_dangerous, p, route) matches Some(q) && 0 <= i < state_at(
            hs,
            q,
        ).children.len() && child_action(state_at(hs, q).children[i], include_dangerous) is Mark,
        arrival(hs, include_dangerous, p, route + seq![i] + rest) matches Some(b) && 0 <= k
            < matches_at(hs, include_dangerous, b).len(),
    ensures
        matches_at(
            hs,
            include_dangerous,
            arrival(hs, include_dangerous, p, route + seq![i] + rest).unwrap(),
        )[k].dangerous,
{
    let q = arrival(hs, include_dangerous, p, route).unwrap();
    let b = arrival(hs, include_dangerous, p, route + seq![i] + rest).unwrap();
    assert(route + seq![i] + rest =~= route + (seq![i] + rest));
    arrival_joined(hs, include_dangerous, p, route, seq![i] + rest);
    arrival_is_well_formed(hs, include_dangerous, p, route);
    assert((seq![i] + rest)[0] == i);
    assert((seq![i] + rest).drop_first() =~= rest);
    let s = state_at(hs, q);
    let c = below(hs, include_dangerous, q, i);
    marks_are_decisions(s.children, include_dangerous, s.children.len() as int, s.children[i].entry.name);
    assert(c.dir_name == Some(s.children[i].entry.name));
    assert(start_at(c).cache.dangerous);
    assert(well_formed(c.node));
    flag_stays_down_the_walk(hs, include_dangerous, c, rest);
    let t = state_at(hs, b);
    emitted_carry_the_flag(
        t.children,
        t.path,
        t.cache.dangerous,
        include_dangerous,
        t.children.len() as int,
        k,
    );
}

/// The walks of the entries of the directory from position `from` on.
pub open spec fn walk_from<H: Heuristic>(
    hs: Seq<H>,
    include_dangerous: bool,
    p: Place,
    from: nat,
) -> WalkView {
    let s = state_at(hs, p);
    walk_below(
        hs,
        include_dangerous,
        p.node.children@,
        entries_after(s.children, include_dangerous),
        branch_after(s, include_dangerous),
        p.branch + file_facts(p.node.children@, p.path, p.node.children@.len() as int),
        from,
    )
}

/// Every match of a walk is reported in a directory that the walk gets to:
/// the lemma gives the route to that directory and the position of the
/// match among those that are reported there.
pub proof fn match_has_an_origin<H: Heuristic>(
    hs: Seq<H>,
    include_dangerous: bool,
    p: Place,
    k: int,
) -> (r: (Seq<int>, int))
    requires
        0 <= k < walk_at(hs, include_dangerous, p).matches.len(),
    ensures
        arrival(hs, include_dangerous, p, r.0) matches Some(q) && 0 <= r.1 < matches_at(
            hs,
            include_dangerous,
            q,
        ).len() && matches_at(hs, include_dangerous, q)[r.1] == walk_at(
            hs,
            include_dangerous,
            p,
        ).matches[k],
    decreases p.node,
{
    let here = matches_at(hs, include_dangerous, p);
    assert(walk_at(hs, include_dangerous, p).matches == here + walk_from(
        hs,
        include_dangerous,
        p,
        0,
    ).matches);
    if k < here.len() {
        (Seq::empty(), k)
    } else {
        let (i, rest, j) = match_below_has_an_origin(hs, include_dangerous, p, 0, k - here.len());
        let route = seq![i] + rest;
        assert(route[0] == i);
        assert(route.drop_first() =~= rest);
        (route, j)
    }
}

/// Every match of the walks of the entries from position `from` on is
/// reported in a directory that the walk gets to through one of them.
pub proof fn match_below_has_an_origin<H: Heuristic>(
    hs: Seq<H>,
    include_dangerous: bool,
    p: Place,
    from: nat,
    k: int,
) -> (r: (int, Seq<int>, int))
    requires
        0 <= k < walk_from(hs, include_dangerous, p, from).matches.len(),
    ensures
        from <= r.0,
        enters(hs, include_dangerous, p, r.0),
        arrival(hs, include_dangerous, below(hs, include_dangerous, p, r.0), r.1) matches Some(q)
            && 0 <= r.2 < matches_at(hs, include_dangerous, q).len() && matches_at(
            hs,
            include_dangerous,
            q,
        )[r.2] == walk_from(hs, include_dangerous, p, from).matches[k],
    decreases p.node.children@, p.node.children@.len() - from,
{
    let kids = p.node.children@;
    let after = entries_after(state_at(hs, p).children, include_dangerous);
    assert(from < kids.len() && from < after.len());
    let rest_walk = walk_from(hs, include_dangerous, p, from + 1);
    if enters(hs, include_dangerous, p, from as int) {
        let c = below(hs, include_dangerous, p, from as int);
        let first = walk_at(hs, include_dangerous, c);
        assert(walk_from(hs, include_dangerous, p, from).matches == first.matches
            + rest_walk.matches);
        if k < first.matches.len() {
            let (route, j) = match_has_an_origin(hs, include_dangerous, c, k);
            (from as int, route, j)
        } else {
            match_below_has_an_origin(hs, include_dangerous, p, from + 1, k - first.matches.len())
        }
    } else {
        assert(walk_from(hs, include_dangerous, p, from).matches =~= rest_walk.matches);
        match_below_has_an_origin(hs, include_dangerous, p, from + 1, k)
    }
}

/// Every directory that a walk scans is one that it gets to along a route.
pub proof fn visit_has_an_origin<H: Heuristic>(
    hs: Seq<H>,
    include_dangerous: bool,
    p: Place,
    k: int,
) -> (route: Seq<int>)
    requires
        0 <= k < walk_at(hs, include_dangerous, p).visited.len(),
    ensures
        arrival(hs, include_dangerous, p, route) matches Some(q) && q.path == walk_at(
            hs,
            include_dangerous,
            p,
        ).visited[k],
    decreases p.node,
{
    assert(walk_at(hs, include_dangerous, p).visited == seq![p.path] + walk_from(
        hs,
        include_dangerous,
        p,
        0,
    ).visited);
    if k < 1 {
        Seq::empty()
    } else {
        let (i, rest) = visit_below_has_an_origin(hs, include_dangerous, p, 0, k - 1);
        let route = seq![i] + rest;
        assert(route[0] == i);
        assert(route.drop_first() =~= rest);
        route
    }
}

/// Every directory that the walks of the entries from position `from` on
/// scan is one that the walk gets to through one of them.
pub proof fn visit_below_has_an_origin<H: Heuristic>(
    hs: Seq<H>,
    include_dangerous: bool,
    p: Place,
    from: nat,
    k: int,
) -> (r: (int, Seq<int>))
    requires
        0 <= k < walk_from(hs, include_dangerous, p, from).visited.len(),
    ensures
        from <= r.0,
        enters(hs, include_dangerous, p, r.0),
        arrival(hs, include_dangerous, below(hs, include_dangerous, p, r.0), r.1) matches Some(q)
            && q.path == walk_from(hs, include_dangerous, p, from).visited[k],
    decreases p.node.children@, p.node.children@.len() - from,
{
    let kids = p.node.children@;
    let after = entries_after(state_at(hs, p).children, include_dangerous);
    assert(from < kids.len() && from < after.len());
    let rest_walk = walk_from(hs, include_dangerous, p, from + 1);
    if enters(hs, include_dangerous, p, from as int) {
        let c = below(hs, include_dangerous, p, from as int);
        let first = walk_at(hs, include_dangerous, c);
        assert(walk_from(hs, include_dangerous, p, from).visited == first.visited
            + rest_walk.visited);
        if k < first.visited.len() {
            let route = visit_has_an_origin(hs, include_dangerous, c, k);
            (from as int, route)
        } else {
            visit_below_has_an_origin(hs, include_dangerous, p, from + 1, k - first.visited.len())
        }
    } else {
        assert(walk_from(hs, include_dangerous, p, from).visited =~= rest_walk.visited);
        visit_below_has_an_origin(hs, include_dangerous, p, from + 1, k)
    }
}

/// Whether the walk from `p` gets along `route` without passing through an
/// entry that was reported as a match.
pub open spec fn passes_no_match<H: Heuristic>(
    hs: Seq<H>,
    include_dangerous: bool,
    p: Place,
    route: Seq<int>,
) -> bool {
    forall|n: int|
        0 <= n < route.len() ==> (arrival(hs, include_dangerous, p, #[trigger] route.take(n)) matches Some(
            a,
        ) && 0 <= route[n] < state_at(hs, a).children.len() && !(child_action(
            state_at(hs, a).children[route[n]],
            include_dangerous,
        ) is Emit))
}

/// A route that the walk gets along passes through no reported entry.
pub proof fn arrival_passes_no_match<H: Heuristic>(
    hs: Seq<H>,
    include_dangerous: bool,
    p: Place,
    route: Seq<int>,
)
    requires
        arrival(hs, include_dangerous, p, route) is Some,
    ensures
        passes_no_match(hs, include_dangerous, p, route),
{
    assert forall|n: int| 0 <= n < route.len() implies (arrival(
        hs,
        include_dangerous,
        p,
        #[trigger] route.take(n),
    ) matches Some(a) && 0 <= route[n] < state_at(hs, a).children.len() && !(child_action(
        state_at(hs, a).children[route[n]],
        include_dangerous,
    ) is Emit)) by {
        let head = route.take(n);
        let tail = route.skip(n);
        assert(route =~= head + tail);
        arrival_joined(hs, include_dangerous, p, head, tail);
        let a = arrival(hs, include_dangerous, p, head).unwrap();
        assert(tail[0] == route[n]);
        assert(enters(hs, include_dangerous, a, route[n]));
    }
}

/// No directory that a walk scans lies under an entry that it reported:
/// every scanned directory is reached along a route that passes through no
/// reported entry.
pub proof fn scanned_directory_lies_under_no_match<H: Heuristic>(
    hs: Seq<H>,
    include_dangerous: bool,
    p: Place,
    k: int,
) -> (route: Seq<int>)
    requires
        0 <= k < walk_at(hs, include_dangerous, p).visited.len(),
    ensures
        arrival(hs, include_dangerous, p, route) matches Some(q) && q.path == walk_at(
            hs,
            include_dangerous,
            p,
        ).visited[k],
        passes_no_match(hs, include_dangerous, p, route),
{
    let route = visit_has_an_origin(hs, include_dangerous, p, k);
    arrival_passes_no_match(hs, include_dangerous, p, route);
    route
}

/// No match of a walk lies under another: every match is reported in a
/// directory that is reached along a route that passes through no reported
/// entry.
pub proof fn match_lies_under_no_match<H: Heuristic>(
    hs: Seq<H>,
    include_dangerous: bool,
    p: Place,
    k: int,
) -> (r: (Seq<int>, int))
    requires
        0 <= k < walk_at(hs, include_dangerous, p).matches.len(),
    ensures
        arrival(hs, include_dangerous, p, r.0) matches Some(q) && 0 <= r.1 < matches_at(
            hs,
            include_dangerous,
            q,
        ).len() && matches_at(hs, include_dangerous, q)[r.1] == walk_at(
            hs,
            include_dangerous,
            p,
        ).matches[k],
        passes_no_match(hs, include_dangerous, p, r.0),
{
    let r = match_has_an_origin(hs, include_dangerous, p, k);
    arrival_passes_no_match(hs, include_dangerous, p, r.0);
    r
}

/// Whether the route passes through an entry that was marked as dangerous
/// where it was listed.
pub open spec fn passes_a_mark<H: Heuristic>(
    hs: Seq<H>,
    include_dangerous: bool,
    p: Place,
    route: Seq<int>,
) -> bool {
    exists|n: int|
        0 <= n < route.len() && (arrival(hs, include_dangerous, p, #[trigger] route.take(n)) matches Some(
            a,
        ) && 0 <= route[n] < state_at(hs, a).children.len() && child_action(
            state_at(hs, a).children[route[n]],
            include_dangerous,
        ) is Mark)
}

/// Every match of a walk that is reported under a marked directory, or in a
/// walk that starts as dangerous, is flagged as dangerous. The lemma gives
/// the route to the directory in which the match is reported.
pub proof fn match_under_a_mark_is_flagged<H: Heuristic>(
    hs: Seq<H>,
    include_dangerous: bool,
    p: Place,
    k: int,
) -> (r: (Seq<int>, int))
    requires
        well_formed(p.node),
        0 <= k < walk_at(hs, include_dangerous, p).matches.len(),
    ensures
        arrival(hs, include_dangerous, p, r.0) matches Some(q) && 0 <= r.1 < matches_at(
            hs,
            include_dangerous,
            q,
        ).len() && matches_at(hs, include_dangerous, q)[r.1] == walk_at(
            hs,
            include_dangerous,
            p,
        ).matches[k],
        passes_a_mark(hs, include_dangerous, p, r.0) || start_at(p).cache.dangerous ==> walk_at(
            hs,
            include_dangerous,
            p,
        ).matches[k].dangerous,
{
    let r = match_has_an_origin(hs, include_dangerous, p, k);
    let route = r.0;
    let q = arrival(hs, include_dangerous, p, route).unwrap();
    if start_at(p).cache.dangerous {
        flag_stays_down_the_walk(hs, include_dangerous, p, route);
        let t = state_at(hs, q);
        emitted_carry_the_flag(
            t.children,
            t.path,
            t.cache.dangerous,
            include_dangerous,
            t.children.len() as int,
            r.1,
        );
    } else if passes_a_mark(hs, include_dangerous, p, route) {
        let n = choose|n: int|
            0 <= n < route.len() && (arrival(
                hs,
                include_dangerous,
                p,
                #[trigger] route.take(n),
            ) matches Some(a) && 0 <= route[n] < state_at(hs, a).children.len() && child_action(
                state_at(hs, a).children[route[n]],
                include_dangerous,
            ) is Mark);
        let head = route.take(n);
        let rest = route.skip(n + 1);
        assert(route =~= head + seq![route[n]] + rest);
        matches_under_a_mark_are_flagged(hs, include_dangerous, p, head, route[n], rest, r.1);
    }
    r
}

/// Whether no heuristic changes the state that it is handed in the scan
/// that starts in the state `start`: none makes a statement and none
/// records a file.
pub open spec fn all_silent<H: Heuristic>(hs: Seq<H>, start: StateView, n: int) -> bool
    decreases n,
{
    if n <= 0 || n > hs.len() {
        true
    } else {
        let ready = run_upto(hs, start, n - 1).with_current(
            n - 1,
            hs[n - 1].spec_info(),
        );
        all_silent(hs, start, n - 1) && hs[n - 1].effect(ready) == ready
    }
}

/// Where no heuristic speaks, no statement is made about any entry.
pub proof fn silent_scan_says_nothing<H: Heuristic>(hs: Seq<H>, start: StateView, n: int)
    requires
        all_silent(hs, start, n),
    ensures
        run_upto(hs, start, n).children == start.children,
        run_upto(hs, start, n).path == start.path,
    decreases n,
{
    if 0 < n <= hs.len() {
        silent_scan_says_nothing(hs, start, n - 1);
    }
}

/// A walk in which no heuristic speaks in any directory that it gets to
/// reports nothing. This is so of a second walk of a tree from which every
/// entry that the heuristics look for has been deleted.
pub proof fn silent_walk_reports_nothing<H: Heuristic>(
    hs: Seq<H>,
    include_dangerous: bool,
    p: Place,
)
    requires
        forall|route: Seq<int>|
            (#[trigger] arrival(hs, include_dangerous, p, route)) matches Some(q) ==> all_silent(
                hs,
                start_at(q),
                hs.len() as int,
            ),
    ensures
        walk_at(hs, include_dangerous, p).matches.len() == 0,
{
    if walk_at(hs, include_dangerous, p).matches.len() > 0 {
        let r = match_has_an_origin(hs, include_dangerous, p, 0);
        let q = arrival(hs, include_dangerous, p, r.0).unwrap();
        silent_scan_says_nothing(hs, start_at(q), hs.len() as int);
        let s = state_at(hs, q);
        nothing_said_nothing_emitted(
            s.children,
            s.path,
            s.cache.dangerous,
            include_dangerous,
            s.children.len() as int,
        );
    }
}

} // verus!
