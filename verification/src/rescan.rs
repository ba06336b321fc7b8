//! A scan of a tree from which the matches of an earlier scan are gone.
//!
//! Some heuristics report one directory of a fixed name and need that
//! directory to be there. Once every directory of that name has been
//! deleted from a tree, they have nothing to say about it.
use vstd::prelude::*;
use crate::entry::EntryKind;
use crate::heuristic::first_named_in_range;
use crate::heuristic::Heuristic;
use crate::heuristics::system::system_dir;
use crate::heuristics::Bundled;
use crate::matching_state::StateView;
use crate::route::all_silent;
use crate::route::arrival;
use crate::route::arrival_is_well_formed;
use crate::route::below;
use crate::route::enters;
use crate::route::silent_walk_reports_nothing;
use crate::route::start_at;
use crate::route::walk_at;
use crate::route::Place;
use crate::scanner::run_upto;
use crate::scanner::run_upto_is_pipeline;
use crate::scanner::start_is_distinct;
use crate::tree::facts_at;
use crate::tree::listing;
use crate::tree::listing_is_distinct;
use crate::tree::well_formed;
use crate::tree::Node;

verus! {

/// The name of the directory that a heuristic reports, for the heuristics
/// that report one directory of a fixed name and nothing else.
pub open spec fn target_of(h: Bundled) -> Option<Seq<char>> {
    match h {
        Bundled::Rust => Some("target"@),
        Bundled::JavaScript => Some("node_modules"@),
        Bundled::Python => Some("__pycache__"@),
        Bundled::Direnv => Some(".direnv"@),
        Bundled::System(platform) => Some(system_dir(platform)),
        _ => None,
    }
}

/// No directory of the tree under `node` holds a directory called `name`.
pub open spec fn lacks_directory(node: Node, name: Seq<char>) -> bool
    decreases node,
{
    forall|i: int|
        0 <= i < node.children@.len() ==> !((#[trigger] node.children@[i]).kind
            == EntryKind::Directory && node.children@[i].name@ == name) && lacks_directory(
            node.children@[i],
            name,
        )
}

/// A heuristic that reports one directory says nothing where there is no
/// directory of that name.
pub proof fn silent_without_its_target(h: Bundled, s: StateView)
    requires
        target_of(h) matches Some(t) && s.has_directory(t) is None,
    ensures
        h.effect(s) == s,
{
}

/// A state that shows the entries of a directory without a directory
/// called `name` has no such directory.
pub proof fn no_such_directory(s: StateView, node: Node, path: Seq<char>, name: Seq<char>)
    requires
        lacks_directory(node, name),
        s.children.len() == node.children@.len(),
        forall|i: int|
            0 <= i < s.children.len() ==> (#[trigger] s.children[i]).entry == listing(
                node.children@,
                path,
            )[i],
    ensures
        s.has_directory(name) is None,
{
    first_named_in_range(s, name, 0);
    match s.find(name) {
        Some(i) => {
            assert(s.children[i].entry == listing(node.children@, path)[i]);
            assert(!(node.children@[i].kind == EntryKind::Directory && node.children@[i].name@
                == name));
        },
        None => {},
    }
}

/// What a tree lacks, every directory under it lacks that the walk gets
/// to.
pub proof fn arrival_lacks_directory<H: Heuristic>(
    hs: Seq<H>,
    include_dangerous: bool,
    p: Place,
    route: Seq<int>,
    name: Seq<char>,
)
    requires
        lacks_directory(p.node, name),
    ensures
        arrival(hs, include_dangerous, p, route) matches Some(q) ==> lacks_directory(q.node, name),
    decreases route.len(),
{
    if route.len() > 0 && enters(hs, include_dangerous, p, route[0]) {
        let c = below(hs, include_dangerous, p, route[0]);
        assert(lacks_directory(p.node.children@[route[0]], name));
        arrival_lacks_directory(hs, include_dangerous, c, route.drop_first(), name);
    }
}

/// In a directory of a tree that lacks the targets of the first `n`
/// heuristics, none of them speaks.
pub proof fn silent_in_directory(hs: Seq<Bundled>, q: Place, n: int)
    requires
        well_formed(q.node),
        0 <= n <= hs.len(),
        forall|m: int|
            0 <= m < n ==> (target_of(#[trigger] hs[m]) matches Some(t) && lacks_directory(q.node, t)),
    ensures
        all_silent(hs, start_at(q), n),
    decreases n,
{
    if n > 0 {
        silent_in_directory(hs, q, n - 1);
        let start = start_at(q);
        listing_is_distinct(q.node.children@, q.path);
        start_is_distinct(
            q.cache,
            q.dir_name,
            q.path,
            listing(q.node.children@, q.path),
            facts_at(q.node.children@, q.path, q.branch),
        );
        run_upto_is_pipeline(hs, start, n - 1);
        let h = hs[n - 1];
        let ready = run_upto(hs, start, n - 1).with_current(n - 1, h.spec_info());
        let t = target_of(h).unwrap();
        assert forall|i: int| 0 <= i < ready.children.len() implies (#[trigger] ready.children[i]).entry
            == listing(q.node.children@, q.path)[i] by {
            assert(run_upto(hs, start, n - 1).children[i].entry == start.children[i].entry);
        }
        no_such_directory(ready, q.node, q.path, t);
        silent_without_its_target(h, ready);
    }
}

/// A scan reports nothing in a tree that holds no directory of a name that
/// its heuristics look for, if each of them reports one directory of a
/// fixed name. So a second scan is empty once every match of the first has
/// been deleted.
pub proof fn rescan_without_targets_reports_nothing(
    hs: Seq<Bundled>,
    include_dangerous: bool,
    p: Place,
)
    requires
        well_formed(p.node),
        forall|m: int|
            0 <= m < hs.len() ==> (target_of(#[trigger] hs[m]) matches Some(t) && lacks_directory(
                p.node,
                t,
            )),
    ensures
        walk_at(hs, include_dangerous, p).matches.len() == 0,
{
    assert forall|route: Seq<int>|
        (#[trigger] arrival(hs, include_dangerous, p, route)) is Some implies all_silent(
        hs,
        start_at(arrival(hs, include_dangerous, p, route).unwrap()),
        hs.len() as int,
    ) by {
        let q = arrival(hs, include_dangerous, p, route).unwrap();
        arrival_is_well_formed(hs, include_dangerous, p, route);
        assert forall|m: int| 0 <= m < hs.len() implies (target_of(#[trigger] hs[m]) matches Some(
            t,
        ) && lacks_directory(q.node, t)) by {
            arrival_lacks_directory(hs, include_dangerous, p, route, target_of(hs[m]).unwrap());
        }
        silent_in_directory(hs, q, hs.len() as int);
    }
    silent_walk_reports_nothing(hs, include_dangerous, p);
}

} // verus!
