//! Merging route tables.
//!
//! The tables are laid end to end in the order given. Where a pattern is
//! registered more than once, its first registration stands and the later
//! ones are dropped; the caller can ask which ones, to report them. Merging
//! never fails, and it changes no answer: every request finds the handler
//! that it would find in the tables laid end to end.

use vstd::prelude::*;
use crate::route::{
    best_match_is_unique, is_best_match, lookup_spec, pattern_matches, registered_at, registers,
    specificity, Method, PatternView, Route, RouteTable, RouteView,
};

verus! {

/// The registrations that stand: each one whose pattern no earlier
/// registration has, in the order in which they were made.
pub open spec fn first_registrations(routes: Seq<RouteView>) -> Seq<RouteView>
    decreases routes.len(),
{
    if routes.len() == 0 {
        Seq::empty()
    } else {
        let kept = first_registrations(routes.drop_last());
        if registers(routes.drop_last(), routes.last().pattern) {
            kept
        } else {
            kept.push(routes.last())
        }
    }
}

/// The registrations that fall: each one whose pattern an earlier
/// registration already has, in the order in which they were made.
pub open spec fn shadowed_registrations(routes: Seq<RouteView>) -> Seq<RouteView>
    decreases routes.len(),
{
    if routes.len() == 0 {
        Seq::empty()
    } else {
        let dropped = shadowed_registrations(routes.drop_last());
        if registers(routes.drop_last(), routes.last().pattern) {
            dropped.push(routes.last())
        } else {
            dropped
        }
    }
}

/// The tables laid end to end.
pub open spec fn all_routes(tables: Seq<Seq<RouteView>>) -> Seq<RouteView>
    decreases tables.len(),
{
    if tables.len() == 0 {
        Seq::empty()
    } else {
        all_routes(tables.drop_last()) + tables.last()
    }
}

/// The routes of the first table stand at the front of the tables laid end to end.
pub proof fn first_table_leads(tables: Seq<Seq<RouteView>>, i: int)
    requires
        tables.len() >= 1,
        0 <= i < tables[0].len(),
    ensures
        i < all_routes(tables).len(),
        all_routes(tables)[i] == tables[0][i],
    decreases tables.len(),
{
    if tables.len() == 1 {
        assert(all_routes(tables.drop_last()) == Seq::<RouteView>::empty());
    } else {
        first_table_leads(tables.drop_last(), i);
    }
}

/// The effective table of several tables: laid end to end, first registrations only.
pub open spec fn merged(tables: Seq<Seq<RouteView>>) -> Seq<RouteView> {
    first_registrations(all_routes(tables))
}

/// The registrations that a list of tables holds, table by table.
pub open spec fn table_views(tables: Seq<RouteTable>) -> Seq<Seq<RouteView>> {
    Seq::new(tables.len(), |i: int| tables[i]@)
}

/// The registrations that a list of routes holds.
pub open spec fn route_views(routes: Seq<Route>) -> Seq<RouteView> {
    Seq::new(routes.len(), |i: int| routes[i]@)
}

/// Dropping later registrations of a pattern does not change which patterns
/// are registered.
pub proof fn first_registrations_register_the_same(routes: Seq<RouteView>, pattern: PatternView)
    ensures
        registers(first_registrations(routes), pattern) <==> registers(routes, pattern),
    decreases routes.len(),
{
    if routes.len() > 0 {
        let init = routes.drop_last();
        let last = routes.last();
        let kept = first_registrations(init);
        let now = first_registrations(routes);
        first_registrations_register_the_same(init, pattern);
        first_registrations_register_the_same(init, last.pattern);
        if registers(now, pattern) {
            let i = choose|i: int| registered_at(now, pattern, i);
            if i < kept.len() {
                assert(registered_at(kept, pattern, i));
                let j = choose|j: int| registered_at(init, pattern, j);
                assert(registered_at(routes, pattern, j));
            } else {
                assert(registered_at(routes, pattern, routes.len() - 1));
            }
        }
        if registers(routes, pattern) {
            let i = choose|i: int| registered_at(routes, pattern, i);
            if i < init.len() {
                assert(registered_at(init, pattern, i));
            }
            if registers(kept, pattern) {
                let j = choose|j: int| registered_at(kept, pattern, j);
                assert(registered_at(now, pattern, j));
            } else {
                assert(registered_at(now, pattern, kept.len() as int));
            }
        }
    }
}

/// Merging parts the registrations in two: each one either stands or falls.
pub proof fn every_registration_stands_or_falls(routes: Seq<RouteView>)
    ensures
        first_registrations(routes).len() + shadowed_registrations(routes).len() == routes.len(),
    decreases routes.len(),
{
    if routes.len() > 0 {
        every_registration_stands_or_falls(routes.drop_last());
    }
}

/// Whether registration `i` of `routes` is the first one of its pattern.
pub open spec fn is_first_registration(routes: Seq<RouteView>, i: int) -> bool {
    0 <= i < routes.len() && !registers(routes.take(i), routes[i].pattern)
}

/// Every registration that stands is the first one of its pattern.
pub proof fn standing_registration_is_first(routes: Seq<RouteView>, k: int)
    requires
        0 <= k < first_registrations(routes).len(),
    ensures
        exists|i: int|
            is_first_registration(routes, i) && routes[i] == first_registrations(routes)[k],
    decreases routes.len(),
{
    let init = routes.drop_last();
    let kept = first_registrations(init);
    if k < kept.len() {
        standing_registration_is_first(init, k);
        let i = choose|i: int| is_first_registration(init, i) && init[i] == kept[k];
        assert(routes.take(i) == init.take(i));
        assert(is_first_registration(routes, i));
    } else {
        assert(routes.take(routes.len() - 1) == init);
        assert(is_first_registration(routes, routes.len() - 1));
    }
}

/// After merging, no pattern is registered twice.
pub proof fn first_registrations_are_distinct(routes: Seq<RouteView>, i: int, j: int)
    requires
        0 <= i < j < first_registrations(routes).len(),
    ensures
        first_registrations(routes)[i].pattern != first_registrations(routes)[j].pattern,
    decreases routes.len(),
{
    let init = routes.drop_last();
    let kept = first_registrations(init);
    if j < kept.len() {
        first_registrations_are_distinct(init, i, j);
    } else {
        first_registrations_register_the_same(init, routes.last().pattern);
        if kept[i].pattern == routes.last().pattern {
            assert(registered_at(kept, routes.last().pattern, i));
        }
    }
}

/// The best match among the first `n` routes, found by walking them in order.
spec fn best_among(routes: Seq<RouteView>, method: Method, path: Seq<char>, n: int) -> Option<
    int,
>
    decreases n,
{
    if n <= 0 {
        None
    } else {
        let before = best_among(routes, method, path, n - 1);
        let here = routes[n - 1].pattern;
        if pattern_matches(here, method, path) && (before is None || specificity(
            routes[before->0].pattern,
            path,
        ) < specificity(here, path)) {
            Some(n - 1)
        } else {
            before
        }
    }
}

/// Walking the routes in order finds the route that answers.
proof fn best_among_is_best(routes: Seq<RouteView>, method: Method, path: Seq<char>, n: int)
    requires
        0 <= n <= routes.len(),
    ensures
        match best_among(routes, method, path, n) {
            Some(b) => is_best_match(routes.take(n), method, path, b),
            None => forall|j: int|
                0 <= j < n ==> !#[trigger] pattern_matches(routes[j].pattern, method, path),
        },
    decreases n,
{
    if n > 0 {
        best_among_is_best(routes, method, path, n - 1);
        let before = best_among(routes, method, path, n - 1);
        assert forall|j: int| 0 <= j < n implies routes.take(n)[j] == routes[j] by {}
        match before {
            Some(b) => {
                assert(is_best_match(routes.take(n - 1), method, path, b));
                assert forall|j: int| 0 <= j < n - 1 implies routes.take(n - 1)[j]
                    == routes[j] by {}
                assert(routes.take(n - 1)[b] == routes[b]);
                assert forall|j: int|
                    0 <= j < n - 1 && #[trigger] pattern_matches(
                        routes[j].pattern,
                        method,
                        path,
                    ) implies specificity(routes[j].pattern, path) < specificity(
                    routes[b].pattern,
                    path,
                ) || (specificity(routes[j].pattern, path) == specificity(routes[b].pattern, path)
                    && b <= j) by {
                    assert(pattern_matches(routes.take(n - 1)[j].pattern, method, path));
                }
            },
            None => {},
        }
    }
}

/// The declarative answer and the walk agree.
proof fn lookup_is_best_among(routes: Seq<RouteView>, method: Method, path: Seq<char>)
    ensures
        lookup_spec(routes, method, path) == match best_among(
            routes,
            method,
            path,
            routes.len() as int,
        ) {
            Some(b) => Some(routes[b].handler),
            None => None,
        },
{
    best_among_is_best(routes, method, path, routes.len() as int);
    assert(routes.take(routes.len() as int) == routes);
    match best_among(routes, method, path, routes.len() as int) {
        Some(b) => {
            let c = choose|i: int| is_best_match(routes, method, path, i);
            best_match_is_unique(routes, method, path, b, c);
        },
        None => {},
    }
}

/// The walk over the first `n` routes looks at those routes only.
proof fn best_among_reads_prefix(
    left: Seq<RouteView>,
    right: Seq<RouteView>,
    method: Method,
    path: Seq<char>,
    n: int,
)
    requires
        0 <= n <= left.len(),
        n <= right.len(),
        left.take(n) == right.take(n),
    ensures
        best_among(left, method, path, n) == best_among(right, method, path, n),
    decreases n,
{
    if n > 0 {
        assert(left.take(n - 1) == left.take(n).take(n - 1));
        assert(right.take(n - 1) == right.take(n).take(n - 1));
        best_among_reads_prefix(left, right, method, path, n - 1);
        assert(left[n - 1] == left.take(n)[n - 1]);
        assert(right[n - 1] == right.take(n)[n - 1]);
        let before = best_among(left, method, path, n - 1);
        if before is Some {
            best_among_is_best(left, method, path, n - 1);
            let b = before->0;
            assert(left[b] == left.take(n)[b]);
            assert(right[b] == right.take(n)[b]);
        }
    }
}

/// The route that answers is the same registration before and after
/// later registrations of known patterns are dropped.
proof fn first_registrations_keep_best(routes: Seq<RouteView>, method: Method, path: Seq<char>)
    ensures
        match (
            best_among(routes, method, path, routes.len() as int),
            best_among(
                first_registrations(routes),
                method,
                path,
                first_registrations(routes).len() as int,
            ),
        ) {
            (Some(a), Some(b)) => 0 <= a < routes.len() && 0 <= b < first_registrations(
                routes,
            ).len() && routes[a] == first_registrations(routes)[b],
            (None, None) => true,
            _ => false,
        },
    decreases routes.len(),
{
    let n = routes.len() as int;
    if n > 0 {
        let init = routes.drop_last();
        let last = routes.last();
        let kept = first_registrations(init);
        let now = first_registrations(routes);
        first_registrations_keep_best(init, method, path);
        assert(routes.take(n - 1) == init);
        assert(init.take(n - 1) == init);
        best_among_reads_prefix(routes, init, method, path, n - 1);
        best_among_is_best(init, method, path, n - 1);
        best_among_is_best(kept, method, path, kept.len() as int);
        assert(kept.take(kept.len() as int) == kept);
        if registers(init, last.pattern) {
            if pattern_matches(last.pattern, method, path) {
                let j = choose|j: int| registered_at(init, last.pattern, j);
                assert(pattern_matches(init[j].pattern, method, path));
            }
        } else {
            assert(now.take(kept.len() as int) == kept);
            best_among_reads_prefix(now, kept, method, path, kept.len() as int);
        }
    }
}

/// Merging changes no answer: a request finds the same handler in the merged
/// table as in the tables laid end to end.
pub proof fn merging_keeps_every_answer(routes: Seq<RouteView>, method: Method, path: Seq<char>)
    ensures
        lookup_spec(first_registrations(routes), method, path) == lookup_spec(routes, method, path),
{
    first_registrations_keep_best(routes, method, path);
    lookup_is_best_among(routes, method, path);
    lookup_is_best_among(first_registrations(routes), method, path);
}

/// A literal route is answered by the handler of its first registration,
/// whatever was registered for the same method and path after it.
pub proof fn first_literal_registration_answers(routes: Seq<RouteView>, i: int)
    requires
        is_first_registration(routes, i),
        !routes[i].pattern.catch_all,
    ensures
        lookup_spec(routes, routes[i].pattern.method, routes[i].pattern.path) == Some(
            routes[i].handler,
        ),
        lookup_spec(
            first_registrations(routes),
            routes[i].pattern.method,
            routes[i].pattern.path,
        ) == Some(routes[i].handler),
{
    let method = routes[i].pattern.method;
    let path = routes[i].pattern.path;
    assert(pattern_matches(routes[i].pattern, method, path));
    assert forall|j: int|
        0 <= j < routes.len() && #[trigger] pattern_matches(
            routes[j].pattern,
            method,
            path,
        ) implies specificity(routes[j].pattern, path) < specificity(routes[i].pattern, path) || (
    specificity(routes[j].pattern, path) == specificity(routes[i].pattern, path) && i <= j) by {
        if !routes[j].pattern.catch_all && j < i {
            assert(registered_at(routes.take(i), routes[i].pattern, j));
        }
    }
    assert(is_best_match(routes, method, path, i));
    let c = choose|c: int| is_best_match(routes, method, path, c);
    best_match_is_unique(routes, method, path, i, c);
    merging_keeps_every_answer(routes, method, path);
}

/// Where two tables register the same method and literal path, the merged
/// table answers with the handler of the table that comes first.
pub proof fn first_registration_wins(
    earlier: Seq<RouteView>,
    later: Seq<RouteView>,
    i: int,
    j: int,
)
    requires
        is_first_registration(earlier, i),
        0 <= j < later.len(),
        earlier[i].pattern == later[j].pattern,
        !earlier[i].pattern.catch_all,
    ensures
        lookup_spec(
            merged(seq![earlier, later]),
            earlier[i].pattern.method,
            earlier[i].pattern.path,
        ) == Some(earlier[i].handler),
{
    let tables = seq![earlier, later];
    assert(tables.drop_last() == seq![earlier]);
    assert(seq![earlier].drop_last() == Seq::<Seq<RouteView>>::empty());
    assert(all_routes(seq![earlier].drop_last()) == Seq::<RouteView>::empty());
    assert(all_routes(seq![earlier]) == Seq::<RouteView>::empty() + earlier);
    assert(all_routes(seq![earlier]) == earlier);
    assert(all_routes(tables) == earlier + later);
    let routes = earlier + later;
    assert(routes.take(i) == earlier.take(i));
    first_literal_registration_answers(routes, i);
}

/// Walks the tables in order and parts the registrations that stand from
/// those that an earlier registration shadows.
fn sift(tables: &Vec<RouteTable>) -> (out: (RouteTable, Vec<Route>))
    ensures
        out.0@ == merged(table_views(tables@)),
        route_views(out.1@) == shadowed_registrations(all_routes(table_views(tables@))),
{
    let ghost views = table_views(tables@);
    let mut kept = RouteTable::new();
    let mut dropped: Vec<Route> = Vec::new();
    let mut t: usize = 0;
    assert(views.take(0) == Seq::<Seq<RouteView>>::empty());
    assert(route_views(dropped@) == Seq::<RouteView>::empty());
    while t < tables.len()
        invariant
            t <= tables.len(),
            views == table_views(tables@),
            kept@ == first_registrations(all_routes(views.take(t as int))),
            route_views(dropped@) == shadowed_registrations(all_routes(views.take(t as int))),
        decreases tables.len() - t,
    {
        let table = &tables[t];
        let ghost before = all_routes(views.take(t as int));
        assert(views[t as int] == table@);
        assert(before + table@.take(0) == before);
        let count: usize = table.len();
        let mut r: usize = 0;
        while r < count
            invariant
                r <= count == table@.len(),
                kept@ == first_registrations(before + table@.take(r as int)),
                route_views(dropped@) == shadowed_registrations(before + table@.take(r as int)),
            decreases count - r,
        {
            if let Some(route) = table.route(r) {
                let ghost seen = before + table@.take(r as int);
                let ghost next = before + table@.take(r as int + 1);
                assert(next == seen.push(route@));
                assert(next.drop_last() == seen);
                proof {
                    first_registrations_register_the_same(seen, route@.pattern);
                }
                if kept.registers(route.pattern()) {
                    let ghost old_dropped = route_views(dropped@);
                    dropped.push(route.clone());
                    assert(route_views(dropped@) == old_dropped.push(route@));
                } else {
                    kept.register(route.pattern().clone(), route.handler());
                }
            }
            r += 1;
        }
        assert(table@.take(r as int) == table@);
        assert(views.take(t as int + 1).drop_last() == views.take(t as int));
        assert(views.take(t as int + 1).last() == table@);
        t += 1;
    }
    assert(views.take(t as int) == views);
    (kept, dropped)
}

/// Merges tables into one. The tables are laid end to end in the order given;
/// where a pattern is registered more than once, its first registration stands
/// and the later ones are dropped. Merging never fails.
pub fn merge(tables: &Vec<RouteTable>) -> (out: RouteTable)
    ensures
        out@ == merged(table_views(tables@)),
{
    sift(tables).0
}

/// The registrations that `merge` drops from these tables, in the order in
/// which it meets them, for the caller to report.
pub fn shadowed(tables: &Vec<RouteTable>) -> (out: Vec<Route>)
    ensures
        route_views(out@) == shadowed_registrations(all_routes(table_views(tables@))),
{
    sift(tables).1
}

} // verus!
