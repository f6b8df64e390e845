use crate::identity::{identity_text, Identity};
use std::collections::HashMap;
use std::collections::HashSet;
use vstd::prelude::*;
use vstd::std_specs::iter::IteratorSpec;

verus! {

// ---------------------------------------------------------------------------
// The wait-for graph as a mathematical object
// ---------------------------------------------------------------------------
//
// A graph maps a waiting actor's id to the identities of the callees it is
// blocked on, one entry per outstanding ask (a multiset of edges). Its view
// is a `Map<u64, Vec<Identity>>`.

/// `u` waits on `v`: some entry of `u`'s edge list has the id `v`.
pub open spec fn has_edge(g: Map<u64, Vec<Identity>>, u: u64, v: u64) -> bool {
    g.contains_key(u) && exists|i: int| 0 <= i < g[u]@.len() && (#[trigger] g[u]@[i]).id == v
}

/// Step `i` of the walk `p` follows an edge of `g`.
pub open spec fn walk_step(g: Map<u64, Vec<Identity>>, p: Seq<u64>, i: int) -> bool {
    has_edge(g, p[i], p[i + 1])
}

/// `p` is a non-empty sequence of ids in which each consecutive pair is an edge.
pub open spec fn is_walk(g: Map<u64, Vec<Identity>>, p: Seq<u64>) -> bool {
    &&& p.len() >= 1
    &&& forall|i: int| 0 <= i < p.len() - 1 ==> #[trigger] walk_step(g, p, i)
}

/// A directed path (possibly of length zero) leads from `from` to `to`.
pub open spec fn reachable(g: Map<u64, Vec<Identity>>, from: u64, to: u64) -> bool {
    exists|p: Seq<u64>| #[trigger] is_walk(g, p) && p[0] == from && p.last() == to
}

/// Every node is reachable from itself by the empty path.
pub proof fn lemma_reachable_refl(g: Map<u64, Vec<Identity>>, a: u64)
    ensures
        reachable(g, a, a),
{
    let p = seq![a];
    assert(is_walk(g, p));
}

/// Following one more edge keeps a node reachable.
pub proof fn lemma_reachable_step(g: Map<u64, Vec<Identity>>, a: u64, b: u64, c: u64)
    requires
        reachable(g, a, b),
        has_edge(g, b, c),
    ensures
        reachable(g, a, c),
{
    let p = choose|p: Seq<u64>| #[trigger] is_walk(g, p) && p[0] == a && p.last() == b;
    let q = p.push(c);
    assert forall|i: int| 0 <= i < q.len() - 1 implies #[trigger] walk_step(g, q, i) by {
        if i < p.len() - 1 {
            assert(walk_step(g, p, i));
        }
    }
    assert(is_walk(g, q));
}

/// A set closed under edges holds every node of every walk that starts in it.
proof fn lemma_closed_holds_walk(g: Map<u64, Vec<Identity>>, s: Set<u64>, p: Seq<u64>, k: int)
    requires
        is_walk(g, p),
        s.contains(p[0]),
        forall|v: u64, w: u64| s.contains(v) && #[trigger] has_edge(g, v, w) ==> s.contains(w),
        0 <= k < p.len(),
    ensures
        s.contains(p[k]),
    decreases k,
{
    if k > 0 {
        lemma_closed_holds_walk(g, s, p, k - 1);
        assert(walk_step(g, p, k - 1));
    }
}

/// Returns `true` if a directed path exists from `from` to `to` in the
/// wait-for graph (a node reaches itself). Iterative depth-first search with a
/// visited set, so branching and pre-existing cycles cannot cause unbounded
/// traversal.
pub fn has_path(graph: &HashMap<u64, Vec<Identity>>, from: u64, to: u64) -> (r: bool)
    ensures
        r == reachable(graph@, from, to),
{
    let ghost g = graph@;
    let mut stack: Vec<u64> = Vec::new();
    stack.push(from);
    let mut visited: HashSet<u64> = HashSet::new();
    proof {
        lemma_reachable_refl(g, from);
        assert(stack@[0] == from);
    }
    while stack.len() > 0
        invariant
            g == graph@,
            forall|k: int| 0 <= k < stack@.len() ==> reachable(g, from, #[trigger] stack@[k]),
            forall|v: u64| #[trigger] visited@.contains(v) ==> reachable(g, from, v),
            forall|v: u64, w: u64|
                visited@.contains(v) && #[trigger] has_edge(g, v, w) ==> visited@.contains(w)
                    || stack@.contains(w),
            visited@.contains(from) || stack@.contains(from),
            !visited@.contains(to),
        decreases g.dom().difference(visited@).len(), stack@.len(),
    {
        let ghost old_stack = stack@;
        let ghost old_visited = visited@;
        let current = stack.pop().unwrap();
        proof {
            assert(old_stack =~= stack@.push(current));
            assert(reachable(g, from, old_stack[old_stack.len() - 1]));
        }
        if current == to {
            return true;
        }
        if !visited.insert(current) {
            proof {
                assert(visited@ =~= old_visited);
            }
            continue;
        }
        proof {
            assert(g.dom().finite());
            if g.dom().contains(current) {
                assert(g.dom().difference(visited@) =~= g.dom().difference(old_visited).remove(
                    current,
                ));
            } else {
                assert(g.dom().difference(visited@) =~= g.dom().difference(old_visited));
            }
        }
        match graph.get(&current) {
            Some(edges) => {
                let ghost pushed_from = stack@;
                let mut j: usize = 0;
                while j < edges.len()
                    invariant
                        g == graph@,
                        g.contains_key(current),
                        g[current] == *edges,
                        visited@.contains(current),
                        reachable(g, from, current),
                        0 <= j <= edges@.len(),
                        stack@.len() >= pushed_from.len(),
                        forall|k: int|
                            0 <= k < pushed_from.len() ==> stack@[k] == #[trigger] pushed_from[k],
                        forall|k: int|
                            0 <= k < stack@.len() ==> reachable(g, from, #[trigger] stack@[k]),
                        forall|k: int| 0 <= k < j ==> stack@.contains(#[trigger] edges@[k].id),
                    decreases edges@.len() - j,
                {
                    let callee = edges[j].id;
                    proof {
                        assert(has_edge(g, current, callee)) by {
                            assert(g[current]@[j as int].id == callee);
                        }
                        lemma_reachable_step(g, from, current, callee);
                    }
                    let ghost before = stack@;
                    stack.push(callee);
                    proof {
                        assert(stack@[before.len() as int] == callee);
                        assert forall|k: int| 0 <= k < j + 1 implies stack@.contains(
                            #[trigger] edges@[k].id,
                        ) by {
                            if k < j {
                                let t = choose|t: int|
                                    0 <= t < before.len() && before[t] == edges@[k].id;
                                assert(stack@[t] == before[t]);
                            }
                        }
                    }
                    j = j + 1;
                }
                proof {
                    assert forall|v: u64, w: u64|
                        visited@.contains(v) && #[trigger] has_edge(g, v, w) implies visited@.contains(
                            w,
                        ) || stack@.contains(w) by {
                        if v == current {
                            let i = choose|i: int|
                                0 <= i < g[v]@.len() && (#[trigger] g[v]@[i]).id == w;
                            assert(edges@[i].id == w);
                        } else if !visited@.contains(w) {
                            assert(old_visited.contains(v));
                            if w != current {
                                assert(old_stack.contains(w));
                                let t = choose|t: int| 0 <= t < old_stack.len() && old_stack[t] == w;
                                assert(pushed_from[t] == w);
                                assert(stack@[t] == w);
                            }
                        }
                    }
                }
            },
            None => {
                proof {
                    assert forall|v: u64, w: u64|
                        visited@.contains(v) && #[trigger] has_edge(g, v, w) implies visited@.contains(
                            w,
                        ) || stack@.contains(w) by {
                        if !visited@.contains(w) {
                            assert(v != current);
                            assert(old_visited.contains(v));
                            if w != current {
                                assert(old_stack.contains(w));
                                let t = choose|t: int| 0 <= t < old_stack.len() && old_stack[t] == w;
                                assert(stack@[t] == w);
                            }
                        }
                    }
                }
            },
        }
    }
    proof {
        if reachable(g, from, to) {
            let p = choose|p: Seq<u64>| #[trigger] is_walk(g, p) && p[0] == from && p.last() == to;
            lemma_closed_holds_walk(g, visited@, p, p.len() - 1);
        }
    }
    false
}


// ---------------------------------------------------------------------------
// Paths of identities
// ---------------------------------------------------------------------------

/// Step `i` of `p` is an edge of `g`: `p[i + 1]` is one of the entries of
/// `p[i]`'s edge list (so the identity itself, not only its id, comes from
/// the graph).
pub open spec fn chain_step(g: Map<u64, Vec<Identity>>, p: Seq<Identity>, i: int) -> bool {
    g.contains_key(p[i].id) && g[p[i].id]@.contains(p[i + 1])
}

/// `p` is a non-empty chain of identities along edges of `g`.
pub open spec fn is_chain(g: Map<u64, Vec<Identity>>, p: Seq<Identity>) -> bool {
    &&& p.len() >= 1
    &&& forall|i: int| 0 <= i < p.len() - 1 ==> #[trigger] chain_step(g, p, i)
}

/// The nodes of `p` before its last one all lie in `s` and have pairwise
/// distinct ids.
pub open spec fn settled_prefix(p: Seq<Identity>, s: Set<u64>) -> bool {
    &&& forall|i: int| 0 <= i < p.len() - 1 ==> s.contains(#[trigger] p[i].id)
    &&& forall|i: int, j: int|
        0 <= i < j < p.len() - 1 ==> (#[trigger] p[i]).id != (#[trigger] p[j]).id
}

/// No id occurs twice in `p`.
pub open spec fn distinct_ids(p: Seq<Identity>) -> bool {
    forall|i: int, j: int| 0 <= i < j < p.len() ==> (#[trigger] p[i]).id != (#[trigger] p[j]).id
}

/// The ids along a chain of identities.
pub open spec fn chain_ids(p: Seq<Identity>) -> Seq<u64> {
    p.map_values(|c: Identity| c.id)
}

/// The id at the end of a non-empty path.
pub open spec fn last_id(p: Vec<Identity>) -> u64 {
    p@.last().id
}

/// Some path on the stack ends at `w`.
pub open spec fn some_path_ends_at(stack: Seq<Vec<Identity>>, w: u64) -> bool {
    exists|k: int| 0 <= k < stack.len() && #[trigger] last_id(stack[k]) == w
}

/// The ids of a chain form a walk.
pub proof fn lemma_chain_is_walk(g: Map<u64, Vec<Identity>>, p: Seq<Identity>)
    requires
        is_chain(g, p),
    ensures
        is_walk(g, chain_ids(p)),
{
    let q = chain_ids(p);
    assert forall|i: int| 0 <= i < q.len() - 1 implies #[trigger] walk_step(g, q, i) by {
        assert(chain_step(g, p, i));
        let j = choose|j: int| 0 <= j < g[p[i].id]@.len() && g[p[i].id]@[j] == p[i + 1];
        assert(g[q[i]]@[j].id == q[i + 1]);
    }
}

/// Appending an entry of the last node's edge list extends a chain.
proof fn lemma_chain_push(g: Map<u64, Vec<Identity>>, p: Seq<Identity>, c: Identity)
    requires
        is_chain(g, p),
        g.contains_key(p.last().id),
        g[p.last().id]@.contains(c),
    ensures
        is_chain(g, p.push(c)),
{
    let q = p.push(c);
    assert forall|i: int| 0 <= i < q.len() - 1 implies #[trigger] chain_step(g, q, i) by {
        if i < p.len() - 1 {
            assert(chain_step(g, p, i));
        }
    }
}

/// A copy of `path` with `next` appended.
fn extended(path: &Vec<Identity>, next: Identity) -> (r: Vec<Identity>)
    ensures
        r@ == path@.push(next),
{
    let mut r: Vec<Identity> = Vec::new();
    let mut i: usize = 0;
    while i < path.len()
        invariant
            0 <= i <= path@.len(),
            r@ =~= path@.subrange(0, i as int),
        decreases path@.len() - i,
    {
        r.push(path[i]);
        i = i + 1;
    }
    r.push(next);
    r
}

/// The chains that extend `path` by each entry of `edges`, in order.
pub open spec fn extensions(path: Seq<Identity>, edges: Seq<Identity>) -> Seq<Seq<Identity>> {
    edges.map_values(|e: Identity| path.push(e))
}

/// The views of the chains on a search stack.
pub open spec fn stack_view(stack: Seq<Vec<Identity>>) -> Seq<Seq<Identity>> {
    stack.map_values(|v: Vec<Identity>| v@)
}

/// The chain a depth-first search finds: the search takes the chain on top
/// of `stack`; returns it when it ends at `target`; drops it when its end was
/// already expanded; otherwise marks its end as expanded and pushes its
/// extensions by each of the end's edges, in edge-list order (so the last
/// edge is explored first).
pub open spec fn dfs_search(
    g: Map<u64, Vec<Identity>>,
    stack: Seq<Seq<Identity>>,
    visited: Set<u64>,
    target: u64,
) -> Option<Seq<Identity>>
    decreases g.dom().difference(visited).len(), stack.len(),
    when g.dom().finite()
{
    if stack.len() == 0 {
        None
    } else {
        let path = stack.last();
        let rest = stack.drop_last();
        let current = path.last().id;
        if current == target {
            Some(path)
        } else if visited.contains(current) {
            dfs_search(g, rest, visited, target)
        } else {
            proof {
                if g.dom().contains(current) {
                    assert(g.dom().difference(visited.insert(current)) =~= g.dom().difference(
                        visited,
                    ).remove(current));
                } else {
                    assert(g.dom().difference(visited.insert(current)) =~= g.dom().difference(
                        visited,
                    ));
                    assert(rest + extensions(path, edges_of(g, current)) =~= rest);
                }
            }
            dfs_search(
                g,
                rest + extensions(path, edges_of(g, current)),
                visited.insert(current),
                target,
            )
        }
    }
}

/// The chain the search from `start` alone finds.
pub open spec fn dfs_path(g: Map<u64, Vec<Identity>>, start: Identity, target: u64) -> Option<
    Seq<Identity>,
> {
    dfs_search(g, seq![seq![start]], Set::empty(), target)
}

/// Depth-first search that returns an actual `start -> ... -> target` path
/// (inclusive of both endpoints) if one exists, reconstructing the identities
/// along the way from the graph's edge lists.
pub fn find_path(graph: &HashMap<u64, Vec<Identity>>, start: Identity, target: u64) -> (r: Option<
    Vec<Identity>,
>)
    ensures
        r is Some <==> reachable(graph@, start.id, target),
        r matches Some(p) ==> {
            &&& is_chain(graph@, p@)
            &&& p@[0] == start
            &&& p@.last().id == target
            &&& distinct_ids(p@)
        },
        r matches Some(p) ==> dfs_path(graph@, start, target) == Some(p@),
        r is None ==> dfs_path(graph@, start, target) is None,
{
    let ghost g = graph@;
    let ghost result = dfs_path(g, start, target);
    let mut first: Vec<Identity> = Vec::new();
    first.push(start);
    let mut stack: Vec<Vec<Identity>> = Vec::new();
    stack.push(first);
    let mut visited: HashSet<u64> = HashSet::new();
    proof {
        assert(is_chain(g, stack@[0]@));
        assert(last_id(stack@[0]) == start.id);
        assert(stack_view(stack@) =~= seq![seq![start]]);
        assert(visited@ =~= Set::<u64>::empty());
    }
    while stack.len() > 0
        invariant
            g == graph@,
            forall|k: int|
                0 <= k < stack@.len() ==> is_chain(g, #[trigger] stack@[k]@) && stack@[k]@[0]
                    == start,
            forall|v: u64| #[trigger] visited@.contains(v) ==> reachable(g, start.id, v),
            forall|v: u64, w: u64|
                visited@.contains(v) && #[trigger] has_edge(g, v, w) ==> visited@.contains(w)
                    || some_path_ends_at(stack@, w),
            visited@.contains(start.id) || some_path_ends_at(stack@, start.id),
            !visited@.contains(target),
            forall|k: int| 0 <= k < stack@.len() ==> settled_prefix(#[trigger] stack@[k]@, visited@),
            g.dom().finite(),
            dfs_search(g, stack_view(stack@), visited@, target) == result,
            result == dfs_path(g, start, target),
        decreases g.dom().difference(visited@).len(), stack@.len(),
    {
        let ghost old_stack = stack@;
        let ghost old_visited = visited@;
        let path = stack.pop().unwrap();
        proof {
            assert(settled_prefix(old_stack[old_stack.len() - 1]@, old_visited));
            assert(stack_view(old_stack).drop_last() =~= stack_view(stack@));
            assert(stack_view(old_stack).last() == path@);
        }
        let current = path[path.len() - 1];
        proof {
            assert(old_stack =~= stack@.push(path));
            assert(is_chain(g, old_stack[old_stack.len() - 1]@));
            lemma_chain_is_walk(g, path@);
            assert(is_walk(g, chain_ids(path@)));
            assert(reachable(g, start.id, current.id));
            assert forall|w: u64| #[trigger] some_path_ends_at(old_stack, w) && w != current.id
                implies some_path_ends_at(stack@, w) by {
                let k = choose|k: int| 0 <= k < old_stack.len() && #[trigger] last_id(old_stack[k]) == w;
                assert(k < stack@.len());
                assert(last_id(stack@[k]) == w);
            }
        }
        if current.id == target {
            proof {
                assert forall|i: int, j: int| 0 <= i < j < path@.len() implies (#[trigger] path@[i]).id
                    != (#[trigger] path@[j]).id by {
                    if j == path@.len() - 1 {
                        assert(old_visited.contains(path@[i].id));
                    }
                }
            }
            assert(path@.last() == current);
            assert(stack_view(old_stack).len() > 0);
            assert(dfs_search(g, stack_view(old_stack), old_visited, target) == Some(path@));
            return Some(path);
        }
        if !visited.insert(current.id) {
            proof {
                assert(visited@ =~= old_visited);
            }
            continue;
        }
        let ghost rest = stack_view(stack@);
        proof {
            assert(g.dom().finite());
            if g.dom().contains(current.id) {
                assert(g.dom().difference(visited@) =~= g.dom().difference(old_visited).remove(
                    current.id,
                ));
            } else {
                assert(g.dom().difference(visited@) =~= g.dom().difference(old_visited));
            }
        }
        match graph.get(&current.id) {
            Some(edges) => {
                let ghost pushed_from = stack@;
                let mut j: usize = 0;
                while j < edges.len()
                    invariant
                        g == graph@,
                        g.contains_key(current.id),
                        g[current.id] == *edges,
                        is_chain(g, path@),
                        path@[0] == start,
                        path@.last() == current,
                        0 <= j <= edges@.len(),
                        stack@.len() >= pushed_from.len(),
                        forall|k: int|
                            0 <= k < pushed_from.len() ==> stack@[k] == #[trigger] pushed_from[k],
                        forall|k: int|
                            0 <= k < stack@.len() ==> is_chain(g, #[trigger] stack@[k]@)
                                && stack@[k]@[0] == start,
                        forall|k: int|
                            0 <= k < j ==> some_path_ends_at(stack@, #[trigger] edges@[k].id),
                        forall|k: int|
                            0 <= k < stack@.len() ==> settled_prefix(#[trigger] stack@[k]@, visited@),
                        settled_prefix(path@, old_visited),
                        visited@ == old_visited.insert(current.id),
                        !old_visited.contains(current.id),
                        rest == stack_view(pushed_from),
                        stack_view(stack@) =~= rest + extensions(path@, edges@.take(j as int)),
                    decreases edges@.len() - j,
                {
                    let callee = edges[j];
                    proof {
                        assert(g[current.id]@[j as int] == callee);
                        lemma_chain_push(g, path@, callee);
                    }
                    let next = extended(&path, callee);
                    proof {
                        let q = next@;
                        assert forall|i: int| 0 <= i < q.len() - 1 implies visited@.contains(
                            #[trigger] q[i].id,
                        ) by {
                            if i < path@.len() - 1 {
                                assert(old_visited.contains(path@[i].id));
                            }
                        }
                        assert forall|i: int, k: int| 0 <= i < k < q.len() - 1 implies (
                        #[trigger] q[i]).id != (#[trigger] q[k]).id by {
                            assert(q[i] == path@[i]);
                            assert(q[k] == path@[k]);
                            if k == path@.len() - 1 {
                                assert(old_visited.contains(path@[i].id));
                            }
                        }
                        assert(settled_prefix(q, visited@));
                    }
                    let ghost before = stack@;
                    stack.push(next);
                    proof {
                        assert(stack_view(stack@) =~= stack_view(before).push(next@));
                        assert(extensions(path@, edges@.take(j + 1)) =~= extensions(
                            path@,
                            edges@.take(j as int),
                        ).push(path@.push(callee)));
                        assert(last_id(stack@[before.len() as int]) == callee.id);
                        assert forall|k: int| 0 <= k < j + 1 implies some_path_ends_at(
                            stack@,
                            #[trigger] edges@[k].id,
                        ) by {
                            if k < j {
                                let t = choose|t: int|
                                    0 <= t < before.len() && #[trigger] last_id(before[t])
                                        == edges@[k].id;
                                assert(stack@[t] == before[t]);
                            }
                        }
                    }
                    j = j + 1;
                }
                proof {
                    assert forall|v: u64, w: u64|
                        visited@.contains(v) && #[trigger] has_edge(g, v, w) implies visited@.contains(
                            w,
                        ) || some_path_ends_at(stack@, w) by {
                        if v == current.id {
                            let i = choose|i: int|
                                0 <= i < g[v]@.len() && (#[trigger] g[v]@[i]).id == w;
                            assert(edges@[i].id == w);
                        } else if !visited@.contains(w) {
                            assert(old_visited.contains(v));
                            if w != current.id {
                                assert(some_path_ends_at(old_stack, w));
                                assert(some_path_ends_at(pushed_from, w));
                                let t = choose|t: int|
                                    0 <= t < pushed_from.len() && #[trigger] last_id(pushed_from[t]) == w;
                                assert(stack@[t] == pushed_from[t]);
                            }
                        }
                    }
                    assert(edges@.take(edges@.len() as int) =~= edges@);
                    assert(edges_of(g, current.id) == edges@);
                    assert(stack_view(stack@) == rest + extensions(path@, edges_of(g, current.id)));
                }
            },
            None => {
                proof {
                    assert forall|v: u64, w: u64|
                        visited@.contains(v) && #[trigger] has_edge(g, v, w) implies visited@.contains(
                            w,
                        ) || some_path_ends_at(stack@, w) by {
                        if !visited@.contains(w) {
                            assert(v != current.id);
                            assert(old_visited.contains(v));
                        }
                    }
                    assert(edges_of(g, current.id) =~= Seq::<Identity>::empty());
                    assert(rest + extensions(path@, edges_of(g, current.id)) =~= rest);
                }
            },
        }
    }
    proof {
        if reachable(g, start.id, target) {
            let p = choose|p: Seq<u64>| #[trigger] is_walk(g, p) && p[0] == start.id && p.last() == target;
            lemma_closed_holds_walk(g, visited@, p, p.len() - 1);
        }
    }
    None
}


// ---------------------------------------------------------------------------
// Rendering a cycle
// ---------------------------------------------------------------------------

/// The separator between the nodes of a rendered path.
pub open spec fn arrow() -> Seq<char> {
    seq![' ', '-', '>', ' ']
}

/// The parts joined by [`arrow`].
pub open spec fn join_arrow(parts: Seq<Seq<char>>) -> Seq<char>
    decreases parts.len(),
{
    if parts.len() == 0 {
        Seq::empty()
    } else if parts.len() == 1 {
        parts[0]
    } else {
        join_arrow(parts.drop_last()) + arrow() + parts.last()
    }
}

/// A chain of identities rendered as `A(#1) -> B(#2) -> ...`.
pub open spec fn render(p: Seq<Identity>) -> Seq<char> {
    join_arrow(p.map_values(|c: Identity| identity_text(c)))
}

proof fn lemma_render_take(p: Seq<Identity>, i: int)
    requires
        1 <= i < p.len(),
    ensures
        render(p.take(i + 1)) == render(p.take(i)) + arrow() + identity_text(p[i]),
{
    let parts = p.take(i + 1).map_values(|c: Identity| identity_text(c));
    assert(parts.drop_last() =~= p.take(i).map_values(|c: Identity| identity_text(c)));
}

/// Renders a non-empty chain of identities as `A(#1) -> B(#2) -> ...`.
pub fn render_chain(p: &Vec<Identity>) -> (s: String)
    requires
        p@.len() >= 1,
    ensures
        s@ == render(p@),
{
    let mut s = p[0].to_string();
    proof {
        let parts = p@.take(1).map_values(|c: Identity| identity_text(c));
        assert(parts.len() == 1);
    }
    let mut i: usize = 1;
    while i < p.len()
        invariant
            1 <= i <= p@.len(),
            s@ == render(p@.take(i as int)),
        decreases p@.len() - i,
    {
        proof {
            lemma_render_take(p@, i as int);
            reveal_strlit(" -> ");
        }
        s.append(" -> ");
        let part = p[i].to_string();
        s.append(part.as_str());
        i = i + 1;
    }
    proof {
        assert(p@.take(p@.len() as int) =~= p@);
    }
    s
}

/// `text` is how a cycle closed by the new edge `caller -> callee` is
/// rendered: `caller -> caller` for a self-ask; otherwise `caller` followed by
/// an existing chain from `callee` back to `caller` that visits no actor
/// twice, or `caller -> callee`
/// when no such chain exists.
pub open spec fn renders_cycle(
    g: Map<u64, Vec<Identity>>,
    caller: Identity,
    callee: Identity,
    text: Seq<char>,
) -> bool {
    if caller.id == callee.id {
        text == render(seq![caller, caller])
    } else if reachable(g, callee.id, caller.id) {
        exists|p: Seq<Identity>|
            #[trigger] is_chain(g, p) && p[0] == callee && p.last().id == caller.id
                && distinct_ids(p) && text == render(seq![caller] + p)
    } else {
        text == render(seq![caller, callee])
    }
}

/// The rendering of the cycle closed by the new edge `caller -> callee`:
/// `caller -> caller` for a self-ask; otherwise `caller` followed by the
/// chain the depth-first search finds from `callee` back to `caller`, or
/// `caller -> callee` when there is none.
pub open spec fn cycle_text(g: Map<u64, Vec<Identity>>, caller: Identity, callee: Identity) -> Seq<
    char,
> {
    if caller.id == callee.id {
        render(seq![caller, caller])
    } else {
        match dfs_path(g, callee, caller.id) {
            Some(p) => render(seq![caller] + p),
            None => render(seq![caller, callee]),
        }
    }
}

/// Formats the cycle path for panic messages:
/// `caller -> callee -> ... -> caller`.
pub fn format_cycle_path(
    graph: &HashMap<u64, Vec<Identity>>,
    caller: Identity,
    callee: Identity,
) -> (s: String)
    ensures
        s@ == cycle_text(graph@, caller, callee),
        renders_cycle(graph@, caller, callee, s@),
{
    let mut chain: Vec<Identity> = Vec::new();
    chain.push(caller);
    if caller.id == callee.id {
        chain.push(caller);
        assert(chain@ =~= seq![caller, caller]);
        return render_chain(&chain);
    }
    match find_path(graph, callee, caller.id) {
        Some(nodes) => {
            let mut i: usize = 0;
            while i < nodes.len()
                invariant
                    0 <= i <= nodes@.len(),
                    chain@ =~= seq![caller] + nodes@.take(i as int),
                decreases nodes@.len() - i,
            {
                chain.push(nodes[i]);
                i = i + 1;
            }
            proof {
                assert(nodes@.take(nodes@.len() as int) =~= nodes@);
                assert(is_chain(graph@, nodes@));
            }
            let s = render_chain(&chain);
            assert(s@ == render(seq![caller] + nodes@));
            s
        },
        None => {
            chain.push(callee);
            assert(chain@ =~= seq![caller, callee]);
            render_chain(&chain)
        },
    }
}


// ---------------------------------------------------------------------------
// Maintaining the graph
// ---------------------------------------------------------------------------

/// The edge list of `u` (empty when `u` waits on nobody).
pub open spec fn edges_of(g: Map<u64, Vec<Identity>>, u: u64) -> Seq<Identity> {
    if g.contains_key(u) {
        g[u]@
    } else {
        Seq::empty()
    }
}

/// `i` is the first position of an entry with id `id`.
pub open spec fn is_first_index(edges: Seq<Identity>, id: u64, i: int) -> bool {
    &&& 0 <= i < edges.len()
    &&& edges[i].id == id
    &&& forall|j: int| 0 <= j < i ==> (#[trigger] edges[j]).id != id
}

/// The edge list after dropping one entry with id `id`: the first such entry
/// is replaced by the last entry and the list shrinks by one (a swap-remove);
/// a list without such an entry is unchanged.
pub open spec fn edges_without(edges: Seq<Identity>, id: u64) -> Seq<Identity> {
    if exists|i: int| #[trigger] is_first_index(edges, id, i) {
        let i = choose|i: int| #[trigger] is_first_index(edges, id, i);
        edges.update(i, edges.last()).drop_last()
    } else {
        edges
    }
}

/// `new` is `old` with one `caller -> callee_id` edge removed; a caller left
/// with no edges disappears from the graph.
pub open spec fn edge_removed(
    old: Map<u64, Vec<Identity>>,
    new: Map<u64, Vec<Identity>>,
    caller: u64,
    callee_id: u64,
) -> bool {
    let rest = edges_without(edges_of(old, caller), callee_id);
    if !old.contains_key(caller) {
        new == old
    } else if rest.len() == 0 {
        new == old.remove(caller)
    } else {
        &&& new.dom() == old.dom()
        &&& new.remove(caller) == old.remove(caller)
        &&& new[caller]@ == rest
    }
}

/// `new` is `old` with the edge `caller -> callee` appended to `caller`'s list.
pub open spec fn edge_added(
    old: Map<u64, Vec<Identity>>,
    new: Map<u64, Vec<Identity>>,
    caller: u64,
    callee: Identity,
) -> bool {
    &&& new.dom() == old.dom().insert(caller)
    &&& new.remove(caller) == old.remove(caller)
    &&& new[caller]@ == edges_of(old, caller).push(callee)
}

/// Removes a single `caller -> callee` edge from the graph (multiset
/// semantics): two concurrent asks to the same callee push two entries and
/// this removes only one of them, clearing the key once the last edge is gone.
pub fn remove_edge(graph: &mut HashMap<u64, Vec<Identity>>, caller: u64, callee_id: u64)
    ensures
        edge_removed(old(graph)@, final(graph)@, caller, callee_id),
        acyclic(old(graph)@) ==> acyclic(final(graph)@),
{
    let ghost old_g = graph@;
    let removed = graph.remove(&caller);
    match removed {
        None => {
            assert(graph@ =~= old_g);
        },
        Some(edges) => {
            let mut edges = edges;
            let ghost e = edges@;
            let mut pos: Option<usize> = None;
            let mut i: usize = 0;
            while i < edges.len()
                invariant
                    edges@ == e,
                    0 <= i <= e.len(),
                    pos is None ==> forall|j: int| 0 <= j < i ==> (#[trigger] e[j]).id != callee_id,
                    pos matches Some(k) ==> k < i && is_first_index(e, callee_id, k as int),
                decreases e.len() - i,
            {
                if pos.is_none() && edges[i].id == callee_id {
                    pos = Some(i);
                }
                i = i + 1;
            }
            match pos {
                Some(k) => {
                    proof {
                        let c = choose|c: int| #[trigger] is_first_index(e, callee_id, c);
                        assert(c == k as int) by {
                            if c < k as int {
                                assert(e[c].id != callee_id);
                            }
                            if c > k as int {
                                assert(e[k as int].id != callee_id);
                            }
                        }
                    }
                    edges.swap_remove(k);
                },
                None => {
                    assert(!exists|c: int| #[trigger] is_first_index(e, callee_id, c));
                },
            }
            assert(edges@ == edges_without(e, callee_id));
            if !edges.is_empty() {
                graph.insert(caller, edges);
                assert(graph@.dom() =~= old_g.dom());
                assert(graph@.remove(caller) =~= old_g.remove(caller));
            }
        },
    }
    proof {
        if acyclic(old_g) {
            lemma_remove_keeps_acyclic(old_g, graph@, caller, callee_id);
        }
    }
}

/// The panic message of a detected deadlock.
pub open spec fn deadlock_message(operation: Seq<char>, cycle: Seq<char>) -> Seq<char> {
    "Deadlock detected: "@ + operation + " cycle "@ + cycle
        + "\nThis is a design error. Use `tell` to break the cycle, or restructure actor dependencies."@
}

/// The words every deadlock panic message starts with.
pub open spec fn deadlock_prefix() -> Seq<char> {
    "Deadlock detected"@
}

/// Whether a panic's text reports a detected deadlock, i.e. starts with
/// [`deadlock_prefix`]. Such a panic is passed on to the caller rather than
/// turned into an error.
pub fn is_deadlock_panic(text: &str) -> (r: bool)
    ensures
        r == deadlock_prefix().is_prefix_of(text@),
{
    broadcast use vstd::string::next_postcondition, vstd::string::axiom_spec_iter;

    let prefix = "Deadlock detected";
    proof {
        reveal_strlit("Deadlock detected");
    }
    let mut wanted = prefix.chars();
    let mut seen = text.chars();
    let ghost mut i: int = 0;
    loop
        invariant
            0 <= i <= deadlock_prefix().len(),
            i <= text@.len(),
            wanted.remaining() == deadlock_prefix().skip(i),
            seen.remaining() == text@.skip(i),
            deadlock_prefix().take(i) == text@.take(i),
        decreases deadlock_prefix().len() - i,
    {
        match wanted.next() {
            None => {
                assert(deadlock_prefix().take(i) == deadlock_prefix());
                return true;
            },
            Some(w) => {
                match seen.next() {
                    None => {
                        return false;
                    },
                    Some(c) => {
                        if c != w {
                            proof {
                                assert(text@.skip(i)[0] == text@[i]);
                                assert(deadlock_prefix().skip(i)[0] == deadlock_prefix()[i]);
                                if deadlock_prefix().is_prefix_of(text@) {
                                    assert(text@.subrange(0, deadlock_prefix().len() as int)[i]
                                        == text@[i]);
                                }
                            }
                            return false;
                        }
                        proof {
                            assert(deadlock_prefix().take(i + 1) =~= deadlock_prefix().take(i).push(w));
                            assert(text@.take(i + 1) =~= text@.take(i).push(c));
                            i = i + 1;
                        }
                    },
                }
            },
        }
    }
}

/// The panic message of an admission wait on an actor's own full mailbox
/// from inside one of its own handlers.
pub open spec fn self_send_message(operation: Seq<char>, target: Identity) -> Seq<char> {
    "Deadlock detected: "@ + operation + " to self on a full mailbox from inside actor "@
        + identity_text(target)
        + "'s own handler or lifecycle hook.\nThe mailbox's only consumer is this actor's runtime loop, which is parked awaiting the current handler, so admission can never succeed and kill() cannot interrupt the wait. Use tell_with_timeout, a larger mailbox capacity, or send from a spawned task."@
}

/// Decides whether waiting for room in `target`'s full mailbox deadlocks:
/// it does exactly when the code waiting runs inside `target`'s own handler
/// (`current` is the actor whose handler is running, if any). Returns the
/// panic message in that case.
pub fn self_send_deadlock(current: Option<Identity>, target: Identity, operation: &str) -> (r:
    Option<String>)
    ensures
        r is Some <==> (current matches Some(c) && c.id == target.id),
        r matches Some(m) ==> m@ == self_send_message(operation@, target),
{
    match current {
        Some(c) => {
            if c.id == target.id {
                let mut m = String::from_str("Deadlock detected: ");
                m.append(operation);
                m.append(" to self on a full mailbox from inside actor ");
                let t = target.to_string();
                m.append(t.as_str());
                m.append(
                    "'s own handler or lifecycle hook.\nThe mailbox's only consumer is this actor's runtime loop, which is parked awaiting the current handler, so admission can never succeed and kill() cannot interrupt the wait. Use tell_with_timeout, a larger mailbox capacity, or send from a spawned task.",
                );
                Some(m)
            } else {
                None
            }
        },
        None => None,
    }
}

/// One registered wait-for edge. The `removed` flag makes removal idempotent:
/// whichever of its two owners (the caller's guard, the callee's token) fires
/// first removes the edge, the other does nothing.
pub struct AskEdge {
    pub caller: u64,
    pub callee_id: u64,
    pub removed: bool,
}

impl AskEdge {
    /// Removes the edge from the graph exactly once, no matter how many times
    /// this is called.
    pub fn remove_once(&mut self, graph: &mut HashMap<u64, Vec<Identity>>)
        ensures
            final(self).caller == old(self).caller,
            final(self).callee_id == old(self).callee_id,
            final(self).removed,
            old(self).removed ==> final(graph)@ == old(graph)@,
            !old(self).removed ==> edge_removed(
                old(graph)@,
                final(graph)@,
                old(self).caller,
                old(self).callee_id,
            ),
    {
        if self.removed {
            return;
        }
        self.removed = true;
        remove_edge(graph, self.caller, self.callee_id);
    }
}

/// Without an out-edge from `from`, only `from` itself is reachable.
proof fn lemma_no_out_edges(g: Map<u64, Vec<Identity>>, from: u64, to: u64)
    requires
        !g.contains_key(from),
        from != to,
    ensures
        !reachable(g, from, to),
{
    if reachable(g, from, to) {
        let p = choose|p: Seq<u64>| #[trigger] is_walk(g, p) && p[0] == from && p.last() == to;
        assert(walk_step(g, p, 0));
    }
}

/// Registers a `caller -> callee` wait-for edge for an outstanding ask and
/// returns the edge, which removes itself from the graph exactly once.
///
/// When adding the edge would close a cycle (a self-ask, or the callee
/// already waits, directly or transitively, on the caller) the graph is left
/// alone and the deadlock message naming the cycle is returned instead.
pub fn register_ask_edge(
    graph: &mut HashMap<u64, Vec<Identity>>,
    caller: Identity,
    callee: Identity,
    operation: &str,
) -> (r: Result<AskEdge, String>)
    ensures
        r is Err <==> (caller.id == callee.id || reachable(old(graph)@, callee.id, caller.id)),
        r matches Err(m) ==> {
            &&& final(graph)@ == old(graph)@
            &&& m@ == deadlock_message(operation@, cycle_text(old(graph)@, caller, callee))
            &&& renders_cycle(old(graph)@, caller, callee, cycle_text(old(graph)@, caller, callee))
        },
        r matches Ok(edge) ==> {
            &&& edge_added(old(graph)@, final(graph)@, caller.id, callee)
            &&& edge.caller == caller.id
            &&& edge.callee_id == callee.id
            &&& !edge.removed
        },
        acyclic(old(graph)@) && r is Ok ==> acyclic(final(graph)@),
{
    let ghost old_g = graph@;
    if caller.id == callee.id || (graph.contains_key(&callee.id) && has_path(
        graph,
        callee.id,
        caller.id,
    )) {
        let cycle = format_cycle_path(graph, caller, callee);
        let mut m = String::from_str("Deadlock detected: ");
        m.append(operation);
        m.append(" cycle ");
        m.append(cycle.as_str());
        m.append(
            "\nThis is a design error. Use `tell` to break the cycle, or restructure actor dependencies.",
        );
        assert(renders_cycle(old_g, caller, callee, cycle@));
        return Err(m);
    }
    proof {
        if !old_g.contains_key(callee.id) {
            lemma_no_out_edges(old_g, callee.id, caller.id);
        }
    }
    let mut edges = match graph.remove(&caller.id) {
        Some(e) => e,
        None => Vec::new(),
    };
    assert(edges@ == edges_of(old_g, caller.id));
    edges.push(callee);
    graph.insert(caller.id, edges);
    assert(graph@.dom() =~= old_g.dom().insert(caller.id));
    assert(graph@.remove(caller.id) =~= old_g.remove(caller.id));
    proof {
        if acyclic(old_g) {
            lemma_register_keeps_acyclic(old_g, graph@, caller, callee);
        }
    }
    Ok(AskEdge { caller: caller.id, callee_id: callee.id, removed: false })
}


// ---------------------------------------------------------------------------
// Laws of the wait-for graph
// ---------------------------------------------------------------------------

/// No walk with at least one edge returns to its start: nobody waits,
/// directly or transitively, on itself.
pub open spec fn acyclic(g: Map<u64, Vec<Identity>>) -> bool {
    forall|p: Seq<u64>| #[trigger] is_walk(g, p) && p.len() >= 2 ==> p[0] != p.last()
}

/// Every key of the graph has at least one edge.
pub open spec fn no_empty_lists(g: Map<u64, Vec<Identity>>) -> bool {
    forall|u: u64| #[trigger] g.contains_key(u) ==> g[u]@.len() > 0
}

/// Reachability is transitive.
pub proof fn lemma_reachable_trans(g: Map<u64, Vec<Identity>>, a: u64, b: u64, c: u64)
    requires
        reachable(g, a, b),
        reachable(g, b, c),
    ensures
        reachable(g, a, c),
{
    let q = choose|q: Seq<u64>| #[trigger] is_walk(g, q) && q[0] == b && q.last() == c;
    lemma_reachable_along(g, a, q, q.len() - 1);
}

proof fn lemma_reachable_along(g: Map<u64, Vec<Identity>>, a: u64, q: Seq<u64>, k: int)
    requires
        is_walk(g, q),
        reachable(g, a, q[0]),
        0 <= k < q.len(),
    ensures
        reachable(g, a, q[k]),
    decreases k,
{
    if k > 0 {
        lemma_reachable_along(g, a, q, k - 1);
        assert(walk_step(g, q, k - 1));
        lemma_reachable_step(g, a, q[k - 1], q[k]);
    }
}

/// After an edge is added, the edges are the old ones plus the new one.
proof fn lemma_added_edges(
    old: Map<u64, Vec<Identity>>,
    new: Map<u64, Vec<Identity>>,
    caller: u64,
    callee: Identity,
)
    requires
        edge_added(old, new, caller, callee),
    ensures
        forall|u: u64, w: u64|
            #[trigger] has_edge(new, u, w) <==> has_edge(old, u, w) || (u == caller && w
                == callee.id),
{
    assert forall|u: u64, w: u64| #[trigger] has_edge(new, u, w) <==> has_edge(old, u, w) || (u
        == caller && w == callee.id) by {
        if u != caller {
            assert(new.remove(caller)[u] == new[u]);
            assert(old.remove(caller).contains_key(u) == old.contains_key(u));
            assert(new.remove(caller).contains_key(u) == new.contains_key(u));
            if old.contains_key(u) {
                assert(old.remove(caller)[u] == old[u]);
            }
        } else {
            let e = edges_of(old, caller);
            if has_edge(old, u, w) {
                let i = choose|i: int| 0 <= i < old[u]@.len() && (#[trigger] old[u]@[i]).id == w;
                assert(new[u]@[i] == e[i]);
            }
            if u == caller && w == callee.id {
                assert(new[u]@[e.len() as int] == callee);
            }
            if has_edge(new, u, w) {
                let i = choose|i: int| 0 <= i < new[u]@.len() && (#[trigger] new[u]@[i]).id == w;
                if i < e.len() {
                    assert(old[u]@[i] == new[u]@[i]);
                }
            }
        }
    }
}

/// A walk in the grown graph either stays in the old graph, or passes the new
/// edge `caller -> callee`: then its start reaches `caller` and `callee`
/// reaches its end, both in the old graph.
proof fn lemma_walk_split(
    old: Map<u64, Vec<Identity>>,
    new: Map<u64, Vec<Identity>>,
    caller: u64,
    callee: u64,
    p: Seq<u64>,
)
    requires
        forall|u: u64, w: u64|
            #[trigger] has_edge(new, u, w) <==> has_edge(old, u, w) || (u == caller && w == callee),
        is_walk(new, p),
    ensures
        is_walk(old, p) || (reachable(old, p[0], caller) && reachable(old, callee, p.last())),
    decreases p.len(),
{
    if p.len() >= 2 {
        let q = p.drop_last();
        assert forall|i: int| 0 <= i < q.len() - 1 implies #[trigger] walk_step(new, q, i) by {
            assert(walk_step(new, p, i));
        }
        lemma_walk_split(old, new, caller, callee, q);
        let x = q.last();
        let y = p.last();
        assert(walk_step(new, p, p.len() - 2));
        if is_walk(old, q) {
            if has_edge(old, x, y) {
                assert forall|i: int| 0 <= i < p.len() - 1 implies #[trigger] walk_step(old, p, i) by {
                    if i < p.len() - 2 {
                        assert(walk_step(old, q, i));
                    }
                }
            } else {
                assert(reachable(old, p[0], x));
                lemma_reachable_refl(old, callee);
            }
        } else {
            if has_edge(old, x, y) {
                lemma_reachable_step(old, callee, x, y);
            } else {
                lemma_reachable_refl(old, callee);
            }
        }
    }
}

/// Registering an edge keeps the wait-for graph free of cycles: when the
/// registration succeeds (no self-ask, and the callee does not already reach
/// the caller), no actor ends up waiting on itself.
pub proof fn lemma_register_keeps_acyclic(
    old: Map<u64, Vec<Identity>>,
    new: Map<u64, Vec<Identity>>,
    caller: Identity,
    callee: Identity,
)
    requires
        acyclic(old),
        caller.id != callee.id,
        !reachable(old, callee.id, caller.id),
        edge_added(old, new, caller.id, callee),
    ensures
        acyclic(new),
{
    lemma_added_edges(old, new, caller.id, callee);
    assert forall|p: Seq<u64>| #[trigger] is_walk(new, p) && p.len() >= 2 implies p[0]
        != p.last() by {
        lemma_walk_split(old, new, caller.id, callee.id, p);
        if p[0] == p.last() && !is_walk(old, p) {
            lemma_reachable_trans(old, callee.id, p[0], caller.id);
        }
    }
}

/// After an edge is removed, every remaining edge was there before.
proof fn lemma_removed_edges(
    old: Map<u64, Vec<Identity>>,
    new: Map<u64, Vec<Identity>>,
    caller: u64,
    callee_id: u64,
)
    requires
        edge_removed(old, new, caller, callee_id),
    ensures
        forall|u: u64, w: u64| #[trigger] has_edge(new, u, w) ==> has_edge(old, u, w),
{
    assert forall|u: u64, w: u64| #[trigger] has_edge(new, u, w) implies has_edge(old, u, w) by {
        let j = choose|j: int| 0 <= j < new[u]@.len() && (#[trigger] new[u]@[j]).id == w;
        if old.contains_key(caller) && u != caller {
            assert(new.remove(caller)[u] == new[u]);
            assert(new.remove(caller).contains_key(u));
            assert(old.remove(caller)[u] == old[u]);
        } else if old.contains_key(caller) && u == caller {
            let e = old[u]@;
            let rest = edges_without(e, callee_id);
            if exists|i: int| #[trigger] is_first_index(e, callee_id, i) {
                let i = choose|i: int| #[trigger] is_first_index(e, callee_id, i);
                if j == i {
                    assert(e[e.len() - 1].id == w);
                } else {
                    assert(e[j].id == w);
                }
            } else {
                assert(e[j].id == w);
            }
        }
    }
}

/// Removing an edge keeps the wait-for graph free of cycles.
pub proof fn lemma_remove_keeps_acyclic(
    old: Map<u64, Vec<Identity>>,
    new: Map<u64, Vec<Identity>>,
    caller: u64,
    callee_id: u64,
)
    requires
        acyclic(old),
        edge_removed(old, new, caller, callee_id),
    ensures
        acyclic(new),
{
    lemma_removed_edges(old, new, caller, callee_id);
    assert forall|p: Seq<u64>| #[trigger] is_walk(new, p) && p.len() >= 2 implies p[0]
        != p.last() by {
        assert forall|i: int| 0 <= i < p.len() - 1 implies #[trigger] walk_step(old, p, i) by {
            assert(walk_step(new, p, i));
        }
        assert(is_walk(old, p));
    }
}

/// Removal is multiset removal: the caller's edge list loses exactly one
/// entry, the first one with the callee's id, when it has one, and is
/// unchanged otherwise; every other actor's edge list is untouched.
pub proof fn lemma_remove_edge_is_multiset_removal(
    old: Map<u64, Vec<Identity>>,
    new: Map<u64, Vec<Identity>>,
    caller: u64,
    callee_id: u64,
)
    requires
        edge_removed(old, new, caller, callee_id),
    ensures
        forall|u: u64| u != caller ==> #[trigger] edges_of(new, u) == edges_of(old, u),
        (exists|i: int| #[trigger] is_first_index(edges_of(old, caller), callee_id, i))
            ==> edges_of(new, caller).to_multiset() == edges_of(old, caller).to_multiset().remove(
            edges_of(old, caller)[choose|i: int|
                #[trigger] is_first_index(edges_of(old, caller), callee_id, i)],
        ),
        !(exists|i: int| #[trigger] is_first_index(edges_of(old, caller), callee_id, i))
            ==> edges_of(new, caller) == edges_of(old, caller),
{
    broadcast use vstd::seq_lib::to_multiset_update;

    assert forall|u: u64| u != caller implies #[trigger] edges_of(new, u) == edges_of(old, u) by {
        if old.contains_key(caller) {
            assert(new.remove(caller).contains_key(u) == new.contains_key(u));
            assert(old.remove(caller).contains_key(u) == old.contains_key(u));
            if new.contains_key(u) {
                assert(new.remove(caller)[u] == new[u]);
                assert(old.remove(caller)[u] == old[u]);
            }
        }
    }
    let e = edges_of(old, caller);
    if exists|i: int| #[trigger] is_first_index(e, callee_id, i) {
        let i = choose|i: int| #[trigger] is_first_index(e, callee_id, i);
        let t = e.drop_last();
        let l = e.last();
        assert(e =~= t.push(l));
        t.to_multiset_ensures();
        if i == e.len() - 1 {
            assert(e.update(i, l) =~= e);
        } else {
            assert(e.update(i, l).drop_last() =~= t.update(i, l));
        }
        assert(edges_of(new, caller) == e.update(i, l).drop_last());
    }
}

/// An entry with id `id` at `j` means there is a first such entry.
proof fn lemma_first_index_exists(edges: Seq<Identity>, id: u64, j: int)
    requires
        0 <= j < edges.len(),
        edges[j].id == id,
    ensures
        exists|i: int| #[trigger] is_first_index(edges, id, i),
    decreases j,
{
    if exists|k: int| 0 <= k < j && (#[trigger] edges[k]).id == id {
        let k = choose|k: int| 0 <= k < j && (#[trigger] edges[k]).id == id;
        lemma_first_index_exists(edges, id, k);
    } else {
        assert(is_first_index(edges, id, j));
    }
}

/// Removal takes exactly one occurrence of the callee's id out of the
/// caller's list of callee ids (none when it does not occur).
pub proof fn lemma_remove_edge_removes_one_id(
    old: Map<u64, Vec<Identity>>,
    new: Map<u64, Vec<Identity>>,
    caller: u64,
    callee_id: u64,
)
    requires
        edge_removed(old, new, caller, callee_id),
    ensures
        chain_ids(edges_of(new, caller)).to_multiset() == chain_ids(
            edges_of(old, caller),
        ).to_multiset().remove(callee_id),
{
    broadcast use vstd::seq_lib::to_multiset_update;

    let e = edges_of(old, caller);
    let ids = chain_ids(e);
    assert(edges_of(new, caller) == edges_without(e, callee_id)) by {
        if old.contains_key(caller) && edges_without(e, callee_id).len() == 0 {
            assert(!new.contains_key(caller));
            assert(edges_without(e, callee_id) =~= Seq::<Identity>::empty());
        }
    }
    ids.to_multiset_ensures();
    if exists|i: int| #[trigger] is_first_index(e, callee_id, i) {
        let i = choose|i: int| #[trigger] is_first_index(e, callee_id, i);
        let t = ids.drop_last();
        let l = ids.last();
        assert(ids =~= t.push(l));
        t.to_multiset_ensures();
        assert(chain_ids(e.update(i, e.last()).drop_last()) =~= ids.update(i, l).drop_last());
        if i == ids.len() - 1 {
            assert(ids.update(i, l) =~= ids);
        } else {
            assert(ids.update(i, l).drop_last() =~= t.update(i, l));
        }
    } else {
        if ids.contains(callee_id) {
            let j = choose|j: int| 0 <= j < ids.len() && ids[j] == callee_id;
            lemma_first_index_exists(e, callee_id, j);
        }
        assert(ids.to_multiset().count(callee_id) == 0);
        assert(ids.to_multiset().remove(callee_id) =~= ids.to_multiset());
    }
}

/// Two concurrent asks from one actor to the same callee hold one entry
/// each. Removing one ask's edge through both of its owners (the callee's
/// token at reply time, then the caller's guard) takes exactly one
/// occurrence of the callee out of the caller's list: the other ask's entry
/// stays. Every other actor's list is untouched.
pub proof fn lemma_remove_once_twice(
    g0: Map<u64, Vec<Identity>>,
    g1: Map<u64, Vec<Identity>>,
    g2: Map<u64, Vec<Identity>>,
    e0: AskEdge,
    e1: AskEdge,
    e2: AskEdge,
)
    requires
        !e0.removed,
        e1.caller == e0.caller && e1.callee_id == e0.callee_id && e1.removed,
        edge_removed(g0, g1, e0.caller, e0.callee_id),
        e2.caller == e1.caller && e2.callee_id == e1.callee_id && e2.removed,
        g2 == g1,
    ensures
        chain_ids(edges_of(g2, e0.caller)).to_multiset() == chain_ids(
            edges_of(g0, e0.caller),
        ).to_multiset().remove(e0.callee_id),
        forall|u: u64| u != e0.caller ==> #[trigger] edges_of(g2, u) == edges_of(g0, u),
{
    lemma_remove_edge_removes_one_id(g0, g1, e0.caller, e0.callee_id);
    lemma_remove_edge_is_multiset_removal(g0, g1, e0.caller, e0.callee_id);
}

/// Both maintenance operations keep every key's edge list non-empty.
pub proof fn lemma_updates_keep_lists_nonempty(
    old: Map<u64, Vec<Identity>>,
    added: Map<u64, Vec<Identity>>,
    removed: Map<u64, Vec<Identity>>,
    caller: u64,
    callee: Identity,
    callee_id: u64,
)
    requires
        no_empty_lists(old),
        edge_added(old, added, caller, callee),
        edge_removed(old, removed, caller, callee_id),
    ensures
        no_empty_lists(added),
        no_empty_lists(removed),
{
    assert forall|u: u64| #[trigger] added.contains_key(u) implies added[u]@.len() > 0 by {
        if u != caller {
            assert(added.remove(caller)[u] == added[u]);
            assert(added.remove(caller).contains_key(u));
            assert(old.remove(caller)[u] == old[u]);
        }
    }
    assert forall|u: u64| #[trigger] removed.contains_key(u) implies removed[u]@.len() > 0 by {
        if u != caller && old.contains_key(caller) {
            assert(removed.remove(caller).contains_key(u));
            assert(removed.remove(caller)[u] == removed[u]);
            assert(old.remove(caller)[u] == old[u]);
        }
    }
}

} // verus!
