//! The capability derivation tree, as a mathematical graph: each slot maps to the
//! slots that were derived from it, and what a revocation reaches is what can be
//! reached along derivation edges.
use vstd::prelude::*;

verus! {

/// `b` was derived directly from `a`.
pub open spec fn has_edge(g: Map<usize, Seq<usize>>, a: usize, b: usize) -> bool {
    g.contains_key(a) && g[a].contains(b)
}

/// The `i`-th step of `p` follows a derivation edge.
pub open spec fn step_ok(g: Map<usize, Seq<usize>>, p: Seq<usize>, i: int) -> bool {
    has_edge(g, p[i], p[i + 1])
}

/// `p` is a non-empty walk along derivation edges.
pub open spec fn is_path(g: Map<usize, Seq<usize>>, p: Seq<usize>) -> bool {
    &&& p.len() > 0
    &&& forall|i: int| 0 <= i < p.len() - 1 ==> #[trigger] step_ok(g, p, i)
}

/// `b` can be reached from `a` in zero or more derivation steps.
pub open spec fn reaches(g: Map<usize, Seq<usize>>, a: usize, b: usize) -> bool {
    exists|p: Seq<usize>| #[trigger] is_path(g, p) && p[0] == a && p.last() == b
}

/// `root` and every slot derived from it, directly or transitively.
pub open spec fn subtree(g: Map<usize, Seq<usize>>, root: usize) -> Set<usize> {
    Set::new(|k: usize| reaches(g, root, k))
}

/// The slots reached from `root` in one or more derivation steps.
pub open spec fn descendants(g: Map<usize, Seq<usize>>, root: usize) -> Set<usize> {
    Set::new(|k: usize| exists|c: usize| #[trigger] has_edge(g, root, c) && reaches(g, c, k))
}

/// A set of slots that no derivation edge leaves.
pub open spec fn closed_under(g: Map<usize, Seq<usize>>, u: Set<usize>) -> bool {
    forall|a: usize, b: usize| #[trigger] u.contains(a) && #[trigger] has_edge(g, a, b) ==> u.contains(b)
}

pub proof fn lemma_reaches_self(g: Map<usize, Seq<usize>>, a: usize)
    ensures
        reaches(g, a, a),
{
    let p = seq![a];
    assert(is_path(g, p));
}

pub proof fn lemma_reaches_extend(g: Map<usize, Seq<usize>>, a: usize, u: usize, v: usize)
    requires
        reaches(g, a, u),
        has_edge(g, u, v),
    ensures
        reaches(g, a, v),
{
    let p = choose|p: Seq<usize>| #[trigger] is_path(g, p) && p[0] == a && p.last() == u;
    let q = p.push(v);
    assert forall|i: int| 0 <= i < q.len() - 1 implies #[trigger] step_ok(g, q, i) by {
        if i < p.len() - 1 {
            assert(step_ok(g, p, i));
        }
    }
    assert(is_path(g, q) && q[0] == a && q.last() == v);
}

pub proof fn lemma_reaches_prepend(g: Map<usize, Seq<usize>>, a: usize, c: usize, k: usize)
    requires
        has_edge(g, a, c),
        reaches(g, c, k),
    ensures
        reaches(g, a, k),
{
    let p = choose|p: Seq<usize>| #[trigger] is_path(g, p) && p[0] == c && p.last() == k;
    let q = seq![a] + p;
    assert forall|i: int| 0 <= i < q.len() - 1 implies #[trigger] step_ok(g, q, i) by {
        if i > 0 {
            assert(step_ok(g, p, i - 1));
        }
    }
    assert(is_path(g, q) && q[0] == a && q.last() == k);
}

/// A walk in a part of the tree (same children, fewer parents) is a walk in the tree.
pub proof fn lemma_reaches_sub(g: Map<usize, Seq<usize>>, h: Map<usize, Seq<usize>>, a: usize, b: usize)
    requires
        forall|k: usize| #[trigger] h.contains_key(k) ==> g.contains_key(k) && g[k] == h[k],
        reaches(h, a, b),
    ensures
        reaches(g, a, b),
{
    let p = choose|p: Seq<usize>| #[trigger] is_path(h, p) && p[0] == a && p.last() == b;
    assert forall|i: int| 0 <= i < p.len() - 1 implies #[trigger] step_ok(g, p, i) by {
        assert(step_ok(h, p, i));
    }
    assert(is_path(g, p));
}

/// Walking from inside a closed set stays inside it.
proof fn lemma_closed_walk(g: Map<usize, Seq<usize>>, u: Set<usize>, p: Seq<usize>, n: int)
    requires
        closed_under(g, u),
        is_path(g, p),
        0 <= n < p.len(),
        u.contains(p[0]),
    ensures
        u.contains(p[n]),
    decreases n,
{
    if n > 0 {
        lemma_closed_walk(g, u, p, n - 1);
        assert(step_ok(g, p, n - 1));
    }
}

/// Removing the parents in a closed set keeps every walk, up to where it enters the set.
pub proof fn lemma_reaches_restrict(g: Map<usize, Seq<usize>>, u: Set<usize>, c: usize, k: usize)
    requires
        closed_under(g, u),
        reaches(g, c, k),
        !u.contains(k),
    ensures
        reaches(g.remove_keys(u), c, k),
{
    let h = g.remove_keys(u);
    let p = choose|p: Seq<usize>| #[trigger] is_path(g, p) && p[0] == c && p.last() == k;
    assert forall|i: int| 0 <= i < p.len() - 1 implies #[trigger] step_ok(h, p, i) by {
        assert(step_ok(g, p, i));
        if u.contains(p[i]) {
            let r = p.subrange(i, p.len() as int);
            assert forall|j: int| 0 <= j < r.len() - 1 implies #[trigger] step_ok(g, r, j) by {
                assert(step_ok(g, p, i + j));
            }
            lemma_closed_walk(g, u, r, r.len() - 1);
            assert(r[r.len() - 1] == k);
        }
    }
    assert(is_path(h, p));
}

/// The last place where a sequence holds `x` among its first `i` entries.
proof fn lemma_find_last(q: Seq<usize>, x: usize, i: int) -> (t: int)
    requires
        0 <= i <= q.len(),
        exists|j: int| 0 <= j < i && q[j] == x,
    ensures
        0 <= t < i,
        q[t] == x,
        forall|j: int| t < j < i ==> q[j] != x,
    decreases i,
{
    if q[i - 1] == x {
        i - 1
    } else {
        lemma_find_last(q, x, i - 1)
    }
}

/// A walk that never leaves `x` is a walk in the tree without `x`'s entry.
proof fn lemma_walk_avoiding(g: Map<usize, Seq<usize>>, x: usize, p: Seq<usize>)
    requires
        is_path(g, p),
        forall|i: int| 0 <= i < p.len() - 1 ==> p[i] != x,
    ensures
        is_path(g.remove(x), p),
{
    assert forall|i: int| 0 <= i < p.len() - 1 implies #[trigger] step_ok(g.remove(x), p, i) by {
        assert(step_ok(g, p, i));
    }
}

/// A walk from `a` to `k` that leaves `x` somewhere ends with a walk from a child of `x`
/// that never leaves `x` again.
proof fn lemma_last_exit(g: Map<usize, Seq<usize>>, x: usize, p: Seq<usize>) -> (j: int)
    requires
        g.contains_key(x),
        is_path(g, p),
        exists|i: int| 0 <= i < p.len() - 1 && p[i] == x,
    ensures
        0 <= j < g[x].len(),
        reaches(g.remove(x), g[x][j], p.last()),
{
    let t = lemma_find_last(p, x, p.len() - 1);
    assert(step_ok(g, p, t));
    let r = p.subrange(t + 1, p.len() as int);
    assert forall|i: int| 0 <= i < r.len() - 1 implies #[trigger] step_ok(g, r, i) by {
        assert(step_ok(g, p, t + 1 + i));
    }
    lemma_walk_avoiding(g, x, r);
    let j = choose|j: int| 0 <= j < g[x].len() && g[x][j] == p[t + 1];
    assert(r[0] == g[x][j] && r.last() == p.last());
    j
}

/// What a slot reaches: itself, and what its children reach once its own entry is gone.
pub proof fn lemma_reaches_root(g: Map<usize, Seq<usize>>, x: usize, k: usize)
    requires
        g.contains_key(x),
    ensures
        reaches(g, x, k) <==> (k == x || exists|j: int|
            0 <= j < g[x].len() && #[trigger] reaches(g.remove(x), g[x][j], k)),
        descendants(g, x).contains(k) <==> exists|j: int|
            0 <= j < g[x].len() && #[trigger] reaches(g.remove(x), g[x][j], k),
{
    let g0 = g.remove(x);
    if reaches(g, x, k) && k != x {
        let p = choose|p: Seq<usize>| #[trigger] is_path(g, p) && p[0] == x && p.last() == k;
        let j = lemma_last_exit(g, x, p);
    }
    if exists|j: int| 0 <= j < g[x].len() && #[trigger] reaches(g0, g[x][j], k) {
        let j = choose|j: int| 0 <= j < g[x].len() && #[trigger] reaches(g0, g[x][j], k);
        lemma_reaches_sub(g, g0, g[x][j], k);
        lemma_reaches_prepend(g, x, g[x][j], k);
        assert(has_edge(g, x, g[x][j]));
        assert(descendants(g, x).contains(k));
    }
    if k == x {
        lemma_reaches_self(g, x);
    }
    if descendants(g, x).contains(k) {
        let c = choose|c: usize| #[trigger] has_edge(g, x, c) && reaches(g, c, k);
        let p = choose|p: Seq<usize>| #[trigger] is_path(g, p) && p[0] == c && p.last() == k;
        if exists|i: int| 0 <= i < p.len() - 1 && p[i] == x {
            let j = lemma_last_exit(g, x, p);
        } else {
            lemma_walk_avoiding(g, x, p);
            assert(reaches(g0, c, k));
            let j = choose|j: int| 0 <= j < g[x].len() && g[x][j] == c;
            assert(reaches(g0, g[x][j], k));
        }
    }
}

/// A slot reaches itself and what its children reach.
pub proof fn lemma_subtree_split(g: Map<usize, Seq<usize>>, x: usize, k: usize)
    ensures
        reaches(g, x, k) <==> (k == x || descendants(g, x).contains(k)),
{
    if reaches(g, x, k) && k != x {
        let p = choose|p: Seq<usize>| #[trigger] is_path(g, p) && p[0] == x && p.last() == k;
        assert(step_ok(g, p, 0));
        let r = p.subrange(1, p.len() as int);
        assert forall|i: int| 0 <= i < r.len() - 1 implies #[trigger] step_ok(g, r, i) by {
            assert(step_ok(g, p, 1 + i));
        }
        assert(is_path(g, r) && r[0] == p[1] && r.last() == k);
        assert(has_edge(g, x, p[1]));
    }
    if k == x {
        lemma_reaches_self(g, x);
    }
    if descendants(g, x).contains(k) {
        let c = choose|c: usize| #[trigger] has_edge(g, x, c) && reaches(g, c, k);
        lemma_reaches_prepend(g, x, c, k);
    }
}

/// A slot without an entry reaches only itself.
pub proof fn lemma_reaches_leaf(g: Map<usize, Seq<usize>>, x: usize, k: usize)
    requires
        !g.contains_key(x),
    ensures
        reaches(g, x, k) <==> k == x,
        !descendants(g, x).contains(k),
{
    if reaches(g, x, k) {
        let p = choose|p: Seq<usize>| #[trigger] is_path(g, p) && p[0] == x && p.last() == k;
        if p.len() > 1 {
            assert(step_ok(g, p, 0));
        }
    }
    if k == x {
        lemma_reaches_self(g, x);
    }
}

} // verus!
