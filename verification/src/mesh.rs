//! Edge extraction for the soft-body mesh: each triangle contributes its
//! three sides, and a side already seen — in either orientation — is not
//! added again. The physics layer builds one spring joint per returned edge.
use vstd::prelude::*;

verus! {

/// The three sides of a triangle, in winding order.
pub open spec fn tri_pairs(t: (usize, usize, usize)) -> Seq<(usize, usize)> {
    seq![(t.0, t.1), (t.1, t.2), (t.2, t.0)]
}

/// A pair with its endpoints ordered: the identity of an undirected edge.
pub open spec fn norm_pair(p: (usize, usize)) -> (usize, usize) {
    if p.0 < p.1 {
        p
    } else {
        (p.1, p.0)
    }
}

/// Some listed edge joins the same two nodes, in either orientation.
pub open spec fn contains_edge(edges: Seq<(usize, usize)>, p: (usize, usize)) -> bool {
    exists|i: int| 0 <= i < edges.len() && norm_pair(#[trigger] edges[i]) == norm_pair(p)
}

/// The edge list after offering it the first `n` of the given pairs in
/// order: a pair joining two nodes not yet joined is appended, any other is
/// dropped.
pub open spec fn add_pairs(
    edges: Seq<(usize, usize)>,
    pairs: Seq<(usize, usize)>,
    n: nat,
) -> Seq<(usize, usize)>
    decreases n,
{
    if n == 0 {
        edges
    } else {
        let prev = add_pairs(edges, pairs, (n - 1) as nat);
        if contains_edge(prev, pairs[n - 1]) {
            prev
        } else {
            prev.push(pairs[n - 1])
        }
    }
}

/// The deduplicated edge list of the first `n` triangles, sides offered in
/// triangle order and winding order.
pub open spec fn edges_of(triangles: Seq<(usize, usize, usize)>, n: nat) -> Seq<(usize, usize)>
    decreases n,
{
    if n == 0 {
        Seq::empty()
    } else {
        add_pairs(edges_of(triangles, (n - 1) as nat), tri_pairs(triangles[n - 1]), 3)
    }
}

/// No two listed edges join the same two nodes.
pub open spec fn edges_distinct(edges: Seq<(usize, usize)>) -> bool {
    forall|i: int, j: int|
        0 <= i < j < edges.len() ==> norm_pair(#[trigger] edges[i]) != norm_pair(#[trigger] edges[j])
}

/// The listed edge joins the same two nodes as `p`, in either orientation.
fn edge_present(edges: &Vec<(usize, usize)>, p: (usize, usize)) -> (r: bool)
    ensures
        r == contains_edge(edges@, p),
{
    let key = if p.0 < p.1 {
        p
    } else {
        (p.1, p.0)
    };
    let mut i: usize = 0;
    while i < edges.len()
        invariant
            i <= edges@.len(),
            key == norm_pair(p),
            forall|t: int| 0 <= t < i ==> norm_pair(#[trigger] edges@[t]) != norm_pair(p),
        decreases edges@.len() - i,
    {
        let e = edges[i];
        let e_key = if e.0 < e.1 {
            e
        } else {
            (e.1, e.0)
        };
        if e_key.0 == key.0 && e_key.1 == key.1 {
            return true;
        }
        i += 1;
    }
    false
}

/// The unique undirected edges of a triangle list, each in the orientation
/// of its first appearance, in first-appearance order: the set of muscle
/// springs of the soft body, one per mesh side, never doubled where two
/// triangles share a side.
pub fn unique_edges(triangles: &Vec<(usize, usize, usize)>) -> (r: Vec<(usize, usize)>)
    ensures
        r@ == edges_of(triangles@, triangles@.len()),
        edges_distinct(r@),
{
    let ghost gt = triangles@;
    let mut edges: Vec<(usize, usize)> = Vec::new();
    let mut i: usize = 0;
    while i < triangles.len()
        invariant
            i <= gt.len(),
            triangles@ == gt,
            edges@ == edges_of(gt, i as nat),
            edges_distinct(edges@),
        decreases gt.len() - i,
    {
        let t = triangles[i];
        let ghost pairs = tri_pairs(t);
        let mut k: usize = 0;
        while k < 3
            invariant
                k <= 3,
                pairs == tri_pairs(t),
                edges@ == add_pairs(edges_of(gt, i as nat), pairs, k as nat),
                i < gt.len(),
                triangles@ == gt,
                t == gt[i as int],
                edges_distinct(edges@),
            decreases 3 - k,
        {
            let p = if k == 0 {
                (t.0, t.1)
            } else if k == 1 {
                (t.1, t.2)
            } else {
                (t.2, t.0)
            };
            proof {
                assert(p == pairs[k as int]);
            }
            if !edge_present(&edges, p) {
                edges.push(p);
            }
            k += 1;
        }
        i += 1;
    }
    edges
}

} // verus!
