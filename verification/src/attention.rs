//! Scaled-free dot-product attention pieces: the running maximum of the raw
//! scores, the numerically stable softmax (maximum subtracted before
//! exponentiation), and the softmax-weighted mixing of the vertex values.
use vstd::prelude::*;

verus! {

use crate::scalar::{
    POS_ZERO_BITS, ONE_BITS, NEG_INF_BITS, is_finite_bits, add_bits, sub_bits, mul_bits, div_bits,
    gt_bits, exp_bits, fp_add, fp_sub, fp_mul, fp_div, fp_gt, fp_exp,
};

/// Running maximum of the first `n` scores, starting from negative infinity
/// and replacing it whenever a score compares strictly greater.
pub open spec fn max_prefix_bits(s: Seq<u32>, n: nat) -> u32
    decreases n,
{
    if n == 0 {
        NEG_INF_BITS
    } else {
        let m = max_prefix_bits(s, (n - 1) as nat);
        if gt_bits(s[n - 1], m) {
            s[n - 1]
        } else {
            m
        }
    }
}

/// The maximum of a score sequence, as the running comparison loop computes
/// it. A NaN score never replaces the running value, because no NaN compares
/// greater than anything.
pub open spec fn max_score_bits(s: Seq<u32>) -> u32 {
    max_prefix_bits(s, s.len())
}

/// Each score shifted down by `m` and exponentiated.
pub open spec fn exp_shifted_bits(s: Seq<u32>, m: u32) -> Seq<u32> {
    Seq::new(s.len(), |i: int| exp_bits(sub_bits(s[i], m)))
}

/// Sum of the first `n` entries, accumulated in index order from `+0.0`.
pub open spec fn sum_prefix_bits(s: Seq<u32>, n: nat) -> u32
    decreases n,
{
    if n == 0 {
        POS_ZERO_BITS
    } else {
        add_bits(sum_prefix_bits(s, (n - 1) as nat), s[n - 1])
    }
}

/// Sum of a sequence, accumulated in index order.
pub open spec fn sum_bits(s: Seq<u32>) -> u32 {
    sum_prefix_bits(s, s.len())
}

/// The numerically stable softmax: the maximum score is subtracted before
/// exponentiating, and each exponential is divided by their sum.
pub open spec fn softmax_bits(s: Seq<u32>) -> Seq<u32> {
    let e = exp_shifted_bits(s, max_score_bits(s));
    let total = sum_bits(e);
    Seq::new(s.len(), |i: int| div_bits(e[i], total))
}

/// Entry `i` of the weighted value sum over the first `n` vertices: starting
/// from `+0.0`, each product `weights[v] * values[v * value_size + i]` is
/// added in vertex order.
pub open spec fn mix_prefix_bits(
    weights: Seq<u32>,
    values: Seq<u32>,
    value_size: nat,
    i: nat,
    n: nat,
) -> u32
    decreases n,
{
    if n == 0 {
        POS_ZERO_BITS
    } else {
        add_bits(
            mix_prefix_bits(weights, values, value_size, i, (n - 1) as nat),
            mul_bits(weights[n - 1], values[(n - 1) * value_size + i]),
        )
    }
}

/// One head's output vector: the softmax-weighted sum of the vertices' value
/// vectors, entry by entry.
pub open spec fn mix_bits(weights: Seq<u32>, values: Seq<u32>, value_size: nat) -> Seq<u32> {
    Seq::new(value_size, |i: int| mix_prefix_bits(weights, values, value_size, i as nat, weights.len()))
}

/// The maximum of the scores, by the running comparison the softmax uses.
pub fn max_score(scores: &Vec<u32>) -> (r: u32)
    ensures
        r == max_score_bits(scores@),
        (scores@.len() == 1 && is_finite_bits(scores@[0])) ==> r == scores@[0],
{
    let mut m: u32 = NEG_INF_BITS;
    let mut v: usize = 0;
    while v < scores.len()
        invariant
            v <= scores@.len(),
            m == max_prefix_bits(scores@, v as nat),
            (scores@.len() == 1 && is_finite_bits(scores@[0]) && v >= 1) ==> m == scores@[0],
        decreases scores@.len() - v,
    {
        if fp_gt(scores[v], m) {
            m = scores[v];
        }
        v += 1;
    }
    m
}

/// The attention weighting of a non-empty score vector: softmax with the
/// maximum subtracted first, so that the largest exponent is `0`. With a
/// single finite score the weight on that vertex is exactly `1.0`, whatever
/// the score.
pub fn softmax(scores: &Vec<u32>) -> (r: Vec<u32>)
    requires
        scores@.len() > 0,
    ensures
        r@ == softmax_bits(scores@),
        r@.len() == scores@.len(),
        (scores@.len() == 1 && is_finite_bits(scores@[0])) ==> r@[0] == ONE_BITS,
{
    let ghost orig = scores@;
    let m = max_score(scores);
    let ghost gm = m;
    let ghost singleton = orig.len() == 1 && is_finite_bits(orig[0]);

    let mut exps: Vec<u32> = Vec::new();
    let mut total: u32 = POS_ZERO_BITS;
    let mut v: usize = 0;
    while v < scores.len()
        invariant
            v <= orig.len(),
            scores@ == orig,
            m == gm,
            singleton == (orig.len() == 1 && is_finite_bits(orig[0])),
            exps@.len() == v,
            forall|t: int| 0 <= t < v ==> exps@[t] == exp_bits(sub_bits(orig[t], gm)),
            total == sum_prefix_bits(exp_shifted_bits(orig, gm), v as nat),
            (singleton && gm == orig[0] && v >= 1) ==> (exps@[0] == ONE_BITS && total == ONE_BITS),
        decreases orig.len() - v,
    {
        proof {
            if singleton && gm == orig[0] {
                assert(is_finite_bits(orig[v as int]));
            }
        }
        let shifted = fp_sub(scores[v], m);
        let e = fp_exp(shifted);
        exps.push(e);
        total = fp_add(total, e);
        v += 1;
        proof {
            assert(exp_shifted_bits(orig, gm)[v - 1] == exps@[v - 1]);
        }
    }
    proof {
        assert(exps@ =~= exp_shifted_bits(orig, gm));
    }

    let mut out: Vec<u32> = Vec::new();
    let mut v2: usize = 0;
    while v2 < exps.len()
        invariant
            v2 <= exps@.len(),
            exps@ == exp_shifted_bits(orig, gm),
            exps@.len() == orig.len(),
            gm == max_score_bits(orig),
            singleton == (orig.len() == 1 && is_finite_bits(orig[0])),
            total == sum_bits(exps@),
            out@.len() == v2,
            forall|t: int| 0 <= t < v2 ==> out@[t] == div_bits(exps@[t], sum_bits(exps@)),
            (singleton && exps@[0] == ONE_BITS && sum_bits(exps@) == ONE_BITS && v2 >= 1) ==> out@[0]
                == ONE_BITS,
        decreases exps@.len() - v2,
    {
        let w = fp_div(exps[v2], total);
        out.push(w);
        v2 += 1;
    }
    proof {
        assert(out@ =~= softmax_bits(orig));
    }
    out
}

/// The softmax-weighted sum of the vertices' value vectors: one output entry
/// per value coordinate, accumulated in vertex order.
pub fn mix_values(weights: &Vec<u32>, values: &Vec<u32>, value_size: usize) -> (r: Vec<u32>)
    requires
        values@.len() == weights@.len() * value_size,
    ensures
        r@ == mix_bits(weights@, values@, value_size as nat),
        r@.len() == value_size,
{
    let ghost gw = weights@;
    let ghost gv = values@;
    let vlen: usize = values.len();
    let mut out: Vec<u32> = Vec::new();
    let mut i: usize = 0;
    while i < value_size
        invariant
            i <= value_size,
            weights@ == gw,
            values@ == gv,
            values@.len() == weights@.len() * value_size,
            vlen == values@.len(),
            out@.len() == i,
            forall|t: int|
                0 <= t < i ==> out@[t] == mix_prefix_bits(gw, gv, value_size as nat, t as nat, gw.len()),
        decreases value_size - i,
    {
        let mut acc: u32 = POS_ZERO_BITS;
        let mut v: usize = 0;
        while v < weights.len()
            invariant
                v <= gw.len(),
                i < value_size,
                weights@ == gw,
                values@ == gv,
                values@.len() == weights@.len() * value_size,
                vlen == values@.len(),
                acc == mix_prefix_bits(gw, gv, value_size as nat, i as nat, v as nat),
            decreases gw.len() - v,
        {
            assert((v as int) * (value_size as int) + (i as int) < (gw.len() as int) * (value_size as int))
                by (nonlinear_arith)
                requires
                    v < gw.len(),
                    i < value_size,
            ;
            let idx = v * value_size + i;
            let p = fp_mul(weights[v], values[idx]);
            acc = fp_add(acc, p);
            v += 1;
        }
        out.push(acc);
        i += 1;
    }
    proof {
        assert(out@ =~= mix_bits(gw, gv, value_size as nat));
    }
    out
}

/// With every raw score equal, the softmax weighting is uniform: all its
/// entries are the same value.
pub proof fn lemma_softmax_uniform(s: Seq<u32>)
    requires
        s.len() > 0,
        forall|i: int, j: int| 0 <= i < s.len() && 0 <= j < s.len() ==> s[i] == s[j],
    ensures
        forall|i: int, j: int|
            0 <= i < s.len() && 0 <= j < s.len() ==> softmax_bits(s)[i] == softmax_bits(s)[j],
{
    let m = max_score_bits(s);
    let e = exp_shifted_bits(s, m);
    assert forall|i: int, j: int|
        0 <= i < s.len() && 0 <= j < s.len() implies softmax_bits(s)[i] == softmax_bits(s)[j] by {
        assert(s[i] == s[j]);
        assert(e[i] == exp_bits(sub_bits(s[i], m)));
        assert(e[j] == exp_bits(sub_bits(s[j], m)));
    }
}

} // verus!
