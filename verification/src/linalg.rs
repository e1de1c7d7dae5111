//! The affine operator and the elementwise nonlinearities, together with the
//! spec functions that state exactly which sequence of scalar operations
//! each one performs.
use vstd::prelude::*;

verus! {

use crate::scalar::{
    POS_ZERO_BITS, ONE_BITS, abs_bits, is_finite_bits, is_nan_bits, add_bits, mul_bits, lt_bits,
    tanh_bits, fp_add, fp_mul, fp_lt, fp_tanh,
};

/// Accumulated dot product of the first `n` coordinates: starting from
/// `+0.0`, each product `q[j] * k[j]` is added in index order.
pub open spec fn dot_prefix_bits(q: Seq<u32>, k: Seq<u32>, n: nat) -> u32
    decreases n,
{
    if n == 0 {
        POS_ZERO_BITS
    } else {
        add_bits(
            dot_prefix_bits(q, k, (n - 1) as nat),
            mul_bits(q[n - 1], k[n - 1]),
        )
    }
}

/// The raw attention score: the plain dot product of a query with a key, with
/// no scaling by the square root of the key size.
pub open spec fn dot_bits(q: Seq<u32>, k: Seq<u32>) -> u32 {
    dot_prefix_bits(q, k, q.len())
}

/// Row `row` of the affine map, accumulated over the first `n` inputs:
/// starting from the bias entry, each product
/// `input[j] * weight[row * in_features + j]` is added in index order.
pub open spec fn affine_entry_prefix_bits(
    input: Seq<u32>,
    weight: Seq<u32>,
    bias_entry: u32,
    in_features: nat,
    row: nat,
    n: nat,
) -> u32
    decreases n,
{
    if n == 0 {
        bias_entry
    } else {
        add_bits(
            affine_entry_prefix_bits(input, weight, bias_entry, in_features, row, (n - 1) as nat),
            mul_bits(input[n - 1], weight[row * in_features + n - 1]),
        )
    }
}

/// Output entry `row` of the affine map `y = W·x + b`, with `W` stored
/// row-major.
pub open spec fn affine_entry_bits(
    input: Seq<u32>,
    weight: Seq<u32>,
    bias: Seq<u32>,
    in_features: nat,
    row: nat,
) -> u32 {
    affine_entry_prefix_bits(input, weight, bias[row as int], in_features, row, in_features)
}

/// The whole affine output `y = W·x + b` as a sequence of `out_features`
/// entries.
pub open spec fn affine_bits(
    input: Seq<u32>,
    weight: Seq<u32>,
    bias: Seq<u32>,
    in_features: nat,
    out_features: nat,
) -> Seq<u32> {
    Seq::new(out_features, |i: int| affine_entry_bits(input, weight, bias, in_features, i as nat))
}

/// Rectification of one scalar: a value below `+0.0` becomes `+0.0`; every
/// other value (including `-0.0` and NaN) is kept.
pub open spec fn relu_bits(x: u32) -> u32 {
    if lt_bits(x, POS_ZERO_BITS) {
        POS_ZERO_BITS
    } else {
        x
    }
}

/// Elementwise rectification.
pub open spec fn relu_seq_bits(s: Seq<u32>) -> Seq<u32> {
    Seq::new(s.len(), |i: int| relu_bits(s[i]))
}

/// Elementwise saturation by the hyperbolic tangent.
pub open spec fn tanh_seq_bits(s: Seq<u32>) -> Seq<u32> {
    Seq::new(s.len(), |i: int| tanh_bits(s[i]))
}

/// The pattern is a NaN or encodes a value of magnitude at most `1.0`: what
/// saturation guarantees of each of its outputs.
pub open spec fn saturated_bits(b: u32) -> bool {
    is_nan_bits(b) || abs_bits(b) <= ONE_BITS
}

/// Every entry is the `+0.0` pattern.
pub open spec fn all_pos_zero(s: Seq<u32>) -> bool {
    forall|i: int| 0 <= i < s.len() ==> s[i] == POS_ZERO_BITS
}

/// Every entry encodes a finite value.
pub open spec fn all_finite(s: Seq<u32>) -> bool {
    forall|i: int| 0 <= i < s.len() ==> is_finite_bits(#[trigger] s[i])
}

/// A copy of `len` entries of `v` starting at `start`: the slicing step of
/// the forward pass, always bounds-checked by contract.
pub fn copy_range(v: &Vec<u32>, start: usize, len: usize) -> (r: Vec<u32>)
    requires
        start + len <= v@.len(),
    ensures
        r@ == v@.subrange(start as int, start as int + len as int),
        r@.len() == len,
{
    let vn: usize = v.len();
    let mut out: Vec<u32> = Vec::new();
    let mut j: usize = 0;
    while j < len
        invariant
            j <= len,
            vn == v@.len(),
            start + len <= v@.len(),
            out@.len() == j,
            forall|t: int| 0 <= t < j ==> out@[t] == v@[start + t],
        decreases len - j,
    {
        out.push(v[start + j]);
        j += 1;
    }
    proof {
        assert(out@ =~= v@.subrange(start as int, start as int + len as int));
    }
    out
}

/// Dot product of two equally long coordinate vectors, products accumulated
/// in index order.
pub fn dot(q: &Vec<u32>, k: &Vec<u32>) -> (r: u32)
    requires
        q@.len() == k@.len(),
    ensures
        r == dot_bits(q@, k@),
{
    let mut acc: u32 = POS_ZERO_BITS;
    let mut j: usize = 0;
    while j < q.len()
        invariant
            j <= q@.len(),
            q@.len() == k@.len(),
            acc == dot_prefix_bits(q@, k@, j as nat),
        decreases q@.len() - j,
    {
        let p = fp_mul(q[j], k[j]);
        acc = fp_add(acc, p);
        j += 1;
    }
    acc
}

/// The affine map `y = W·x + b` over raw weight and bias buffers whose
/// lengths match the declared feature counts exactly. With an all-zero
/// weight and bias, every finite input maps to the all-`+0.0` vector: each
/// product is a zero of some sign and `+0.0` absorbs both, so a zero layer
/// erases its input (rectification then keeps `+0.0`, and the saturation of
/// `+0.0` is `+0.0`).
pub fn affine_apply(
    input: &Vec<u32>,
    weight: &Vec<u32>,
    bias: &Vec<u32>,
    in_features: usize,
    out_features: usize,
) -> (r: Vec<u32>)
    requires
        input@.len() == in_features,
        weight@.len() == in_features * out_features,
        bias@.len() == out_features,
    ensures
        r@ == affine_bits(input@, weight@, bias@, in_features as nat, out_features as nat),
        (all_pos_zero(weight@) && all_pos_zero(bias@) && all_finite(input@)) ==> all_pos_zero(r@),
{
    let ghost gin = input@;
    let ghost gw = weight@;
    let ghost gb = bias@;
    let wlen: usize = weight.len();
    let mut out: Vec<u32> = Vec::new();
    let mut i: usize = 0;
    while i < out_features
        invariant
            i <= out_features,
            wlen == weight@.len(),
            input@ == gin,
            weight@ == gw,
            bias@ == gb,
            input@.len() == in_features,
            weight@.len() == in_features * out_features,
            bias@.len() == out_features,
            out@.len() == i,
            forall|t: int|
                0 <= t < i ==> out@[t] == affine_entry_bits(gin, gw, gb, in_features as nat, t as nat),
            (all_pos_zero(gw) && all_pos_zero(gb) && all_finite(gin)) ==> all_pos_zero(out@),
        decreases out_features - i,
    {
        let mut acc: u32 = bias[i];
        let mut j: usize = 0;
        while j < in_features
            invariant
                j <= in_features,
                i < out_features,
                wlen == weight@.len(),
                input@ == gin,
                weight@ == gw,
                bias@ == gb,
                input@.len() == in_features,
                weight@.len() == in_features * out_features,
                bias@.len() == out_features,
                acc == affine_entry_prefix_bits(gin, gw, gb[i as int], in_features as nat, i as nat, j as nat),
                (all_pos_zero(gw) && all_pos_zero(gb) && all_finite(gin)) ==> acc == POS_ZERO_BITS,
            decreases in_features - j,
        {
            assert((i as int) * (in_features as int) + (j as int) < (in_features as int) * (out_features as int))
                by (nonlinear_arith)
                requires
                    i < out_features,
                    j < in_features,
            ;
            let idx = i * in_features + j;
            let p = fp_mul(input[j], weight[idx]);
            acc = fp_add(acc, p);
            j += 1;
        }
        out.push(acc);
        i += 1;
    }
    proof {
        assert(out@ =~= affine_bits(gin, gw, gb, in_features as nat, out_features as nat));
    }
    out
}

/// Replaces each entry that is below `+0.0` with `+0.0`, in place; NaN
/// entries are kept, not masked.
pub fn rectify(buffer: &mut Vec<u32>)
    ensures
        final(buffer)@ == relu_seq_bits(old(buffer)@),
{
    let ghost orig = old(buffer)@;
    let mut i: usize = 0;
    while i < buffer.len()
        invariant
            i <= buffer@.len(),
            buffer@.len() == orig.len(),
            forall|t: int| 0 <= t < i ==> buffer@[t] == relu_bits(orig[t]),
            forall|t: int| i <= t < orig.len() ==> buffer@[t] == orig[t],
        decreases buffer@.len() - i,
    {
        if fp_lt(buffer[i], POS_ZERO_BITS) {
            buffer[i] = POS_ZERO_BITS;
        }
        i += 1;
    }
    proof {
        assert(buffer@ =~= relu_seq_bits(orig));
    }
}

/// Replaces each entry with its hyperbolic tangent, in place: every non-NaN
/// entry ends with magnitude at most `1.0`, and a NaN entry stays a NaN
/// rather than being masked.
pub fn saturate(buffer: &mut Vec<u32>)
    ensures
        final(buffer)@ == tanh_seq_bits(old(buffer)@),
        forall|t: int| 0 <= t < final(buffer)@.len() ==> saturated_bits(final(buffer)@[t]),
        forall|t: int|
            0 <= t < final(buffer)@.len() && !is_nan_bits(old(buffer)@[t]) ==> abs_bits(
                final(buffer)@[t],
            ) <= ONE_BITS,
{
    let ghost orig = old(buffer)@;
    let mut i: usize = 0;
    while i < buffer.len()
        invariant
            i <= buffer@.len(),
            buffer@.len() == orig.len(),
            forall|t: int| 0 <= t < i ==> buffer@[t] == tanh_bits(orig[t]),
            forall|t: int| 0 <= t < i ==> saturated_bits(buffer@[t]),
            forall|t: int| 0 <= t < i && !is_nan_bits(orig[t]) ==> abs_bits(buffer@[t]) <= ONE_BITS,
            forall|t: int| i <= t < orig.len() ==> buffer@[t] == orig[t],
        decreases buffer@.len() - i,
    {
        buffer[i] = fp_tanh(buffer[i]);
        i += 1;
    }
    proof {
        assert(buffer@ =~= tanh_seq_bits(orig));
    }
}

} // verus!
