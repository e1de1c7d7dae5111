//! The attention policy: per muscle, a query-projection sub-network, a
//! multi-head scaled-free dot-product attention over the body's vertex set,
//! head concatenation, and an output sub-network producing one saturated
//! scalar activation.
use vstd::prelude::*;

verus! {

use crate::attention::{softmax_bits, mix_bits, softmax, mix_values};
use crate::linalg::{
    dot_bits, dot, relu_seq_bits, affine_bits, affine_apply, rectify, saturate, saturated_bits,
    copy_range,
};
use crate::scalar::tanh_bits;
use crate::store::{
    AttentionWeights, PolicyError, entries_view, find_tensor, find_tensor_view, has_tensor,
    lemma_find_tensor_view, names_distinct, seq_result,
};

/// The fixed width of each sub-network's hidden layer. It is part of the
/// frozen pretrained-weight contract, an architectural constant, not a
/// tunable hyperparameter.
pub const HIDDEN_WIDTH: usize = 32;

/// The four positive integers fixed for the lifetime of a loaded policy.
#[derive(Clone, Copy, Debug, PartialEq, Eq, Structural)]
pub struct Hyperparameters {
    /// Length of each vertex key embedding, and of each head's query slice.
    pub vertex_key_size: usize,
    /// Length of each vertex value embedding, and of each head's output.
    pub vertex_value_size: usize,
    /// Length of each muscle key embedding.
    pub muscle_key_size: usize,
    /// Number of independent attention heads.
    pub num_heads: usize,
}

impl Hyperparameters {
    /// Every hyperparameter is positive.
    pub open spec fn positive(self) -> bool {
        self.vertex_key_size > 0 && self.vertex_value_size > 0 && self.muscle_key_size > 0
            && self.num_heads > 0
    }
}

/// Document key of the query-projection hidden layer's weight matrix.
pub open spec fn query_hidden_weight_key() -> Seq<char> {
    "muscle_k_to_vertex_q.0.weight"@
}

/// Document key of the query-projection hidden layer's bias vector.
pub open spec fn query_hidden_bias_key() -> Seq<char> {
    "muscle_k_to_vertex_q.0.bias"@
}

/// Document key of the query-projection output layer's weight matrix.
pub open spec fn query_output_weight_key() -> Seq<char> {
    "muscle_k_to_vertex_q.2.weight"@
}

/// Document key of the query-projection output layer's bias vector.
pub open spec fn query_output_bias_key() -> Seq<char> {
    "muscle_k_to_vertex_q.2.bias"@
}

/// Document key of the output sub-network hidden layer's weight matrix.
pub open spec fn output_hidden_weight_key() -> Seq<char> {
    "wv_to_output.0.weight"@
}

/// Document key of the output sub-network hidden layer's bias vector.
pub open spec fn output_hidden_bias_key() -> Seq<char> {
    "wv_to_output.0.bias"@
}

/// Document key of the final layer's weight matrix.
pub open spec fn output_final_weight_key() -> Seq<char> {
    "wv_to_output.2.weight"@
}

/// Document key of the final layer's bias vector.
pub open spec fn output_final_bias_key() -> Seq<char> {
    "wv_to_output.2.bias"@
}

/// The store holds every tensor of the required manifest: the four
/// weight/bias pairs of the query-projection and output sub-networks.
pub open spec fn manifest_present(entries: Seq<(String, Vec<u32>)>) -> bool {
    has_tensor(entries, query_hidden_weight_key()) && has_tensor(entries, query_hidden_bias_key())
        && has_tensor(entries, query_output_weight_key()) && has_tensor(
        entries,
        query_output_bias_key(),
    ) && has_tensor(entries, output_hidden_weight_key()) && has_tensor(
        entries,
        output_hidden_bias_key(),
    ) && has_tensor(entries, output_final_weight_key()) && has_tensor(
        entries,
        output_final_bias_key(),
    )
}

/// The manifest over entries already taken as plain values: the load
/// contract states presence over the parsed document directly.
pub open spec fn manifest_present_view(entries: Seq<(Seq<char>, Seq<u32>)>) -> bool {
    find_tensor_view(entries, query_hidden_weight_key()) is Some && find_tensor_view(
        entries,
        query_hidden_bias_key(),
    ) is Some && find_tensor_view(entries, query_output_weight_key()) is Some && find_tensor_view(
        entries,
        query_output_bias_key(),
    ) is Some && find_tensor_view(entries, output_hidden_weight_key()) is Some && find_tensor_view(
        entries,
        output_hidden_bias_key(),
    ) is Some && find_tensor_view(entries, output_final_weight_key()) is Some && find_tensor_view(
        entries,
        output_final_bias_key(),
    ) is Some
}

/// A store holds the manifest exactly when its plain-value view does.
pub proof fn lemma_manifest_present_view(entries: Seq<(String, Vec<u32>)>)
    ensures
        manifest_present(entries) == manifest_present_view(entries_view(entries)),
{
    lemma_find_tensor_view(entries, query_hidden_weight_key());
    lemma_find_tensor_view(entries, query_hidden_bias_key());
    lemma_find_tensor_view(entries, query_output_weight_key());
    lemma_find_tensor_view(entries, query_output_bias_key());
    lemma_find_tensor_view(entries, output_hidden_weight_key());
    lemma_find_tensor_view(entries, output_hidden_bias_key());
    lemma_find_tensor_view(entries, output_final_weight_key());
    lemma_find_tensor_view(entries, output_final_bias_key());
}

/// The error a load of the two documents owes: a bad hyperparameter
/// document is a `ConfigError`, a bad weight document a `WeightLoadError`,
/// a parsed store missing a manifest tensor a `MissingTensorError`; `None`
/// when loading must succeed.
pub open spec fn spec_load_error(args: Seq<char>, weights_doc: Seq<char>) -> Option<PolicyError> {
    if crate::config::spec_hyperparameters(args) is None {
        Some(PolicyError::ConfigError)
    } else {
        match crate::config::spec_weight_entries(weights_doc) {
            None => Some(PolicyError::WeightLoadError),
            Some(entries) => if !manifest_present_view(entries) {
                Some(PolicyError::MissingTensorError)
            } else {
                None
            },
        }
    }
}

/// The eight manifest tensors of a policy, as flat sequences.
pub struct TensorViews {
    /// Query-projection hidden layer weight, shape `[HIDDEN_WIDTH, muscle_key_size]`.
    pub qh_w: Seq<u32>,
    /// Query-projection hidden layer bias, shape `[HIDDEN_WIDTH]`.
    pub qh_b: Seq<u32>,
    /// Query-projection output layer weight, shape `[num_heads * vertex_key_size, HIDDEN_WIDTH]`.
    pub qo_w: Seq<u32>,
    /// Query-projection output layer bias, shape `[num_heads * vertex_key_size]`.
    pub qo_b: Seq<u32>,
    /// Output sub-network hidden layer weight, shape `[HIDDEN_WIDTH, num_heads * vertex_value_size]`.
    pub oh_w: Seq<u32>,
    /// Output sub-network hidden layer bias, shape `[HIDDEN_WIDTH]`.
    pub oh_b: Seq<u32>,
    /// Final layer weight, shape `[1, HIDDEN_WIDTH]`.
    pub of_w: Seq<u32>,
    /// Final layer bias, shape `[1]`.
    pub of_b: Seq<u32>,
}

/// The manifest tensors bundled from their eight sequences.
pub open spec fn views_of(
    qh_w: Seq<u32>,
    qh_b: Seq<u32>,
    qo_w: Seq<u32>,
    qo_b: Seq<u32>,
    oh_w: Seq<u32>,
    oh_b: Seq<u32>,
    of_w: Seq<u32>,
    of_b: Seq<u32>,
) -> TensorViews {
    TensorViews { qh_w, qh_b, qo_w, qo_b, oh_w, oh_b, of_w, of_b }
}

/// The manifest tensors as stored under their document keys.
pub open spec fn tensor_views(entries: Seq<(String, Vec<u32>)>) -> TensorViews {
    views_of(
        find_tensor(entries, query_hidden_weight_key()).unwrap(),
        find_tensor(entries, query_hidden_bias_key()).unwrap(),
        find_tensor(entries, query_output_weight_key()).unwrap(),
        find_tensor(entries, query_output_bias_key()).unwrap(),
        find_tensor(entries, output_hidden_weight_key()).unwrap(),
        find_tensor(entries, output_hidden_bias_key()).unwrap(),
        find_tensor(entries, output_final_weight_key()).unwrap(),
        find_tensor(entries, output_final_bias_key()).unwrap(),
    )
}

/// Every manifest tensor has exactly the flat length its logical shape
/// demands: a weight `[out, in]` has `out * in` entries and a bias `[out]`
/// has `out` entries.
pub open spec fn manifest_shapes_ok(tv: TensorViews, h: Hyperparameters) -> bool {
    tv.qh_w.len() == h.muscle_key_size * HIDDEN_WIDTH && tv.qh_b.len() == HIDDEN_WIDTH
        && tv.qo_w.len() == HIDDEN_WIDTH * (h.num_heads * h.vertex_key_size) && tv.qo_b.len()
        == h.num_heads * h.vertex_key_size && tv.oh_w.len() == (h.num_heads * h.vertex_value_size)
        * HIDDEN_WIDTH && tv.oh_b.len() == HIDDEN_WIDTH && tv.of_w.len() == HIDDEN_WIDTH
        && tv.of_b.len() == 1
}

/// The raw scores of one head: for each vertex, the plain dot product of the
/// head's query slice with that vertex's key (no scaling by the square root
/// of the key size — the pretrained weights depend on its absence).
pub open spec fn spec_scores(
    q_head: Seq<u32>,
    vertex_k: Seq<u32>,
    key_size: nat,
    num_vertices: nat,
) -> Seq<u32> {
    Seq::new(
        num_vertices,
        |v: int| dot_bits(q_head, vertex_k.subrange(v * key_size, v * key_size + key_size)),
    )
}

/// One head's output: its query slice is cut from the combined query, scored
/// against every vertex key, the scores are softmax-normalized, and the
/// vertex values are mixed by those weights.
pub open spec fn spec_head_output(
    q_all: Seq<u32>,
    vertex_k: Seq<u32>,
    vertex_v: Seq<u32>,
    h: Hyperparameters,
    num_vertices: nat,
    head: int,
) -> Seq<u32> {
    let q_head = q_all.subrange(
        head * h.vertex_key_size,
        head * h.vertex_key_size + h.vertex_key_size,
    );
    let scores = spec_scores(q_head, vertex_k, h.vertex_key_size as nat, num_vertices);
    mix_bits(softmax_bits(scores), vertex_v, h.vertex_value_size as nat)
}

/// The first `n` heads' outputs concatenated in head order.
pub open spec fn spec_heads_concat(
    q_all: Seq<u32>,
    vertex_k: Seq<u32>,
    vertex_v: Seq<u32>,
    h: Hyperparameters,
    num_vertices: nat,
    n: nat,
) -> Seq<u32>
    decreases n,
{
    if n == 0 {
        Seq::empty()
    } else {
        spec_heads_concat(q_all, vertex_k, vertex_v, h, num_vertices, (n - 1) as nat)
            + spec_head_output(q_all, vertex_k, vertex_v, h, num_vertices, n - 1)
    }
}

/// One muscle's activation: the muscle key is projected to a hidden
/// representation (affine then rectify), projected again to the combined
/// query, attended over the vertex set head by head, and the concatenated
/// head outputs are projected (affine, rectify, affine) to one scalar, which
/// is saturated by the hyperbolic tangent.
pub open spec fn spec_muscle_activation(
    tv: TensorViews,
    h: Hyperparameters,
    m_key: Seq<u32>,
    vertex_k: Seq<u32>,
    vertex_v: Seq<u32>,
    num_vertices: nat,
) -> u32 {
    let x = relu_seq_bits(
        affine_bits(m_key, tv.qh_w, tv.qh_b, h.muscle_key_size as nat, HIDDEN_WIDTH as nat),
    );
    let q_all = affine_bits(
        x,
        tv.qo_w,
        tv.qo_b,
        HIDDEN_WIDTH as nat,
        (h.num_heads * h.vertex_key_size) as nat,
    );
    let concat = spec_heads_concat(q_all, vertex_k, vertex_v, h, num_vertices, h.num_heads as nat);
    let y = relu_seq_bits(
        affine_bits(
            concat,
            tv.oh_w,
            tv.oh_b,
            (h.num_heads * h.vertex_value_size) as nat,
            HIDDEN_WIDTH as nat,
        ),
    );
    let z = affine_bits(y, tv.of_w, tv.of_b, HIDDEN_WIDTH as nat, 1);
    tanh_bits(z[0])
}

/// The activations of all muscles, in the order of their key vectors; each
/// muscle's entry depends only on that muscle's own key slice and the shared
/// vertex data and weights.
pub open spec fn spec_activations(
    tv: TensorViews,
    h: Hyperparameters,
    vertex_k: Seq<u32>,
    muscle_k: Seq<u32>,
    vertex_v: Seq<u32>,
    num_vertices: nat,
    num_muscles: nat,
) -> Seq<u32> {
    Seq::new(
        num_muscles,
        |m: int|
            spec_muscle_activation(
                tv,
                h,
                muscle_k.subrange(
                    m * h.muscle_key_size,
                    m * h.muscle_key_size + h.muscle_key_size,
                ),
                vertex_k,
                vertex_v,
                num_vertices,
            ),
    )
}

/// The whole forward contract: an input buffer whose length disagrees with
/// its declared count times stride is a `ShapeMismatch`; an empty vertex set
/// is an `EmptyInputError`; a manifest tensor missing from the store is a
/// `MissingTensorError`; a mis-shaped manifest tensor is a `ShapeMismatch`;
/// otherwise the result is exactly the activation sequence.
pub open spec fn spec_forward(
    entries: Seq<(String, Vec<u32>)>,
    h: Hyperparameters,
    vertex_k: Seq<u32>,
    muscle_k: Seq<u32>,
    vertex_v: Seq<u32>,
    num_vertices: nat,
    num_muscles: nat,
) -> Result<Seq<u32>, PolicyError> {
    if vertex_k.len() != num_vertices * h.vertex_key_size || muscle_k.len() != num_muscles
        * h.muscle_key_size || vertex_v.len() != num_vertices * h.vertex_value_size {
        Err(PolicyError::ShapeMismatch)
    } else if num_vertices == 0 {
        Err(PolicyError::EmptyInputError)
    } else if !manifest_present(entries) {
        Err(PolicyError::MissingTensorError)
    } else if !manifest_shapes_ok(tensor_views(entries), h) {
        Err(PolicyError::ShapeMismatch)
    } else {
        Ok(spec_activations(tensor_views(entries), h, vertex_k, muscle_k, vertex_v, num_vertices, num_muscles))
    }
}

/// The attention policy: exclusively owns its hyperparameters and its weight
/// store, immutable after construction, stateless between calls.
pub struct AttentionModel {
    /// The four architecture sizes the policy was loaded with.
    pub hyper: Hyperparameters,
    /// The pretrained tensors, keyed by document name.
    pub weights: AttentionWeights,
}

/// One muscle's forward pass over already-validated tensors.
fn muscle_forward(
    h: Hyperparameters,
    m_key: &Vec<u32>,
    vertex_k: &Vec<u32>,
    vertex_v: &Vec<u32>,
    num_vertices: usize,
    qh_w: &Vec<u32>,
    qh_b: &Vec<u32>,
    qo_w: &Vec<u32>,
    qo_b: &Vec<u32>,
    oh_w: &Vec<u32>,
    oh_b: &Vec<u32>,
    of_w: &Vec<u32>,
    of_b: &Vec<u32>,
) -> (r: u32)
    requires
        num_vertices > 0,
        m_key@.len() == h.muscle_key_size,
        vertex_k@.len() == num_vertices * h.vertex_key_size,
        vertex_v@.len() == num_vertices * h.vertex_value_size,
        manifest_shapes_ok(
            (views_of(qh_w@, qh_b@, qo_w@, qo_b@, oh_w@, oh_b@, of_w@, of_b@)),
            h,
        ),
    ensures
        r == spec_muscle_activation(
            (views_of(qh_w@, qh_b@, qo_w@, qo_b@, oh_w@, oh_b@, of_w@, of_b@)),
            h,
            m_key@,
            vertex_k@,
            vertex_v@,
            num_vertices as nat,
        ),
        saturated_bits(r),
{
    let vks = h.vertex_key_size;
    let vvs = h.vertex_value_size;
    let vklen = vertex_k.len();

    // Query projection: affine to the hidden width, rectify, affine to the
    // combined query of all heads. The combined width `num_heads *
    // vertex_key_size` is read off the bias buffer, whose length it is.
    let mut x = affine_apply(m_key, qh_w, qh_b, h.muscle_key_size, HIDDEN_WIDTH);
    rectify(&mut x);
    let q_total = qo_b.len();
    proof {
        assert(x@.len() == HIDDEN_WIDTH);
        assert(q_total == h.num_heads * h.vertex_key_size);
    }
    let q_all = affine_apply(&x, qo_w, qo_b, HIDDEN_WIDTH, q_total);
    proof {
        assert(q_all@.len() == q_total);
    }

    // Attention, head by head; each head's output vector is appended to the
    // concatenation buffer in head order.
    let mut concat: Vec<u32> = Vec::new();
    let mut head: usize = 0;
    while head < h.num_heads
        invariant
            head <= h.num_heads,
            num_vertices > 0,
            vks == h.vertex_key_size,
            vvs == h.vertex_value_size,
            q_total == h.num_heads * h.vertex_key_size,
            q_all@.len() == q_total,
            vklen == vertex_k@.len(),
            vertex_k@.len() == num_vertices * h.vertex_key_size,
            vertex_v@.len() == num_vertices * h.vertex_value_size,
            concat@ == spec_heads_concat(
                q_all@,
                vertex_k@,
                vertex_v@,
                h,
                num_vertices as nat,
                head as nat,
            ),
            concat@.len() == head * h.vertex_value_size,
        decreases h.num_heads - head,
    {
        proof {
            assert((head as int) * (vks as int) + (vks as int) <= (h.num_heads as int) * (
            vks as int)) by (nonlinear_arith)
                requires
                    head < h.num_heads,
            ;
        }
        let q_head = copy_range(&q_all, head * vks, vks);
        let mut scores: Vec<u32> = Vec::new();
        let mut v: usize = 0;
        while v < num_vertices
            invariant
                v <= num_vertices,
                vks == h.vertex_key_size,
                vklen == vertex_k@.len(),
                vertex_k@.len() == num_vertices * h.vertex_key_size,
                q_head@.len() == vks,
                scores@.len() == v,
                forall|t: int|
                    0 <= t < v ==> scores@[t] == dot_bits(
                        q_head@,
                        vertex_k@.subrange(t * vks as int, t * vks as int + vks as int),
                    ),
            decreases num_vertices - v,
        {
            proof {
                assert((v as int) * (vks as int) + (vks as int) <= (num_vertices as int) * (
                vks as int)) by (nonlinear_arith)
                    requires
                        v < num_vertices,
                ;
            }
            let k_v = copy_range(vertex_k, v * vks, vks);
            let s = dot(&q_head, &k_v);
            scores.push(s);
            v += 1;
        }
        proof {
            assert(scores@ =~= spec_scores(q_head@, vertex_k@, vks as nat, num_vertices as nat));
        }
        let w = softmax(&scores);
        let mut head_out = mix_values(&w, vertex_v, vvs);
        proof {
            assert(head_out@ == spec_head_output(
                q_all@,
                vertex_k@,
                vertex_v@,
                h,
                num_vertices as nat,
                head as int,
            ));
        }
        concat.append(&mut head_out);
        head += 1;
        proof {
            assert((head as int - 1) * (vvs as int) + (vvs as int) == (head as int) * (vvs as int))
                by (nonlinear_arith);
        }
    }

    // Output sub-network: affine to the hidden width, rectify, affine to one
    // scalar, saturate. The concatenation's length is `num_heads *
    // vertex_value_size`, the in-feature count of the hidden layer.
    let c_total = concat.len();
    proof {
        assert(concat@.len() == (h.num_heads * h.vertex_value_size) as int);
        assert(((h.num_heads * h.vertex_value_size) as int) * (HIDDEN_WIDTH as int) == oh_w@.len());
    }
    let mut y = affine_apply(&concat, oh_w, oh_b, c_total, HIDDEN_WIDTH);
    rectify(&mut y);
    let mut z = affine_apply(&y, of_w, of_b, HIDDEN_WIDTH, 1);
    saturate(&mut z);
    proof {
        assert(z@.len() == 1);
    }
    z[0]
}

impl AttentionModel {
    /// Loads a policy from the hyperparameter document and the weight
    /// document, succeeding exactly when both documents are well formed and
    /// the store holds the whole required manifest. On success the four
    /// sizes are exactly the document's fields and the store holds exactly
    /// the document's tensors (sorted by name, names pairwise distinct); a
    /// bad hyperparameter document is a `ConfigError`, a bad weight document
    /// a `WeightLoadError`, and a missing manifest tensor a
    /// `MissingTensorError` — so no forward call on a constructed policy can
    /// ever fail with `MissingTensorError`.
    pub fn new(args_json: &str, weights_json: &str) -> (r: Result<AttentionModel, PolicyError>)
        ensures
            match r {
                Ok(model) => spec_load_error(args_json@, weights_json@) is None
                    && crate::config::spec_hyperparameters(args_json@) == Some(model.hyper)
                    && crate::config::spec_weight_entries(weights_json@) == Some(
                    entries_view(model.weights.tensors@),
                ) && model.hyper.positive() && manifest_present(model.weights.tensors@)
                    && names_distinct(model.weights.tensors@),
                Err(e) => spec_load_error(args_json@, weights_json@) == Some(e),
            },
    {
        let hyper = crate::config::load_hyperparameters(args_json)?;
        let tensors = crate::config::load_weight_entries(weights_json)?;
        let weights = AttentionWeights { tensors };
        let present = weights.lookup("muscle_k_to_vertex_q.0.weight").is_ok()
            && weights.lookup("muscle_k_to_vertex_q.0.bias").is_ok() && weights.lookup(
            "muscle_k_to_vertex_q.2.weight",
        ).is_ok() && weights.lookup("muscle_k_to_vertex_q.2.bias").is_ok() && weights.lookup(
            "wv_to_output.0.weight",
        ).is_ok() && weights.lookup("wv_to_output.0.bias").is_ok() && weights.lookup(
            "wv_to_output.2.weight",
        ).is_ok() && weights.lookup("wv_to_output.2.bias").is_ok();
        proof {
            lemma_manifest_present_view(weights.tensors@);
        }
        if !present {
            return Err(PolicyError::MissingTensorError);
        }
        Ok(AttentionModel { hyper, weights })
    }

    /// The forward pass: one saturated activation per muscle, in the order
    /// of the muscle keys. Never reads out of bounds: every length contract
    /// is checked before any arithmetic, and a violation is returned as a
    /// typed error rather than crashing the host.
    pub fn forward(
        &self,
        vertex_k: &Vec<u32>,
        muscle_k: &Vec<u32>,
        vertex_v: &Vec<u32>,
        num_vertices: usize,
        num_muscles: usize,
    ) -> (r: Result<Vec<u32>, PolicyError>)
        ensures
            seq_result(r) == spec_forward(
                self.weights.tensors@,
                self.hyper,
                vertex_k@,
                muscle_k@,
                vertex_v@,
                num_vertices as nat,
                num_muscles as nat,
            ),
            r matches Ok(a) ==> a@.len() == num_muscles,
            r matches Ok(a) ==> forall|t: int| 0 <= t < a@.len() ==> saturated_bits(a@[t]),
    {
        let h = self.hyper;
        let ghost entries = self.weights.tensors@;

        // Input length contracts: count times stride, exactly. A product
        // that overflows the machine word cannot equal any buffer length.
        let vklen = vertex_k.len();
        let mklen = muscle_k.len();
        let vvlen = vertex_v.len();
        let vk_ok = match num_vertices.checked_mul(h.vertex_key_size) {
            Some(n) => n == vklen,
            None => false,
        };
        let mk_ok = match num_muscles.checked_mul(h.muscle_key_size) {
            Some(n) => n == mklen,
            None => false,
        };
        let vv_ok = match num_vertices.checked_mul(h.vertex_value_size) {
            Some(n) => n == vvlen,
            None => false,
        };
        if !vk_ok || !mk_ok || !vv_ok {
            return Err(PolicyError::ShapeMismatch);
        }
        if num_vertices == 0 {
            return Err(PolicyError::EmptyInputError);
        }

        // The manifest: all eight tensors must be present.
        let qh_w = match self.weights.lookup("muscle_k_to_vertex_q.0.weight") {
            Ok(t) => t,
            Err(_) => {
                return Err(PolicyError::MissingTensorError);
            },
        };
        let qh_b = match self.weights.lookup("muscle_k_to_vertex_q.0.bias") {
            Ok(t) => t,
            Err(_) => {
                return Err(PolicyError::MissingTensorError);
            },
        };
        let qo_w = match self.weights.lookup("muscle_k_to_vertex_q.2.weight") {
            Ok(t) => t,
            Err(_) => {
                return Err(PolicyError::MissingTensorError);
            },
        };
        let qo_b = match self.weights.lookup("muscle_k_to_vertex_q.2.bias") {
            Ok(t) => t,
            Err(_) => {
                return Err(PolicyError::MissingTensorError);
            },
        };
        let oh_w = match self.weights.lookup("wv_to_output.0.weight") {
            Ok(t) => t,
            Err(_) => {
                return Err(PolicyError::MissingTensorError);
            },
        };
        let oh_b = match self.weights.lookup("wv_to_output.0.bias") {
            Ok(t) => t,
            Err(_) => {
                return Err(PolicyError::MissingTensorError);
            },
        };
        let of_w = match self.weights.lookup("wv_to_output.2.weight") {
            Ok(t) => t,
            Err(_) => {
                return Err(PolicyError::MissingTensorError);
            },
        };
        let of_b = match self.weights.lookup("wv_to_output.2.bias") {
            Ok(t) => t,
            Err(_) => {
                return Err(PolicyError::MissingTensorError);
            },
        };
        proof {
            assert(manifest_present(entries));
            assert(tensor_views(entries) == views_of(
                qh_w@,
                qh_b@,
                qo_w@,
                qo_b@,
                oh_w@,
                oh_b@,
                of_w@,
                of_b@,
            ));
        }
        let ghost tv = tensor_views(entries);

        // Each manifest tensor's flat length must match its logical shape. A
        // shape product that overflows the machine word cannot equal any
        // buffer length.
        let qh_w_len = qh_w.len();
        let qh_b_len = qh_b.len();
        let qo_w_len = qo_w.len();
        let qo_b_len = qo_b.len();
        let oh_w_len = oh_w.len();
        let oh_b_len = oh_b.len();
        let of_w_len = of_w.len();
        let of_b_len = of_b.len();
        let qh_w_ok = match h.muscle_key_size.checked_mul(HIDDEN_WIDTH) {
            Some(n) => n == qh_w_len,
            None => false,
        };
        let q_total_opt = h.num_heads.checked_mul(h.vertex_key_size);
        let qo_w_ok = match q_total_opt {
            Some(q_total) => match HIDDEN_WIDTH.checked_mul(q_total) {
                Some(n) => n == qo_w_len,
                None => false,
            },
            None => false,
        };
        let qo_b_ok = match q_total_opt {
            Some(q_total) => q_total == qo_b_len,
            None => false,
        };
        let c_total_opt = h.num_heads.checked_mul(h.vertex_value_size);
        let oh_w_ok = match c_total_opt {
            Some(c_total) => match c_total.checked_mul(HIDDEN_WIDTH) {
                Some(n) => n == oh_w_len,
                None => false,
            },
            None => false,
        };
        if !qh_w_ok || qh_b_len != HIDDEN_WIDTH || !qo_w_ok || !qo_b_ok || !oh_w_ok
            || oh_b_len != HIDDEN_WIDTH || of_w_len != HIDDEN_WIDTH || of_b_len != 1 {
            return Err(PolicyError::ShapeMismatch);
        }
        proof {
            assert(manifest_shapes_ok(tv, h));
        }

        // Per-muscle computation: each output depends only on that muscle's
        // own key slice and the shared vertex data and weights.
        let mks = h.muscle_key_size;
        let mut out: Vec<u32> = Vec::new();
        let mut m: usize = 0;
        while m < num_muscles
            invariant
                m <= num_muscles,
                mks == h.muscle_key_size,
                num_vertices > 0,
                muscle_k@.len() <= usize::MAX,
                muscle_k@.len() == num_muscles * h.muscle_key_size,
                vertex_k@.len() == num_vertices * h.vertex_key_size,
                vertex_v@.len() == num_vertices * h.vertex_value_size,
                tv == views_of(qh_w@, qh_b@, qo_w@, qo_b@, oh_w@, oh_b@, of_w@, of_b@),
                manifest_shapes_ok(tv, h),
                out@.len() == m,
                forall|t: int|
                    0 <= t < m ==> out@[t] == spec_muscle_activation(
                        tv,
                        h,
                        muscle_k@.subrange(t * mks as int, t * mks as int + mks as int),
                        vertex_k@,
                        vertex_v@,
                        num_vertices as nat,
                    ),
                forall|t: int| 0 <= t < m ==> saturated_bits(out@[t]),
            decreases num_muscles - m,
        {
            proof {
                assert((m as int) * (mks as int) + (mks as int) <= (num_muscles as int) * (
                mks as int)) by (nonlinear_arith)
                    requires
                        m < num_muscles,
                ;
            }
            let m_key = copy_range(muscle_k, m * mks, mks);
            let act = muscle_forward(
                h,
                &m_key,
                vertex_k,
                vertex_v,
                num_vertices,
                qh_w,
                qh_b,
                qo_w,
                qo_b,
                oh_w,
                oh_b,
                of_w,
                of_b,
            );
            out.push(act);
            m += 1;
        }
        proof {
            assert(out@ =~= spec_activations(
                tv,
                h,
                vertex_k@,
                muscle_k@,
                vertex_v@,
                num_vertices as nat,
                num_muscles as nat,
            ));
        }
        Ok(out)
    }
}

/// Determinism: the forward result is a mathematical function of the store,
/// the hyperparameters and the input arrays alone — two policies with equal
/// weights produce identical output arrays on identical inputs.
pub proof fn lemma_forward_deterministic(
    entries1: Seq<(String, Vec<u32>)>,
    entries2: Seq<(String, Vec<u32>)>,
    h1: Hyperparameters,
    h2: Hyperparameters,
    vertex_k: Seq<u32>,
    muscle_k: Seq<u32>,
    vertex_v: Seq<u32>,
    num_vertices: nat,
    num_muscles: nat,
)
    requires
        entries1 == entries2,
        h1 == h2,
    ensures
        spec_forward(entries1, h1, vertex_k, muscle_k, vertex_v, num_vertices, num_muscles)
            == spec_forward(entries2, h2, vertex_k, muscle_k, vertex_v, num_vertices, num_muscles),
{
}

/// Muscle independence: a muscle's activation depends only on that muscle's
/// own key slice, never on another muscle's key. Wherever two calls see the
/// same key slice — in particular after any permutation of the muscle keys —
/// the corresponding activations are identical, so permuting the muscle keys
/// permutes the output array identically.
pub proof fn lemma_muscle_independence(
    tv: TensorViews,
    h: Hyperparameters,
    vertex_k: Seq<u32>,
    vertex_v: Seq<u32>,
    num_vertices: nat,
    muscle_k1: Seq<u32>,
    num_muscles1: nat,
    m1: int,
    muscle_k2: Seq<u32>,
    num_muscles2: nat,
    m2: int,
)
    requires
        0 <= m1 < num_muscles1,
        0 <= m2 < num_muscles2,
        muscle_k1.subrange(
            m1 * h.muscle_key_size,
            m1 * h.muscle_key_size + h.muscle_key_size,
        ) == muscle_k2.subrange(
            m2 * h.muscle_key_size,
            m2 * h.muscle_key_size + h.muscle_key_size,
        ),
    ensures
        spec_activations(tv, h, vertex_k, muscle_k1, vertex_v, num_vertices, num_muscles1)[m1]
            == spec_activations(tv, h, vertex_k, muscle_k2, vertex_v, num_vertices, num_muscles2)[m2],
{
}

/// Vertex `v`'s key embedding: its slice of the flat key buffer.
pub open spec fn spec_vertex_key(vertex_k: Seq<u32>, key_size: nat, v: int) -> Seq<u32> {
    vertex_k.subrange(v * key_size, v * key_size + key_size)
}

/// Uniform attention: with every vertex key identical, each head's raw
/// scores are all equal (the head's query is shared), so the softmax
/// weighting over the vertices is uniform.
pub proof fn lemma_identical_keys_uniform_weights(
    q_head: Seq<u32>,
    vertex_k: Seq<u32>,
    key_size: nat,
    num_vertices: nat,
)
    requires
        num_vertices > 0,
        vertex_k.len() == num_vertices * key_size,
        forall|v: int, w: int|
            0 <= v < num_vertices && 0 <= w < num_vertices ==> #[trigger] spec_vertex_key(
                vertex_k,
                key_size,
                v,
            ) == #[trigger] spec_vertex_key(vertex_k, key_size, w),
    ensures
        forall|i: int, j: int|
            0 <= i < num_vertices && 0 <= j < num_vertices ==> softmax_bits(
                spec_scores(q_head, vertex_k, key_size, num_vertices),
            )[i] == softmax_bits(spec_scores(q_head, vertex_k, key_size, num_vertices))[j],
{
    let scores = spec_scores(q_head, vertex_k, key_size, num_vertices);
    assert forall|i: int, j: int|
        0 <= i < num_vertices && 0 <= j < num_vertices implies scores[i] == scores[j] by {
        assert(spec_vertex_key(vertex_k, key_size, i) == spec_vertex_key(vertex_k, key_size, j));
        assert(scores[i] == dot_bits(q_head, spec_vertex_key(vertex_k, key_size, i)));
        assert(scores[j] == dot_bits(q_head, spec_vertex_key(vertex_k, key_size, j)));
    }
    crate::attention::lemma_softmax_uniform(scores);
}

} // verus!
