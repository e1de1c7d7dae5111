//! The weight store: an immutable mapping from tensor name to a flat,
//! row-major sequence of IEEE 754 binary32 bit patterns, built once at load
//! time, with name lookup and the shape-checked affine operator over named
//! weight/bias pairs.
use vstd::prelude::*;

verus! {

use vstd::string::StringExecFns;

use crate::linalg::{affine_bits, affine_apply};

/// The failure taxonomy. Construction-time failures (a malformed
/// hyperparameter document, a malformed weight document, a required tensor
/// missing from the store) abort initialization; per-call failures (a length
/// contract violated, an empty vertex set) are returned to the caller, which
/// may skip the tick or abort.
#[derive(Clone, Copy, Debug, PartialEq, Eq, Structural)]
pub enum PolicyError {
    /// A hyperparameter field is missing, not an integer, or not positive.
    ConfigError,
    /// The weight document is not an object of named numeric arrays.
    WeightLoadError,
    /// A tensor required by the architecture is absent from the store.
    MissingTensorError,
    /// A buffer length disagrees with its declared feature count or shape.
    ShapeMismatch,
    /// The vertex set is empty, so the softmax weighting is undefined.
    EmptyInputError,
}

/// The tensor stored under `name`, by the first entry whose name matches;
/// `None` when no entry matches.
pub open spec fn find_tensor(entries: Seq<(String, Vec<u32>)>, name: Seq<char>) -> Option<Seq<u32>>
    decreases entries.len(),
{
    if entries.len() == 0 {
        None
    } else if entries[0].0@ == name {
        Some(entries[0].1@)
    } else {
        find_tensor(entries.drop_first(), name)
    }
}

/// The store's entries as plain values: each tensor name as its character
/// sequence, each tensor as its bit-pattern sequence.
pub open spec fn entries_view(entries: Seq<(String, Vec<u32>)>) -> Seq<(Seq<char>, Seq<u32>)> {
    entries.map_values(|p: (String, Vec<u32>)| (p.0@, p.1@))
}

/// `find_tensor`, over entries already taken as plain values.
pub open spec fn find_tensor_view(
    entries: Seq<(Seq<char>, Seq<u32>)>,
    name: Seq<char>,
) -> Option<Seq<u32>>
    decreases entries.len(),
{
    if entries.len() == 0 {
        None
    } else if entries[0].0 == name {
        Some(entries[0].1)
    } else {
        find_tensor_view(entries.drop_first(), name)
    }
}

/// A lookup in the store and a lookup in its plain-value view agree.
pub proof fn lemma_find_tensor_view(entries: Seq<(String, Vec<u32>)>, name: Seq<char>)
    ensures
        find_tensor(entries, name) == find_tensor_view(entries_view(entries), name),
    decreases entries.len(),
{
    if entries.len() == 0 {
        assert(entries_view(entries) =~= Seq::empty());
    } else {
        assert(entries_view(entries)[0] == (entries[0].0@, entries[0].1@));
        assert(entries_view(entries).drop_first() =~= entries_view(entries.drop_first()));
        lemma_find_tensor_view(entries.drop_first(), name);
    }
}

/// The store holds a tensor under `name`.
pub open spec fn has_tensor(entries: Seq<(String, Vec<u32>)>, name: Seq<char>) -> bool {
    find_tensor(entries, name) is Some
}

/// No two entries carry the same tensor name: the store is a true mapping,
/// and a lookup's first match is its only match.
pub open spec fn names_distinct(entries: Seq<(String, Vec<u32>)>) -> bool {
    forall|i: int, j: int|
        0 <= i < j < entries.len() ==> (#[trigger] entries[i].0@) != (#[trigger] entries[j].0@)
}

/// The read-only name-to-tensor store that an attention policy owns. Built
/// exactly once at load time and never mutated afterward.
pub struct AttentionWeights {
    /// The named flat tensors, in the order the weight document listed them.
    pub tensors: Vec<(String, Vec<u32>)>,
}

/// The affine operator's result over the store: the named weight and bias
/// are looked up (a missing name is a `MissingTensorError`), the three
/// length contracts are enforced (a violation is a `ShapeMismatch`, never a
/// truncated read), and otherwise the result is `y = W·x + b`.
pub open spec fn spec_affine_call(
    entries: Seq<(String, Vec<u32>)>,
    input: Seq<u32>,
    weight_name: Seq<char>,
    bias_name: Seq<char>,
    in_features: nat,
    out_features: nat,
) -> Result<Seq<u32>, PolicyError> {
    if !has_tensor(entries, weight_name) || !has_tensor(entries, bias_name) {
        Err(PolicyError::MissingTensorError)
    } else {
        let weight = find_tensor(entries, weight_name).unwrap();
        let bias = find_tensor(entries, bias_name).unwrap();
        if input.len() != in_features || weight.len() != in_features * out_features || bias.len()
            != out_features {
            Err(PolicyError::ShapeMismatch)
        } else {
            Ok(affine_bits(input, weight, bias, in_features, out_features))
        }
    }
}

/// A `Result` of a bit-pattern buffer, seen as a `Result` of its sequence.
pub open spec fn seq_result(r: Result<Vec<u32>, PolicyError>) -> Result<Seq<u32>, PolicyError> {
    match r {
        Ok(v) => Ok(v@),
        Err(e) => Err(e),
    }
}

impl AttentionWeights {
    /// Read-only lookup of the flat tensor stored under `name`.
    pub fn lookup(&self, name: &str) -> (r: Result<&Vec<u32>, PolicyError>)
        ensures
            match r {
                Ok(t) => find_tensor(self.tensors@, name@) == Some(t@),
                Err(e) => e == PolicyError::MissingTensorError && !has_tensor(
                    self.tensors@,
                    name@,
                ),
            },
    {
        let key = String::from_str(name);
        let ghost entries = self.tensors@;
        proof {
            assert(entries.skip(0) =~= entries);
        }
        let mut i: usize = 0;
        while i < self.tensors.len()
            invariant
                i <= entries.len(),
                self.tensors@ == entries,
                key@ == name@,
                find_tensor(entries, name@) == find_tensor(entries.skip(i as int), name@),
            decreases entries.len() - i,
        {
            proof {
                assert(entries.skip(i as int)[0] == entries[i as int]);
            }
            if self.tensors[i].0 == key {
                return Ok(&self.tensors[i].1);
            }
            proof {
                assert(entries.skip(i as int).drop_first() =~= entries.skip(i as int + 1));
            }
            i += 1;
        }
        proof {
            assert(entries.skip(i as int) =~= Seq::empty());
        }
        Err(PolicyError::MissingTensorError)
    }

    /// The affine operator `y = W·x + b` over the named weight/bias pair:
    /// `output[i] = bias[i] + Σ_j input[j] * weight[i * in_features + j]`,
    /// with every length contract checked up front. Pure: no effect beyond
    /// the returned buffer.
    pub fn affine(
        &self,
        input: &Vec<u32>,
        weight_name: &str,
        bias_name: &str,
        in_features: usize,
        out_features: usize,
    ) -> (r: Result<Vec<u32>, PolicyError>)
        ensures
            seq_result(r) == spec_affine_call(
                self.tensors@,
                input@,
                weight_name@,
                bias_name@,
                in_features as nat,
                out_features as nat,
            ),
    {
        let weight = match self.lookup(weight_name) {
            Ok(t) => t,
            Err(_) => {
                return Err(PolicyError::MissingTensorError);
            },
        };
        let bias = match self.lookup(bias_name) {
            Ok(t) => t,
            Err(_) => {
                return Err(PolicyError::MissingTensorError);
            },
        };
        if input.len() != in_features {
            return Err(PolicyError::ShapeMismatch);
        }
        let wlen = weight.len();
        match in_features.checked_mul(out_features) {
            Some(p) => {
                if wlen != p {
                    return Err(PolicyError::ShapeMismatch);
                }
            },
            None => {
                // The product exceeds every possible buffer length.
                return Err(PolicyError::ShapeMismatch);
            },
        }
        if bias.len() != out_features {
            return Err(PolicyError::ShapeMismatch);
        }
        Ok(affine_apply(input, weight, bias, in_features, out_features))
    }
}

} // verus!
