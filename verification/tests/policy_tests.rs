use muscle_attention::policy::{AttentionModel, Hyperparameters, HIDDEN_WIDTH};
use muscle_attention::store::{AttentionWeights, PolicyError};

fn bits_vec(values: &[f32]) -> Vec<u32> {
    values.iter().map(|x| x.to_bits()).collect()
}

fn vals(bits: &[u32]) -> Vec<f32> {
    bits.iter().map(|b| f32::from_bits(*b)).collect()
}

fn tensor(name: &str, values: Vec<u32>) -> (String, Vec<u32>) {
    (name.to_string(), values)
}

/// A model with every weight and bias zero, `num_heads = 1` and all three
/// embedding sizes 2.
fn zero_model() -> AttentionModel {
    let hyper = Hyperparameters {
        vertex_key_size: 2,
        vertex_value_size: 2,
        muscle_key_size: 2,
        num_heads: 1,
    };
    let tensors = vec![
        tensor("muscle_k_to_vertex_q.0.weight", vec![0u32; 2 * HIDDEN_WIDTH]),
        tensor("muscle_k_to_vertex_q.0.bias", vec![0u32; HIDDEN_WIDTH]),
        tensor("muscle_k_to_vertex_q.2.weight", vec![0u32; HIDDEN_WIDTH * 2]),
        tensor("muscle_k_to_vertex_q.2.bias", vec![0u32; 2]),
        tensor("wv_to_output.0.weight", vec![0u32; 2 * HIDDEN_WIDTH]),
        tensor("wv_to_output.0.bias", vec![0u32; HIDDEN_WIDTH]),
        tensor("wv_to_output.2.weight", vec![0u32; HIDDEN_WIDTH]),
        tensor("wv_to_output.2.bias", vec![0u32; 1]),
    ];
    AttentionModel { hyper, weights: AttentionWeights { tensors } }
}

/// A model with the same shapes as `zero_model` but deterministic non-zero
/// weights.
fn patterned_model() -> AttentionModel {
    let mut model = zero_model();
    for (_, tensor) in model.weights.tensors.iter_mut() {
        for (i, slot) in tensor.iter_mut().enumerate() {
            let x = ((i % 13) as f32 - 6.0) * 0.21;
            *slot = x.to_bits();
        }
    }
    model
}

#[test]
fn zero_weights_give_zero_activations() {
    // With every weight and bias zero the final affine output is +0.0 and
    // tanh(0) is exactly 0.0 for every muscle, whatever the inputs.
    let model = zero_model();
    let vertex_k = bits_vec(&[0.3, -1.5, 7.25, 0.5, -2.0, 11.0]);
    let vertex_v = bits_vec(&[5.0, -3.5, 1.25, 8.0, -0.75, 2.5]);
    let muscle_k = bits_vec(&[1.0, -2.0, 3.5, 4.25]);
    let out = model.forward(&vertex_k, &muscle_k, &vertex_v, 3, 2).unwrap();
    assert_eq!(vals(&out), vec![0.0, 0.0]);

    let single_k = bits_vec(&[0.5, 0.25]);
    let single_v = bits_vec(&[-9.0, 4.0]);
    let out1 = model.forward(&single_k, &muscle_k, &single_v, 1, 2).unwrap();
    assert_eq!(vals(&out1), vec![0.0, 0.0]);
}

#[test]
fn forward_is_deterministic() {
    let model = patterned_model();
    let vertex_k = bits_vec(&[0.1, -0.2, 0.3, -0.4, 0.5, -0.6]);
    let vertex_v = bits_vec(&[1.0, 2.0, 3.0, 4.0, 5.0, 6.0]);
    let muscle_k = bits_vec(&[0.7, -0.8, 0.9, -1.0]);
    let a = model.forward(&vertex_k, &muscle_k, &vertex_v, 3, 2).unwrap();
    let b = model.forward(&vertex_k, &muscle_k, &vertex_v, 3, 2).unwrap();
    assert_eq!(a, b);
}

#[test]
fn outputs_lie_in_the_open_unit_interval() {
    let model = patterned_model();
    let vertex_k = bits_vec(&[3.0, -2.0, 1.5, 0.25, -4.0, 2.0]);
    let vertex_v = bits_vec(&[10.0, -20.0, 30.0, -40.0, 50.0, -60.0]);
    let muscle_k = bits_vec(&[5.0, -6.0, 7.0, -8.0, 9.0, -10.0]);
    let out = model.forward(&vertex_k, &muscle_k, &vertex_v, 3, 3).unwrap();
    assert_eq!(out.len(), 3);
    for b in out {
        let y = f32::from_bits(b);
        assert!(y > -1.0 && y < 1.0, "activation {y} out of range");
    }
}

#[test]
fn forward_rejects_wrong_lengths() {
    let model = patterned_model();
    let vertex_k = bits_vec(&[0.1, -0.2, 0.3, -0.4]);
    let vertex_v = bits_vec(&[1.0, 2.0, 3.0, 4.0]);
    let muscle_k = bits_vec(&[0.7, -0.8]);

    // One element short in the vertex keys.
    let short_k = bits_vec(&[0.1, -0.2, 0.3]);
    assert_eq!(
        model.forward(&short_k, &muscle_k, &vertex_v, 2, 1),
        Err(PolicyError::ShapeMismatch)
    );
    // One element long in the vertex values.
    let long_v = bits_vec(&[1.0, 2.0, 3.0, 4.0, 5.0]);
    assert_eq!(
        model.forward(&vertex_k, &muscle_k, &long_v, 2, 1),
        Err(PolicyError::ShapeMismatch)
    );
    // Muscle keys inconsistent with the muscle count.
    assert_eq!(
        model.forward(&vertex_k, &muscle_k, &vertex_v, 2, 2),
        Err(PolicyError::ShapeMismatch)
    );
    // The consistent call succeeds.
    assert!(model.forward(&vertex_k, &muscle_k, &vertex_v, 2, 1).is_ok());
}

#[test]
fn forward_rejects_empty_vertex_set() {
    let model = patterned_model();
    let muscle_k = bits_vec(&[0.7, -0.8]);
    let empty: Vec<u32> = Vec::new();
    assert_eq!(
        model.forward(&empty, &muscle_k, &empty, 0, 1),
        Err(PolicyError::EmptyInputError)
    );
}

#[test]
fn forward_rejects_missing_and_misshapen_tensors() {
    let vertex_k = bits_vec(&[0.1, -0.2]);
    let vertex_v = bits_vec(&[1.0, 2.0]);
    let muscle_k = bits_vec(&[0.7, -0.8]);

    let mut missing = zero_model();
    missing.weights.tensors.remove(3);
    assert_eq!(
        missing.forward(&vertex_k, &muscle_k, &vertex_v, 1, 1),
        Err(PolicyError::MissingTensorError)
    );

    let mut misshapen = zero_model();
    misshapen.weights.tensors[0].1.pop();
    assert_eq!(
        misshapen.forward(&vertex_k, &muscle_k, &vertex_v, 1, 1),
        Err(PolicyError::ShapeMismatch)
    );
}

#[test]
fn permuting_muscle_keys_permutes_activations() {
    let model = patterned_model();
    let vertex_k = bits_vec(&[0.1, -0.2, 0.3, -0.4, 0.5, -0.6]);
    let vertex_v = bits_vec(&[1.0, 2.0, 3.0, 4.0, 5.0, 6.0]);
    let k1 = [0.7f32, -0.8];
    let k2 = [2.5f32, 1.25];
    let k3 = [-3.0f32, 0.5];

    let keys_a = bits_vec(&[k1[0], k1[1], k2[0], k2[1], k3[0], k3[1]]);
    let keys_b = bits_vec(&[k3[0], k3[1], k1[0], k1[1], k2[0], k2[1]]);
    let out_a = model.forward(&vertex_k, &keys_a, &vertex_v, 3, 3).unwrap();
    let out_b = model.forward(&vertex_k, &keys_b, &vertex_v, 3, 3).unwrap();
    assert_eq!(out_b, vec![out_a[2], out_a[0], out_a[1]]);
}

#[test]
fn new_loads_documents_and_checks_the_manifest() {
    let args = "{\"vertex_key_size\": 2, \"vertex_value_size\": 2, \"muscle_key_size\": 2, \"num_heads\": 1}";
    let zeros_64 = vec!["0.0"; 64].join(", ");
    let zeros_32 = vec!["0.0"; 32].join(", ");
    let zeros_2 = "0.0, 0.0";
    let weights = format!(
        "{{\"muscle_k_to_vertex_q.0.weight\": [{zeros_64}], \
           \"muscle_k_to_vertex_q.0.bias\": [{zeros_32}], \
           \"muscle_k_to_vertex_q.2.weight\": [{zeros_64}], \
           \"muscle_k_to_vertex_q.2.bias\": [{zeros_2}], \
           \"wv_to_output.0.weight\": [{zeros_64}], \
           \"wv_to_output.0.bias\": [{zeros_32}], \
           \"wv_to_output.2.weight\": [{zeros_32}], \
           \"wv_to_output.2.bias\": [0.0]}}"
    );
    let model = AttentionModel::new(args, &weights).unwrap();
    assert_eq!(model.hyper.num_heads, 1);
    assert_eq!(model.hyper.vertex_key_size, 2);

    let vertex_k = bits_vec(&[0.1, -0.2]);
    let vertex_v = bits_vec(&[1.0, 2.0]);
    let muscle_k = bits_vec(&[0.7, -0.8]);
    let out = model.forward(&vertex_k, &muscle_k, &vertex_v, 1, 1).unwrap();
    assert_eq!(vals(&out), vec![0.0]);

    // A manifest tensor missing from an otherwise well-formed document.
    let incomplete = "{\"muscle_k_to_vertex_q.0.weight\": [0.0]}";
    assert!(matches!(
        AttentionModel::new(args, incomplete),
        Err(PolicyError::MissingTensorError)
    ));
}

#[test]
fn new_rejects_bad_hyperparameters() {
    let weights = "{}";
    // Missing field.
    assert!(matches!(
        AttentionModel::new(
            "{\"vertex_key_size\": 2, \"vertex_value_size\": 2, \"muscle_key_size\": 2}",
            weights
        ),
        Err(PolicyError::ConfigError)
    ));
    // Non-integer field.
    assert!(matches!(
        AttentionModel::new(
            "{\"vertex_key_size\": 2.5, \"vertex_value_size\": 2, \"muscle_key_size\": 2, \"num_heads\": 1}",
            weights
        ),
        Err(PolicyError::ConfigError)
    ));
    // Non-positive field.
    assert!(matches!(
        AttentionModel::new(
            "{\"vertex_key_size\": 0, \"vertex_value_size\": 2, \"muscle_key_size\": 2, \"num_heads\": 1}",
            weights
        ),
        Err(PolicyError::ConfigError)
    ));
    // Not an object of numbers at all.
    assert!(matches!(
        AttentionModel::new("[1, 2, 3]", weights),
        Err(PolicyError::ConfigError)
    ));
}

#[test]
fn new_rejects_malformed_weight_documents() {
    let args = "{\"vertex_key_size\": 2, \"vertex_value_size\": 2, \"muscle_key_size\": 2, \"num_heads\": 1}";
    assert!(matches!(
        AttentionModel::new(args, "{\"w\": \"not numbers\"}"),
        Err(PolicyError::WeightLoadError)
    ));
    assert!(matches!(
        AttentionModel::new(args, "not json"),
        Err(PolicyError::WeightLoadError)
    ));
}

#[test]
fn loaded_weights_carry_exact_single_precision_values() {
    let args = "{\"vertex_key_size\": 1, \"vertex_value_size\": 1, \"muscle_key_size\": 1, \"num_heads\": 1}";
    let weights = "{\"muscle_k_to_vertex_q.0.weight\": [1.5, -2.25, 0.1, 3e2]}";
    // The manifest check fails (only one tensor), but the parsed store is
    // examined through the error-free path below instead.
    assert!(matches!(
        AttentionModel::new(args, weights),
        Err(PolicyError::MissingTensorError)
    ));
    let entries = muscle_attention::config::load_weight_entries(weights).unwrap();
    assert_eq!(entries.len(), 1);
    assert_eq!(entries[0].0, "muscle_k_to_vertex_q.0.weight");
    assert_eq!(
        entries[0].1,
        vec![
            1.5f32.to_bits(),
            (-2.25f32).to_bits(),
            0.1f32.to_bits(),
            300.0f32.to_bits()
        ]
    );
}
