use muscle_attention::attention::{max_score, mix_values, softmax};
use muscle_attention::linalg::{copy_range, dot, rectify, saturate};
use muscle_attention::mesh::unique_edges;
use muscle_attention::motion::{PhysicsEngine, RaceRules};
use muscle_attention::store::{AttentionWeights, PolicyError};

fn bits_vec(values: &[f32]) -> Vec<u32> {
    values.iter().map(|x| x.to_bits()).collect()
}

fn vals(bits: &[u32]) -> Vec<f32> {
    bits.iter().map(|b| f32::from_bits(*b)).collect()
}

#[test]
fn softmax_weights_sum_to_one() {
    let scores = bits_vec(&[1.0, 2.0, 0.5, -3.0]);
    let weights = vals(&softmax(&scores));
    let mut sum = 0.0f64;
    for w in &weights {
        assert!(*w > 0.0 && *w < 1.0);
        sum += *w as f64;
    }
    assert!((sum - 1.0).abs() < 1e-6, "softmax sum {sum}");
    // The largest score receives the largest weight.
    assert!(weights[1] > weights[0] && weights[1] > weights[2] && weights[1] > weights[3]);
}

#[test]
fn softmax_on_a_single_score_is_one() {
    // Whatever the raw score, a single vertex receives weight exactly 1.0.
    for s in [0.0f32, 17.5, -400.0, 1e30] {
        let weights = softmax(&vec![s.to_bits()]);
        assert_eq!(vals(&weights), vec![1.0]);
    }
}

#[test]
fn softmax_of_equal_scores_is_uniform() {
    let scores = bits_vec(&[0.75, 0.75, 0.75, 0.75]);
    let weights = softmax(&scores);
    assert_eq!(vals(&weights), vec![0.25, 0.25, 0.25, 0.25]);
}

#[test]
fn uniform_weights_mix_to_the_arithmetic_mean() {
    // A uniform weighting makes each head output coordinate the mean of the
    // vertex values, accumulated in vertex order.
    let weights = bits_vec(&[0.25, 0.25, 0.25, 0.25]);
    let values = bits_vec(&[4.0, -8.0, 2.0, 16.0, 6.0, -24.0, 12.0, 0.5]);
    let out = vals(&mix_values(&weights, &values, 2));
    let mean0 = ((0.0f32 + 0.25 * 4.0) + 0.25 * 2.0) + 0.25 * 6.0;
    let mean0 = mean0 + 0.25 * 12.0;
    let mean1 = ((0.0f32 + 0.25 * -8.0) + 0.25 * 16.0) + 0.25 * -24.0;
    let mean1 = mean1 + 0.25 * 0.5;
    assert_eq!(out, vec![mean0, mean1]);
    assert_eq!(out, vec![6.0, -3.875]);
}

#[test]
fn max_score_ignores_nan_and_finds_the_largest() {
    let scores = bits_vec(&[1.0, f32::NAN, 3.0, 2.0]);
    assert_eq!(f32::from_bits(max_score(&scores)), 3.0);
    let empty: Vec<u32> = Vec::new();
    assert_eq!(f32::from_bits(max_score(&empty)), f32::NEG_INFINITY);
}

#[test]
fn dot_product_is_exact() {
    let q = bits_vec(&[2.0, 3.0, -1.0]);
    let k = bits_vec(&[4.0, 0.5, 8.0]);
    // ((0 + 2*4) + 3*0.5) + (-1)*8 = 1.5
    assert_eq!(f32::from_bits(dot(&q, &k)), 1.5);
}

#[test]
fn affine_computes_rows_against_the_named_tensors() {
    let store = AttentionWeights {
        tensors: vec![
            ("w".to_string(), bits_vec(&[1.0, 2.0, 3.0, 4.0])),
            ("b".to_string(), bits_vec(&[0.5, -0.5])),
        ],
    };
    let input = bits_vec(&[1.0, 1.0]);
    let out = store.affine(&input, "w", "b", 2, 2).unwrap();
    assert_eq!(vals(&out), vec![3.5, 6.5]);

    // Length contracts: a wrong input length is a ShapeMismatch, a missing
    // name is a MissingTensorError.
    let short = bits_vec(&[1.0]);
    assert_eq!(store.affine(&short, "w", "b", 2, 2), Err(PolicyError::ShapeMismatch));
    assert_eq!(store.affine(&input, "w", "b", 2, 3), Err(PolicyError::ShapeMismatch));
    assert_eq!(
        store.affine(&input, "missing", "b", 2, 2),
        Err(PolicyError::MissingTensorError)
    );
}

#[test]
fn zero_affine_erases_finite_input() {
    // An all-zero weight and bias map any finite input to exactly +0.0 rows.
    let store = AttentionWeights {
        tensors: vec![
            ("w".to_string(), vec![0u32; 6]),
            ("b".to_string(), vec![0u32; 3]),
        ],
    };
    let input = bits_vec(&[123.25, -0.5]);
    let out = store.affine(&input, "w", "b", 2, 3).unwrap();
    assert_eq!(out, vec![0u32; 3]);
}

#[test]
fn lookup_finds_tensors_by_name() {
    let store = AttentionWeights {
        tensors: vec![
            ("alpha".to_string(), vec![1, 2, 3]),
            ("beta".to_string(), vec![4]),
        ],
    };
    assert_eq!(store.lookup("beta").unwrap(), &vec![4]);
    assert_eq!(store.lookup("gamma"), Err(PolicyError::MissingTensorError));
}

#[test]
fn rectify_zeroes_negatives_only() {
    let mut buffer = bits_vec(&[-1.5, 0.0, 2.25, -0.0]);
    rectify(&mut buffer);
    assert_eq!(vals(&buffer), vec![0.0, 0.0, 2.25, -0.0]);
    // -0.0 is not below 0.0, so its sign bit survives.
    assert_eq!(buffer[3], (-0.0f32).to_bits());

    let mut with_nan = vec![f32::NAN.to_bits()];
    rectify(&mut with_nan);
    assert!(f32::from_bits(with_nan[0]).is_nan());
}

#[test]
fn saturate_squashes_into_the_unit_interval() {
    let mut buffer = bits_vec(&[0.0, 0.5, -0.5, 100.0, -100.0]);
    saturate(&mut buffer);
    let out = vals(&buffer);
    assert_eq!(out[0], 0.0);
    assert!((out[1] - 0.46211717).abs() < 1e-6);
    assert!((out[2] + 0.46211717).abs() < 1e-6);
    // Far in the tails single-precision tanh saturates to exactly one: the
    // boundary of the output interval is attained, never exceeded.
    assert_eq!(out[3], 1.0);
    assert_eq!(out[4], -1.0);
    for y in out {
        assert!((-1.0..=1.0).contains(&y));
    }

    let mut with_nan = vec![f32::NAN.to_bits()];
    saturate(&mut with_nan);
    assert!(f32::from_bits(with_nan[0]).is_nan());
}

#[test]
fn copy_range_slices_exactly() {
    let v: Vec<u32> = vec![10, 20, 30, 40, 50];
    assert_eq!(copy_range(&v, 1, 3), vec![20, 30, 40]);
    assert_eq!(copy_range(&v, 0, 0), Vec::<u32>::new());
}

#[test]
fn unique_edges_deduplicates_shared_sides() {
    let triangles = vec![(0usize, 1usize, 2usize), (1, 2, 3)];
    let edges = unique_edges(&triangles);
    assert_eq!(edges, vec![(0, 1), (1, 2), (2, 0), (2, 3), (3, 1)]);

    // A degenerate triangle repeats its own side: it is kept only once.
    let degenerate = vec![(4usize, 5usize, 4usize)];
    assert_eq!(unique_edges(&degenerate), vec![(4, 5), (4, 4)]);
}

#[test]
fn movement_intent_reads_the_pressed_keys() {
    let keys = vec!["ArrowUp".to_string()];
    let intent = PhysicsEngine::movement_intent(&keys);
    assert!(intent.move_forward);
    assert!(!intent.move_backward && !intent.turn_left && !intent.turn_right);

    let keys = vec!["Space".to_string(), "KeyA".to_string(), "F1".to_string()];
    let intent = PhysicsEngine::movement_intent(&keys);
    assert!(!intent.move_forward);
    assert!(intent.move_backward);
    assert!(intent.turn_left);
    assert!(!intent.turn_right);

    let intent = PhysicsEngine::movement_intent(&vec!["KeyD".to_string(), "KeyW".to_string()]);
    assert!(intent.move_forward && intent.turn_right);
}

#[test]
fn lap_progress_never_goes_backward_and_completes_at_the_total() {
    assert_eq!(RaceRules::lap_progress(2, 3, 5), (3, false));
    assert_eq!(RaceRules::lap_progress(3, 1, 5), (3, false));
    assert_eq!(RaceRules::lap_progress(4, 5, 5), (5, true));
    assert_eq!(RaceRules::lap_progress(5, 5, 5), (5, true));
}
