use neural_network::activation::Activation;
use neural_network::checkpoint::Checkpoint;
use neural_network::error::NnError;
use neural_network::matrix::Matrix;
use neural_network::network::Network;

fn b(x: f64) -> u64 {
    x.to_bits()
}

fn f(x: u64) -> f64 {
    f64::from_bits(x)
}

fn col(v: &[f64]) -> Matrix {
    Matrix::from(v.iter().map(|x| x.to_bits()).collect())
}

fn mat(rows: usize, cols: usize, v: &[f64]) -> Matrix {
    Matrix {
        rows,
        cols,
        data: v.iter().map(|x| x.to_bits()).collect(),
    }
}

#[test]
fn test_create_network() {
    let network = Network::new(vec![2, 3, 1], Activation::Sigmoid, b(0.5));
    assert!(network.is_ok());
    let net = network.unwrap();
    assert_eq!(net.layers, vec![2, 3, 1]);
}

#[test]
fn test_create_network_seeded() {
    let n1 = Network::new_seeded(vec![2, 3, 1], Activation::Sigmoid, b(0.5), 12345).unwrap();
    let n2 = Network::new_seeded(vec![2, 3, 1], Activation::Sigmoid, b(0.5), 12345).unwrap();
    assert_eq!(n1.layers, n2.layers);
    assert_eq!(n1.get_weights(), n2.get_weights());
    let b1: Vec<Vec<u64>> = n1.biases.iter().map(|m| m.data.clone()).collect();
    let b2: Vec<Vec<u64>> = n2.biases.iter().map(|m| m.data.clone()).collect();
    assert_eq!(b1, b2);
}

#[test]
fn test_evaluate() {
    let mut network = Network::new(vec![2, 3, 1], Activation::Sigmoid, b(0.5)).unwrap();
    let result = network.feed_forward(col(&[1.0, 0.0]));
    assert!(result.is_ok());
    let output = result.unwrap();
    assert_eq!(output.data.len(), 1);
}

#[test]
fn test_parameter_count() {
    let network = Network::new(vec![2, 3, 1], Activation::Sigmoid, b(0.5)).unwrap();
    // Weights: 2->3 = 6, 3->1 = 3; biases: 3 + 1 = 4.
    assert_eq!(network.parameter_count(), 13);
}

#[test]
fn test_from_example() {
    let example = neural_network::examples::get_example("xor");
    assert!(example.is_some());
    assert_eq!(example.unwrap().name, "xor");
}

#[test]
fn test_serialization() {
    let net = Network::new_seeded(vec![2, 3, 1], Activation::Sigmoid, b(0.5), 7).unwrap();
    let cp = Checkpoint::of_network(&net, String::from("xor"), 10, 10);
    let restored = cp.to_network();
    assert!(restored.is_ok());
    let restored = restored.unwrap();
    assert_eq!(restored.layers, vec![2, 3, 1]);
    assert_eq!(restored.get_weights(), net.get_weights());
}

#[test]
fn test_checkpoint_round_trip_bits() {
    let net = Network::new_seeded(vec![3, 4, 2], Activation::Sigmoid, b(0.25), 99).unwrap();
    let cp = Checkpoint::of_network(&net, String::new(), 0, 0);
    let back = cp.to_network().unwrap();
    assert_eq!(back.layers, net.layers);
    for (a, m) in back.weights.iter().zip(net.weights.iter()) {
        assert_eq!(a.rows, m.rows);
        assert_eq!(a.cols, m.cols);
        assert_eq!(a.data, m.data);
    }
    for (a, m) in back.biases.iter().zip(net.biases.iter()) {
        assert_eq!(a.data, m.data);
    }
    assert_eq!(back.learning_rate, net.learning_rate);
    assert!(back.get_activations().is_empty());
}

#[test]
fn test_feed_forward_shapes() {
    let mut net = Network::new_seeded(vec![2, 3, 1], Activation::Sigmoid, b(0.5), 1).unwrap();
    let out = net.feed_forward(col(&[1.0, 0.0])).unwrap();
    assert_eq!(out.rows, 1);
    assert_eq!(out.cols, 1);
    let acts = net.get_activations();
    assert_eq!(acts.len(), 3);
    assert_eq!(acts[0].len(), 2);
    assert_eq!(acts[1].len(), 3);
    assert_eq!(acts[2].len(), 1);
}

#[test]
fn test_feed_forward_dimension_mismatch() {
    let mut net = Network::new(vec![2, 3, 1], Activation::Sigmoid, b(0.5)).unwrap();
    let r = net.feed_forward(col(&[1.0, 0.0, 1.0]));
    assert!(matches!(r, Err(NnError::DimensionMismatch { .. })));
}

#[test]
fn test_invalid_architecture() {
    let r = Network::new(vec![5], Activation::Sigmoid, b(0.5));
    assert!(matches!(
        r,
        Err(NnError::InvalidArchitecture { layer_count: 1 })
    ));
    let r = Network::new(vec![2, 0, 1], Activation::Sigmoid, b(0.5));
    assert!(matches!(r, Err(NnError::InvalidArchitecture { .. })));
}

#[test]
fn test_matrix_add_matches_hardware() {
    let a = mat(2, 2, &[0.1, 0.2, 0.375, -1.5]);
    let c = mat(2, 2, &[1.0, -0.25, 2.5, 0.3]);
    let r = a.add(&c).unwrap();
    let expect = [0.1f64 + 1.0, 0.2 - 0.25, 0.375 + 2.5, -1.5 + 0.3];
    for (got, want) in r.data.iter().zip(expect.iter()) {
        assert_eq!(*got, want.to_bits());
    }
}

#[test]
fn test_matrix_dot_matches_hardware() {
    let a = mat(2, 2, &[1.5, 2.25, 3.0, -4.125]);
    let v = mat(2, 1, &[5.5, 6.75]);
    let r = a.dot_multiply(&v).unwrap();
    assert_eq!(r.rows, 2);
    assert_eq!(r.cols, 1);
    let e0 = 0.0f64 + 1.5 * 5.5 + 2.25 * 6.75;
    let e1 = 0.0f64 + 3.0 * 5.5 + (-4.125) * 6.75;
    assert_eq!(r.data[0], e0.to_bits());
    assert_eq!(r.data[1], e1.to_bits());
}

#[test]
fn test_matrix_sub_emul_transpose() {
    let a = mat(2, 2, &[1.0, 2.0, 3.0, 4.0]);
    let c = mat(2, 2, &[0.5, 0.25, -1.0, 8.0]);
    let s = a.subtract(&c).unwrap();
    assert_eq!(f(s.data[0]), 0.5);
    assert_eq!(f(s.data[3]), -4.0);
    let m = a.elementwise_multiply(&c).unwrap();
    assert_eq!(f(m.data[1]), 0.5);
    assert_eq!(f(m.data[2]), -3.0);
    let t = a.transpose();
    assert_eq!(t.rows, 2);
    assert_eq!(t.cols, 2);
    assert_eq!(f(t.get(0, 1)), 3.0);
    assert_eq!(f(t.get(1, 0)), 2.0);
}

#[test]
fn test_matrix_dimension_mismatch() {
    let a = mat(2, 2, &[1.0, 2.0, 3.0, 4.0]);
    let v = mat(3, 1, &[1.0, 2.0, 3.0]);
    assert!(matches!(a.add(&v), Err(NnError::DimensionMismatch { .. })));
    assert!(matches!(
        a.dot_multiply(&a.transpose()).map(|_| ()),
        Ok(())
    ));
    assert!(matches!(
        v.dot_multiply(&a),
        Err(NnError::DimensionMismatch { .. })
    ));
}

#[test]
fn test_sigmoid_values() {
    let s0 = f(neural_network::activation::sigmoid_scalar(b(0.0)));
    assert!((s0 - 0.5).abs() < 1e-12);
    let s2 = f(neural_network::activation::sigmoid_scalar(b(2.0)));
    assert!((s2 - 1.0 / (1.0 + (-2.0f64).exp())).abs() < 1e-9);
    let hi = f(neural_network::activation::sigmoid_scalar(b(100.0)));
    assert!(hi > 0.9999999);
    let lo = f(neural_network::activation::sigmoid_scalar(b(-100.0)));
    assert!(lo < 1e-7);
}

#[test]
fn test_random_range() {
    let net = Network::new(vec![4, 5, 2], Activation::Sigmoid, b(0.5)).unwrap();
    for w in net.get_weights() {
        for v in w {
            let x = f(v);
            assert!((-1.0..1.0).contains(&x));
        }
    }
}

#[test]
fn test_activation_names() {
    assert_eq!(
        Activation::from_name("sigmoid"),
        Some(Activation::Sigmoid)
    );
    assert_eq!(Activation::from_name("relu"), None);
    assert_eq!(Activation::Sigmoid.name(), "sigmoid");
}

#[test]
fn test_error_describe() {
    assert_eq!(
        NnError::CheckpointFormat.describe(),
        "checkpoint is structurally invalid"
    );
    assert_eq!(NnError::UnknownExample.describe(), "unknown example dataset");
}

#[test]
fn test_network_train_updates_weights() {
    let mut net = Network::new_seeded(vec![2, 3, 1], Activation::Sigmoid, b(0.5), 3).unwrap();
    let before = net.get_weights();
    let ex = neural_network::examples::get_example("xor").unwrap();
    net.train(ex.inputs, ex.targets, 10).unwrap();
    assert_ne!(before, net.get_weights());
    assert_eq!(net.get_weight_shapes(), vec![(3, 2), (1, 3)]);
}
