use neural_network::activation::Activation;
use neural_network::error::NnError;
use neural_network::matrix::Matrix;
use neural_network::network::Network;
use neural_network::training::{TrainingConfig, TrainingController};

fn b(x: f64) -> u64 {
    x.to_bits()
}

fn f(x: u64) -> f64 {
    f64::from_bits(x)
}

fn config(epochs: u32, example: Option<&str>) -> TrainingConfig {
    TrainingConfig {
        epochs,
        checkpoint_interval: None,
        checkpoint_path: None,
        verbose: false,
        example_name: example.map(String::from),
    }
}

fn mse(net: &mut Network, inputs: &[Vec<u64>], targets: &[Vec<u64>]) -> f64 {
    let mut total = 0.0;
    let mut count = 0;
    for (x, t) in inputs.iter().zip(targets.iter()) {
        let out = net.feed_forward(Matrix::from(x.clone())).unwrap();
        for (o, tv) in out.data.iter().zip(t.iter()) {
            let d = f(*tv) - f(*o);
            total += d * d;
            count += 1;
        }
    }
    total / count as f64
}

#[test]
fn test_xor_training_converges() {
    let net = Network::new_seeded(vec![2, 3, 1], Activation::Sigmoid, b(0.5), 42).unwrap();
    let ex = neural_network::examples::get_example("xor").unwrap();
    let mut controller = TrainingController::new(net, config(1000, Some("xor")));
    controller.train(&ex.inputs, &ex.targets).unwrap();
    let mut net = controller.into_network();
    let err = mse(&mut net, &ex.inputs, &ex.targets);
    assert!(err < 0.05, "mean squared error after training: {}", err);
}

#[test]
fn test_progress_records() {
    let net = Network::new_seeded(vec![2, 3, 1], Activation::Sigmoid, b(0.5), 5).unwrap();
    let ex = neural_network::examples::get_example("and").unwrap();
    let mut controller = TrainingController::new(net, config(5, Some("and")));
    let progress = controller.train(&ex.inputs, &ex.targets).unwrap();
    assert_eq!(progress.len(), 5);
    for (i, rec) in progress.iter().enumerate() {
        assert_eq!(rec.epoch as usize, i + 1);
        assert!(f(rec.loss).is_finite());
    }
    assert_eq!(controller.epochs_done, 5);
}

#[test]
fn test_resume_metadata() {
    let net = Network::new_seeded(vec![2, 3, 1], Activation::Sigmoid, b(0.5), 11).unwrap();
    let ex = neural_network::examples::get_example("and").unwrap();
    let mut controller = TrainingController::new(net, config(100, Some("and")));
    controller.train(&ex.inputs, &ex.targets).unwrap();
    let first = controller.checkpoint_at(100);
    assert_eq!(first.metadata.epoch, 100);
    assert_eq!(first.metadata.total_epochs, 100);
    assert_eq!(first.metadata.example, "and");

    let mut resumed = TrainingController::resume(&first, config(50, Some("and"))).unwrap();
    resumed.train(&ex.inputs, &ex.targets).unwrap();
    let second = resumed.checkpoint_at(50);
    assert_eq!(second.metadata.epoch, 50);
    assert_eq!(second.metadata.total_epochs, 50);
    assert_eq!(second.network.layers, vec![2, 3, 1]);
}

#[test]
fn test_resume_rejects_malformed() {
    let net = Network::new_seeded(vec![2, 3, 1], Activation::Sigmoid, b(0.5), 1).unwrap();
    let mut cp = neural_network::checkpoint::Checkpoint::of_network(&net, String::new(), 0, 0);
    cp.network.weights.pop();
    let r = TrainingController::resume(&cp, config(10, None));
    assert!(matches!(r, Err(NnError::CheckpointFormat)));
}

#[test]
fn test_malformed_checkpoint() {
    let net = Network::new_seeded(vec![2, 3, 1], Activation::Sigmoid, b(0.5), 1).unwrap();
    let mut cp = neural_network::checkpoint::Checkpoint::of_network(&net, String::new(), 0, 0);
    // One weight matrix too few for the declared layers.
    cp.network.weights.pop();
    assert!(matches!(
        cp.to_network(),
        Err(NnError::CheckpointFormat)
    ));

    let mut cp2 = neural_network::checkpoint::Checkpoint::of_network(&net, String::new(), 0, 0);
    // A buffer whose length no longer matches its declared shape.
    cp2.network.biases[0].data.pop();
    assert!(matches!(
        cp2.to_network(),
        Err(NnError::CheckpointFormat)
    ));
    assert!(cp2.network.data.is_empty());
}

#[test]
fn test_should_checkpoint() {
    let net = Network::new_seeded(vec![2, 3, 1], Activation::Sigmoid, b(0.5), 1).unwrap();
    let mut cfg = config(100, None);
    cfg.checkpoint_interval = Some(10);
    let controller = TrainingController::new(net, cfg);
    assert!(controller.should_checkpoint(10));
    assert!(controller.should_checkpoint(20));
    assert!(!controller.should_checkpoint(5));

    let net = Network::new_seeded(vec![2, 3, 1], Activation::Sigmoid, b(0.5), 1).unwrap();
    let controller = TrainingController::new(net, config(100, None));
    assert!(!controller.should_checkpoint(10));
}

#[test]
fn test_controller_train_dimension_mismatch() {
    let net = Network::new_seeded(vec![2, 3, 1], Activation::Sigmoid, b(0.5), 1).unwrap();
    let mut controller = TrainingController::new(net, config(10, None));
    let inputs = vec![vec![b(0.0), b(1.0), b(0.5)]];
    let targets = vec![vec![b(1.0)]];
    let r = controller.train(&inputs, &targets);
    assert!(matches!(r, Err(NnError::DimensionMismatch { .. })));
    assert_eq!(controller.epochs_done, 0);
}

#[test]
fn test_into_network() {
    let net = Network::new_seeded(vec![4, 2], Activation::Sigmoid, b(0.1), 8).unwrap();
    let weights = net.get_weights();
    let controller = TrainingController::new(net, config(0, None));
    let back = controller.into_network();
    assert_eq!(back.layers, vec![4, 2]);
    assert_eq!(back.get_weights(), weights);
}

#[test]
fn test_loss_matches_direct_mse() {
    let net = Network::new_seeded(vec![2, 3, 1], Activation::Sigmoid, b(0.5), 21).unwrap();
    let ex = neural_network::examples::get_example("or").unwrap();
    let mut controller = TrainingController::new(net, config(1, Some("or")));
    let progress = controller.train(&ex.inputs, &ex.targets).unwrap();
    let mut net = controller.into_network();
    // The recorded loss divides the total squared error by the sample
    // count; recompute it the same way from fresh forward passes.
    let mut total = 0.0;
    for (x, t) in ex.inputs.iter().zip(ex.targets.iter()) {
        let out = net.feed_forward(Matrix::from(x.clone())).unwrap();
        let d = f(t[0]) - f(out.data[0]);
        total += d * d;
    }
    let expected = total / ex.inputs.len() as f64;
    assert!((f(progress[0].loss) - expected).abs() < 1e-15);
}
