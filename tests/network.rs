use neuralnet::shape::{check_all, check_shapes};
use neuralnet::{
    ActivationFunction, CompiledNetwork, DenseLayerConfig, InputLayerConfig, LayerShape,
    NetworkConfig, NetworkError, Shape,
};

fn two_cluster_network() -> CompiledNetwork {
    NetworkConfig::new()
        .add_input_layer(InputLayerConfig::new(2))
        .add_dense_layer(DenseLayerConfig::new(2, ActivationFunction::sigmoid))
        .add_dense_layer(DenseLayerConfig::new(1, ActivationFunction::sigmoid))
        .compile()
}

fn layer(rows: usize, cols: usize, activation: ActivationFunction) -> LayerShape {
    LayerShape { weights: Shape::new(rows, cols), activation }
}

#[test]
fn layer_configs_keep_their_fields() {
    let input = InputLayerConfig::new(7);
    assert_eq!(input.number_of_inputs, 7);
    let dense = DenseLayerConfig::new(3, ActivationFunction::relu);
    assert_eq!(dense.number_of_nerons, 3);
    assert_eq!(dense.activation_function, ActivationFunction::relu);
}

#[test]
fn builder_tracks_the_input_layer() {
    let config = NetworkConfig::new();
    assert!(!config.has_input_layer());
    let config = config.add_input_layer(InputLayerConfig::new(4));
    assert!(config.has_input_layer());
    assert_eq!(config.next_width(), 4);
    let config = config.add_dense_layer(DenseLayerConfig::new(6, ActivationFunction::linear));
    assert_eq!(config.next_width(), 6);
}

#[test]
fn compile_drops_the_input_layer_and_chains_shapes() {
    let net = two_cluster_network();
    assert_eq!(net.layer_count(), 2);
    assert_eq!(net.input_width(), 2);
    assert_eq!(net.output_width(), 1);
    assert_eq!(net.shape(0), Shape::new(2, 2));
    assert_eq!(net.shape(1), Shape::new(2, 1));
    assert_eq!(net.activation(0), ActivationFunction::sigmoid);
    assert_eq!(net.activation(1), ActivationFunction::sigmoid);
}

#[test]
fn adjacent_layers_fit_in_a_deep_network() {
    let net = NetworkConfig::new()
        .add_input_layer(InputLayerConfig::new(3))
        .add_dense_layer(DenseLayerConfig::new(5, ActivationFunction::relu))
        .add_dense_layer(DenseLayerConfig::new(4, ActivationFunction::sigmoid))
        .add_dense_layer(DenseLayerConfig::new(2, ActivationFunction::linear))
        .compile();
    assert_eq!(net.layer_count(), 3);
    assert_eq!(net.shape(0), Shape::new(3, 5));
    for i in 0..net.layer_count() - 1 {
        assert_eq!(net.shape(i).cols, net.shape(i + 1).rows);
    }
}

#[test]
fn forward_pass_ends_in_a_row_of_the_output_width() {
    let net = NetworkConfig::new()
        .add_input_layer(InputLayerConfig::new(3))
        .add_dense_layer(DenseLayerConfig::new(5, ActivationFunction::relu))
        .add_dense_layer(DenseLayerConfig::new(4, ActivationFunction::sigmoid))
        .compile();
    let shapes = net.forward_shapes(Shape::row(3)).unwrap();
    assert_eq!(shapes, vec![Shape::new(1, 5), Shape::new(1, 4)]);
    assert_eq!(*shapes.last().unwrap(), Shape::new(1, 4));
    assert_eq!(net.output_shapes(), shapes);
}

#[test]
fn forward_pass_refuses_a_wrong_input() {
    let net = two_cluster_network();
    assert_eq!(
        net.forward_shapes(Shape::new(1, 3)),
        Err(NetworkError::DimensionMismatch { expected: Shape::new(1, 2), actual: Shape::new(1, 3) })
    );
    assert_eq!(
        net.forward_shapes(Shape::new(2, 2)),
        Err(NetworkError::DimensionMismatch { expected: Shape::new(1, 2), actual: Shape::new(2, 2) })
    );
    assert_eq!(net.check_input(Shape::new(1, 2)), Ok(()));
    assert_eq!(
        net.check_input(Shape::new(0, 2)),
        Err(NetworkError::DimensionMismatch { expected: Shape::new(1, 2), actual: Shape::new(0, 2) })
    );
}

#[test]
fn a_network_without_dense_layers_passes_rows_through() {
    let net = NetworkConfig::new().add_input_layer(InputLayerConfig::new(3)).compile();
    assert_eq!(net.layer_count(), 0);
    assert_eq!(net.output_width(), 3);
    assert_eq!(net.forward_shapes(Shape::row(3)), Ok(vec![]));
    assert_eq!(net.check_backprop(Shape::row(3), &vec![]), Err(NetworkError::EmptyNetwork));
}

#[test]
fn new_validates_the_chain_of_layers() {
    let ok = CompiledNetwork::new(
        2,
        vec![layer(2, 3, ActivationFunction::relu), layer(3, 1, ActivationFunction::linear)],
    );
    let net = ok.unwrap();
    assert_eq!(net.output_width(), 1);
    let broken = CompiledNetwork::new(
        2,
        vec![
            layer(2, 3, ActivationFunction::relu),
            layer(4, 1, ActivationFunction::linear),
            layer(5, 1, ActivationFunction::linear),
        ],
    );
    assert_eq!(
        broken.err(),
        Some(NetworkError::DimensionMismatch { expected: Shape::new(3, 1), actual: Shape::new(4, 1) })
    );
    let first = CompiledNetwork::new(4, vec![layer(2, 3, ActivationFunction::sigmoid)]);
    assert_eq!(
        first.err(),
        Some(NetworkError::DimensionMismatch { expected: Shape::new(4, 3), actual: Shape::new(2, 3) })
    );
    assert!(CompiledNetwork::new(5, vec![]).is_ok());
}

#[test]
fn backprop_checks_expected_output_and_captured_outputs() {
    let net = two_cluster_network();
    let outputs = vec![Shape::row(2), Shape::row(1)];
    assert_eq!(net.check_backprop(Shape::row(1), &outputs), Ok(()));
    assert_eq!(
        net.check_backprop(Shape::row(2), &outputs),
        Err(NetworkError::DimensionMismatch { expected: Shape::row(1), actual: Shape::row(2) })
    );
    assert_eq!(
        net.check_backprop(Shape::row(1), &vec![Shape::row(2)]),
        Err(NetworkError::CountMismatch { expected_len: 2, actual_len: 1 })
    );
    assert_eq!(
        net.check_backprop(Shape::row(1), &vec![Shape::row(3), Shape::row(1)]),
        Err(NetworkError::DimensionMismatch { expected: Shape::row(2), actual: Shape::row(3) })
    );
}

#[test]
fn update_checks_input_then_deltas_then_outputs() {
    let net = two_cluster_network();
    let good = vec![Shape::row(2), Shape::row(1)];
    let bad = vec![Shape::row(2), Shape::row(7)];
    assert_eq!(net.check_update(Shape::row(2), &good, &good), Ok(()));
    assert_eq!(
        net.check_update(Shape::row(5), &bad, &bad),
        Err(NetworkError::DimensionMismatch { expected: Shape::row(2), actual: Shape::row(5) })
    );
    assert_eq!(
        net.check_update(Shape::row(2), &bad, &good),
        Err(NetworkError::DimensionMismatch { expected: Shape::row(1), actual: Shape::row(7) })
    );
    assert_eq!(
        net.check_update(Shape::row(2), &good, &vec![]),
        Err(NetworkError::CountMismatch { expected_len: 2, actual_len: 0 })
    );
}

#[test]
fn samples_need_matching_counts_and_shapes() {
    let net = two_cluster_network();
    let inputs = vec![Shape::row(2); 10];
    let outputs = vec![Shape::row(1); 10];
    assert_eq!(net.check_samples(&inputs, &outputs), Ok(()));
    assert_eq!(
        net.check_samples(&inputs, &vec![Shape::row(1); 9]),
        Err(NetworkError::CountMismatch { expected_len: 10, actual_len: 9 })
    );
    let mut wide = inputs.clone();
    wide[4] = Shape::row(3);
    wide[6] = Shape::row(4);
    assert_eq!(
        net.check_samples(&wide, &outputs),
        Err(NetworkError::DimensionMismatch { expected: Shape::row(2), actual: Shape::row(3) })
    );
    let mut tall = outputs.clone();
    tall[9] = Shape::new(2, 1);
    assert_eq!(
        net.check_samples(&inputs, &tall),
        Err(NetworkError::DimensionMismatch { expected: Shape::row(1), actual: Shape::new(2, 1) })
    );
    assert_eq!(net.check_samples(&vec![], &vec![]), Ok(()));
}

#[test]
fn shape_algebra() {
    let a = Shape::new(1, 3);
    let b = Shape::new(3, 4);
    assert_eq!(a.dot(&b), Some(Shape::new(1, 4)));
    assert_eq!(b.dot(&a), None);
    assert_eq!(b.transposed(), Shape::new(4, 3));
    assert_eq!(Shape::row(5), Shape::new(1, 5));
    assert_eq!(
        check_shapes(&vec![a, b], &vec![a]),
        Err(NetworkError::CountMismatch { expected_len: 2, actual_len: 1 })
    );
    assert_eq!(check_shapes(&vec![a, b], &vec![a, b]), Ok(()));
    assert_eq!(
        check_all(a, &vec![a, b, b]),
        Err(NetworkError::DimensionMismatch { expected: a, actual: b })
    );
    assert_eq!(check_all(a, &vec![]), Ok(()));
}
