use vstd::prelude::*;

use crate::error::NetworkError;
use crate::layer_configs::{ActivationFunction, DenseLayerConfig, InputLayerConfig};
use crate::shape::{
    check_all, check_shapes, mismatch_from, product_shape, repeated, row_shape, shapes_check, Shape,
};

verus! {

/// A dense layer as the network's architecture sees it: the shape of its
/// weight matrix (a row for each unit of the layer before, a column for each
/// unit of this one) and its activation.
#[derive(Clone, Copy, Debug, PartialEq, Eq, Structural)]
pub struct LayerShape {
    pub weights: Shape,
    pub activation: ActivationFunction,
}

/// The width of the row that enters layer `i`: the input width for the first
/// layer, the previous layer's unit count for the others. At `i == layers.len()`
/// it is the width of the network's output.
pub open spec fn width_before(input_width: usize, layers: Seq<LayerShape>, i: int) -> usize {
    if i <= 0 {
        input_width
    } else {
        layers[i - 1].weights.cols
    }
}

/// Each layer's weight matrix has as many rows as the row that enters it is wide.
pub open spec fn chained(input_width: usize, layers: Seq<LayerShape>) -> bool {
    forall|i: int|
        0 <= i < layers.len() ==> #[trigger] layers[i].weights.rows == width_before(
            input_width,
            layers,
            i,
        )
}

/// The shapes of the rows that a forward pass yields, one per layer.
pub open spec fn layer_output_shapes(layers: Seq<LayerShape>) -> Seq<Shape> {
    Seq::new(layers.len(), |i: int| row_shape(layers[i].weights.cols))
}

/// A network being assembled: an optional input layer, then dense layers.
pub struct NetworkConfig {
    input_width: Option<usize>,
    layers: Vec<LayerShape>,
}

impl NetworkConfig {
    /// The width of the input layer, once one has been added.
    pub closed spec fn spec_input(&self) -> Option<usize> {
        self.input_width
    }

    /// The dense layers added so far, in order.
    pub closed spec fn spec_layers(&self) -> Seq<LayerShape> {
        self.layers@
    }

    /// Dense layers come after the input layer, each fed by the one before.
    pub open spec fn wf(&self) -> bool {
        match self.spec_input() {
            None => self.spec_layers().len() == 0,
            Some(w) => chained(w, self.spec_layers()),
        }
    }

    /// The width of the row that a dense layer added next would receive.
    pub open spec fn spec_next_width(&self) -> usize {
        width_before(self.spec_input()->0, self.spec_layers(), self.spec_layers().len() as int)
    }

    pub fn new() -> (r: NetworkConfig)
        ensures
            r.spec_input() is None,
            r.spec_layers().len() == 0,
            r.wf(),
    {
        NetworkConfig { input_width: None, layers: Vec::new() }
    }

    pub fn has_input_layer(&self) -> (r: bool)
        ensures
            r == self.spec_input() is Some,
    {
        self.input_width.is_some()
    }

    /// The width of the row that a dense layer added next would receive: the
    /// last dense layer's unit count, or the input width.
    pub fn next_width(&self) -> (r: usize)
        requires
            self.wf(),
            self.spec_input() is Some,
        ensures
            r == self.spec_next_width(),
    {
        let n = self.layers.len();
        if n == 0 {
            self.input_width.unwrap()
        } else {
            self.layers[n - 1].weights.cols
        }
    }

    /// Seeds the network with an input layer. A network has one input layer.
    pub fn add_input_layer(self, input_layer_config: InputLayerConfig) -> (r: NetworkConfig)
        requires
            self.wf(),
            self.spec_input() is None,
        ensures
            r.wf(),
            r.spec_input() == Some(input_layer_config.number_of_inputs),
            r.spec_layers().len() == 0,
    {
        NetworkConfig { input_width: Some(input_layer_config.number_of_inputs), layers: self.layers }
    }

    /// Appends a dense layer fed by the last layer added.
    pub fn add_dense_layer(self, dense_layer_config: DenseLayerConfig) -> (r: NetworkConfig)
        requires
            self.wf(),
            self.spec_input() is Some,
        ensures
            r.wf(),
            r.spec_input() == self.spec_input(),
            r.spec_layers() == self.spec_layers().push(
                LayerShape {
                    weights: Shape {
                        rows: self.spec_next_width(),
                        cols: dense_layer_config.number_of_nerons,
                    },
                    activation: dense_layer_config.activation_function,
                },
            ),
    {
        let rows = self.next_width();
        let layer = LayerShape {
            weights: Shape { rows, cols: dense_layer_config.number_of_nerons },
            activation: dense_layer_config.activation_function,
        };
        let mut layers = self.layers;
        let ghost before = layers@;
        layers.push(layer);
        let r = NetworkConfig { input_width: self.input_width, layers };
        assert forall|i: int| 0 <= i < r.spec_layers().len() implies #[trigger] r.spec_layers()[i].weights.rows
            == width_before(r.spec_input()->0, r.spec_layers(), i) by {
            if i < before.len() {
                assert(before[i] == r.spec_layers()[i]);
                assert(before[i].weights.rows == width_before(r.spec_input()->0, before, i));
            }
        }
        r
    }

    /// Sets the architecture: the input layer only gave the first dense
    /// layer its width, and is left out of the compiled network.
    pub fn compile(self) -> (r: CompiledNetwork)
        requires
            self.wf(),
            self.spec_input() is Some,
        ensures
            r.wf(),
            r.spec_input_width() == self.spec_input()->0,
            r.spec_layers() == self.spec_layers(),
    {
        CompiledNetwork { input_width: self.input_width.unwrap(), layers: self.layers }
    }
}

/// The architecture of a network ready to be run: the input width and the
/// dense layers in order.
pub struct CompiledNetwork {
    input_width: usize,
    layers: Vec<LayerShape>,
}

impl CompiledNetwork {
    /// The width of the rows that the network takes.
    pub closed spec fn spec_input_width(&self) -> usize {
        self.input_width
    }

    /// The dense layers, in the order in which a forward pass runs them.
    pub closed spec fn spec_layers(&self) -> Seq<LayerShape> {
        self.layers@
    }

    /// Adjacent layers fit together.
    pub open spec fn wf(&self) -> bool {
        chained(self.spec_input_width(), self.spec_layers())
    }

    /// The width of the network's output: the last layer's unit count, or
    /// the input width where there is no layer.
    pub open spec fn spec_output_width(&self) -> usize {
        width_before(
            self.spec_input_width(),
            self.spec_layers(),
            self.spec_layers().len() as int,
        )
    }

    /// The shape of an input row.
    pub open spec fn spec_input_shape(&self) -> Shape {
        row_shape(self.spec_input_width())
    }

    /// The shape of an output row, and of an expected output.
    pub open spec fn spec_output_shape(&self) -> Shape {
        row_shape(self.spec_output_width())
    }

    /// What a forward pass on a row of shape `input` yields: the shape of
    /// each layer's output, or the mismatch that stops it.
    pub open spec fn spec_forward_shapes(&self, input: Shape) -> Result<Seq<Shape>, NetworkError> {
        if input == self.spec_input_shape() {
            Ok(layer_output_shapes(self.spec_layers()))
        } else {
            Err(NetworkError::DimensionMismatch { expected: self.spec_input_shape(), actual: input })
        }
    }

    /// What `new` finds of a list of layers: the first layer whose weight
    /// rows differ from the width of the row that enters it.
    pub open spec fn spec_chain_check(input_width: usize, layers: Seq<LayerShape>) -> Result<
        (),
        NetworkError,
    > {
        mismatch_from(
            Seq::new(
                layers.len(),
                |i: int|
                    Shape {
                        rows: width_before(input_width, layers, i),
                        cols: layers[i].weights.cols,
                    },
            ),
            Seq::new(layers.len(), |i: int| layers[i].weights),
            0,
        )
    }

    /// What `check_backprop` finds of an expected output and the outputs
    /// captured by a forward pass.
    pub open spec fn spec_backprop_check(&self, expected: Shape, outputs: Seq<Shape>) -> Result<
        (),
        NetworkError,
    > {
        if self.spec_layers().len() == 0 {
            Err(NetworkError::EmptyNetwork)
        } else if expected != self.spec_output_shape() {
            Err(
                NetworkError::DimensionMismatch {
                    expected: self.spec_output_shape(),
                    actual: expected,
                },
            )
        } else {
            shapes_check(layer_output_shapes(self.spec_layers()), outputs)
        }
    }

    /// What `check_update` finds of the raw input, the deltas and the
    /// captured outputs handed to a weight update.
    pub open spec fn spec_update_check(
        &self,
        input: Shape,
        deltas: Seq<Shape>,
        outputs: Seq<Shape>,
    ) -> Result<(), NetworkError> {
        if input != self.spec_input_shape() {
            Err(NetworkError::DimensionMismatch { expected: self.spec_input_shape(), actual: input })
        } else if shapes_check(layer_output_shapes(self.spec_layers()), deltas) is Err {
            shapes_check(layer_output_shapes(self.spec_layers()), deltas)
        } else {
            shapes_check(layer_output_shapes(self.spec_layers()), outputs)
        }
    }

    /// What `check_samples` finds of a training set's input and expected
    /// output shapes.
    pub open spec fn spec_samples_check(&self, inputs: Seq<Shape>, outputs: Seq<Shape>) -> Result<
        (),
        NetworkError,
    > {
        if inputs.len() != outputs.len() {
            Err(
                NetworkError::CountMismatch {
                    expected_len: inputs.len() as usize,
                    actual_len: outputs.len() as usize,
                },
            )
        } else if shapes_check(repeated(self.spec_input_shape(), inputs.len()), inputs) is Err {
            shapes_check(repeated(self.spec_input_shape(), inputs.len()), inputs)
        } else {
            shapes_check(repeated(self.spec_output_shape(), outputs.len()), outputs)
        }
    }

    /// Builds a network over `layers`, fed by rows `input_width` wide. Each
    /// layer's weight rows must match the width of the row that enters it;
    /// the first layer that breaks this is reported.
    pub fn new(input_width: usize, layers: Vec<LayerShape>) -> (r: Result<
        CompiledNetwork,
        NetworkError,
    >)
        ensures
            r is Ok <==> chained(input_width, layers@),
            r is Ok <==> Self::spec_chain_check(input_width, layers@) is Ok,
            r matches Err(e) ==> Self::spec_chain_check(input_width, layers@) == Err::<
                (),
                NetworkError,
            >(e),
            r matches Ok(net) ==> net.wf() && net.spec_input_width() == input_width
                && net.spec_layers() == layers@,
    {
        let ghost want = Seq::new(
            layers@.len(),
            |i: int|
                Shape {
                    rows: width_before(input_width, layers@, i),
                    cols: layers@[i].weights.cols,
                },
        );
        let ghost have = Seq::new(layers@.len(), |i: int| layers@[i].weights);
        let mut width = input_width;
        let mut i: usize = 0;
        while i < layers.len()
            invariant
                i <= layers.len(),
                want.len() == layers@.len(),
                have.len() == layers@.len(),
                want == Seq::new(
                    layers@.len(),
                    |i: int|
                        Shape {
                            rows: width_before(input_width, layers@, i),
                            cols: layers@[i].weights.cols,
                        },
                ),
                have == Seq::new(layers@.len(), |i: int| layers@[i].weights),
                width == width_before(input_width, layers@, i as int),
                forall|j: int|
                    0 <= j < i ==> #[trigger] layers@[j].weights.rows == width_before(
                        input_width,
                        layers@,
                        j,
                    ),
                mismatch_from(want, have, 0) == mismatch_from(want, have, i as int),
            decreases layers.len() - i,
        {
            let w = layers[i].weights;
            if w.rows != width {
                assert(want[i as int] != have[i as int]);
                return Err(
                    NetworkError::DimensionMismatch {
                        expected: Shape { rows: width, cols: w.cols },
                        actual: w,
                    },
                );
            }
            assert(want[i as int] == have[i as int]);
            width = w.cols;
            i = i + 1;
        }
        Ok(CompiledNetwork { input_width, layers })
    }

    pub fn layer_count(&self) -> (r: usize)
        ensures
            r == self.spec_layers().len(),
    {
        self.layers.len()
    }

    pub fn input_width(&self) -> (r: usize)
        ensures
            r == self.spec_input_width(),
    {
        self.input_width
    }

    /// The width of the network's output: the last layer's unit count, or
    /// the input width where there is no layer.
    pub fn output_width(&self) -> (r: usize)
        ensures
            r == self.spec_output_width(),
    {
        let n = self.layers.len();
        if n == 0 {
            self.input_width
        } else {
            self.layers[n - 1].weights.cols
        }
    }

    /// The shape of layer `i`'s weight matrix.
    pub fn shape(&self, i: usize) -> (r: Shape)
        requires
            i < self.spec_layers().len(),
        ensures
            r == self.spec_layers()[i as int].weights,
    {
        self.layers[i].weights
    }

    /// The activation of layer `i`.
    pub fn activation(&self, i: usize) -> (r: ActivationFunction)
        requires
            i < self.spec_layers().len(),
        ensures
            r == self.spec_layers()[i as int].activation,
    {
        self.layers[i].activation
    }

    /// The shape of an input row.
    pub fn input_shape(&self) -> (r: Shape)
        ensures
            r == self.spec_input_shape(),
    {
        Shape { rows: 1, cols: self.input_width }
    }

    /// The shape of an output row, and of an expected output.
    pub fn output_shape(&self) -> (r: Shape)
        ensures
            r == self.spec_output_shape(),
    {
        Shape { rows: 1, cols: self.output_width() }
    }

    /// The shape of each layer's output row, in forward order.
    pub fn output_shapes(&self) -> (r: Vec<Shape>)
        ensures
            r@ == layer_output_shapes(self.spec_layers()),
    {
        let mut r: Vec<Shape> = Vec::new();
        let mut i: usize = 0;
        while i < self.layers.len()
            invariant
                i <= self.layers@.len(),
                r@ == layer_output_shapes(self.spec_layers()).take(i as int),
            decreases self.layers.len() - i,
        {
            r.push(Shape { rows: 1, cols: self.layers[i].weights.cols });
            i = i + 1;
            assert(r@ =~= layer_output_shapes(self.spec_layers()).take(i as int));
        }
        assert(r@ =~= layer_output_shapes(self.spec_layers()));
        r
    }

    /// Runs the shapes through a forward pass: each layer multiplies the
    /// row it receives by its weight matrix, and its activation keeps the
    /// shape of the product. Yields the shape of each layer's output, or the
    /// mismatch of an input that is not a row of the input width.
    pub fn forward_shapes(&self, input: Shape) -> (r: Result<Vec<Shape>, NetworkError>)
        requires
            self.wf(),
        ensures
            match r {
                Ok(v) => self.spec_forward_shapes(input) == Ok::<Seq<Shape>, NetworkError>(v@),
                Err(e) => self.spec_forward_shapes(input) == Err::<Seq<Shape>, NetworkError>(e),
            },
    {
        if input.rows != 1 || input.cols != self.input_width {
            return Err(NetworkError::DimensionMismatch { expected: self.input_shape(), actual: input });
        }
        let mut current = input;
        let mut r: Vec<Shape> = Vec::new();
        let mut i: usize = 0;
        while i < self.layers.len()
            invariant
                self.wf(),
                i <= self.layers@.len(),
                current == row_shape(width_before(self.input_width, self.layers@, i as int)),
                r@ == layer_output_shapes(self.spec_layers()).take(i as int),
            decreases self.layers.len() - i,
        {
            let weights = self.layers[i].weights;
            assert(self.layers@[i as int].weights.rows == width_before(
                self.input_width,
                self.layers@,
                i as int,
            ));
            let product = current.dot(&weights);
            current = product.unwrap();
            r.push(current);
            i = i + 1;
            assert(r@ =~= layer_output_shapes(self.spec_layers()).take(i as int));
        }
        assert(r@ =~= layer_output_shapes(self.spec_layers()));
        Ok(r)
    }

    /// Checks a row handed to a forward pass.
    pub fn check_input(&self, input: Shape) -> (r: Result<(), NetworkError>)
        ensures
            r is Ok <==> input == self.spec_input_shape(),
            r is Err ==> r == Err::<(), NetworkError>(
                NetworkError::DimensionMismatch { expected: self.spec_input_shape(), actual: input },
            ),
    {
        let expected = self.input_shape();
        if input != expected {
            Err(NetworkError::DimensionMismatch { expected, actual: input })
        } else {
            Ok(())
        }
    }

    /// Checks what backpropagation is handed: the expected output, and the
    /// outputs captured by a forward pass, one per layer. A network without
    /// layers has nothing to propagate through.
    pub fn check_backprop(&self, expected: Shape, outputs: &Vec<Shape>) -> (r: Result<
        (),
        NetworkError,
    >)
        ensures
            r == self.spec_backprop_check(expected, outputs@),
            r is Ok <==> self.spec_layers().len() > 0 && expected == self.spec_output_shape()
                && outputs@ == layer_output_shapes(self.spec_layers()),
    {
        if self.layers.len() == 0 {
            return Err(NetworkError::EmptyNetwork);
        }
        let want = self.output_shape();
        if expected != want {
            return Err(NetworkError::DimensionMismatch { expected: want, actual: expected });
        }
        check_shapes(&self.output_shapes(), outputs)
    }

    /// Checks what a weight update is handed: the row the network took, the
    /// deltas of each layer and the outputs captured by the forward pass.
    pub fn check_update(&self, input: Shape, deltas: &Vec<Shape>, outputs: &Vec<Shape>) -> (r:
        Result<(), NetworkError>)
        ensures
            r == self.spec_update_check(input, deltas@, outputs@),
            r is Ok <==> input == self.spec_input_shape() && deltas@ == layer_output_shapes(
                self.spec_layers(),
            ) && outputs@ == layer_output_shapes(self.spec_layers()),
    {
        let checked = self.check_input(input);
        if checked.is_err() {
            return checked;
        }
        let want = self.output_shapes();
        let checked = check_shapes(&want, deltas);
        if checked.is_err() {
            return checked;
        }
        check_shapes(&want, outputs)
    }

    /// Checks a training set: as many expected outputs as inputs, every
    /// input a row of the input width, every expected output a row of the
    /// output width.
    pub fn check_samples(&self, inputs: &Vec<Shape>, outputs: &Vec<Shape>) -> (r: Result<
        (),
        NetworkError,
    >)
        ensures
            r == self.spec_samples_check(inputs@, outputs@),
            r is Ok <==> inputs@.len() == outputs@.len() && (forall|j: int|
                0 <= j < inputs@.len() ==> inputs@[j] == self.spec_input_shape()) && (forall|j: int|
                0 <= j < outputs@.len() ==> outputs@[j] == self.spec_output_shape()),
    {
        if inputs.len() != outputs.len() {
            return Err(
                NetworkError::CountMismatch { expected_len: inputs.len(), actual_len: outputs.len() },
            );
        }
        let checked = check_all(self.input_shape(), inputs);
        if checked.is_err() {
            return checked;
        }
        check_all(self.output_shape(), outputs)
    }
}

} // verus!
