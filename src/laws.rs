use vstd::prelude::*;

use crate::network::{width_before, CompiledNetwork};
use crate::shape::{product_shape, row_shape, transposed_shape, Shape};

verus! {

/// For every architecture, a forward pass on a row of the input width ends in
/// a single row as wide as the last layer, which is the network's output shape.
pub proof fn lemma_forward_pass_ends_in_output_row(net: CompiledNetwork, input: Shape)
    requires
        net.wf(),
        net.spec_layers().len() > 0,
        input == net.spec_input_shape(),
    ensures
        net.spec_forward_shapes(input) is Ok,
        net.spec_forward_shapes(input)->Ok_0.len() == net.spec_layers().len(),
        net.spec_forward_shapes(input)->Ok_0.last() == row_shape(
            net.spec_layers().last().weights.cols,
        ),
        net.spec_forward_shapes(input)->Ok_0.last() == net.spec_output_shape(),
{
}

/// In a compiled network the weight matrices of adjacent layers fit: each
/// layer has as many columns as the next one has rows.
pub proof fn lemma_adjacent_layers_fit(net: CompiledNetwork, i: int)
    requires
        net.wf(),
        0 <= i,
        i + 1 < net.spec_layers().len(),
    ensures
        net.spec_layers()[i].weights.cols == net.spec_layers()[i + 1].weights.rows,
{
    assert(net.spec_layers()[i + 1].weights.rows == width_before(
        net.spec_input_width(),
        net.spec_layers(),
        i + 1,
    ));
}

/// Backpropagation through layer `i` is well shaped: its deltas have the
/// shape of its output, and pushing them back through the weights,
/// `(W · deltasᵗ)ᵗ`, gives a row shaped like the row that entered the layer,
/// so the error that the layer before receives has that layer's output shape.
pub proof fn lemma_backprop_error_shape(net: CompiledNetwork, i: int)
    requires
        net.wf(),
        0 <= i < net.spec_layers().len(),
    ensures
        ({
            let weights = net.spec_layers()[i].weights;
            let deltas = row_shape(weights.cols);
            &&& product_shape(weights, transposed_shape(deltas)) is Some
            &&& transposed_shape(product_shape(weights, transposed_shape(deltas))->0) == row_shape(
                width_before(net.spec_input_width(), net.spec_layers(), i),
            )
        }),
{
    assert(net.spec_layers()[i].weights.rows == width_before(
        net.spec_input_width(),
        net.spec_layers(),
        i,
    ));
}

/// A weight update of layer `i` is well shaped: with the row that entered the
/// layer as input, the step `((deltas · rate)ᵗ · input)ᵗ` has the shape of
/// the weight matrix it is added to.
pub proof fn lemma_update_step_shape(net: CompiledNetwork, i: int)
    requires
        net.wf(),
        0 <= i < net.spec_layers().len(),
    ensures
        ({
            let weights = net.spec_layers()[i].weights;
            let deltas = row_shape(weights.cols);
            let input = row_shape(width_before(net.spec_input_width(), net.spec_layers(), i));
            &&& product_shape(transposed_shape(deltas), input) is Some
            &&& transposed_shape(product_shape(transposed_shape(deltas), input)->0) == weights
        }),
{
    assert(net.spec_layers()[i].weights.rows == width_before(
        net.spec_input_width(),
        net.spec_layers(),
        i,
    ));
}

} // verus!
