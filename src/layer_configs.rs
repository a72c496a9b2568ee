use vstd::prelude::*;

verus! {

/// The activation applied elementwise to a dense layer's weighted sums.
#[allow(non_camel_case_types)]
#[derive(Clone, Copy, Debug, PartialEq, Eq, Structural)]
pub enum ActivationFunction {
    linear,
    sigmoid,
    relu,
}

/// The seed layer of a network: it only fixes the width of the input rows.
#[derive(Clone, Copy, Debug, PartialEq, Eq, Structural)]
pub struct InputLayerConfig {
    pub number_of_inputs: usize,
}

impl InputLayerConfig {
    pub fn new(number_of_inputs: usize) -> (r: InputLayerConfig)
        ensures
            r.number_of_inputs == number_of_inputs,
    {
        InputLayerConfig { number_of_inputs }
    }
}

/// A fully connected layer of `number_of_nerons` units.
#[derive(Clone, Copy, Debug, PartialEq, Eq, Structural)]
pub struct DenseLayerConfig {
    pub number_of_nerons: usize,
    pub activation_function: ActivationFunction,
}

impl DenseLayerConfig {
    pub fn new(number_of_nerons: usize, activation_function: ActivationFunction) -> (r:
        DenseLayerConfig)
        ensures
            r.number_of_nerons == number_of_nerons,
            r.activation_function == activation_function,
    {
        DenseLayerConfig { number_of_nerons, activation_function }
    }
}

} // verus!
