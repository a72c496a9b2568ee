use vstd::prelude::*;

use crate::shape::Shape;

verus! {

/// What goes wrong when a value handed to the network has the wrong shape.
#[derive(Clone, Copy, Debug, PartialEq, Eq, Structural)]
pub enum NetworkError {
    /// A matrix whose shape is not the one that the network needs there.
    DimensionMismatch { expected: Shape, actual: Shape },
    /// A sequence of matrices of the wrong length.
    CountMismatch { expected_len: usize, actual_len: usize },
    /// The network has no layer to propagate an error through.
    EmptyNetwork,
}

} // verus!
