//! Architecture, shape checking and training schedule of a small
//! feed-forward neural network trained by stochastic gradient descent.
//!
//! A network is assembled with [`NetworkConfig`]: an input layer that fixes
//! the width of the input rows, then dense layers, each fed by the one
//! before. [`CompiledNetwork`] keeps the dense layers, whose weight matrices
//! are proved to chain, and checks the shape of every matrix handed to a
//! forward pass, to backpropagation and to a weight update, reporting a
//! [`NetworkError`]. [`TrainingSchedule`] decides the order of stochastic
//! gradient descent: which sample each step trains on, when an epoch ends
//! and when the error is reported.
pub mod error;
pub mod laws;
pub mod layer_configs;
pub mod network;
pub mod shape;
pub mod training;

pub use error::NetworkError;
pub use layer_configs::{ActivationFunction, DenseLayerConfig, InputLayerConfig};
pub use network::{CompiledNetwork, LayerShape, NetworkConfig};
pub use shape::Shape;
pub use training::{TrainingSchedule, TrainingStep, REPORT_INTERVAL};
