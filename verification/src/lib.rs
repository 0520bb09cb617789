//! A minimal feed-forward neural network engine: a dense matrix primitive,
//! a multi-layer perceptron with a configurable activation, forward
//! inference, backpropagation-based training, checkpointing, and resumable
//! training.
//!
//! Every scalar is an IEEE-754 binary64 value carried as its 64-bit pattern
//! (see [`scalar`]); the structural and control logic of the engine is
//! verified over those plain values, while the arithmetic itself goes
//! through a software IEEE-754 implementation behind trusted wrappers.
#![verifier::loop_isolation(false)]

pub mod activation;
pub mod checkpoint;
pub mod error;
pub mod examples;
pub mod fmt;
pub mod matrix;
pub mod network;
pub mod rng;
pub mod scalar;
pub mod svg;
pub mod text;
pub mod training;

