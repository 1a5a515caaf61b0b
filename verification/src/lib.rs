//! Small numeric computation graphs — elementwise add and matrix multiply
//! over typed tensors — built incrementally into an index-ordered graph
//! description, then sealed, compiled for a device set, and executed with a
//! verified evaluator. The contracts pin down operand-index allocation, the
//! single-input protocol, output shapes, and the computed data.

pub mod context;
pub mod graph;
pub mod laws;
pub mod operators;
pub mod pipeline;
pub mod primitives;
pub mod tensor;
