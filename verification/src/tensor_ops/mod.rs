//! Differentiable operations on tensors.

pub mod backward;
pub mod device;
pub mod select;
