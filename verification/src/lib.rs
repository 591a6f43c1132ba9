//! A tensor library with reverse-mode automatic differentiation.
//!
//! Tensors are created by a device, threaded through differentiable
//! operations that record themselves on a gradient tape, and finally
//! differentiated by running the tape backward into a map from tensor
//! identity to accumulated gradient.

pub mod dtypes;
pub mod gradients;
pub mod nn;
pub mod optim;
pub mod shapes;
pub mod tape;
pub mod tensor;
pub mod tensor_ops;
pub mod unique_id;
