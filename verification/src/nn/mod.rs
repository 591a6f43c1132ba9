//! What a learnable unit offers to the code around it, and units that come with the library.

pub mod activations;
pub mod layer_norm;
pub mod module;
