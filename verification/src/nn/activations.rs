//! Activation units. They have no parameters.

use vstd::prelude::*;
use crate::nn::module::ZeroSizedModule;

verus! {

/// Unit struct that stands for the softmax over the last axis of its input.
#[derive(Default, Debug, Clone, Copy)]
pub struct Softmax;

impl ZeroSizedModule for Softmax {

}

} // verus!
