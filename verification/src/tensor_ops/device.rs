//! Everything that the operations and units of the library ask of a device, under one name.

use vstd::prelude::*;
use crate::dtypes::Dtype;
use crate::shapes::Shape;
use crate::tensor::cpu::Cpu;
use crate::tensor::storage_traits::{
    CopySlice, DeviceStorage, OneFillStorage, OnesTensor, SampleTensor, TensorFromArray,
    ZeroFillStorage, ZerosTensor,
};
use crate::tensor_ops::select::ChooseKernel;

verus! {

/// A device that can make, fill, copy and select tensors of the element type `E`.
pub trait Device<E: Dtype>:
    DeviceStorage
    + CopySlice<E>
    + ZerosTensor<E>
    + OnesTensor<E>
    + ZeroFillStorage<E>
    + OneFillStorage<E>
    + SampleTensor<E>
    + TensorFromArray<(Vec<E>, Shape), E>
    + ChooseKernel<E>
{

}

impl<E: Dtype> Device<E> for Cpu {

}

} // verus!
