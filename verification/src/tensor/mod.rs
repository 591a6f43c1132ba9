//! Tensors, the buffers that they hold and the devices that make them.

pub mod cpu;
pub mod distributions;
pub mod ndarray;
pub mod nested;
pub mod sources;
pub mod storage_traits;
pub mod tensor_impl;
