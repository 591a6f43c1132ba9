//! Selection on buffers in main memory.

use vstd::prelude::*;
use crate::dtypes::Dtype;
use crate::tensor::cpu::{Cpu, CpuError};
use std::collections::TryReserveError;
use crate::tensor::ndarray::NdArray;
use crate::tensor_ops::select::{accumulate_where, same_dims, selected, ChooseKernel};

verus! {

/// What a selection comes to, once the room for its result was asked for. Operands of
/// different shapes are refused whatever the allocator said. For operands of one shape, the
/// result holds the selected elements, in `buffer`, where the room was given, and is an
/// error where it was refused. What `buffer` held before is dropped.
pub fn selected_if_reserved<E: Copy>(
    reserved: Result<(), TryReserveError>,
    buffer: Vec<E>,
    cond: &NdArray<bool>,
    lhs: &NdArray<E>,
    rhs: &NdArray<E>,
) -> (r: Result<NdArray<E>, CpuError>)
    requires
        cond.wf(),
        lhs.wf(),
        rhs.wf(),
    ensures
        if !same_dims(cond@, lhs@, rhs@) {
            r matches Err(e) && e == CpuError::ShapeMismatch
        } else {
            match reserved {
                Ok(_) => {
                    &&& r matches Ok(out)
                    &&& out.wf()
                    &&& out@.dims == lhs@.dims
                    &&& out@.data == selected(cond@.data, lhs@.data, rhs@.data)
                },
                Err(_) => r matches Err(e) && e == CpuError::OutOfMemory,
            }
        },
{
    if !cond.shape.same_as(&lhs.shape) || !lhs.shape.same_as(&rhs.shape) {
        return Err(CpuError::ShapeMismatch);
    }
    match reserved {
        Ok(_) => {},
        Err(_) => {
            return Err(CpuError::OutOfMemory);
        },
    }
    let n: usize = lhs.data.len();
    let mut out = buffer;
    out.clear();
    let mut i: usize = 0;
    while i < n
        invariant
            i <= n,
            i == out@.len(),
            n == cond@.data.len(),
            n == lhs@.data.len(),
            n == rhs@.data.len(),
            forall|j: int|
                0 <= j < i ==> out@[j] == if cond@.data[j] {
                    lhs@.data[j]
                } else {
                    rhs@.data[j]
                },
        decreases n - i,
    {
        let value = if cond.data[i] {
            lhs.data[i]
        } else {
            rhs.data[i]
        };
        out.push(value);
        i += 1;
    }
    assert(out@ =~= selected(cond@.data, lhs@.data, rhs@.data));
    Ok(NdArray { data: out, shape: lhs.shape.duplicate() })
}

impl<E: Dtype> ChooseKernel<E> for Cpu {
    fn forward(&self, cond: &NdArray<bool>, lhs: &NdArray<E>, rhs: &NdArray<E>) -> (r: Result<
        NdArray<E>,
        CpuError,
    >)
        ensures
            same_dims(cond@, lhs@, rhs@) ==> r is Ok || r == Err::<NdArray<E>, CpuError>(
                CpuError::OutOfMemory,
            ),
            !same_dims(cond@, lhs@, rhs@) ==> r == Err::<NdArray<E>, CpuError>(
                CpuError::ShapeMismatch,
            ),
    {
        if !cond.shape.same_as(&lhs.shape) || !lhs.shape.same_as(&rhs.shape) {
            return Err(CpuError::ShapeMismatch);
        }
        let mut out: Vec<E> = Vec::new();
        let reserved = out.try_reserve(lhs.data.len());
        selected_if_reserved(reserved, out, cond, lhs, rhs)
    }

    fn backward(
        &self,
        cond: &NdArray<bool>,
        grad_lhs: &mut NdArray<E>,
        grad_rhs: &mut NdArray<E>,
        grad_out: &NdArray<E>,
    ) -> (r: Result<(), CpuError>)
        ensures
            r matches Err(e) ==> e == CpuError::ShapeMismatch,
    {
        if !cond.shape.same_as(&grad_lhs.shape) || !grad_lhs.shape.same_as(&grad_rhs.shape)
            || !grad_out.shape.same_as(&cond.shape) {
            return Err(CpuError::ShapeMismatch);
        }
        let n: usize = cond.data.len();
        let ghost lhs0 = grad_lhs@.data;
        let ghost rhs0 = grad_rhs@.data;
        let mut i: usize = 0;
        while i < n
            invariant
                i <= n,
                n == cond@.data.len(),
                n == grad_out@.data.len(),
                n == lhs0.len(),
                n == rhs0.len(),
                grad_lhs@.data.len() == n,
                grad_rhs@.data.len() == n,
                grad_lhs@.dims == old(grad_lhs)@.dims,
                grad_rhs@.dims == old(grad_rhs)@.dims,
                forall|j: int|
                    0 <= j < i ==> grad_lhs@.data[j] == accumulate_where(
                        lhs0,
                        cond@.data,
                        true,
                        grad_out@.data,
                    )[j],
                forall|j: int|
                    0 <= j < i ==> grad_rhs@.data[j] == accumulate_where(
                        rhs0,
                        cond@.data,
                        false,
                        grad_out@.data,
                    )[j],
                forall|j: int| i <= j < n ==> grad_lhs@.data[j] == lhs0[j],
                forall|j: int| i <= j < n ==> grad_rhs@.data[j] == rhs0[j],
            decreases n - i,
        {
            let o = grad_out.data[i];
            if cond.data[i] {
                let l = grad_lhs.data[i];
                grad_lhs.data.set(i, l.add(o));
            } else {
                let r = grad_rhs.data[i];
                grad_rhs.data.set(i, r.add(o));
            }
            i += 1;
        }
        assert(grad_lhs@.data =~= accumulate_where(lhs0, cond@.data, true, grad_out@.data));
        assert(grad_rhs@.data =~= accumulate_where(rhs0, cond@.data, false, grad_out@.data));
        Ok(())
    }
}

} // verus!
