//! Element-wise selection between two tensors.

use vstd::prelude::*;
use crate::dtypes::Dtype;
use crate::gradients::OpError;
use crate::tape::{OpRecord, OpView, OwnedTape, TapeError};
use crate::tensor::ndarray::{ArrayView, NdArray};
use crate::tensor::storage_traits::{DeviceStorage, ErrorKind};
use crate::tensor::tensor_impl::Tensor;
use crate::unique_id::IdCounter;

pub mod cpu_kernel;

verus! {

/// The element-wise selection: `lhs[i]` where `cond[i]` holds, `rhs[i]` where it does not.
pub open spec fn selected<E>(cond: Seq<bool>, lhs: Seq<E>, rhs: Seq<E>) -> Seq<E> {
    Seq::new(cond.len(), |i: int| if cond[i] { lhs[i] } else { rhs[i] })
}

/// The accumulator `acc` after `grad[i]` was added to it wherever `cond[i]` is `side`; the other
/// elements are those of `acc`.
pub open spec fn accumulate_where<E: Dtype>(
    acc: Seq<E>,
    cond: Seq<bool>,
    side: bool,
    grad: Seq<E>,
) -> Seq<E> {
    Seq::new(acc.len(), |i: int| if cond[i] == side { acc[i].add_spec(grad[i]) } else { acc[i] })
}

/// Whether the three buffers of a selection have the same shape.
pub open spec fn same_dims<E>(cond: ArrayView<bool>, lhs: ArrayView<E>, rhs: ArrayView<E>) -> bool {
    cond.dims == lhs.dims && lhs.dims == rhs.dims
}

/// Whether the condition, the two accumulators and the gradient of the output of a selection
/// have the same shape.
pub open spec fn gradients_agree<E>(
    cond: ArrayView<bool>,
    grad_lhs: ArrayView<E>,
    grad_rhs: ArrayView<E>,
    grad_out: ArrayView<E>,
) -> bool {
    same_dims(cond, grad_lhs, grad_rhs) && grad_out.dims == cond.dims
}

/// The device's part of the selection.
pub trait ChooseKernel<E: Dtype>: DeviceStorage {
    /// Selects from `lhs` where `cond` holds and from `rhs` elsewhere. Buffers of different
    /// shapes are refused.
    fn forward(&self, cond: &NdArray<bool>, lhs: &NdArray<E>, rhs: &NdArray<E>) -> (r: Result<
        NdArray<E>,
        Self::Err,
    >)
        requires
            cond.wf(),
            lhs.wf(),
            rhs.wf(),
        ensures
            match r {
                Ok(out) => {
                    &&& same_dims(cond@, lhs@, rhs@)
                    &&& out.wf()
                    &&& out@.dims == lhs@.dims
                    &&& out@.data == selected(cond@.data, lhs@.data, rhs@.data)
                },
                Err(e) => Self::kind(e) == if same_dims(cond@, lhs@, rhs@) {
                    ErrorKind::Device
                } else {
                    ErrorKind::ShapeMismatch
                },
            },
    ;

    /// Adds the gradient of the output to the accumulator of the side that each element was
    /// selected from, and leaves the other side's element as it was. Buffers of different shapes
    /// are refused, and nothing is changed then.
    fn backward(
        &self,
        cond: &NdArray<bool>,
        grad_lhs: &mut NdArray<E>,
        grad_rhs: &mut NdArray<E>,
        grad_out: &NdArray<E>,
    ) -> (r: Result<(), Self::Err>)
        requires
            cond.wf(),
            old(grad_lhs).wf(),
            old(grad_rhs).wf(),
            grad_out.wf(),
        ensures
            final(grad_lhs).wf(),
            final(grad_rhs).wf(),
            final(grad_lhs)@.dims == old(grad_lhs)@.dims,
            final(grad_rhs)@.dims == old(grad_rhs)@.dims,
            match r {
                Ok(_) => {
                    &&& gradients_agree(cond@, old(grad_lhs)@, old(grad_rhs)@, grad_out@)
                    &&& final(grad_lhs)@.data == accumulate_where(
                        old(grad_lhs)@.data,
                        cond@.data,
                        true,
                        grad_out@.data,
                    )
                    &&& final(grad_rhs)@.data == accumulate_where(
                        old(grad_rhs)@.data,
                        cond@.data,
                        false,
                        grad_out@.data,
                    )
                },
                Err(e) => if gradients_agree(cond@, old(grad_lhs)@, old(grad_rhs)@, grad_out@) {
                    Self::kind(e) == ErrorKind::Device
                } else {
                    &&& Self::kind(e) == ErrorKind::ShapeMismatch
                    &&& final(grad_lhs)@ == old(grad_lhs)@
                    &&& final(grad_rhs)@ == old(grad_rhs)@
                },
            },
    ;
}

/// The tape that the operands of an operation hand on to its result: the one that either of
/// them carries, if only one does.
pub open spec fn handed_on(lhs: Option<OwnedTape>, rhs: Option<OwnedTape>) -> Option<OwnedTape> {
    if lhs is Some {
        lhs
    } else {
        rhs
    }
}

/// Whether `out` is the selection between `lhs` and `rhs` by `cond`: it holds the selected
/// elements in the operands' shape, and the tape that the operands handed on, if any, with
/// the selection recorded behind everything that was recorded before.
pub open spec fn is_selection<E, D>(
    out: Tensor<E, D>,
    cond: Tensor<bool, D>,
    lhs: Tensor<E, D>,
    rhs: Tensor<E, D>,
) -> bool {
    &&& out.wf()
    &&& out.storage@.dims == lhs.storage@.dims
    &&& out.storage@.data == selected(cond.storage@.data, lhs.storage@.data, rhs.storage@.data)
    &&& match handed_on(lhs.tape, rhs.tape) {
        Some(before) => {
            &&& out.tape matches Some(tape)
            &&& !tape.is_drained()
            &&& tape@ == before@.push(
                OpView::Choose { cond: cond.storage@, lhs: lhs.id, rhs: rhs.id, out: out.id },
            )
        },
        None => out.tape is None,
    }
}

impl<D: DeviceStorage> Tensor<bool, D> {
    /// Selects between `lhs` and `rhs`, element by element: from `lhs` where this tensor
    /// holds `true`, from `rhs` where it holds `false`. The result is a new tensor on the
    /// device of this one, with the next identity of `ids`.
    ///
    /// Where one of the operands carries a tape, the selection is recorded on it and the
    /// result carries it on. Two operands that each carry a tape are refused, and so is a
    /// tape that was drained; after that, operands of different shapes are refused by the
    /// device. Nothing is taken from `ids` when the call fails.
    pub fn select<E: Dtype>(&self, lhs: Tensor<E, D>, rhs: Tensor<E, D>, ids: &mut IdCounter) -> (r:
        Result<Tensor<E, D>, OpError<D::Err>>) where D: ChooseKernel<E>
        requires
            self.wf(),
            lhs.wf(),
            rhs.wf(),
            old(ids).has_next(),
        ensures
            match r {
                Ok(out) => {
                    &&& !(lhs.tape is Some && rhs.tape is Some)
                    &&& handed_on(lhs.tape, rhs.tape) matches Some(before) ==> !before.is_drained()
                    &&& same_dims(self.storage@, lhs.storage@, rhs.storage@)
                    &&& is_selection(out, *self, lhs, rhs)
                    &&& cloned(self.device, out.device)
                    &&& out.id.0 as nat == old(ids)@
                    &&& final(ids)@ == old(ids)@ + 1
                },
                Err(e) => {
                    &&& final(ids)@ == old(ids)@
                    &&& if lhs.tape is Some && rhs.tape is Some {
                        e == OpError::<D::Err>::Tape(TapeError::DistinctTapes)
                    } else if handed_on(lhs.tape, rhs.tape) matches Some(tape) && tape.is_drained() {
                        e == OpError::<D::Err>::Tape(TapeError::Drained)
                    } else {
                        e matches OpError::Device(e) && D::kind(e) == if same_dims(
                            self.storage@,
                            lhs.storage@,
                            rhs.storage@,
                        ) {
                            ErrorKind::Device
                        } else {
                            ErrorKind::ShapeMismatch
                        }
                    }
                },
            },
    {
        let (lhs, lhs_tape) = lhs.split_tape();
        let (rhs, rhs_tape) = rhs.split_tape();
        let tape = match OwnedTape::merge(lhs_tape, rhs_tape) {
            Ok(tape) => tape,
            Err(e) => {
                return Err(OpError::Tape(e));
            },
        };
        match &tape {
            Some(tape) => {
                if tape.is_spent() {
                    return Err(OpError::Tape(TapeError::Drained));
                }
            },
            None => {},
        }
        let storage = match self.device.forward(&self.storage, &lhs.storage, &rhs.storage) {
            Ok(storage) => storage,
            Err(e) => {
                return Err(OpError::Device(e));
            },
        };
        let out = self.device.upgrade(storage, ids);
        match tape {
            Some(tape) => {
                let mut tape = tape;
                let op = OpRecord::Choose {
                    cond: self.storage.duplicate(),
                    lhs: lhs.id,
                    rhs: rhs.id,
                    out: out.id,
                };
                let recorded = tape.add_backward_op(op);
                assert(recorded is Ok);
                Ok(out.put_tape(Some(tape)))
            },
            None => Ok(out),
        }
    }
}

/// The selection is a function of its operands: two results for the same operands hold the
/// same elements in the same shape, whenever and however often they were computed.
pub proof fn lemma_selection_is_a_function<E, D>(
    cond: Tensor<bool, D>,
    lhs: Tensor<E, D>,
    rhs: Tensor<E, D>,
    once: Tensor<E, D>,
    again: Tensor<E, D>,
)
    requires
        is_selection(once, cond, lhs, rhs),
        is_selection(again, cond, lhs, rhs),
    ensures
        once.storage@ == again.storage@,
{
}

} // verus!
