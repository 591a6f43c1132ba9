//! The backward pass: from a traced tensor to the gradients of everything that led to it.

use vstd::prelude::*;
use crate::dtypes::Dtype;
use crate::gradients::{backward_fits, run_backward, Gradients, OpError};
use crate::tape::TapeError;
use crate::tensor::ndarray::ArrayView;
use crate::tensor::storage_traits::{ErrorKind, OneFillStorage};
use crate::tensor::tensor_impl::Tensor;
use crate::tensor_ops::select::ChooseKernel;

verus! {

/// The gradients that a backward pass from `t` starts with: ones in the shape of `t`, under
/// the identity of `t`, and nothing else.
pub open spec fn seed_gradients<E: Dtype, D>(t: Tensor<E, D>) -> Map<u64, ArrayView<E>> {
    Map::<u64, ArrayView<E>>::empty().insert(
        t.id.0,
        ArrayView::filled(t.storage@.dims, E::one_spec()),
    )
}

impl<E: Dtype, D: ChooseKernel<E> + OneFillStorage<E>> Tensor<E, D> {
    /// Runs the tape of this tensor backward. The gradients start as ones for this tensor;
    /// then the backward steps of the recorded operations run, from the last recorded to the
    /// first. The tensor and its tape are used up.
    ///
    /// A tensor without a tape, and one whose tape was drained before, are refused.
    pub fn backward(self) -> (r: Result<Gradients<E>, OpError<D::Err>>)
        requires
            self.wf(),
        ensures
            match r {
                Ok(grads) => {
                    &&& self.tape matches Some(tape)
                    &&& !tape.is_drained()
                    &&& backward_fits(tape@, seed_gradients(self))
                    &&& grads.wf()
                    &&& grads@ == run_backward(tape@, seed_gradients(self))
                },
                Err(OpError::Tape(e)) => match self.tape {
                    Some(tape) => e == TapeError::Drained && tape.is_drained(),
                    None => e == TapeError::Missing,
                },
                Err(OpError::ShapeMismatch) => {
                    &&& self.tape matches Some(tape)
                    &&& !tape.is_drained()
                    &&& !backward_fits(tape@, seed_gradients(self))
                },
                Err(OpError::Device(e)) => {
                    &&& self.tape matches Some(tape)
                    &&& !tape.is_drained()
                    &&& D::kind(e) == ErrorKind::Device
                },
            },
    {
        let Tensor { id, storage, device, tape } = self;
        let mut tape = match tape {
            Some(tape) => tape,
            None => {
                return Err(OpError::Tape(TapeError::Missing));
            },
        };
        if tape.is_spent() {
            return Err(OpError::Tape(TapeError::Drained));
        }
        let mut ones = match device.try_alloc_grad(&storage) {
            Ok(grad) => grad,
            Err(e) => {
                return Err(OpError::Device(e));
            },
        };
        match device.try_fill_with_ones(&mut ones) {
            Ok(_) => {},
            Err(e) => {
                return Err(OpError::Device(e));
            },
        }
        let mut seed: Gradients<E> = Gradients::new();
        seed.insert(id, ones);
        assert(seed@ =~= seed_gradients(self));
        assert(seed@[id.0].wf());
        tape.execute(&device, seed)
    }
}

} // verus!
