//! The tensor: an identity, a buffer, the device that made it and, while its gradients are
//! being traced, the tape.

use vstd::prelude::*;
use crate::dtypes::Unit;
use crate::shapes::{HasShape, Shape};
use crate::tape::{OpView, OwnedTape};
use crate::tensor::ndarray::NdArray;
use crate::unique_id::{HasUniqueId, IdCounter, UniqueId};

verus! {

/// An array of elements of type `E` on the device `D`. Its identity is the key of its gradient;
/// its tape, where it carries one, records the operations that it goes through.
#[derive(Debug)]
pub struct Tensor<E, D> {
    pub id: UniqueId,
    pub storage: NdArray<E>,
    pub device: D,
    pub tape: Option<OwnedTape>,
}

/// Whether `t` came out of a counter that stood at `before` and stands at `after` now: it has
/// the identity that was next, which no tensor made from the counter before has, and no tape.
pub open spec fn is_fresh<E, D>(t: Tensor<E, D>, before: IdCounter, after: IdCounter) -> bool {
    &&& t.id.0 as nat == before@
    &&& after@ == before@ + 1
    &&& t.tape is None
}

impl<E, D> Tensor<E, D> {
    /// A tensor is well formed when its buffer is, and its tape where it carries one.
    pub open spec fn wf(&self) -> bool {
        &&& self.storage.wf()
        &&& self.tape matches Some(tape) ==> tape.wf()
    }

    /// Takes the tape off the tensor.
    pub fn split_tape(self) -> (r: (Tensor<E, D>, Option<OwnedTape>))
        ensures
            r.0.id == self.id,
            r.0.storage == self.storage,
            r.0.device == self.device,
            r.0.tape is None,
            r.1 == self.tape,
    {
        let Tensor { id, storage, device, tape } = self;
        (Tensor { id, storage, device, tape: None }, tape)
    }

    /// Puts `tape` on the tensor, in place of the one that it carried.
    pub fn put_tape(self, tape: Option<OwnedTape>) -> (t: Tensor<E, D>)
        ensures
            t.id == self.id,
            t.storage == self.storage,
            t.device == self.device,
            t.tape == tape,
    {
        let Tensor { id, storage, device, tape: _ } = self;
        Tensor { id, storage, device, tape }
    }
}

impl<E: Unit, D: Clone> Tensor<E, D> {
    /// A handle on the same tensor that carries no tape: same identity, same contents.
    pub fn retaped(&self) -> (t: Tensor<E, D>)
        ensures
            t.id == self.id,
            t.storage@ == self.storage@,
            cloned(self.device, t.device),
            t.tape is None,
    {
        Tensor {
            id: self.id,
            storage: self.storage.duplicate(),
            device: self.device.clone(),
            tape: None,
        }
    }

    /// A handle on the same tensor that carries a new tape, on which nothing is recorded:
    /// the operations that it goes through from here are traced.
    pub fn trace(&self) -> (t: Tensor<E, D>)
        ensures
            t.id == self.id,
            t.storage@ == self.storage@,
            cloned(self.device, t.device),
            t.tape matches Some(tape) && tape.wf() && tape@ == Seq::<OpView>::empty()
                && !tape.is_drained(),
    {
        Tensor {
            id: self.id,
            storage: self.storage.duplicate(),
            device: self.device.clone(),
            tape: Some(OwnedTape::new()),
        }
    }
}

impl<E, D> HasUniqueId for Tensor<E, D> {
    open spec fn id_spec(&self) -> UniqueId {
        self.id
    }

    fn id(&self) -> (id: UniqueId) {
        self.id
    }
}

impl<E, D> HasShape for Tensor<E, D> {
    open spec fn shape_spec(&self) -> Seq<usize> {
        self.storage.shape@
    }

    fn shape(&self) -> (s: &Shape) {
        &self.storage.shape
    }
}

} // verus!
