//! The module abstraction: what every learnable unit offers.

use vstd::prelude::*;
use crate::dtypes::{Dtype, Unit};
use crate::optim::{GradientUpdate, ParamUpdater, UnusedTensors};
use crate::shapes::Shape;
use crate::tensor::sources::ArraySource;
use crate::tensor::ndarray::copy_elements;
use crate::tensor::storage_traits::{DeviceStorage, ErrorKind, TensorFromArray};
use crate::tensor::tensor_impl::Tensor;
use crate::unique_id::{IdCounter, UniqueId};

verus! {

/// A unit that maps an input to an output without changing itself.
pub trait Module<Input> {
    /// The type that this unit outputs.
    type Output;

    /// Maps `input` to the output of the unit.
    fn forward(&self, input: Input) -> Self::Output;
}

/// A unit that may change itself while it maps an input to an output.
pub trait ModuleMut<Input> {
    /// The type that this unit outputs.
    type Output;

    /// Maps `input` to the output of the unit.
    fn forward_mut(&mut self, input: Input) -> Self::Output;
}

/// Something that can be reset to the values that it is built with.
pub trait ResetParams<D: DeviceStorage, E: Dtype>: GradientUpdate<D, E> {
    /// Whether the parameters hold the values that the unit is built with.
    spec fn is_reset(&self) -> bool;

    /// Puts the parameters back to the values that the unit is built with. Their
    /// identities stay. Only the fill of a parameter can fail: without parameters the reset
    /// always succeeds.
    fn try_reset_params(&mut self) -> (r: Result<(), D::Err>)
        requires
            old(self).params_wf(),
        ensures
            final(self).params_wf(),
            final(self).param_ids() == old(self).param_ids(),
            final(self).param_shapes() == old(self).param_shapes(),
            old(self).param_ids().len() == 0 ==> r is Ok,
            match r {
                Ok(_) => final(self).is_reset(),
                Err(e) => D::kind(e) == ErrorKind::Device,
            },
    ;
}

/// Something that can be built on a device.
pub trait BuildModule<D: DeviceStorage, E: Dtype>: ResetParams<D, E> + Sized {
    /// The number of parameters that the unit has.
    spec fn num_params() -> nat;

    /// Builds the unit on `device`, with parameters at their initial values. The
    /// parameters get the next identities of `ids`, in the order in which an update comes to
    /// them. Only the allocation of a parameter can fail: a unit without parameters is
    /// always built.
    fn try_build(device: &D, ids: &mut IdCounter) -> (r: Result<Self, D::Err>)
        requires
            old(ids)@ + Self::num_params() <= u64::MAX,
        ensures
            old(ids)@ <= final(ids)@ <= old(ids)@ + Self::num_params(),
            Self::num_params() == 0 ==> r is Ok,
            match r {
                Ok(unit) => {
                    &&& unit.params_wf()
                    &&& unit.is_reset()
                    &&& final(ids)@ == old(ids)@ + Self::num_params()
                    &&& unit.param_ids().len() == Self::num_params()
                    &&& forall|i: int|
                        0 <= i < Self::num_params() ==> (#[trigger] unit.param_ids()[i]).0 as nat
                            == old(ids)@ + i
                },
                Err(e) => D::kind(e) == ErrorKind::Device,
            },
    ;
}

/// Something that can be copied to another device.
pub trait ToDevice<D: DeviceStorage> {
    /// The type of the copy.
    type Output;

    /// Whether `copy` holds what `self` holds.
    spec fn is_copy(&self, copy: Self::Output) -> bool;

    /// Whether `copy` is bound to `device`: every tensor of it has a clone of `device` as
    /// its device.
    spec fn is_on(copy: Self::Output, device: D) -> bool;

    /// Whether `self` is in a state to be copied.
    spec fn can_copy(&self) -> bool;

    /// The number of identities that a copy takes.
    spec fn num_ids(&self) -> nat;

    /// Copies `self` to `device`. The copy holds the same values in tensors of its own,
    /// which are bound to `device` and have the next identities of `ids`.
    fn to_device(&self, device: &D, ids: &mut IdCounter) -> (r: Result<Self::Output, D::Err>)
        requires
            self.can_copy(),
            old(ids)@ + self.num_ids() <= u64::MAX,
        ensures
            old(ids)@ <= final(ids)@ <= old(ids)@ + self.num_ids(),
            match r {
                Ok(copy) => {
                    &&& self.is_copy(copy)
                    &&& Self::is_on(copy, *device)
                    &&& final(ids)@ == old(ids)@ + self.num_ids()
                },
                Err(e) => D::kind(e) == ErrorKind::Device,
            },
    ;
}

/// Marks a unit without parameters. There is nothing to build, reset, update or copy in it.
pub trait ZeroSizedModule: Default + Clone {

}

impl<D: DeviceStorage, E: Dtype, T: ZeroSizedModule> GradientUpdate<D, E> for T {
    open spec fn param_ids(&self) -> Seq<UniqueId> {
        Seq::empty()
    }

    open spec fn param_shapes(&self) -> Seq<Seq<usize>> {
        Seq::empty()
    }

    open spec fn params_wf(&self) -> bool {
        true
    }

    fn update<U: ParamUpdater<D, E>>(&mut self, updater: &mut U, unused: &mut UnusedTensors) -> (r:
        Result<(), D::Err>) {
        Ok(())
    }
}

impl<D: DeviceStorage, E: Dtype, T: ZeroSizedModule> ResetParams<D, E> for T {
    open spec fn is_reset(&self) -> bool {
        true
    }

    fn try_reset_params(&mut self) -> (r: Result<(), D::Err>) {
        Ok(())
    }
}

impl<D: DeviceStorage, E: Dtype, T: ZeroSizedModule> BuildModule<D, E> for T {
    open spec fn num_params() -> nat {
        0
    }

    /// A unit without parameters has nothing to allocate: it is built as its default value,
    /// which cannot fail and takes no identity.
    fn try_build(device: &D, ids: &mut IdCounter) -> (r: Result<T, D::Err>) {
        Ok(Default::default())
    }
}

impl<D: DeviceStorage, T: ZeroSizedModule> ToDevice<D> for T {
    type Output = T;

    /// The copy of a unit without parameters is a clone of it.
    open spec fn is_copy(&self, copy: T) -> bool {
        cloned(*self, copy)
    }

    /// A unit without parameters has no tensor to bind.
    open spec fn is_on(copy: T, device: D) -> bool {
        true
    }

    open spec fn can_copy(&self) -> bool {
        true
    }

    open spec fn num_ids(&self) -> nat {
        0
    }

    /// A unit without parameters has nothing to move: the copy is a clone of it, which
    /// cannot fail and takes no identity.
    fn to_device(&self, device: &D, ids: &mut IdCounter) -> (r: Result<T, D::Err>)
        ensures
            r matches Ok(copy) && cloned(*self, copy),
            *final(ids) == *old(ids),
    {
        Ok(self.clone())
    }
}

impl<E: Unit, D1, D2: TensorFromArray<(Vec<E>, Shape), E>> ToDevice<D2> for Tensor<E, D1> {
    type Output = Tensor<E, D2>;

    open spec fn is_copy(&self, copy: Tensor<E, D2>) -> bool {
        &&& copy.storage.wf()
        &&& copy.storage@ == self.storage@
        &&& copy.tape is None
    }

    open spec fn is_on(copy: Tensor<E, D2>, device: D2) -> bool {
        cloned(device, copy.device)
    }

    open spec fn can_copy(&self) -> bool {
        self.storage.wf()
    }

    open spec fn num_ids(&self) -> nat {
        1
    }

    fn to_device(&self, device: &D2, ids: &mut IdCounter) -> (r: Result<Tensor<E, D2>, D2::Err>) {
        let src = (copy_elements(&self.storage.data), self.storage.shape.duplicate());
        assert(src.array_view() =~= self.storage@);
        device.try_tensor(src, ids)
    }
}

} // verus!
