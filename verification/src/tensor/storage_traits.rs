//! What a device has to offer: the traits through which tensors are made, filled and read.

use vstd::prelude::*;
use crate::dtypes::{Dtype, Unit};
use crate::shapes::{ConstShape, HasShape, Shape};
use crate::tensor::distributions::{Sampler, Standard};
use crate::tensor::sources::ArraySource;
use crate::tensor::ndarray::{ArrayView, NdArray};
use crate::tensor::tensor_impl::{is_fresh, Tensor};
use crate::unique_id::IdCounter;

verus! {

/// The kinds of failure that callers tell apart.
pub enum ErrorKind {
    /// The device could not produce or work on a buffer: it is out of memory, or its
    /// backend failed.
    Device,
    /// The number of elements given is not that of the shape.
    WrongNumElements,
    /// The operands of an operation do not have one shape.
    ShapeMismatch,
}

/// Represents something that has an error associated type.
pub trait HasErr: Sized {
    type Err;

    /// The kind of failure that `e` reports.
    spec fn kind(e: Self::Err) -> ErrorKind;
}

/// Something that can store nd arrays for a given shape and element type.
pub trait DeviceStorage: Default + Clone + HasErr {
    /// The source of randomness that the device draws from.
    type Rng;

    /// Generates a random u64 number. Nothing is known of it beforehand.
    fn random_u64(&self, rng: &mut Self::Rng) -> u64;

    /// Allocates a gradient for the given nd array: a buffer of the same shape, filled with zeros.
    fn try_alloc_grad<E: Dtype>(&self, storage: &NdArray<E>) -> (r: Result<NdArray<E>, Self::Err>)
        requires
            storage.wf(),
        ensures
            match r {
                Ok(grad) => grad.wf() && grad@ == ArrayView::filled(storage@.dims, E::zero_spec()),
                Err(e) => Self::kind(e) == ErrorKind::Device,
            },
    ;

    /// Upgrades the device storage into a tensor: it gets the next identity of `ids`, this
    /// device and no tape.
    fn upgrade<E: Unit>(&self, storage: NdArray<E>, ids: &mut IdCounter) -> (t: Tensor<E, Self>)
        requires
            old(ids).has_next(),
        ensures
            t.storage == storage,
            is_fresh(t, *old(ids), *final(ids)),
            cloned(*self, t.device),
    {
        Tensor { id: ids.unique_id(), storage, device: self.clone(), tape: None }
    }
}

impl<E, D: HasErr> HasErr for Tensor<E, D> {
    type Err = D::Err;

    open spec fn kind(e: D::Err) -> ErrorKind {
        D::kind(e)
    }
}

/// Represents something that can allocate its own gradient.
pub trait AllocGrad: HasErr {
    type Gradient;

    /// Whether `grad` is the gradient that is allocated for `self`: zeros in its shape.
    spec fn is_zero_grad(&self, grad: Self::Gradient) -> bool;

    /// Whether `self` is in a state to allocate for.
    spec fn can_alloc_grad(&self) -> bool;

    fn try_alloc_grad(&self) -> (r: Result<Self::Gradient, Self::Err>)
        requires
            self.can_alloc_grad(),
        ensures
            match r {
                Ok(grad) => self.is_zero_grad(grad),
                Err(e) => Self::kind(e) == ErrorKind::Device,
            },
    ;
}

impl<E: Dtype, D: DeviceStorage> AllocGrad for Tensor<E, D> {
    type Gradient = NdArray<E>;

    open spec fn is_zero_grad(&self, grad: NdArray<E>) -> bool {
        grad.wf() && grad@ == ArrayView::filled(self.storage@.dims, E::zero_spec())
    }

    open spec fn can_alloc_grad(&self) -> bool {
        self.storage.wf()
    }

    fn try_alloc_grad(&self) -> (r: Result<NdArray<E>, D::Err>) {
        self.device.try_alloc_grad(&self.storage)
    }
}

/// Enables copying data into and out of tensors.
pub trait CopySlice<E: Unit>: DeviceStorage {
    /// Overwrites the elements of `dst` with those of `src`, in flat index order.
    fn copy_from(dst: &mut Tensor<E, Self>, src: &[E])
        requires
            old(dst).storage.wf(),
            src@.len() == old(dst).storage@.data.len(),
        ensures
            final(dst).storage.wf(),
            final(dst).storage@.dims == old(dst).storage@.dims,
            final(dst).storage@.data == src@,
            final(dst).id == old(dst).id,
            final(dst).device == old(dst).device,
            final(dst).tape == old(dst).tape,
    ;

    /// Overwrites `dst` with the elements of `src`, in flat index order.
    fn copy_into(src: &Tensor<E, Self>, dst: &mut [E])
        requires
            old(dst)@.len() == src.storage@.data.len(),
        ensures
            final(dst)@ == src.storage@.data,
    ;
}

impl<E: Unit, D: CopySlice<E>> Tensor<E, D> {
    /// Copy data from a slice. The slice has to hold exactly as many elements as the tensor.
    pub fn copy_from(&mut self, src: &[E])
        requires
            old(self).storage.wf(),
            src@.len() == old(self).storage@.data.len(),
        ensures
            final(self).storage.wf(),
            final(self).storage@.dims == old(self).storage@.dims,
            final(self).storage@.data == src@,
            final(self).id == old(self).id,
            final(self).device == old(self).device,
            final(self).tape == old(self).tape,
    {
        D::copy_from(self, src);
    }

    /// Copy data into a slice. The slice has to hold exactly as many elements as the tensor.
    pub fn copy_into(&self, dst: &mut [E])
        requires
            old(dst)@.len() == self.storage@.data.len(),
        ensures
            final(dst)@ == self.storage@.data,
    {
        D::copy_into(self, dst);
    }
}

/// Whether `t` is a tensor that was just made from `ids`, holding `value` everywhere in the
/// shape `dims`.
pub open spec fn is_fresh_filled<E, D>(
    t: Tensor<E, D>,
    dims: Seq<usize>,
    value: E,
    before: IdCounter,
    after: IdCounter,
) -> bool {
    &&& t.storage.wf()
    &&& t.storage@ == ArrayView::filled(dims, value)
    &&& is_fresh(t, before, after)
}

/// Construct tensors filled with zeros.
pub trait ZerosTensor<E: Unit>: DeviceStorage {
    /// Creates a tensor filled with zeros, in the shape that `S` stands for.
    fn try_zeros<S: ConstShape>(&self, ids: &mut IdCounter) -> (r: Result<Tensor<E, Self>, Self::Err>)
        requires
            old(ids).has_next(),
        ensures
            match r {
                Ok(t) => {
                    &&& is_fresh_filled(t, S::dims(), E::zero_spec(), *old(ids), *final(ids))
                    &&& cloned(*self, t.device)
                },
                Err(e) => final(ids)@ == old(ids)@ && Self::kind(e) == ErrorKind::Device,
            },
    {
        let shape = S::shape();
        self.try_zeros_like(&shape, ids)
    }

    /// Creates a tensor filled with zeros, in the shape of `src`.
    fn try_zeros_like<S: HasShape>(&self, src: &S, ids: &mut IdCounter) -> (r: Result<
        Tensor<E, Self>,
        Self::Err,
    >)
        requires
            old(ids).has_next(),
        ensures
            match r {
                Ok(t) => {
                    &&& is_fresh_filled(t, src.shape_spec(), E::zero_spec(), *old(ids), *final(ids))
                    &&& cloned(*self, t.device)
                },
                Err(e) => final(ids)@ == old(ids)@ && Self::kind(e) == ErrorKind::Device,
            },
    ;
}

/// Overwrite a buffer with zeros.
pub trait ZeroFillStorage<E: Unit>: DeviceStorage {
    fn try_fill_with_zeros(&self, storage: &mut NdArray<E>) -> (r: Result<(), Self::Err>)
        requires
            old(storage).wf(),
        ensures
            final(storage).wf(),
            final(storage)@.dims == old(storage)@.dims,
            match r {
                Ok(_) => final(storage)@ == ArrayView::filled(old(storage)@.dims, E::zero_spec()),
                Err(e) => Self::kind(e) == ErrorKind::Device,
            },
    ;
}

/// Construct tensors filled with ones.
pub trait OnesTensor<E: Unit>: DeviceStorage {
    /// Creates a tensor filled with ones, in the shape that `S` stands for.
    fn try_ones<S: ConstShape>(&self, ids: &mut IdCounter) -> (r: Result<Tensor<E, Self>, Self::Err>)
        requires
            old(ids).has_next(),
        ensures
            match r {
                Ok(t) => {
                    &&& is_fresh_filled(t, S::dims(), E::one_spec(), *old(ids), *final(ids))
                    &&& cloned(*self, t.device)
                },
                Err(e) => final(ids)@ == old(ids)@ && Self::kind(e) == ErrorKind::Device,
            },
    {
        let shape = S::shape();
        self.try_ones_like(&shape, ids)
    }

    /// Creates a tensor filled with ones, in the shape of `src`.
    fn try_ones_like<S: HasShape>(&self, src: &S, ids: &mut IdCounter) -> (r: Result<
        Tensor<E, Self>,
        Self::Err,
    >)
        requires
            old(ids).has_next(),
        ensures
            match r {
                Ok(t) => {
                    &&& is_fresh_filled(t, src.shape_spec(), E::one_spec(), *old(ids), *final(ids))
                    &&& cloned(*self, t.device)
                },
                Err(e) => final(ids)@ == old(ids)@ && Self::kind(e) == ErrorKind::Device,
            },
    ;
}

/// Overwrite a buffer with ones.
pub trait OneFillStorage<E: Unit>: DeviceStorage {
    fn try_fill_with_ones(&self, storage: &mut NdArray<E>) -> (r: Result<(), Self::Err>)
        requires
            old(storage).wf(),
        ensures
            final(storage).wf(),
            final(storage)@.dims == old(storage)@.dims,
            match r {
                Ok(_) => final(storage)@ == ArrayView::filled(old(storage)@.dims, E::one_spec()),
                Err(e) => Self::kind(e) == ErrorKind::Device,
            },
    ;
}

/// Whether every element of `data` is one that `distr` can give.
pub open spec fn all_supported<E, R, Dist: Sampler<E, R>>(distr: Dist, data: Seq<E>) -> bool {
    forall|i: int| 0 <= i < data.len() ==> distr.supports(#[trigger] data[i])
}

/// Constructs tensors filled with random values from a given distribution.
pub trait SampleTensor<E: Unit>: DeviceStorage {
    /// Creates a tensor of the shape that `S` stands for, with elements drawn from the
    /// standard distribution of the element type.
    fn try_sample_uniform<S: ConstShape>(&self, rng: &mut Self::Rng, ids: &mut IdCounter) -> (r:
        Result<Tensor<E, Self>, Self::Err>) where Standard: Sampler<E, Self::Rng>
        requires
            Standard.valid(),
            old(ids).has_next(),
        ensures
            match r {
                Ok(t) => {
                    &&& t.storage.wf()
                    &&& t.storage@.dims == S::dims()
                    &&& all_supported::<E, Self::Rng, Standard>(Standard, t.storage@.data)
                    &&& is_fresh(t, *old(ids), *final(ids))
                    &&& cloned(*self, t.device)
                },
                Err(e) => final(ids)@ == old(ids)@ && Self::kind(e) == ErrorKind::Device,
            },
    {
        self.try_sample::<S, Standard>(Standard, rng, ids)
    }

    /// Creates a tensor of the shape that `S` stands for, with elements drawn from `distr`.
    fn try_sample<S: ConstShape, Dist: Sampler<E, Self::Rng>>(
        &self,
        distr: Dist,
        rng: &mut Self::Rng,
        ids: &mut IdCounter,
    ) -> (r: Result<Tensor<E, Self>, Self::Err>)
        requires
            distr.valid(),
            old(ids).has_next(),
        ensures
            match r {
                Ok(t) => {
                    &&& t.storage.wf()
                    &&& t.storage@.dims == S::dims()
                    &&& all_supported::<E, Self::Rng, Dist>(distr, t.storage@.data)
                    &&& is_fresh(t, *old(ids), *final(ids))
                    &&& cloned(*self, t.device)
                },
                Err(e) => final(ids)@ == old(ids)@ && Self::kind(e) == ErrorKind::Device,
            },
    {
        let shape = S::shape();
        self.try_sample_like(&shape, distr, rng, ids)
    }

    /// Creates a tensor of the shape of `src`, with elements drawn from `distr`.
    fn try_sample_like<S: HasShape, Dist: Sampler<E, Self::Rng>>(
        &self,
        src: &S,
        distr: Dist,
        rng: &mut Self::Rng,
        ids: &mut IdCounter,
    ) -> (r: Result<Tensor<E, Self>, Self::Err>)
        requires
            distr.valid(),
            old(ids).has_next(),
        ensures
            match r {
                Ok(t) => {
                    &&& t.storage.wf()
                    &&& t.storage@.dims == src.shape_spec()
                    &&& all_supported::<E, Self::Rng, Dist>(distr, t.storage@.data)
                    &&& is_fresh(t, *old(ids), *final(ids))
                    &&& cloned(*self, t.device)
                },
                Err(e) => final(ids)@ == old(ids)@ && Self::kind(e) == ErrorKind::Device,
            },
    ;

    /// Overwrites every element of `storage` with a value drawn from `distr`.
    fn try_fill_with_distr<Dist: Sampler<E, Self::Rng>>(
        &self,
        storage: &mut NdArray<E>,
        distr: Dist,
        rng: &mut Self::Rng,
    ) -> (r: Result<(), Self::Err>)
        requires
            distr.valid(),
            old(storage).wf(),
        ensures
            final(storage).wf(),
            final(storage)@.dims == old(storage)@.dims,
            match r {
                Ok(_) => all_supported::<E, Self::Rng, Dist>(distr, final(storage)@.data),
                Err(e) => Self::kind(e) == ErrorKind::Device,
            },
    ;
}

/// Construct tensors from rust arrays.
pub trait TensorFromArray<Src: ArraySource<E>, E: Unit>: DeviceStorage {
    /// Creates a tensor that holds what `src` stands for. A source with another number of
    /// elements than its shape has is refused.
    fn try_tensor(&self, src: Src, ids: &mut IdCounter) -> (r: Result<Tensor<E, Self>, Self::Err>)
        requires
            old(ids).has_next(),
        ensures
            match r {
                Ok(t) => {
                    &&& src.array_view().wf()
                    &&& t.storage.wf()
                    &&& t.storage@ == src.array_view()
                    &&& is_fresh(t, *old(ids), *final(ids))
                    &&& cloned(*self, t.device)
                },
                Err(e) => {
                    &&& final(ids)@ == old(ids)@
                    &&& Self::kind(e) == if src.array_view().wf() {
                        ErrorKind::Device
                    } else {
                        ErrorKind::WrongNumElements
                    }
                },
            },
    ;
}

impl<E: Unit, D: ZeroFillStorage<E>> Tensor<E, D> {
    /// Overwrites the elements with zeros.
    pub fn try_fill_with_zeros(&mut self) -> (r: Result<(), D::Err>)
        requires
            old(self).storage.wf(),
        ensures
            final(self).storage.wf(),
            final(self).storage@.dims == old(self).storage@.dims,
            final(self).id == old(self).id,
            final(self).device == old(self).device,
            final(self).tape == old(self).tape,
            match r {
                Ok(_) => final(self).storage@ == ArrayView::filled(
                    old(self).storage@.dims,
                    E::zero_spec(),
                ),
                Err(e) => D::kind(e) == ErrorKind::Device,
            },
    {
        self.device.try_fill_with_zeros(&mut self.storage)
    }
}

impl<E: Unit, D: OneFillStorage<E>> Tensor<E, D> {
    /// Overwrites the elements with ones.
    pub fn try_fill_with_ones(&mut self) -> (r: Result<(), D::Err>)
        requires
            old(self).storage.wf(),
        ensures
            final(self).storage.wf(),
            final(self).storage@.dims == old(self).storage@.dims,
            final(self).id == old(self).id,
            final(self).device == old(self).device,
            final(self).tape == old(self).tape,
            match r {
                Ok(_) => final(self).storage@ == ArrayView::filled(
                    old(self).storage@.dims,
                    E::one_spec(),
                ),
                Err(e) => D::kind(e) == ErrorKind::Device,
            },
    {
        self.device.try_fill_with_ones(&mut self.storage)
    }
}

/// Convert tensors to [std::vec::Vec].
pub trait AsVec {
    /// The type of the elements.
    type Unit;

    /// The elements, in flat index order.
    spec fn elements(&self) -> Seq<Self::Unit>;

    fn as_vec(&self) -> (v: Vec<Self::Unit>)
        ensures
            v@ == self.elements(),
    ;
}

impl<E: Unit> AsVec for NdArray<E> {
    type Unit = E;

    open spec fn elements(&self) -> Seq<E> {
        self@.data
    }

    fn as_vec(&self) -> (v: Vec<E>) {
        crate::tensor::ndarray::copy_elements(&self.data)
    }
}

impl<E: Unit, D> AsVec for Tensor<E, D> {
    type Unit = E;

    open spec fn elements(&self) -> Seq<E> {
        self.storage@.data
    }

    fn as_vec(&self) -> (v: Vec<E>) {
        self.storage.as_vec()
    }
}

} // verus!
