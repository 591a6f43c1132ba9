//! The device that keeps its buffers in main memory.

use vstd::prelude::*;
use crate::dtypes::{Dtype, Unit};
use crate::shapes::{num_elements_of, HasShape, Shape};
use crate::tensor::ndarray::{ArrayView, NdArray};
use crate::tensor::distributions::Sampler;
use crate::tensor::sources::ArraySource;
use crate::tensor::storage_traits::{
    all_supported, CopySlice, DeviceStorage, ErrorKind, HasErr, OneFillStorage, OnesTensor,
    SampleTensor, TensorFromArray, ZeroFillStorage, ZerosTensor,
};
use crate::tensor::tensor_impl::{is_fresh, Tensor};
use crate::unique_id::IdCounter;
use rand::rngs::StdRng;
use std::collections::TryReserveError;

verus! {

/// `rand::rngs::StdRng`: the generator that the device draws its random numbers from. Nothing
/// is known of its state.
#[verifier::external_type_specification]
#[verifier::external_body]
pub struct ExStdRng(rand::rngs::StdRng);

/// The ways in which the device can fail.
#[derive(Clone, Copy, Debug, PartialEq, Eq, Structural)]
pub enum CpuError {
    /// Device is out of memory.
    OutOfMemory,
    /// Not enough or too many elements were provided when creating a tensor.
    WrongNumElements,
    /// The operands of an operation have different shapes.
    ShapeMismatch,
}

/// A device that stores data on the heap.
#[derive(Clone, Copy, Debug, Default)]
pub struct Cpu;

impl HasErr for Cpu {
    type Err = CpuError;

    open spec fn kind(e: CpuError) -> ErrorKind {
        match e {
            CpuError::OutOfMemory => ErrorKind::Device,
            CpuError::WrongNumElements => ErrorKind::WrongNumElements,
            CpuError::ShapeMismatch => ErrorKind::ShapeMismatch,
        }
    }
}

/// The one failure of the device itself is that it is out of memory: an error of the kind
/// `Device` is `OutOfMemory`, and the other way round.
pub proof fn lemma_device_errors_are_out_of_memory(e: CpuError)
    ensures
        Cpu::kind(e) == ErrorKind::Device <==> e == CpuError::OutOfMemory,
{
}

/// `SeedableRng::seed_from_u64` of `rand`, for its standard generator: a generator
/// whose state is derived from `seed`. Nothing is claimed of the numbers that it will give.
#[verifier::external_body]
fn std_rng_from_seed(seed: u64) -> StdRng {
    rand::SeedableRng::seed_from_u64(seed)
}

/// `RngCore::next_u64` of `rand`, on its standard generator: advances the generator and
/// returns 64 bits of its output. Nothing is claimed of the number.
#[verifier::external_body]
fn std_rng_next_u64(rng: &mut StdRng) -> u64 {
    rand::RngCore::next_u64(rng)
}

/// What an allocation of `numel` copies of `elem` comes to, once the room for them was
/// asked for: where the room was given, the copies, in `buffer`; where it was refused, an
/// error. What `buffer` held before is dropped.
pub fn filled_if_reserved<E: Copy>(
    reserved: Result<(), TryReserveError>,
    buffer: Vec<E>,
    numel: usize,
    elem: E,
) -> (r: Result<Vec<E>, CpuError>)
    ensures
        match reserved {
            Ok(_) => r matches Ok(data) && data@ == Seq::new(numel as nat, |i: int| elem),
            Err(_) => r matches Err(e) && e == CpuError::OutOfMemory,
        },
{
    match reserved {
        Ok(_) => {},
        Err(_) => {
            return Err(CpuError::OutOfMemory);
        },
    }
    let mut data = buffer;
    data.clear();
    let mut i: usize = 0;
    assert(data@ =~= Seq::new(0nat, |j: int| elem));
    while i < numel
        invariant
            i <= numel,
            data@ == Seq::new(i as nat, |j: int| elem),
        decreases numel - i,
    {
        data.push(elem);
        i += 1;
        assert(data@ =~= Seq::new(i as nat, |j: int| elem));
    }
    Ok(data)
}

/// Allocates `numel` copies of `elem`. The only failure is that of the allocation: whether
/// the room is given is not known beforehand, and [`filled_if_reserved`] says what follows
/// either way.
pub fn try_alloc_elem<E: Copy>(numel: usize, elem: E) -> (r: Result<Vec<E>, CpuError>)
    ensures
        match r {
            Ok(data) => data@ == Seq::new(numel as nat, |i: int| elem),
            Err(e) => e == CpuError::OutOfMemory,
        },
{
    let mut data: Vec<E> = Vec::new();
    let reserved = data.try_reserve(numel);
    filled_if_reserved(reserved, data, numel, elem)
}

/// What an allocation of a buffer of the shape `shape` comes to, once its elements were
/// asked for: where they are there, the buffer that holds them; where they are not, the
/// error of the allocation as it is.
pub fn array_if_allocated<E>(allocated: Result<Vec<E>, CpuError>, shape: Shape) -> (r: Result<
    NdArray<E>,
    CpuError,
>)
    ensures
        match allocated {
            Ok(data) => r matches Ok(a) && a@ == (ArrayView { dims: shape@, data: data@ }),
            Err(e) => r matches Err(same) && same == e,
        },
{
    match allocated {
        Ok(data) => Ok(NdArray { data, shape }),
        Err(e) => Err(e),
    }
}

impl Cpu {
    /// A generator seeded with `seed`, to hand to the functions that draw random numbers.
    pub fn seed_rng(seed: u64) -> StdRng {
        std_rng_from_seed(seed)
    }

    /// What the making of a tensor comes to, once its buffer was asked for: where the
    /// buffer is there, the tensor that holds it, with the next identity of `ids`; where it
    /// is not, the error of the allocation as it is, and nothing taken from `ids`.
    pub fn tensor_if_allocated<E: Unit>(
        &self,
        allocated: Result<NdArray<E>, CpuError>,
        ids: &mut IdCounter,
    ) -> (r: Result<Tensor<E, Cpu>, CpuError>)
        requires
            old(ids).has_next(),
        ensures
            match allocated {
                Ok(storage) => {
                    &&& r matches Ok(t)
                    &&& t.storage == storage
                    &&& is_fresh(t, *old(ids), *final(ids))
                    &&& cloned(*self, t.device)
                },
                Err(e) => r matches Err(same) && same == e && final(ids)@ == old(ids)@,
            },
    {
        match allocated {
            Ok(storage) => Ok(self.upgrade(storage, ids)),
            Err(e) => Err(e),
        }
    }

    /// What the making of a tensor of random elements comes to, once its buffer was asked
    /// for: where the buffer is there, the tensor that holds it, every element drawn from
    /// `distr`; where it is not, the error of the allocation as it is, with nothing drawn
    /// and nothing taken from `ids`.
    pub fn sampled_if_allocated<E: Unit, Dist: Sampler<E, StdRng>>(
        &self,
        allocated: Result<NdArray<E>, CpuError>,
        distr: &Dist,
        rng: &mut StdRng,
        ids: &mut IdCounter,
    ) -> (r: Result<Tensor<E, Cpu>, CpuError>)
        requires
            distr.valid(),
            old(ids).has_next(),
            allocated matches Ok(storage) ==> storage.wf(),
        ensures
            match allocated {
                Ok(storage) => {
                    &&& r matches Ok(t)
                    &&& t.storage.wf()
                    &&& t.storage@.dims == storage@.dims
                    &&& all_supported::<E, StdRng, Dist>(*distr, t.storage@.data)
                    &&& is_fresh(t, *old(ids), *final(ids))
                    &&& cloned(*self, t.device)
                },
                Err(e) => r matches Err(same) && same == e && final(ids)@ == old(ids)@,
            },
    {
        match allocated {
            Ok(storage) => {
                let mut storage = storage;
                fill_with_distr(&mut storage, distr, rng);
                Ok(self.upgrade(storage, ids))
            },
            Err(e) => Err(e),
        }
    }
}

impl DeviceStorage for Cpu {
    type Rng = StdRng;

    fn random_u64(&self, rng: &mut StdRng) -> u64 {
        std_rng_next_u64(rng)
    }

    fn try_alloc_grad<E: Dtype>(&self, storage: &NdArray<E>) -> (r: Result<NdArray<E>, CpuError>)
        ensures
            r matches Err(e) ==> e == CpuError::OutOfMemory,
    {
        let allocated = try_alloc_elem(storage.data.len(), E::zero());
        let r = array_if_allocated(allocated, storage.shape.duplicate());
        proof {
            if r is Ok {
                assert(r->Ok_0@ =~= ArrayView::filled(storage@.dims, E::zero_spec()));
            }
        }
        r
    }
}

/// Allocates a buffer of the shape `shape` that holds `value` everywhere. A shape with more
/// elements than `usize` counts cannot be allocated.
pub fn try_filled<E: Copy>(shape: Shape, value: E) -> (r: Result<NdArray<E>, CpuError>)
    ensures
        match r {
            Ok(a) => a.wf() && a@ == ArrayView::filled(shape@, value),
            Err(e) => e == CpuError::OutOfMemory,
        },
        num_elements_of(shape@) > usize::MAX ==> r is Err,
{
    match shape.num_elements() {
        Some(numel) => {
            let allocated = try_alloc_elem(numel, value);
            let r = array_if_allocated(allocated, shape);
            proof {
                if r is Ok {
                    assert(r->Ok_0@ =~= ArrayView::filled(shape@, value));
                }
            }
            r
        },
        None => Err(CpuError::OutOfMemory),
    }
}

/// Overwrites every element of `storage` with `value`.
pub fn fill<E: Copy>(storage: &mut NdArray<E>, value: E)
    requires
        old(storage).wf(),
    ensures
        final(storage).wf(),
        final(storage)@ == ArrayView::filled(old(storage)@.dims, value),
{
    let n: usize = storage.data.len();
    let mut i: usize = 0;
    while i < n
        invariant
            i <= n,
            n == storage@.data.len(),
            storage@.dims == old(storage)@.dims,
            storage.wf(),
            forall|j: int| 0 <= j < i ==> storage@.data[j] == value,
        decreases n - i,
    {
        storage.data.set(i, value);
        i += 1;
    }
    assert(storage@.data =~= ArrayView::filled(old(storage)@.dims, value).data);
}

impl<E: Unit> ZerosTensor<E> for Cpu {
    fn try_zeros_like<S: HasShape>(&self, src: &S, ids: &mut IdCounter) -> (r: Result<
        Tensor<E, Cpu>,
        CpuError,
    >) {
        let allocated = try_filled(src.shape().duplicate(), E::zero());
        self.tensor_if_allocated(allocated, ids)
    }
}

impl<E: Unit> ZeroFillStorage<E> for Cpu {
    fn try_fill_with_zeros(&self, storage: &mut NdArray<E>) -> (r: Result<(), CpuError>)
        ensures
            r is Ok,
    {
        fill(storage, E::zero());
        Ok(())
    }
}

impl<E: Unit> OnesTensor<E> for Cpu {
    fn try_ones_like<S: HasShape>(&self, src: &S, ids: &mut IdCounter) -> (r: Result<
        Tensor<E, Cpu>,
        CpuError,
    >) {
        let allocated = try_filled(src.shape().duplicate(), E::one());
        self.tensor_if_allocated(allocated, ids)
    }
}

impl<E: Unit> OneFillStorage<E> for Cpu {
    fn try_fill_with_ones(&self, storage: &mut NdArray<E>) -> (r: Result<(), CpuError>)
        ensures
            r is Ok,
    {
        fill(storage, E::one());
        Ok(())
    }
}

impl<E: Unit> CopySlice<E> for Cpu {
    fn copy_from(dst: &mut Tensor<E, Cpu>, src: &[E]) {
        let n: usize = src.len();
        let mut i: usize = 0;
        while i < n
            invariant
                i <= n,
                n == src@.len(),
                n == dst.storage@.data.len(),
                dst.storage@.dims == old(dst).storage@.dims,
                dst.id == old(dst).id,
                dst.device == old(dst).device,
                dst.tape == old(dst).tape,
                forall|j: int| 0 <= j < i ==> dst.storage@.data[j] == src@[j],
            decreases n - i,
        {
            dst.storage.data.set(i, src[i]);
            i += 1;
        }
        assert(dst.storage@.data =~= src@);
    }

    fn copy_into(src: &Tensor<E, Cpu>, dst: &mut [E]) {
        let n: usize = dst.len();
        let mut i: usize = 0;
        while i < n
            invariant
                i <= n,
                n == dst@.len(),
                n == src.storage@.data.len(),
                forall|j: int| 0 <= j < i ==> dst@[j] == src.storage@.data[j],
            decreases n - i,
        {
            dst[i] = src.storage.data[i];
            i += 1;
        }
        assert(dst@ =~= src.storage@.data);
    }
}

/// Overwrites every element of `storage` with a value drawn from `distr`.
pub fn fill_with_distr<E: Copy, Dist: Sampler<E, StdRng>>(
    storage: &mut NdArray<E>,
    distr: &Dist,
    rng: &mut StdRng,
)
    requires
        distr.valid(),
        old(storage).wf(),
    ensures
        final(storage).wf(),
        final(storage)@.dims == old(storage)@.dims,
        all_supported::<E, StdRng, Dist>(*distr, final(storage)@.data),
{
    let n: usize = storage.data.len();
    let mut i: usize = 0;
    while i < n
        invariant
            i <= n,
            n == storage@.data.len(),
            distr.valid(),
            storage@.dims == old(storage)@.dims,
            storage.wf(),
            forall|j: int| 0 <= j < i ==> distr.supports(#[trigger] storage@.data[j]),
        decreases n - i,
    {
        let value = distr.sample(rng);
        storage.data.set(i, value);
        i += 1;
    }
}

impl<E: Unit> SampleTensor<E> for Cpu {
    fn try_sample_like<S: HasShape, Dist: Sampler<E, StdRng>>(
        &self,
        src: &S,
        distr: Dist,
        rng: &mut StdRng,
        ids: &mut IdCounter,
    ) -> (r: Result<Tensor<E, Cpu>, CpuError>) {
        let allocated = try_filled(src.shape().duplicate(), E::zero());
        self.sampled_if_allocated(allocated, &distr, rng, ids)
    }

    /// A buffer that is there is filled in place: the fill always succeeds.
    fn try_fill_with_distr<Dist: Sampler<E, StdRng>>(
        &self,
        storage: &mut NdArray<E>,
        distr: Dist,
        rng: &mut StdRng,
    ) -> (r: Result<(), CpuError>)
        ensures
            r is Ok,
    {
        fill_with_distr(storage, &distr, rng);
        Ok(())
    }
}

impl<E: Unit, Src: ArraySource<E>> TensorFromArray<Src, E> for Cpu {
    /// Nothing is asked of the allocator that it could refuse: the source is refused where it
    /// does not hold as many elements as its shape has, and made into a tensor otherwise.
    fn try_tensor(&self, src: Src, ids: &mut IdCounter) -> (r: Result<Tensor<E, Cpu>, CpuError>)
        ensures
            src.array_view().wf() ==> r is Ok,
            !src.array_view().wf() ==> r == Err::<Tensor<E, Cpu>, CpuError>(
                CpuError::WrongNumElements,
            ),
    {
        let (data, shape) = src.into_parts();
        match NdArray::new(data, shape) {
            Some(storage) => {
                assert(storage@ =~= src.array_view());
                Ok(self.upgrade(storage, ids))
            },
            None => Err(CpuError::WrongNumElements),
        }
    }
}

} // verus!
