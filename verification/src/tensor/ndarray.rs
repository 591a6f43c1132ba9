//! Storage buffers: a flat run of elements together with the shape that it fills.

use vstd::prelude::*;
use crate::shapes::{num_elements_of, HasShape, Shape};

verus! {

/// What a storage buffer holds: its axis sizes and its elements in flat index order,
/// the last axis varying fastest.
#[verifier::ext_equal]
pub struct ArrayView<E> {
    pub dims: Seq<usize>,
    pub data: Seq<E>,
}

impl<E> ArrayView<E> {
    /// A view is well formed when it holds exactly as many elements as its axes give.
    pub open spec fn wf(self) -> bool {
        self.data.len() == num_elements_of(self.dims)
    }

    /// A buffer of the given axes that holds `value` everywhere.
    pub open spec fn filled(dims: Seq<usize>, value: E) -> ArrayView<E> {
        ArrayView { dims, data: Seq::new(num_elements_of(dims), |i: int| value) }
    }
}

/// A storage buffer: the elements of an array of some shape.
#[derive(Debug)]
pub struct NdArray<E> {
    pub data: Vec<E>,
    pub shape: Shape,
}

impl<E> View for NdArray<E> {
    type V = ArrayView<E>;

    open spec fn view(&self) -> ArrayView<E> {
        ArrayView { dims: self.shape@, data: self.data@ }
    }
}

impl<E> NdArray<E> {
    /// A buffer is well formed when it holds exactly as many elements as its shape has.
    pub open spec fn wf(&self) -> bool {
        self@.wf()
    }

    /// Puts `data` under `shape`, if it has the right number of elements.
    pub fn new(data: Vec<E>, shape: Shape) -> (r: Option<NdArray<E>>)
        ensures
            match r {
                Some(a) => a.wf() && a@.dims == shape@ && a@.data == data@,
                None => data@.len() != num_elements_of(shape@),
            },
    {
        let len: usize = data.len();
        match shape.num_elements() {
            Some(n) => {
                if len == n {
                    Some(NdArray { data, shape })
                } else {
                    None
                }
            },
            None => None,
        }
    }

    /// The number of elements held.
    pub fn len(&self) -> (n: usize)
        ensures
            n == self@.data.len(),
    {
        self.data.len()
    }
}

/// A buffer that is well formed has a shape whose elements `usize` can count: no buffer,
/// and so no tensor, is ever made in a shape with more elements than that.
pub proof fn lemma_well_formed_fits<E>(a: NdArray<E>)
    requires
        a.wf(),
    ensures
        num_elements_of(a@.dims) <= usize::MAX,
{
    assert(a.data.len() == a@.data.len());
}

impl<E: Copy> NdArray<E> {
    /// A copy of this buffer.
    pub fn duplicate(&self) -> (a: NdArray<E>)
        ensures
            a@ == self@,
            self.wf() ==> a.wf(),
    {
        NdArray { data: copy_elements(&self.data), shape: self.shape.duplicate() }
    }
}

/// A copy of the elements of `src`.
pub fn copy_elements<E: Copy>(src: &Vec<E>) -> (dst: Vec<E>)
    ensures
        dst@ == src@,
{
    let mut dst: Vec<E> = Vec::new();
    let mut i: usize = 0;
    while i < src.len()
        invariant
            i <= src@.len(),
            dst@ == src@.take(i as int),
        decreases src@.len() - i,
    {
        dst.push(src[i]);
        assert(src@.take(i + 1) =~= src@.take(i as int).push(src@[i as int]));
        i += 1;
    }
    assert(src@.take(i as int) =~= src@);
    dst
}

impl<E> HasShape for NdArray<E> {
    open spec fn shape_spec(&self) -> Seq<usize> {
        self.shape@
    }

    fn shape(&self) -> (s: &Shape) {
        &self.shape
    }
}

} // verus!
