//! Nested arrays: the contents of a tensor, axis inside axis, for inspection.

use vstd::prelude::*;
use crate::shapes::num_elements_of;
use crate::tensor::ndarray::NdArray;
use crate::tensor::tensor_impl::Tensor;

verus! {

/// An array of arrays, down to single elements: one level for each axis of a shape.
#[derive(Debug, PartialEq)]
pub enum NestedArray<E> {
    /// A single element: what a tensor without axes holds.
    Element(E),
    /// The arrays along the first axis, each with the remaining axes.
    Axis(Vec<NestedArray<E>>),
}

/// Whether `nested` shows the elements `data`, in flat index order, in the shape `dims`:
/// along the first axis it has one array for each index, and the array of index `i` shows the
/// `i`-th of the equal runs that `data` falls into.
pub open spec fn nests<E>(nested: NestedArray<E>, dims: Seq<usize>, data: Seq<E>) -> bool
    decreases dims.len(),
{
    if dims.len() == 0 {
        nested matches NestedArray::Element(e) && data.len() == 1 && e == data[0]
    } else {
        let run = num_elements_of(dims.drop_first()) as int;
        &&& nested matches NestedArray::Axis(items)
        &&& items@.len() == dims[0]
        &&& forall|i: int|
            0 <= i < dims[0] ==> nests(
                #[trigger] items@[i],
                dims.drop_first(),
                data.subrange(i * run, (i + 1) * run),
            )
    }
}

/// The elements of a shape are those of its first axis times those of the other axes.
pub proof fn lemma_count_by_first_axis(dims: Seq<usize>)
    requires
        dims.len() > 0,
    ensures
        num_elements_of(dims) == dims[0] * num_elements_of(dims.drop_first()),
    decreases dims.len(),
{
    if dims.len() == 1 {
        assert(dims.drop_last() =~= Seq::<usize>::empty());
        assert(dims.drop_first() =~= Seq::<usize>::empty());
        assert(num_elements_of(Seq::<usize>::empty()) == 1);
        assert(1 * (dims.last() as nat) == dims[0] * 1) by (nonlinear_arith)
            requires
                dims.last() == dims[0],
        ;
    } else {
        let front = dims.drop_last();
        lemma_count_by_first_axis(front);
        assert(front.drop_first() =~= dims.drop_first().drop_last());
        assert(front[0] == dims[0]);
        assert(dims.drop_first().last() == dims.last());
        let rest = num_elements_of(front.drop_first());
        assert((dims[0] * rest) * (dims.last() as nat) == dims[0] * (rest * (dims.last() as nat)))
            by (nonlinear_arith);
    }
}

/// Shows the `count` elements of `data` from `start` on in the shape of the axes of `dims`
/// from `axis` on.
fn nest<E: Copy>(data: &Vec<E>, dims: &Vec<usize>, axis: usize, start: usize, count: usize) -> (nested:
    NestedArray<E>)
    requires
        axis <= dims@.len(),
        count == num_elements_of(dims@.skip(axis as int)),
        start + count <= data@.len(),
    ensures
        nests(nested, dims@.skip(axis as int), data@.subrange(start as int, start + count)),
    decreases dims@.len() - axis,
{
    let ghost here = dims@.skip(axis as int);
    let ghost shown = data@.subrange(start as int, start + count);
    if axis == dims.len() {
        assert(here =~= Seq::<usize>::empty());
        return NestedArray::Element(data[start]);
    }
    let size: usize = dims[axis];
    let ghost below = dims@.skip(axis + 1);
    let ghost run = num_elements_of(below) as int;
    proof {
        assert(here.drop_first() =~= below);
        assert(here[0] == size);
        lemma_count_by_first_axis(here);
    }
    let step: usize = if size == 0 {
        0
    } else {
        count / size
    };
    assert(size > 0 ==> step == run) by (nonlinear_arith)
        requires
            count == size * run,
            size > 0 ==> step == count / size,
            run >= 0,
    ;
    let total: usize = data.len();
    let mut items: Vec<NestedArray<E>> = Vec::new();
    let mut i: usize = 0;
    while i < size
        invariant
            i <= size,
            size > 0 ==> step == run,
            count == size * run,
            run >= 0,
            axis < dims.len(),
            below == dims@.skip(axis + 1),
            run == num_elements_of(below),
            start + count <= total,
            total == data@.len(),
            shown == data@.subrange(start as int, start + count),
            items@.len() == i,
            forall|k: int|
                0 <= k < i ==> nests(
                    #[trigger] items@[k],
                    below,
                    shown.subrange(k * run, (k + 1) * run),
                ),
        decreases size - i,
    {
        assert(i * run + run <= count && 0 <= i * run) by (nonlinear_arith)
            requires
                count == size * run,
                0 <= i < size,
                run >= 0,
        ;
        assert((i + 1) * run == i * run + run) by (nonlinear_arith);
        assert(step == run);
        assert(i * step == i * run) by (nonlinear_arith)
            requires
                step == run,
        ;
        let offset: usize = start + i * step;
        let item = nest(data, dims, axis + 1, offset, step);
        assert(data@.subrange(offset as int, offset + step) =~= shown.subrange(
            i * run,
            (i + 1) * run,
        ));
        let ghost before = items@;
        items.push(item);
        assert(forall|k: int| 0 <= k < i ==> items@[k] == before[k]);
        i += 1;
    }
    NestedArray::Axis(items)
}

/// Convert tensors to nested arrays.
pub trait AsArray {
    /// The type of the nested arrays.
    type Array;

    /// Whether `array` shows what `self` holds.
    spec fn is_array(&self, array: Self::Array) -> bool;

    /// Whether `self` is in a state to be shown.
    spec fn has_array(&self) -> bool;

    /// The contents as nested arrays, one level for each axis.
    fn array(&self) -> (array: Self::Array)
        requires
            self.has_array(),
        ensures
            self.is_array(array),
    ;
}

impl<E: Copy> AsArray for NdArray<E> {
    type Array = NestedArray<E>;

    open spec fn is_array(&self, array: NestedArray<E>) -> bool {
        nests(array, self@.dims, self@.data)
    }

    open spec fn has_array(&self) -> bool {
        self.wf()
    }

    fn array(&self) -> (array: NestedArray<E>) {
        assert(self.shape.dims@.skip(0) =~= self@.dims);
        assert(self.data@.subrange(0, self.data@.len() as int) =~= self@.data);
        nest(&self.data, &self.shape.dims, 0, 0, self.data.len())
    }
}

impl<E: Copy, D> AsArray for Tensor<E, D> {
    type Array = NestedArray<E>;

    open spec fn is_array(&self, array: NestedArray<E>) -> bool {
        nests(array, self.storage@.dims, self.storage@.data)
    }

    open spec fn has_array(&self) -> bool {
        self.storage.wf()
    }

    fn array(&self) -> (array: NestedArray<E>) {
        self.storage.array()
    }
}

} // verus!
