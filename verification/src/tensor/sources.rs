//! What a tensor can be made from: single elements, arrays, and flat data with a shape.

use vstd::prelude::*;
use crate::shapes::{num_elements_of, Shape};
use crate::tensor::ndarray::ArrayView;

verus! {

/// Something that stands for the contents of a tensor.
pub trait ArraySource<E>: Sized {
    /// The shape and the elements that `self` stands for.
    spec fn array_view(&self) -> ArrayView<E>;

    /// The elements in flat index order, and the shape.
    fn into_parts(self) -> (r: (Vec<E>, Shape))
        ensures
            r.0@ == self.array_view().data,
            r.1@ == self.array_view().dims,
    ;
}

/// The elements of the rows, one row after the other.
pub open spec fn rows_flat<E, const N: usize>(rows: Seq<[E; N]>) -> Seq<E>
    decreases rows.len(),
{
    if rows.len() == 0 {
        Seq::empty()
    } else {
        rows_flat(rows.drop_last()) + rows.last()@
    }
}

/// Rows are laid out one after the other, so that the last axis varies fastest: the element
/// `j` of the row `i` stands at the flat index `i * N + j`.
pub proof fn lemma_rows_flat<E, const N: usize>(rows: Seq<[E; N]>, i: int, j: int)
    requires
        0 <= i < rows.len(),
        0 <= j < N,
    ensures
        rows_flat(rows).len() == rows.len() * N,
        0 <= i * N + j < rows_flat(rows).len(),
        rows_flat(rows)[i * N + j] == rows[i]@[j],
    decreases rows.len(),
{
    let front = rows.drop_last();
    lemma_rows_flat_len(rows);
    lemma_rows_flat_len(front);
    assert(rows.last()@.len() == N);
    assert(i * N + j < rows.len() * N && 0 <= i * N + j) by (nonlinear_arith)
        requires
            0 <= i < rows.len(),
            0 <= j < N,
    ;
    if i < rows.len() - 1 {
        lemma_rows_flat(front, i, j);
        assert(front[i] == rows[i]);
    } else {
        assert(i * N + j - front.len() * N == j) by (nonlinear_arith)
            requires
                i == front.len(),
        ;
    }
}

/// `rows.len()` rows of `N` elements hold `rows.len() * N` elements.
pub proof fn lemma_rows_flat_len<E, const N: usize>(rows: Seq<[E; N]>)
    ensures
        rows_flat(rows).len() == rows.len() * N,
    decreases rows.len(),
{
    if rows.len() > 0 {
        lemma_rows_flat_len(rows.drop_last());
        assert(rows.last()@.len() == N);
        assert((rows.len() - 1) * N + N == rows.len() * N) by (nonlinear_arith);
    } else {
        assert(rows.len() * N == 0) by (nonlinear_arith)
            requires
                rows.len() == 0,
        ;
    }
}

/// A single element stands for a tensor without axes.
impl<E: Copy> ArraySource<E> for E {
    open spec fn array_view(&self) -> ArrayView<E> {
        ArrayView { dims: Seq::empty(), data: seq![*self] }
    }

    fn into_parts(self) -> (r: (Vec<E>, Shape)) {
        let mut data: Vec<E> = Vec::new();
        data.push(self);
        assert(data@ =~= seq![self]);
        (data, Shape::new(Vec::new()))
    }
}

/// An array of `M` elements stands for a tensor of one axis.
impl<E: Copy, const M: usize> ArraySource<E> for [E; M] {
    open spec fn array_view(&self) -> ArrayView<E> {
        ArrayView { dims: seq![M], data: self@ }
    }

    fn into_parts(self) -> (r: (Vec<E>, Shape)) {
        let mut data: Vec<E> = Vec::new();
        let mut i: usize = 0;
        while i < M
            invariant
                i <= M,
                self@.len() == M,
                data@ == self@.take(i as int),
            decreases M - i,
        {
            data.push(self[i]);
            assert(self@.take(i + 1) =~= self@.take(i as int).push(self@[i as int]));
            i += 1;
        }
        assert(self@.take(M as int) =~= self@);
        let mut dims: Vec<usize> = Vec::new();
        dims.push(M);
        assert(dims@ =~= seq![M]);
        (data, Shape::new(dims))
    }
}

/// An array of `M` rows of `N` elements stands for a tensor of two axes, row after row.
impl<E: Copy, const M: usize, const N: usize> ArraySource<E> for [[E; N]; M] {
    open spec fn array_view(&self) -> ArrayView<E> {
        ArrayView { dims: seq![M, N], data: rows_flat(self@) }
    }

    fn into_parts(self) -> (r: (Vec<E>, Shape)) {
        let mut data: Vec<E> = Vec::new();
        let mut i: usize = 0;
        assert(self@.take(0) =~= Seq::<[E; N]>::empty());
        while i < M
            invariant
                i <= M,
                self@.len() == M,
                data@ == rows_flat(self@.take(i as int)),
            decreases M - i,
        {
            let row: [E; N] = self[i];
            let ghost before = data@;
            let mut j: usize = 0;
            while j < N
                invariant
                    j <= N,
                    row@.len() == N,
                    data@ == before + row@.take(j as int),
                decreases N - j,
            {
                data.push(row[j]);
                assert(row@.take(j + 1) =~= row@.take(j as int).push(row@[j as int]));
                assert(data@ =~= before + row@.take(j + 1));
                j += 1;
            }
            assert(row@.take(N as int) =~= row@);
            assert(self@.take(i + 1).drop_last() =~= self@.take(i as int));
            assert(self@.take(i + 1).last() == row);
            i += 1;
        }
        assert(self@.take(M as int) =~= self@);
        let mut dims: Vec<usize> = Vec::new();
        dims.push(M);
        dims.push(N);
        assert(dims@ =~= seq![M, N]);
        (data, Shape::new(dims))
    }
}

/// Elements in flat index order stand for a tensor of the shape that comes with them.
impl<E> ArraySource<E> for (Vec<E>, Shape) {
    open spec fn array_view(&self) -> ArrayView<E> {
        ArrayView { dims: self.1@, data: self.0@ }
    }

    fn into_parts(self) -> (r: (Vec<E>, Shape)) {
        self
    }
}

/// Arrays always hold as many elements as their shape has.
pub proof fn lemma_arrays_are_well_formed<E: Copy, const M: usize, const N: usize>(
    element: E,
    row: [E; M],
    rows: [[E; N]; M],
)
    ensures
        <E as ArraySource<E>>::array_view(&element).wf(),
        <[E; M] as ArraySource<E>>::array_view(&row).wf(),
        <[[E; N]; M] as ArraySource<E>>::array_view(&rows).wf(),
{
    assert(num_elements_of(Seq::<usize>::empty()) == 1);
    lemma_single_axis(M);
    lemma_two_axes(M, N);
    lemma_rows_flat_len(rows@);
}

/// One axis of size `m` holds `m` elements.
pub proof fn lemma_single_axis(m: usize)
    ensures
        num_elements_of(seq![m]) == m,
{
    let dims = seq![m];
    assert(dims.drop_last() =~= Seq::<usize>::empty());
    assert(num_elements_of(dims.drop_last()) == 1);
    assert(dims.last() == m);
    assert(1 * (m as nat) == m) by (nonlinear_arith);
}

/// Two axes of sizes `m` and `n` hold `m * n` elements.
pub proof fn lemma_two_axes(m: usize, n: usize)
    ensures
        num_elements_of(seq![m, n]) == m * n,
{
    let dims = seq![m, n];
    assert(dims.drop_last() =~= seq![m]);
    assert(dims.last() == n);
    lemma_single_axis(m);
}

} // verus!
