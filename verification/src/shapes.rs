//! Shapes: the axis sizes of an array, fixed by a type or known at run time.

use vstd::prelude::*;

verus! {

/// The number of elements of an array with the given axis sizes: their product.
pub open spec fn num_elements_of(dims: Seq<usize>) -> nat
    decreases dims.len(),
{
    if dims.len() == 0 {
        1
    } else {
        num_elements_of(dims.drop_last()) * (dims.last() as nat)
    }
}

/// An axis of size zero leaves no elements, whatever the other axes are.
pub proof fn lemma_zero_axis(dims: Seq<usize>, k: int)
    requires
        0 <= k < dims.len(),
        dims[k] == 0,
    ensures
        num_elements_of(dims) == 0,
    decreases dims.len(),
{
    if k < dims.len() - 1 {
        lemma_zero_axis(dims.drop_last(), k);
        assert(num_elements_of(dims.drop_last()) * (dims.last() as nat) == 0) by (nonlinear_arith)
            requires
                num_elements_of(dims.drop_last()) == 0,
        ;
    } else {
        assert(num_elements_of(dims.drop_last()) * (dims.last() as nat) == 0) by (nonlinear_arith)
            requires
                dims.last() == 0,
        ;
    }
}

/// Without an axis of size zero, a prefix of the axes never holds more elements than all of them.
pub proof fn lemma_prefix_count(dims: Seq<usize>, n: int)
    requires
        0 <= n <= dims.len(),
        forall|i: int| 0 <= i < dims.len() ==> dims[i] >= 1,
    ensures
        1 <= num_elements_of(dims.take(n)) <= num_elements_of(dims),
    decreases dims.len() - n,
{
    if n == dims.len() {
        assert(dims.take(n) =~= dims);
        lemma_positive_count(dims);
    } else {
        lemma_prefix_count(dims, n + 1);
        let next = dims.take(n + 1);
        assert(next.drop_last() =~= dims.take(n));
        assert(next.last() == dims[n]);
        lemma_positive_count(dims.take(n));
        assert(num_elements_of(dims.take(n)) <= num_elements_of(dims.take(n)) * (dims[n] as nat))
            by (nonlinear_arith)
            requires
                dims[n] >= 1,
        ;
    }
}

/// Without an axis of size zero there is at least one element.
pub proof fn lemma_positive_count(dims: Seq<usize>)
    requires
        forall|i: int| 0 <= i < dims.len() ==> dims[i] >= 1,
    ensures
        num_elements_of(dims) >= 1,
    decreases dims.len(),
{
    if dims.len() > 0 {
        lemma_positive_count(dims.drop_last());
        assert(num_elements_of(dims.drop_last()) * (dims.last() as nat) >= 1) by (nonlinear_arith)
            requires
                num_elements_of(dims.drop_last()) >= 1,
                dims.last() >= 1,
        ;
    }
}

/// The ordered axis sizes of an array. The last axis is the one that axis-wise
/// operations work along.
#[derive(Debug)]
pub struct Shape {
    pub dims: Vec<usize>,
}

impl View for Shape {
    type V = Seq<usize>;

    open spec fn view(&self) -> Seq<usize> {
        self.dims@
    }
}

impl Shape {
    pub fn new(dims: Vec<usize>) -> (s: Shape)
        ensures
            s@ == dims@,
    {
        Shape { dims }
    }

    /// The number of axes.
    pub fn rank(&self) -> (r: usize)
        ensures
            r == self@.len(),
    {
        self.dims.len()
    }

    /// The size of the last axis, if there is an axis at all.
    pub fn last_axis(&self) -> (r: Option<usize>)
        ensures
            r == if self@.len() == 0 {
                None
            } else {
                Some(self@.last())
            },
    {
        let n: usize = self.dims.len();
        if n == 0 {
            None
        } else {
            Some(self.dims[n - 1])
        }
    }

    fn has_zero_axis(&self) -> (r: bool)
        ensures
            r == exists|i: int| 0 <= i < self@.len() && self@[i] == 0,
    {
        let mut i: usize = 0;
        while i < self.dims.len()
            invariant
                i <= self@.len(),
                forall|j: int| 0 <= j < i ==> self@[j] != 0,
            decreases self@.len() - i,
        {
            if self.dims[i] == 0 {
                return true;
            }
            i += 1;
        }
        false
    }

    /// The number of elements, or `None` where that number does not fit in `usize`.
    pub fn num_elements(&self) -> (n: Option<usize>)
        ensures
            match n {
                Some(k) => k == num_elements_of(self@),
                None => num_elements_of(self@) > usize::MAX,
            },
    {
        if self.has_zero_axis() {
            proof {
                let k = choose|i: int| 0 <= i < self@.len() && self@[i] == 0;
                lemma_zero_axis(self@, k);
            }
            return Some(0);
        }
        let mut count: usize = 1;
        let mut i: usize = 0;
        assert(self@.take(0) =~= Seq::<usize>::empty());
        while i < self.dims.len()
            invariant
                i <= self@.len(),
                forall|j: int| 0 <= j < self@.len() ==> self@[j] >= 1,
                count == num_elements_of(self@.take(i as int)),
            decreases self@.len() - i,
        {
            let ghost next = self@.take(i + 1);
            assert(next.drop_last() =~= self@.take(i as int));
            assert(next.last() == self@[i as int]);
            match count.checked_mul(self.dims[i]) {
                Some(product) => {
                    count = product;
                },
                None => {
                    proof {
                        lemma_prefix_count(self@, i + 1);
                    }
                    return None;
                },
            }
            i += 1;
        }
        assert(self@.take(i as int) =~= self@);
        Some(count)
    }

    /// Whether two shapes have the same axes.
    pub fn same_as(&self, other: &Shape) -> (r: bool)
        ensures
            r == (self@ == other@),
    {
        if self.dims.len() != other.dims.len() {
            return false;
        }
        let mut i: usize = 0;
        while i < self.dims.len()
            invariant
                i <= self@.len(),
                self@.len() == other@.len(),
                forall|j: int| 0 <= j < i ==> self@[j] == other@[j],
            decreases self@.len() - i,
        {
            if self.dims[i] != other.dims[i] {
                return false;
            }
            i += 1;
        }
        assert(self@ =~= other@);
        true
    }

    /// A copy of this shape.
    pub fn duplicate(&self) -> (s: Shape)
        ensures
            s@ == self@,
    {
        let mut dims: Vec<usize> = Vec::new();
        let mut i: usize = 0;
        while i < self.dims.len()
            invariant
                i <= self@.len(),
                dims@ == self@.take(i as int),
            decreases self@.len() - i,
        {
            dims.push(self.dims[i]);
            assert(self@.take(i + 1) =~= self@.take(i as int).push(self@[i as int]));
            i += 1;
        }
        assert(self@.take(i as int) =~= self@);
        Shape { dims }
    }
}


/// Anything that carries a shape.
pub trait HasShape {
    /// The axis sizes of the shape carried.
    spec fn shape_spec(&self) -> Seq<usize>;

    fn shape(&self) -> (s: &Shape)
        ensures
            s@ == self.shape_spec(),
    ;
}

impl HasShape for Shape {
    open spec fn shape_spec(&self) -> Seq<usize> {
        self@
    }

    fn shape(&self) -> (s: &Shape) {
        self
    }
}

/// A shape whose axes are all fixed by its type.
pub trait ConstShape {
    /// The axis sizes that the type stands for.
    spec fn dims() -> Seq<usize>;

    fn shape() -> (s: Shape)
        ensures
            s@ == Self::dims(),
    ;
}

/// The shape of a single element: no axes.
#[derive(Clone, Copy, Debug, Default)]
pub struct Rank0;

/// The shape of `M` elements in a row.
#[derive(Clone, Copy, Debug, Default)]
pub struct Rank1<const M: usize>;

/// The shape of `M` rows of `N` elements.
#[derive(Clone, Copy, Debug, Default)]
pub struct Rank2<const M: usize, const N: usize>;

/// The shape of `M` blocks of `N` rows of `O` elements.
#[derive(Clone, Copy, Debug, Default)]
pub struct Rank3<const M: usize, const N: usize, const O: usize>;

impl ConstShape for Rank0 {
    open spec fn dims() -> Seq<usize> {
        Seq::empty()
    }

    fn shape() -> (s: Shape) {
        Shape::new(Vec::new())
    }
}

impl<const M: usize> ConstShape for Rank1<M> {
    open spec fn dims() -> Seq<usize> {
        seq![M]
    }

    fn shape() -> (s: Shape) {
        let mut dims: Vec<usize> = Vec::new();
        dims.push(M);
        assert(dims@ =~= seq![M]);
        Shape::new(dims)
    }
}

impl<const M: usize, const N: usize> ConstShape for Rank2<M, N> {
    open spec fn dims() -> Seq<usize> {
        seq![M, N]
    }

    fn shape() -> (s: Shape) {
        let mut dims: Vec<usize> = Vec::new();
        dims.push(M);
        dims.push(N);
        assert(dims@ =~= seq![M, N]);
        Shape::new(dims)
    }
}

impl<const M: usize, const N: usize, const O: usize> ConstShape for Rank3<M, N, O> {
    open spec fn dims() -> Seq<usize> {
        seq![M, N, O]
    }

    fn shape() -> (s: Shape) {
        let mut dims: Vec<usize> = Vec::new();
        dims.push(M);
        dims.push(N);
        dims.push(O);
        assert(dims@ =~= seq![M, N, O]);
        Shape::new(dims)
    }
}

} // verus!
