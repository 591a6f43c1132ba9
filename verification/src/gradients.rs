//! The map of gradients, and what running a tape backward does to it.

use vstd::prelude::*;
use std::collections::HashMap;
use crate::dtypes::{Dtype, Unit};
use crate::shapes::Shape;
use crate::tape::{OpRecord, OpView, TapeError};
use crate::tensor::ndarray::{ArrayView, NdArray};
use crate::tensor::storage_traits::{DeviceStorage, ErrorKind};
use crate::tensor::tensor_impl::Tensor;
use crate::tensor_ops::select::{accumulate_where, ChooseKernel};
use crate::unique_id::{HasUniqueId, UniqueId};

verus! {

/// The accumulated gradients of a backward pass, by tensor identity. An identity that no
/// backward step reached has no entry: that is not the same as a gradient of zeros.
pub struct Gradients<E> {
    map: HashMap<u64, NdArray<E>>,
}

impl<E> View for Gradients<E> {
    type V = Map<u64, ArrayView<E>>;

    closed spec fn view(&self) -> Map<u64, ArrayView<E>> {
        Map::new(|k: u64| self.map@.contains_key(k), |k: u64| self.map@[k]@)
    }
}

impl<E> Default for Gradients<E> {
    /// A map without any gradient.
    fn default() -> (grads: Gradients<E>)
        ensures
            grads@ == Map::<u64, ArrayView<E>>::empty(),
            grads.wf(),
    {
        Gradients::new()
    }
}

/// Every gradient of the map holds as many elements as its shape has.
pub open spec fn all_wf<E>(grads: Map<u64, ArrayView<E>>) -> bool {
    forall|k: u64| grads.contains_key(k) ==> (#[trigger] grads[k]).wf()
}

impl<E> Gradients<E> {
    /// Every gradient held is a well-formed buffer.
    pub open spec fn wf(&self) -> bool {
        all_wf(self@)
    }

    /// A map without any gradient.
    pub fn new() -> (grads: Gradients<E>)
        ensures
            grads@ == Map::<u64, ArrayView<E>>::empty(),
            grads.wf(),
    {
        let grads = Gradients { map: HashMap::new() };
        assert(grads@ =~= Map::<u64, ArrayView<E>>::empty());
        grads
    }

    /// Whether a gradient is held for `id`.
    pub fn contains(&self, id: UniqueId) -> (r: bool)
        ensures
            r == self@.contains_key(id.0),
    {
        self.map.contains_key(&id.0)
    }

    /// The gradient held for `id`, if there is one.
    pub fn lookup(&self, id: UniqueId) -> (r: Option<&NdArray<E>>)
        ensures
            match r {
                Some(grad) => self@.contains_key(id.0) && grad@ == self@[id.0],
                None => !self@.contains_key(id.0),
            },
            self.wf() ==> (r matches Some(grad) ==> grad.wf()),
    {
        let r = self.map.get(&id.0);
        assert(self.wf() && r is Some ==> self@[id.0].wf());
        r
    }

    /// The gradient held for the tensor `t`. There has to be one: to ask for the gradient
    /// of a tensor that took no part in the computation is a mistake of the caller.
    pub fn get<T: HasUniqueId>(&self, t: &T) -> (grad: &NdArray<E>)
        requires
            self@.contains_key(t.id_spec().0),
        ensures
            grad@ == self@[t.id_spec().0],
            self.wf() ==> grad.wf(),
    {
        let id = t.id();
        assert(self.wf() ==> self@[id.0].wf());
        self.map.get(&id.0).unwrap()
    }

    /// Takes the gradient of `id` out of the map, if there is one.
    pub fn remove(&mut self, id: UniqueId) -> (r: Option<NdArray<E>>)
        ensures
            final(self)@ == old(self)@.remove(id.0),
            match r {
                Some(grad) => old(self)@.contains_key(id.0) && grad@ == old(self)@[id.0],
                None => !old(self)@.contains_key(id.0),
            },
            old(self).wf() ==> final(self).wf() && (r matches Some(grad) ==> grad.wf()),
    {
        let r = self.map.remove(&id.0);
        assert(self@ =~= old(self)@.remove(id.0));
        r
    }

    /// Puts `grad` into the map as the gradient of `id`, in place of the one held before.
    pub fn insert(&mut self, id: UniqueId, grad: NdArray<E>)
        ensures
            final(self)@ == old(self)@.insert(id.0, grad@),
            old(self).wf() && grad.wf() ==> final(self).wf(),
    {
        self.map.insert(id.0, grad);
        assert(self@ =~= old(self)@.insert(id.0, grad@));
    }

    /// Makes sure that a gradient is held for `t`: where there is none, one of zeros in the
    /// shape of `t` is put in; one that is there stays as it is.
    pub fn try_alloc_for<D: DeviceStorage>(&mut self, t: &Tensor<E, D>) -> (r: Result<(), D::Err>)
        where E: Dtype
        requires
            old(self).wf(),
            t.storage.wf(),
        ensures
            final(self).wf(),
            match r {
                Ok(_) => final(self)@ == if old(self)@.contains_key(t.id.0) {
                    old(self)@
                } else {
                    old(self)@.insert(t.id.0, ArrayView::filled(t.storage@.dims, E::zero_spec()))
                },
                Err(e) => {
                    &&& final(self)@ == old(self)@
                    &&& !old(self)@.contains_key(t.id.0)
                    &&& D::kind(e) == ErrorKind::Device
                },
            },
    {
        if self.contains(t.id) {
            return Ok(());
        }
        let grad = t.device.try_alloc_grad(&t.storage)?;
        self.insert(t.id, grad);
        Ok(())
    }

    /// The number of gradients held.
    pub fn len(&self) -> (n: usize)
        ensures
            n == self@.len(),
    {
        proof {
            lemma_same_domain(self.map@, self@);
        }
        self.map.len()
    }
}

/// Two maps over the same finite set of keys hold the same number of entries.
proof fn lemma_same_domain<A, B>(m1: Map<u64, A>, m2: Map<u64, B>)
    requires
        m1.dom() =~= m2.dom(),
    ensures
        m1.len() == m2.len(),
{
}

/// What went wrong in an operation on tensors.
#[derive(Debug, PartialEq, Eq)]
pub enum OpError<DE> {
    /// The device failed.
    Device(DE),
    /// The tape could not be used.
    Tape(TapeError),
    /// The operands, or the gradients kept for them, do not have one shape.
    ShapeMismatch,
}

/// The gradient kept for `id`, or zeros of the given shape where none is kept.
pub open spec fn grad_or_zeros<E: Dtype>(
    grads: Map<u64, ArrayView<E>>,
    id: UniqueId,
    dims: Seq<usize>,
) -> ArrayView<E> {
    if grads.contains_key(id.0) {
        grads[id.0]
    } else {
        ArrayView::filled(dims, E::zero_spec())
    }
}

/// `grads` after `grad` was added into the gradient of `id` wherever `cond` is `side`. A gradient
/// that was absent starts from zeros.
pub open spec fn accumulate_into<E: Dtype>(
    grads: Map<u64, ArrayView<E>>,
    id: UniqueId,
    cond: ArrayView<bool>,
    side: bool,
    grad: Seq<E>,
) -> Map<u64, ArrayView<E>> {
    grads.insert(
        id.0,
        ArrayView {
            dims: cond.dims,
            data: accumulate_where(grad_or_zeros(grads, id, cond.dims).data, cond.data, side, grad),
        },
    )
}

impl OpView {
    /// Whether the gradients that the step reads and adds to have the shape of the operation.
    /// Where the output has no gradient the step reads nothing.
    pub open spec fn fits<E>(self, grads: Map<u64, ArrayView<E>>) -> bool {
        match self {
            OpView::Choose { cond, lhs, rhs, out } => grads.contains_key(out.0) ==> {
                &&& grads[out.0].dims == cond.dims
                &&& grads.contains_key(lhs.0) ==> grads[lhs.0].dims == cond.dims
                &&& grads.contains_key(rhs.0) ==> grads[rhs.0].dims == cond.dims
            },
        }
    }

    /// The gradients after the backward step of the operation. Where the output has no
    /// gradient, nothing flows and the inputs get no entry. Otherwise the output's gradient is
    /// added to the left input where the condition holds, then to the right input where it
    /// does not: an input that stands on both sides receives both.
    pub open spec fn step<E: Dtype>(self, grads: Map<u64, ArrayView<E>>) -> Map<u64, ArrayView<E>> {
        match self {
            OpView::Choose { cond, lhs, rhs, out } => if grads.contains_key(out.0) {
                let grad_out = grads[out.0].data;
                accumulate_into(
                    accumulate_into(grads, lhs, cond, true, grad_out),
                    rhs,
                    cond,
                    false,
                    grad_out,
                )
            } else {
                grads
            },
        }
    }
}

/// The gradients after the backward steps of `ops`, taken from the last recorded to the first.
pub open spec fn run_backward<E: Dtype>(ops: Seq<OpView>, grads: Map<u64, ArrayView<E>>) -> Map<
    u64,
    ArrayView<E>,
>
    decreases ops.len(),
{
    if ops.len() == 0 {
        grads
    } else {
        run_backward(ops.drop_last(), ops.last().step(grads))
    }
}

/// Whether every backward step of `ops`, taken from the last recorded to the first, finds
/// gradients of its own shape.
pub open spec fn backward_fits<E: Dtype>(ops: Seq<OpView>, grads: Map<u64, ArrayView<E>>) -> bool
    decreases ops.len(),
{
    ops.len() == 0 || (ops.last().fits(grads) && backward_fits(
        ops.drop_last(),
        ops.last().step(grads),
    ))
}

impl OpView {
    /// The input of the operation on the given side: the left one for `true`.
    pub open spec fn input(self, side: bool) -> UniqueId {
        match self {
            OpView::Choose { cond, lhs, rhs, out } => if side {
                lhs
            } else {
                rhs
            },
        }
    }

    /// The output of the operation.
    pub open spec fn output(self) -> UniqueId {
        match self {
            OpView::Choose { cond, lhs, rhs, out } => out,
        }
    }

    /// The shape that the operation works in.
    pub open spec fn dims(self) -> Seq<usize> {
        match self {
            OpView::Choose { cond, lhs, rhs, out } => cond.dims,
        }
    }

    /// The accumulator `acc` after the operation has added what flows from its output to
    /// its input on the given side, by the gradients `grads`.
    pub open spec fn contribute<E: Dtype>(
        self,
        acc: Seq<E>,
        side: bool,
        grads: Map<u64, ArrayView<E>>,
    ) -> Seq<E> {
        match self {
            OpView::Choose { cond, lhs, rhs, out } => accumulate_where(
                acc,
                cond.data,
                side,
                grads[out.0].data,
            ),
        }
    }
}

/// A backward step touches the gradients of its two inputs and no others. Where nothing
/// flows from the output, it does not touch anything: an input gets no entry from it.
pub proof fn lemma_step_leaves_others<E: Dtype>(
    op: OpView,
    grads: Map<u64, ArrayView<E>>,
    id: UniqueId,
)
    requires
        (id != op.input(true) && id != op.input(false)) || !grads.contains_key(op.output().0),
    ensures
        op.step(grads).contains_key(id.0) == grads.contains_key(id.0),
        grads.contains_key(id.0) ==> op.step(grads)[id.0] == grads[id.0],
{
}

/// A backward step adds to the gradient of an input and never overwrites it: what was
/// accumulated before is still there, with the contribution of this operation on top. An
/// input without a gradient starts from zeros.
pub proof fn lemma_step_accumulates<E: Dtype>(op: OpView, grads: Map<u64, ArrayView<E>>, side: bool)
    requires
        grads.contains_key(op.output().0),
        op.input(true) != op.input(false),
    ensures
        op.step(grads).contains_key(op.input(side).0),
        op.step(grads)[op.input(side).0].dims == op.dims(),
        op.step(grads)[op.input(side).0].data == op.contribute(
            grad_or_zeros(grads, op.input(side), op.dims()).data,
            side,
            grads,
        ),
{
}

/// A tensor that stands on both sides of an operation receives both contributions: the
/// one of the left side, and on top of it the one of the right side.
pub proof fn lemma_step_accumulates_both_sides<E: Dtype>(op: OpView, grads: Map<u64, ArrayView<E>>)
    requires
        grads.contains_key(op.output().0),
        op.input(true) == op.input(false),
    ensures
        op.step(grads).contains_key(op.input(true).0),
        op.step(grads)[op.input(true).0].data == op.contribute(
            op.contribute(grad_or_zeros(grads, op.input(true), op.dims()).data, true, grads),
            false,
            grads,
        ),
{
}

/// The gradient of a tensor that feeds two operations is the sum over both: after the
/// backward steps of the two, it holds what it held before, then the contribution of the
/// operation recorded second, then that of the operation recorded first, each as it is
/// computed from the gradients at the start. Neither contribution replaces the other.
///
/// The tensor `x` is an input of `first` on `first_side` and of `second` on `second_side`,
/// and stands on one side only of each. That the output of `first` is no input of `second` is
/// what makes the two paths independent.
pub proof fn lemma_gradient_sums_over_consumers<E: Dtype>(
    first: OpView,
    second: OpView,
    first_side: bool,
    second_side: bool,
    x: UniqueId,
    grads: Map<u64, ArrayView<E>>,
)
    requires
        first.input(first_side) == x,
        first.input(!first_side) != x,
        second.input(second_side) == x,
        second.input(!second_side) != x,
        grads.contains_key(first.output().0),
        grads.contains_key(second.output().0),
        first.output() != second.input(true),
        first.output() != second.input(false),
    ensures
        run_backward(seq![first, second], grads).contains_key(x.0),
        run_backward(seq![first, second], grads)[x.0].data == first.contribute(
            second.contribute(grad_or_zeros(grads, x, second.dims()).data, second_side, grads),
            first_side,
            grads,
        ),
{
    let ops = seq![first, second];
    let after_second = second.step(grads);
    assert(ops.drop_last() =~= seq![first]);
    assert(seq![first].drop_last() =~= Seq::<OpView>::empty());
    assert(run_backward(seq![first], after_second) == first.step(after_second)) by {
        assert(run_backward(Seq::<OpView>::empty(), first.step(after_second)) == first.step(
            after_second,
        ));
    }
    assert(run_backward(ops, grads) == first.step(after_second));
    lemma_step_accumulates(second, grads, second_side);
    lemma_step_leaves_others(second, grads, first.output());
    lemma_step_accumulates(first, after_second, first_side);
}

/// The entry that `grads` keeps for `id`, if any.
pub open spec fn entry_of<E>(grads: Map<u64, ArrayView<E>>, id: UniqueId) -> Option<ArrayView<E>> {
    if grads.contains_key(id.0) {
        Some(grads[id.0])
    } else {
        None
    }
}

/// The data of an entry, or zeros of the given shape where there is none.
pub open spec fn data_or_zeros<E: Dtype>(entry: Option<ArrayView<E>>, dims: Seq<usize>) -> Seq<E> {
    match entry {
        Some(grad) => grad.data,
        None => ArrayView::filled(dims, E::zero_spec()).data,
    }
}

impl OpView {
    /// The entry of `x` after the backward step of the operation, had it been `entry`
    /// before, with the gradient of the output as `grads` keeps it. An operation of which
    /// `x` is no input, or whose output has no gradient, leaves the entry as it is.
    pub open spec fn adds_to<E: Dtype>(
        self,
        x: UniqueId,
        entry: Option<ArrayView<E>>,
        grads: Map<u64, ArrayView<E>>,
    ) -> Option<ArrayView<E>> {
        if grads.contains_key(self.output().0) {
            let left = if self.input(true) == x {
                Some(
                    ArrayView {
                        dims: self.dims(),
                        data: self.contribute(data_or_zeros(entry, self.dims()), true, grads),
                    },
                )
            } else {
                entry
            };
            if self.input(false) == x {
                Some(
                    ArrayView {
                        dims: self.dims(),
                        data: self.contribute(data_or_zeros(left, self.dims()), false, grads),
                    },
                )
            } else {
                left
            }
        } else {
            entry
        }
    }
}

/// The entry of `x` after each of `ops` has added to it, from the last recorded to the
/// first, every one with the gradient of its output as `grads` keeps it: the contributions
/// of the operations, each computed on its own, one on top of the other.
pub open spec fn sum_of_contributions<E: Dtype>(
    ops: Seq<OpView>,
    x: UniqueId,
    entry: Option<ArrayView<E>>,
    grads: Map<u64, ArrayView<E>>,
) -> Option<ArrayView<E>>
    decreases ops.len(),
{
    if ops.len() == 0 {
        entry
    } else {
        sum_of_contributions(ops.drop_last(), x, ops.last().adds_to(x, entry, grads), grads)
    }
}

/// Whether no operation of `ops` feeds a later one: the output of none is an input of one
/// that was recorded after it.
pub open spec fn side_by_side(ops: Seq<OpView>) -> bool {
    forall|i: int, j: int|
        0 <= i < j < ops.len() ==> (#[trigger] ops[i]).output() != (#[trigger] ops[j]).input(true)
            && ops[i].output() != ops[j].input(false)
}

/// What a backward step does to the entry of any one identity.
pub proof fn lemma_step_adds_to<E: Dtype>(op: OpView, grads: Map<u64, ArrayView<E>>, x: UniqueId)
    ensures
        entry_of(op.step(grads), x) == op.adds_to(x, entry_of(grads, x), grads),
{
}

/// The sum of the contributions reads `grads` at the outputs of the operations and
/// nowhere else.
pub proof fn lemma_sum_reads_outputs_only<E: Dtype>(
    ops: Seq<OpView>,
    x: UniqueId,
    entry: Option<ArrayView<E>>,
    grads: Map<u64, ArrayView<E>>,
    other: Map<u64, ArrayView<E>>,
)
    requires
        forall|i: int|
            0 <= i < ops.len() ==> entry_of(grads, (#[trigger] ops[i]).output()) == entry_of(
                other,
                ops[i].output(),
            ),
    ensures
        sum_of_contributions(ops, x, entry, grads) == sum_of_contributions(ops, x, entry, other),
    decreases ops.len(),
{
    if ops.len() > 0 {
        let last = ops.last();
        assert(entry_of(grads, last.output()) == entry_of(other, last.output()));
        assert(last.adds_to(x, entry, grads) == last.adds_to(x, entry, other));
        let front = ops.drop_last();
        assert forall|i: int| 0 <= i < front.len() implies entry_of(
            grads,
            (#[trigger] front[i]).output(),
        ) == entry_of(other, front[i].output()) by {
            assert(front[i] == ops[i]);
        }
        lemma_sum_reads_outputs_only(front, x, last.adds_to(x, entry, grads), grads, other);
    }
}

/// The gradient of a tensor that feeds any number of operations is the sum over all of
/// them. Where the operations stand side by side, so that none feeds another, the entry of
/// `x` after the backward pass is what the operations contribute one on top of the other,
/// each contribution computed from the gradients at the start, as if the others were not
/// there.
pub proof fn lemma_gradient_is_the_sum_of_contributions<E: Dtype>(
    ops: Seq<OpView>,
    x: UniqueId,
    grads: Map<u64, ArrayView<E>>,
)
    requires
        side_by_side(ops),
    ensures
        entry_of(run_backward(ops, grads), x) == sum_of_contributions(
            ops,
            x,
            entry_of(grads, x),
            grads,
        ),
    decreases ops.len(),
{
    if ops.len() > 0 {
        let last = ops.last();
        let front = ops.drop_last();
        let after = last.step(grads);
        assert forall|i: int, j: int| 0 <= i < j < front.len() implies (#[trigger] front[i]).output()
            != (#[trigger] front[j]).input(true) && front[i].output() != front[j].input(false) by {
            assert(front[i] == ops[i] && front[j] == ops[j]);
        }
        lemma_gradient_is_the_sum_of_contributions(front, x, after);
        lemma_step_adds_to(last, grads, x);
        assert forall|i: int| 0 <= i < front.len() implies entry_of(
            after,
            (#[trigger] front[i]).output(),
        ) == entry_of(grads, front[i].output()) by {
            assert(front[i] == ops[i]);
            assert(ops[i].output() != ops[ops.len() - 1].input(true));
            lemma_step_leaves_others(last, grads, front[i].output());
        }
        lemma_sum_reads_outputs_only(front, x, entry_of(after, x), after, grads);
    }
}

/// The identities that the backward steps of `ops` reach from those in `from`: an operation
/// whose output is reached brings in its two inputs.
pub open spec fn reached(ops: Seq<OpView>, from: Set<u64>) -> Set<u64>
    decreases ops.len(),
{
    if ops.len() == 0 {
        from
    } else {
        let op = ops.last();
        reached(
            ops.drop_last(),
            if from.contains(op.output().0) {
                from.insert(op.input(true).0).insert(op.input(false).0)
            } else {
                from
            },
        )
    }
}

/// After a backward pass, the identities with a gradient are exactly those that lie on a
/// path from the ones that had a gradient at the start. An identity that nothing reached
/// has no entry at all, which is more than a gradient of zeros would say.
pub proof fn lemma_entries_are_the_reached<E: Dtype>(ops: Seq<OpView>, grads: Map<u64, ArrayView<E>>)
    ensures
        run_backward(ops, grads).dom() == reached(ops, grads.dom()),
    decreases ops.len(),
{
    if ops.len() > 0 {
        let op = ops.last();
        let next = op.step(grads);
        assert(next.dom() =~= if grads.dom().contains(op.output().0) {
            grads.dom().insert(op.input(true).0).insert(op.input(false).0)
        } else {
            grads.dom()
        });
        lemma_entries_are_the_reached(ops.drop_last(), next);
    }
}

/// Takes the gradient of `id` out of `grads`, or makes one of zeros in the shape of `like` where
/// none is kept.
fn take_or_zeros<E: Dtype, D: DeviceStorage>(
    device: &D,
    grads: &mut Gradients<E>,
    id: UniqueId,
    like: &NdArray<E>,
) -> (r: Result<NdArray<E>, D::Err>)
    requires
        old(grads).wf(),
        like.wf(),
    ensures
        final(grads)@ == old(grads)@.remove(id.0),
        final(grads).wf(),
        match r {
            Ok(grad) => grad.wf() && grad@ == grad_or_zeros(old(grads)@, id, like@.dims),
            Err(e) => D::kind(e) == ErrorKind::Device,
        },
{
    match grads.remove(id) {
        Some(grad) => {
            assert(old(grads)@[id.0].wf());
            Ok(grad)
        },
        None => device.try_alloc_grad(like),
    }
}

/// Whether the gradient kept for `id`, if any, has the shape `shape`.
fn entry_has_shape<E>(grads: &Gradients<E>, id: UniqueId, shape: &Shape) -> (r: bool)
    ensures
        r == (grads@.contains_key(id.0) ==> grads@[id.0].dims == shape@),
{
    match grads.lookup(id) {
        Some(grad) => grad.shape.same_as(shape),
        None => true,
    }
}

impl OpRecord {
    /// Runs the backward step of the recorded operation on `grads`. Gradients whose shape is
    /// not that of the operation are refused.
    pub fn backward<E: Dtype, D: ChooseKernel<E>>(&self, device: &D, grads: Gradients<E>) -> (r:
        Result<Gradients<E>, OpError<D::Err>>)
        requires
            self.wf(),
            grads.wf(),
        ensures
            match r {
                Ok(after) => self@.fits(grads@) && after.wf() && after@ == self@.step(grads@),
                Err(OpError::ShapeMismatch) => !self@.fits(grads@),
                Err(OpError::Device(e)) => self@.fits(grads@) && D::kind(e) == ErrorKind::Device,
                Err(OpError::Tape(_)) => false,
            },
    {
        let mut grads = grads;
        let ghost before = grads@;
        match self {
            OpRecord::Choose { cond, lhs, rhs, out } => {
                let grad_out: NdArray<E> = match grads.lookup(*out) {
                    Some(grad) => grad.duplicate(),
                    None => {
                        return Ok(grads);
                    },
                };
                assert(before[out.0].wf());
                if !grad_out.shape.same_as(&cond.shape) || !entry_has_shape(
                    &grads,
                    *lhs,
                    &cond.shape,
                ) || !entry_has_shape(&grads, *rhs, &cond.shape) {
                    return Err(OpError::ShapeMismatch);
                }
                if lhs.0 == rhs.0 {
                    let mut acc = match take_or_zeros(device, &mut grads, *lhs, &grad_out) {
                        Ok(grad) => grad,
                        Err(e) => {
                            return Err(OpError::Device(e));
                        },
                    };
                    let mut unused_rhs = match device.try_alloc_grad(&grad_out) {
                        Ok(grad) => grad,
                        Err(e) => {
                            return Err(OpError::Device(e));
                        },
                    };
                    match device.backward(cond, &mut acc, &mut unused_rhs, &grad_out) {
                        Ok(_) => {},
                        Err(e) => {
                            return Err(OpError::Device(e));
                        },
                    }
                    let mut unused_lhs = match device.try_alloc_grad(&grad_out) {
                        Ok(grad) => grad,
                        Err(e) => {
                            return Err(OpError::Device(e));
                        },
                    };
                    match device.backward(cond, &mut unused_lhs, &mut acc, &grad_out) {
                        Ok(_) => {},
                        Err(e) => {
                            return Err(OpError::Device(e));
                        },
                    }
                    grads.insert(*lhs, acc);
                    assert(grads@ =~= self@.step(before));
                } else {
                    let mut grad_lhs = match take_or_zeros(device, &mut grads, *lhs, &grad_out) {
                        Ok(grad) => grad,
                        Err(e) => {
                            return Err(OpError::Device(e));
                        },
                    };
                    let mut grad_rhs = match take_or_zeros(device, &mut grads, *rhs, &grad_out) {
                        Ok(grad) => grad,
                        Err(e) => {
                            return Err(OpError::Device(e));
                        },
                    };
                    match device.backward(cond, &mut grad_lhs, &mut grad_rhs, &grad_out) {
                        Ok(_) => {},
                        Err(e) => {
                            return Err(OpError::Device(e));
                        },
                    }
                    grads.insert(*lhs, grad_lhs);
                    grads.insert(*rhs, grad_rhs);
                    assert(grads@ =~= self@.step(before));
                }
                Ok(grads)
            },
        }
    }
}

} // verus!
