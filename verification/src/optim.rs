//! What the library asks of an optimizer: how parameters are handed to it, and how the
//! parameters that received no gradient are told apart.

use vstd::prelude::*;
use crate::dtypes::Dtype;
use crate::gradients::Gradients;
use crate::tensor::ndarray::ArrayView;
use crate::tensor::storage_traits::{DeviceStorage, ErrorKind};
use crate::tensor::tensor_impl::Tensor;
use crate::unique_id::UniqueId;

verus! {

/// The identities of the parameters that an update found no gradient for, in the order in
/// which the update came to them.
#[derive(Debug)]
pub struct UnusedTensors {
    pub ids: Vec<UniqueId>,
}

impl View for UnusedTensors {
    type V = Seq<UniqueId>;

    open spec fn view(&self) -> Seq<UniqueId> {
        self.ids@
    }
}

impl Default for UnusedTensors {
    /// No parameter reported yet.
    fn default() -> (unused: UnusedTensors)
        ensures
            unused@ == Seq::<UniqueId>::empty(),
    {
        UnusedTensors::new()
    }
}

impl UnusedTensors {
    /// No parameter reported yet.
    pub fn new() -> (unused: UnusedTensors)
        ensures
            unused@ == Seq::<UniqueId>::empty(),
    {
        UnusedTensors { ids: Vec::new() }
    }

    /// Reports `t` as a parameter without gradient.
    pub fn add<E, D>(&mut self, t: &Tensor<E, D>)
        ensures
            final(self)@ == old(self)@.push(t.id),
    {
        self.ids.push(t.id);
    }

    /// Whether every parameter had a gradient.
    pub fn is_empty(&self) -> (r: bool)
        ensures
            r == (self@.len() == 0),
    {
        self.ids.len() == 0
    }

    /// The number of parameters reported.
    pub fn len(&self) -> (n: usize)
        ensures
            n == self@.len(),
    {
        self.ids.len()
    }
}

/// The report after an update has come to `param`: `param` is added where no gradient is
/// kept for it.
pub open spec fn report_unused(unused: Seq<UniqueId>, param: UniqueId, with_gradient: Set<u64>) -> Seq<
    UniqueId,
> {
    if with_gradient.contains(param.0) {
        unused
    } else {
        unused.push(param)
    }
}

/// The report after an update has come to each of `params` in turn. The update uses up the
/// gradient of a parameter, so that a parameter that comes twice has none the second time.
pub open spec fn unused_after(params: Seq<UniqueId>, with_gradient: Set<u64>, unused: Seq<UniqueId>) -> Seq<
    UniqueId,
>
    decreases params.len(),
{
    if params.len() == 0 {
        unused
    } else {
        unused_after(
            params.drop_first(),
            with_gradient.remove(params.first().0),
            report_unused(unused, params.first(), with_gradient),
        )
    }
}

/// The gradients that are left after an update has come to each of `params`.
pub open spec fn gradients_after(params: Seq<UniqueId>, with_gradient: Set<u64>) -> Set<u64>
    decreases params.len(),
{
    if params.len() == 0 {
        with_gradient
    } else {
        gradients_after(params.drop_first(), with_gradient.remove(params.first().0))
    }
}

/// An update reports exactly the parameters that had no gradient: after it has come to
/// parameters that are all different, an identity is in the report if and only if it was
/// there before or is a parameter for which no gradient was kept.
pub proof fn lemma_unused_are_those_without_gradient(
    params: Seq<UniqueId>,
    with_gradient: Set<u64>,
    unused: Seq<UniqueId>,
    id: UniqueId,
)
    requires
        params.no_duplicates(),
    ensures
        unused_after(params, with_gradient, unused).contains(id) <==> unused.contains(id) || (
        params.contains(id) && !with_gradient.contains(id.0)),
    decreases params.len(),
{
    if params.len() > 0 {
        let first = params.first();
        let rest = params.drop_first();
        let reported = report_unused(unused, first, with_gradient);
        assert(rest.no_duplicates());
        lemma_unused_are_those_without_gradient(rest, with_gradient.remove(first.0), reported, id);
        assert(params =~= seq![first] + rest);
        assert(params.contains(id) <==> id == first || rest.contains(id)) by {
            if rest.contains(id) {
                let k = choose|k: int| 0 <= k < rest.len() && rest[k] == id;
                assert(params[k + 1] == id);
            }
            if params.contains(id) && id != first {
                let k = choose|k: int| 0 <= k < params.len() && params[k] == id;
                assert(rest[k - 1] == id);
            }
            if id == first {
                assert(params[0] == id);
            }
        }
        assert(!rest.contains(first)) by {
            if rest.contains(first) {
                let k = choose|k: int| 0 <= k < rest.len() && rest[k] == first;
                assert(params[k + 1] == params[0]);
            }
        }
        assert(reported.contains(id) <==> unused.contains(id) || (id == first
            && !with_gradient.contains(first.0))) by {
            if !with_gradient.contains(first.0) {
                assert(reported.last() == first);
                if unused.contains(id) {
                    let k = choose|k: int| 0 <= k < unused.len() && unused[k] == id;
                    assert(reported[k] == id);
                }
                if reported.contains(id) && id != first {
                    let k = choose|k: int| 0 <= k < reported.len() && reported[k] == id;
                    assert(unused[k] == id);
                }
            }
        }
    }
}

/// A module of two parameters for which a gradient is kept for the first only reports
/// exactly the second; the other way round it reports exactly the first.
pub proof fn lemma_two_params_one_gradient(first: UniqueId, second: UniqueId, with_gradient: Set<u64>)
    requires
        first != second,
    ensures
        with_gradient.contains(first.0) && !with_gradient.contains(second.0) ==> unused_after(
            seq![first, second],
            with_gradient,
            Seq::empty(),
        ) == seq![second],
        !with_gradient.contains(first.0) && with_gradient.contains(second.0) ==> unused_after(
            seq![first, second],
            with_gradient,
            Seq::empty(),
        ) == seq![first],
        !with_gradient.contains(first.0) && !with_gradient.contains(second.0) ==> unused_after(
            seq![first, second],
            with_gradient,
            Seq::empty(),
        ) == seq![first, second],
        with_gradient.contains(first.0) && with_gradient.contains(second.0) ==> unused_after(
            seq![first, second],
            with_gradient,
            Seq::empty(),
        ) == Seq::<UniqueId>::empty(),
{
    let params = seq![first, second];
    let rest = params.drop_first();
    assert(rest =~= seq![second]);
    assert(rest.drop_first() =~= Seq::<UniqueId>::empty());
    assert(rest.first() == second);
    let start = Seq::<UniqueId>::empty();
    let reported = report_unused(start, first, with_gradient);
    let left = with_gradient.remove(first.0);
    assert(unused_after(rest, left, reported) == report_unused(reported, second, left)) by {
        assert(unused_after(rest.drop_first(), left.remove(second.0), report_unused(reported, second, left))
            == report_unused(reported, second, left));
    }
    assert(unused_after(params, with_gradient, start) == report_unused(reported, second, left));
    assert(start.push(second) =~= seq![second]);
    assert(start.push(first) =~= seq![first]);
    assert(start.push(first).push(second) =~= seq![first, second]);
}

/// Something that updates parameters from the gradients that it keeps, one parameter at a
/// time.
pub trait ParamUpdater<D: DeviceStorage, E: Dtype> {
    /// The identities for which a gradient is kept.
    spec fn with_gradient(&self) -> Set<u64>;

    /// Updates `p` from its gradient and uses the gradient up. Where no gradient is kept
    /// for `p`, `p` is reported in `unused` and stays as it is. The identity and the shape
    /// of `p` never change.
    fn update_param(&mut self, p: &mut Tensor<E, D>, unused: &mut UnusedTensors) -> (r: Result<
        (),
        D::Err,
    >)
        requires
            old(p).wf(),
        ensures
            final(p).wf(),
            final(p).id == old(p).id,
            final(p).storage@.dims == old(p).storage@.dims,
            match r {
                Ok(_) => {
                    &&& final(unused)@ == report_unused(
                        old(unused)@,
                        old(p).id,
                        old(self).with_gradient(),
                    )
                    &&& final(self).with_gradient() == old(self).with_gradient().remove(old(p).id.0)
                    &&& !old(self).with_gradient().contains(old(p).id.0) ==> final(p).storage@ == old(
                        p,
                    ).storage@
                },
                Err(e) => D::kind(e) == ErrorKind::Device,
            },
    ;
}

/// Something whose parameters an updater can update.
pub trait GradientUpdate<D: DeviceStorage, E: Dtype> {
    /// The identities of the parameters, in the order in which an update comes to them.
    spec fn param_ids(&self) -> Seq<UniqueId>;

    /// The shapes of the parameters, in the same order.
    spec fn param_shapes(&self) -> Seq<Seq<usize>>;

    /// Whether the parameters are in a state to be updated.
    spec fn params_wf(&self) -> bool;

    /// Hands each parameter to `updater`, and reports in `unused` those for which it kept
    /// no gradient. The identities and the shapes of the parameters stay. Only the update
    /// of a parameter can fail: without parameters the update always succeeds.
    fn update<U: ParamUpdater<D, E>>(&mut self, updater: &mut U, unused: &mut UnusedTensors) -> (r:
        Result<(), D::Err>)
        requires
            old(self).params_wf(),
        ensures
            final(self).params_wf(),
            final(self).param_ids() == old(self).param_ids(),
            final(self).param_shapes() == old(self).param_shapes(),
            old(self).param_ids().len() == 0 ==> r is Ok,
            match r {
                Ok(_) => {
                    &&& final(unused)@ == unused_after(
                        old(self).param_ids(),
                        old(updater).with_gradient(),
                        old(unused)@,
                    )
                    &&& final(updater).with_gradient() == gradients_after(
                        old(self).param_ids(),
                        old(updater).with_gradient(),
                    )
                },
                Err(e) => D::kind(e) == ErrorKind::Device,
            },
    ;
}

impl<D: DeviceStorage, E: Dtype> GradientUpdate<D, E> for Tensor<E, D> {
    open spec fn param_ids(&self) -> Seq<UniqueId> {
        seq![self.id]
    }

    open spec fn param_shapes(&self) -> Seq<Seq<usize>> {
        seq![self.storage@.dims]
    }

    open spec fn params_wf(&self) -> bool {
        self.wf()
    }

    fn update<U: ParamUpdater<D, E>>(&mut self, updater: &mut U, unused: &mut UnusedTensors) -> (r:
        Result<(), D::Err>) {
        proof {
            lemma_single_param(self.id, updater.with_gradient(), unused@);
        }
        updater.update_param(self, unused)
    }
}

/// What an update of a single parameter reports and leaves.
pub proof fn lemma_single_param(param: UniqueId, with_gradient: Set<u64>, unused: Seq<UniqueId>)
    ensures
        unused_after(seq![param], with_gradient, unused) == report_unused(unused, param, with_gradient),
        gradients_after(seq![param], with_gradient) == with_gradient.remove(param.0),
{
    let params = seq![param];
    assert(params.drop_first() =~= Seq::<UniqueId>::empty());
    assert(params.first() == param);
    assert(unused_after(
        params.drop_first(),
        with_gradient.remove(param.0),
        report_unused(unused, param, with_gradient),
    ) == report_unused(unused, param, with_gradient));
    assert(gradients_after(params.drop_first(), with_gradient.remove(param.0))
        == with_gradient.remove(param.0));
}

/// What an update of the parameters `front + back` reports and leaves: the same as an
/// update of `front` followed by one of `back`.
pub proof fn lemma_update_in_turn(
    front: Seq<UniqueId>,
    back: Seq<UniqueId>,
    with_gradient: Set<u64>,
    unused: Seq<UniqueId>,
)
    ensures
        unused_after(front + back, with_gradient, unused) == unused_after(
            back,
            gradients_after(front, with_gradient),
            unused_after(front, with_gradient, unused),
        ),
        gradients_after(front + back, with_gradient) == gradients_after(
            back,
            gradients_after(front, with_gradient),
        ),
    decreases front.len(),
{
    if front.len() == 0 {
        assert(front + back =~= back);
    } else {
        let all = front + back;
        assert(all.first() == front.first());
        assert(all.drop_first() =~= front.drop_first() + back);
        lemma_update_in_turn(
            front.drop_first(),
            back,
            with_gradient.remove(front.first().0),
            report_unused(unused, front.first(), with_gradient),
        );
    }
}

/// An updater that only uses the gradients up: it leaves the parameters as they are and
/// reports those without gradient.
pub struct SimpleUpdater<E>(pub Gradients<E>);

impl<E> Default for SimpleUpdater<E> {
    /// An updater that keeps no gradient.
    fn default() -> (updater: SimpleUpdater<E>)
        ensures
            updater.0@ == Map::<u64, ArrayView<E>>::empty(),
    {
        SimpleUpdater(Gradients::new())
    }
}

impl<D: DeviceStorage, E: Dtype> ParamUpdater<D, E> for SimpleUpdater<E> {
    open spec fn with_gradient(&self) -> Set<u64> {
        self.0@.dom()
    }

    fn update_param(&mut self, p: &mut Tensor<E, D>, unused: &mut UnusedTensors) -> (r: Result<
        (),
        D::Err,
    >)
        ensures
            r is Ok,
            *final(p) == *old(p),
    {
        let found = self.0.remove(p.id);
        if found.is_none() {
            unused.add(p);
        }
        assert(self.0@.dom() =~= old(self).0@.dom().remove(p.id.0));
        Ok(())
    }
}

} // verus!
