//! The gradient tape: the log of recorded operations, which runs backward once.

use vstd::prelude::*;
use crate::dtypes::Dtype;
use crate::gradients::{backward_fits, run_backward, Gradients, OpError};
use crate::tensor::ndarray::{ArrayView, NdArray};
use crate::tensor::storage_traits::ErrorKind;
use crate::tensor_ops::select::ChooseKernel;
use crate::unique_id::UniqueId;

verus! {

/// What went wrong with a tape.
#[derive(Clone, Copy, Debug, PartialEq, Eq, Structural)]
pub enum TapeError {
    /// A backward pass was asked of a tensor that carries no tape.
    Missing,
    /// The tape was drained before: a tape runs backward once.
    Drained,
    /// Two tensors that each carry a tape of their own met in one operation.
    DistinctTapes,
}

/// What a recorded operation is, to a specification.
pub enum OpView {
    /// A selection between `lhs` and `rhs` by `cond`, with result `out`.
    Choose { cond: ArrayView<bool>, lhs: UniqueId, rhs: UniqueId, out: UniqueId },
}

/// One recorded operation: what its backward step needs.
#[derive(Debug)]
pub enum OpRecord {
    /// A selection between the tensors `lhs` and `rhs` by `cond`, with result `out`.
    Choose { cond: NdArray<bool>, lhs: UniqueId, rhs: UniqueId, out: UniqueId },
}

impl View for OpRecord {
    type V = OpView;

    open spec fn view(&self) -> OpView {
        match *self {
            OpRecord::Choose { cond, lhs, rhs, out } => OpView::Choose { cond: cond@, lhs, rhs, out },
        }
    }
}

impl OpRecord {
    /// A record is well formed when the buffers that it keeps are.
    pub open spec fn wf(&self) -> bool {
        match *self {
            OpRecord::Choose { cond, lhs, rhs, out } => cond.wf(),
        }
    }
}

/// The views of a run of records.
pub open spec fn op_views(ops: Seq<OpRecord>) -> Seq<OpView> {
    ops.map_values(|op: OpRecord| op@)
}

/// Where a tape stands in its life.
#[derive(Clone, Copy, Debug, PartialEq, Eq, Structural)]
pub enum TapeState {
    /// Nothing was recorded yet.
    Empty,
    /// Operations were recorded, and more can be.
    Recording,
    /// The tape has run backward. It records and runs no more.
    Drained,
}

/// What can be asked of a tape.
#[derive(Clone, Copy, Debug, PartialEq, Eq, Structural)]
pub enum TapeEvent {
    /// To record one more operation.
    Record,
    /// To give up its records for the backward pass.
    Drain,
}

/// The state that a tape in `state` goes to on `event`, or `None` where it refuses the event.
/// A tape is empty, then recording, then drained, and a drained tape refuses everything.
pub open spec fn transition(state: TapeState, event: TapeEvent) -> Option<TapeState> {
    match state {
        TapeState::Drained => None,
        _ => match event {
            TapeEvent::Record => Some(TapeState::Recording),
            TapeEvent::Drain => Some(TapeState::Drained),
        },
    }
}

/// A tape drains once: after it has been drained, it refuses to be drained again, and to record.
pub proof fn lemma_tape_drains_once(state: TapeState, next: TapeEvent)
    requires
        transition(state, TapeEvent::Drain) is Some,
    ensures
        transition(transition(state, TapeEvent::Drain).unwrap(), next) is None,
{
}

/// A tape only grows while it records: no event leads back to the empty state, and none out of
/// the drained one.
pub proof fn lemma_tape_never_goes_back(state: TapeState, event: TapeEvent)
    ensures
        transition(state, event) != Some(TapeState::Empty),
        state == TapeState::Drained ==> transition(state, event) is None,
{
}

/// A tape that records the operations of one computation, in the order in which they ran.
#[derive(Debug)]
pub struct OwnedTape {
    ops: Vec<OpRecord>,
    drained: bool,
}

impl View for OwnedTape {
    type V = Seq<OpView>;

    /// The recorded operations, the first recorded first.
    open spec fn view(&self) -> Seq<OpView> {
        op_views(self.records())
    }
}

impl Default for OwnedTape {
    /// A tape on which nothing is recorded.
    fn default() -> (tape: OwnedTape)
        ensures
            tape.wf(),
            tape.state_spec() == TapeState::Empty,
            tape@ == Seq::<OpView>::empty(),
    {
        OwnedTape::new()
    }
}

impl OwnedTape {
    /// The records held, the first recorded first.
    pub closed spec fn records(&self) -> Seq<OpRecord> {
        self.ops@
    }

    /// Whether the tape has run backward.
    pub closed spec fn is_drained(&self) -> bool {
        self.drained
    }

    /// Where the tape stands in its life.
    pub open spec fn state_spec(&self) -> TapeState {
        if self.is_drained() {
            TapeState::Drained
        } else if self.records().len() == 0 {
            TapeState::Empty
        } else {
            TapeState::Recording
        }
    }

    /// A tape is well formed when its records are, and when it holds none once drained.
    pub open spec fn wf(&self) -> bool {
        &&& forall|i: int| 0 <= i < self.records().len() ==> (#[trigger] self.records()[i]).wf()
        &&& self.is_drained() ==> self.records().len() == 0
    }

    /// A tape on which nothing is recorded.
    pub fn new() -> (tape: OwnedTape)
        ensures
            tape.wf(),
            tape.state_spec() == TapeState::Empty,
            tape@ == Seq::<OpView>::empty(),
    {
        let tape = OwnedTape { ops: Vec::new(), drained: false };
        assert(tape@ =~= Seq::<OpView>::empty());
        tape
    }

    /// Where the tape stands in its life.
    pub fn state(&self) -> (s: TapeState)
        ensures
            s == self.state_spec(),
    {
        if self.drained {
            TapeState::Drained
        } else if self.ops.len() == 0 {
            TapeState::Empty
        } else {
            TapeState::Recording
        }
    }

    /// Whether the tape has run backward.
    pub fn is_spent(&self) -> (r: bool)
        ensures
            r == self.is_drained(),
    {
        self.drained
    }

    /// The number of operations recorded.
    pub fn len(&self) -> (n: usize)
        ensures
            n == self@.len(),
    {
        self.ops.len()
    }

    /// Records an operation behind those recorded before. A drained tape takes none.
    pub fn add_backward_op(&mut self, op: OpRecord) -> (r: Result<(), TapeError>)
        requires
            old(self).wf(),
            op.wf(),
        ensures
            final(self).wf(),
            match r {
                Ok(_) => {
                    &&& Some(final(self).state_spec()) == transition(
                        old(self).state_spec(),
                        TapeEvent::Record,
                    )
                    &&& final(self).records() == old(self).records().push(op)
                    &&& final(self)@ == old(self)@.push(op@)
                },
                Err(e) => {
                    &&& e == TapeError::Drained
                    &&& transition(old(self).state_spec(), TapeEvent::Record) is None
                    &&& *final(self) == *old(self)
                },
            },
    {
        if self.drained {
            return Err(TapeError::Drained);
        }
        self.ops.push(op);
        assert(self@ =~= old(self)@.push(op@));
        Ok(())
    }

    /// Takes the records out of the tape, and leaves it drained. A tape gives its records once:
    /// a second call is refused.
    pub fn drain(&mut self) -> (r: Result<Vec<OpRecord>, TapeError>)
        requires
            old(self).wf(),
        ensures
            final(self).wf(),
            final(self).state_spec() == TapeState::Drained,
            match r {
                Ok(ops) => {
                    &&& transition(old(self).state_spec(), TapeEvent::Drain) is Some
                    &&& ops@ == old(self).records()
                    &&& forall|i: int| 0 <= i < ops@.len() ==> (#[trigger] ops@[i]).wf()
                },
                Err(e) => {
                    &&& e == TapeError::Drained
                    &&& transition(old(self).state_spec(), TapeEvent::Drain) is None
                },
            },
    {
        if self.drained {
            return Err(TapeError::Drained);
        }
        let mut ops: Vec<OpRecord> = Vec::new();
        std::mem::swap(&mut self.ops, &mut ops);
        self.drained = true;
        Ok(ops)
    }

    /// Runs the tape backward from the gradients `seed`: the backward steps of the recorded
    /// operations, from the last recorded to the first. The tape is drained by it, and a
    /// drained tape is refused.
    pub fn execute<E: Dtype, D: ChooseKernel<E>>(&mut self, device: &D, seed: Gradients<E>) -> (r:
        Result<Gradients<E>, OpError<D::Err>>)
        requires
            old(self).wf(),
            seed.wf(),
        ensures
            final(self).wf(),
            final(self).state_spec() == TapeState::Drained,
            match r {
                Ok(grads) => {
                    &&& !old(self).is_drained()
                    &&& backward_fits(old(self)@, seed@)
                    &&& grads.wf()
                    &&& grads@ == run_backward(old(self)@, seed@)
                },
                Err(OpError::Tape(e)) => {
                    &&& e == TapeError::Drained
                    &&& transition(old(self).state_spec(), TapeEvent::Drain) is None
                },
                Err(OpError::ShapeMismatch) => {
                    &&& !old(self).is_drained()
                    &&& !backward_fits(old(self)@, seed@)
                },
                Err(OpError::Device(e)) => {
                    &&& !old(self).is_drained()
                    &&& D::kind(e) == ErrorKind::Device
                },
            },
    {
        let mut ops: Vec<OpRecord> = match self.drain() {
            Ok(ops) => ops,
            Err(e) => {
                return Err(OpError::Tape(e));
            },
        };
        let ghost all = op_views(ops@);
        let mut grads = seed;
        while ops.len() > 0
            invariant
                self.wf(),
                self.state_spec() == TapeState::Drained,
                !old(self).is_drained(),
                all == old(self)@,
                grads.wf(),
                forall|i: int| 0 <= i < ops@.len() ==> (#[trigger] ops@[i]).wf(),
                run_backward(op_views(ops@), grads@) == run_backward(all, seed@),
                backward_fits(op_views(ops@), grads@) == backward_fits(all, seed@),
            decreases ops@.len(),
        {
            let ghost before = ops@;
            let op = ops.pop().unwrap();
            assert(ops@ =~= before.drop_last());
            assert(op_views(ops@) =~= op_views(before).drop_last());
            assert(op_views(before).last() == op@);
            assert(op.wf());
            match op.backward(device, grads) {
                Ok(after) => {
                    grads = after;
                },
                Err(OpError::Device(e)) => {
                    return Err(OpError::Device(e));
                },
                Err(_) => {
                    return Err(OpError::ShapeMismatch);
                },
            }
        }
        Ok(grads)
    }

    /// The tape that the result of an operation carries, given those of its two operands. One
    /// tape goes on to the result; two tapes are two computations, which do not join.
    pub fn merge(lhs: Option<OwnedTape>, rhs: Option<OwnedTape>) -> (r: Result<
        Option<OwnedTape>,
        TapeError,
    >)
        ensures
            match r {
                Ok(tape) => !(lhs is Some && rhs is Some) && tape == if lhs is Some {
                    lhs
                } else {
                    rhs
                },
                Err(e) => e == TapeError::DistinctTapes && lhs is Some && rhs is Some,
            },
    {
        match lhs {
            Some(tape) => match rhs {
                Some(_) => Err(TapeError::DistinctTapes),
                None => Ok(Some(tape)),
            },
            None => Ok(rhs),
        }
    }
}

} // verus!
