//! Tensor identities.

use vstd::prelude::*;

verus! {

/// The identity of a tensor: the key under which its gradient is kept.
#[derive(Clone, Copy, Debug, PartialEq, Eq, Hash, Structural)]
pub struct UniqueId(pub u64);

/// Something that has an identity.
pub trait HasUniqueId {
    /// The identity carried.
    spec fn id_spec(&self) -> UniqueId;

    fn id(&self) -> (id: UniqueId)
        ensures
            id == self.id_spec(),
    ;
}

/// Hands out identities in increasing order, each one once.
#[derive(Debug)]
pub struct IdCounter {
    next: u64,
}

impl View for IdCounter {
    type V = nat;

    /// The number of identities handed out so far.
    closed spec fn view(&self) -> nat {
        self.next as nat
    }
}

impl Default for IdCounter {
    /// A counter that has handed out nothing yet.
    fn default() -> (ids: IdCounter)
        ensures
            ids@ == 0,
    {
        IdCounter::new()
    }
}

impl IdCounter {
    /// Whether `id` was handed out by this counter.
    pub open spec fn issued(&self, id: UniqueId) -> bool {
        (id.0 as nat) < self@
    }

    /// Whether another identity can be handed out.
    pub open spec fn has_next(&self) -> bool {
        self@ < u64::MAX
    }

    /// A counter that has handed out nothing yet.
    pub fn new() -> (ids: IdCounter)
        ensures
            ids@ == 0,
    {
        IdCounter { next: 0 }
    }

    /// Whether another identity can be handed out.
    pub fn can_issue(&self) -> (r: bool)
        ensures
            r == self.has_next(),
    {
        self.next < u64::MAX
    }

    /// The number of identities that can still be handed out.
    pub fn remaining(&self) -> (n: u64)
        ensures
            n == u64::MAX - self@,
    {
        u64::MAX - self.next
    }

    /// Hands out the next identity.
    pub fn unique_id(&mut self) -> (id: UniqueId)
        requires
            old(self).has_next(),
        ensures
            id.0 as nat == old(self)@,
            final(self)@ == old(self)@ + 1,
            !old(self).issued(id),
            final(self).issued(id),
    {
        let id = UniqueId(self.next);
        self.next = self.next + 1;
        id
    }
}

/// Identities come out in strictly increasing order, so no two of them are equal:
/// one handed out after a given state of the counter differs from every one issued before.
pub proof fn lemma_identities_are_unique(before: IdCounter, earlier: UniqueId, later: UniqueId)
    requires
        before.issued(earlier),
        later.0 as nat >= before@,
    ensures
        earlier != later,
{
}

} // verus!
