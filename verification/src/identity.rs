//! Identity of a runtime entity: its address, held as an opaque integer.

use vstd::prelude::*;

verus! {

/// Names a node, subscription, service, timer or message by the address at
/// which the middleware keeps it. The entity is not owned and never reached
/// through this value; the address only tags trace events.
///
/// Two values name the same entity exactly when their addresses are equal. An
/// entity that is destroyed and another that later takes its address cannot be
/// told apart.
#[derive(Clone, Copy, Debug, PartialEq, Eq, Structural)]
pub struct TracingId {
    address: usize,
}

impl View for TracingId {
    type V = usize;

    /// The entity's address.
    closed spec fn view(&self) -> usize {
        self.address
    }
}

impl TracingId {
    /// The identity of the entity at `address`.
    pub fn new(address: usize) -> (id: Self)
        ensures
            id@ == address,
    {
        TracingId { address }
    }

    /// The address, as trace events carry it.
    pub fn address(&self) -> (address: usize)
        ensures
            address == self@,
    {
        self.address
    }

    /// Whether `self` and `other` name the same entity.
    pub fn same_entity(&self, other: &TracingId) -> (same: bool)
        ensures
            same == (self@ == other@),
    {
        self.address == other.address
    }

    /// Identity is the address and nothing else: two values are equal exactly
    /// when their addresses are.
    pub proof fn lemma_identity_is_address(self, other: TracingId)
        ensures
            (self == other) <==> (self@ == other@),
    {
    }
}

} // verus!
