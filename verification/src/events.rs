//! Contact-begin events as the physics step reports them: unordered pairs of
//! entity handles. The physics layer guarantees no canonical order, so every
//! consumer must test both orderings; the helpers here do that once, and the
//! proof that classification cannot depend on the order is stated against
//! them.
use vstd::prelude::*;

verus! {

/// A contact-begin event: two entities started touching this tick. The pair
/// carries no order.
#[derive(Clone, Copy, PartialEq, Eq, Structural, Debug)]
pub struct ContactPair {
    pub a: u64,
    pub b: u64,
}

/// Whether the pair touches the given entity.
pub open spec fn spec_involves(p: ContactPair, id: u64) -> bool {
    p.a == id || p.b == id
}

/// Whether the pair links the two given entities, in either order.
pub open spec fn spec_links(p: ContactPair, x: u64, y: u64) -> bool {
    (p.a == x && p.b == y) || (p.a == y && p.b == x)
}

/// The same contact with its handles swapped.
pub open spec fn spec_swapped(p: ContactPair) -> ContactPair {
    ContactPair { a: p.b, b: p.a }
}

impl ContactPair {
    pub fn involves(&self, id: u64) -> (r: bool)
        ensures
            r == spec_involves(*self, id),
    {
        self.a == id || self.b == id
    }

    pub fn links(&self, x: u64, y: u64) -> (r: bool)
        ensures
            r == spec_links(*self, x, y),
    {
        (self.a == x && self.b == y) || (self.a == y && self.b == x)
    }
}

/// Both matching tests read a contact as an unordered pair: swapping the
/// handles changes neither which entities a pair involves nor which pairs of
/// entities it links, and linking is symmetric in its two entities.
pub proof fn lemma_matching_order_independent(p: ContactPair, x: u64, y: u64)
    ensures
        spec_involves(spec_swapped(p), x) == spec_involves(p, x),
        spec_links(spec_swapped(p), x, y) == spec_links(p, x, y),
        spec_links(p, x, y) == spec_links(p, y, x),
{
}

} // verus!
