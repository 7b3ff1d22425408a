//! Inclusive address ranges on the 32-bit bus, shared by the region
//! configurator, the world-switch controller and the call gate.

use vstd::prelude::*;

verus! {

/// An inclusive address range `[base, limit]`.
#[derive(Clone, Copy, PartialEq, Eq, Structural, Debug)]
pub struct AddrRange {
    pub base: u32,
    pub limit: u32,
}

impl AddrRange {
    /// A range is well formed when it is non-empty: `base <= limit`.
    pub open spec fn wf(self) -> bool {
        self.base <= self.limit
    }

    /// Whether the single address `a` lies inside the range.
    pub open spec fn spec_contains(self, a: u32) -> bool {
        self.base <= a && a <= self.limit
    }

    /// Whether the whole span `[base, limit]` lies inside the range.
    pub open spec fn spec_contains_span(self, base: u32, limit: u32) -> bool {
        self.base <= base && limit <= self.limit
    }

    pub fn new(base: u32, limit: u32) -> (r: Option<AddrRange>)
        ensures
            r is Some <==> base <= limit,
            r matches Some(w) ==> w == (AddrRange { base, limit }),
    {
        if base <= limit {
            Some(AddrRange { base, limit })
        } else {
            None
        }
    }

    pub fn contains(&self, a: u32) -> (r: bool)
        ensures
            r == self.spec_contains(a),
    {
        self.base <= a && a <= self.limit
    }

    pub fn contains_span(&self, base: u32, limit: u32) -> (r: bool)
        ensures
            r == self.spec_contains_span(base, limit),
    {
        self.base <= base && limit <= self.limit
    }
}

} // verus!
