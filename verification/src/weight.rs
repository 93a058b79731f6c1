use vstd::prelude::*;

verus! {

/// A two-dimensional execution cost: computation time (`ref_time`) and
/// state-proof size (`proof_size`).
///
/// Weights are only partially ordered: one weight covers another exactly
/// when it is at least as large in both dimensions; weights that each
/// exceed the other in one dimension are incomparable.
#[derive(Clone, Copy, Debug, PartialEq, Eq, Structural)]
pub struct Weight {
    pub ref_time: u64,
    pub proof_size: u64,
}

impl Weight {
    /// The partial order on weights: `self` covers `other` when it is at
    /// least as large in both dimensions.
    pub open spec fn spec_all_gte(self, other: Weight) -> bool {
        self.ref_time >= other.ref_time && self.proof_size >= other.proof_size
    }

    /// Builds a weight from its two components.
    pub fn from_parts(ref_time: u64, proof_size: u64) -> (w: Weight)
        ensures
            w == (Weight { ref_time, proof_size }),
    {
        Weight { ref_time, proof_size }
    }

    /// The time-cost component.
    pub fn ref_time(&self) -> (t: u64)
        ensures
            t == self.ref_time,
    {
        self.ref_time
    }

    /// The proof-size component.
    pub fn proof_size(&self) -> (p: u64)
        ensures
            p == self.proof_size,
    {
        self.proof_size
    }

    /// Decides the componentwise partial order: true exactly when `self`
    /// covers `other` in both dimensions.
    pub fn all_gte(&self, other: &Weight) -> (r: bool)
        ensures
            r == self.spec_all_gte(*other),
    {
        self.ref_time >= other.ref_time && self.proof_size >= other.proof_size
    }
}

} // verus!
