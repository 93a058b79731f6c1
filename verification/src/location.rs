use vstd::prelude::*;

verus! {

/// A hierarchical origin identifier: the sender's position in the network's
/// addressing scheme, relative to the local system. `parents` counts how many
/// levels to ascend; `interior` lists the junction identifiers to descend
/// through afterwards. The barrier never reads the path itself: it only hands
/// the whole value to the configured authorization predicate.
#[derive(Clone, Debug, PartialEq, Eq)]
pub struct Location {
    pub parents: u8,
    pub interior: Vec<u64>,
}

impl Location {
    /// Builds a location from its ascent count and descent path.
    pub fn new(parents: u8, interior: Vec<u64>) -> (l: Location)
        ensures
            l == (Location { parents, interior }),
    {
        Location { parents, interior }
    }
}

} // verus!
