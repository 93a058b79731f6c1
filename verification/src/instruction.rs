use vstd::prelude::*;
use crate::weight::Weight;

verus! {

/// A declared execution budget: either unbounded, or limited to a concrete
/// two-dimensional weight.
#[derive(Clone, Copy, Debug, PartialEq, Eq, Structural)]
pub enum WeightLimit {
    /// The sender accepts whatever the executor is willing to spend.
    Unlimited,
    /// The sender pays for at most this much weight.
    Limited(Weight),
}

/// The instruction shapes the barrier distinguishes. The barrier reads only the
/// variant of the first two instructions and the weight limit of the third;
/// every payload beyond that is irrelevant to the decision, so the variants
/// carry none, and every instruction the barrier never accepts in its prefix is
/// represented by `Other`.
#[derive(Clone, Copy, Debug, PartialEq, Eq, Structural)]
pub enum Instruction {
    /// Narrows the effective origin further down the hierarchy.
    DescendOrigin,
    /// Declares assets to be withdrawn for subsequent use.
    WithdrawAsset,
    /// Declares assets to pay for execution, with the budget the sender is
    /// willing to spend. The barrier may rewrite `weight_limit` in place.
    BuyExecution { weight_limit: WeightLimit },
    /// Any instruction the barrier does not inspect.
    Other,
}

/// The terminal decisions on a message the barrier refuses.
#[derive(Clone, Copy, Debug, PartialEq, Eq, Structural)]
pub enum ProcessMessageError {
    /// The origin fails the authorization predicate: the message is not
    /// acceptable whatever its content.
    Unsupported,
    /// The first three instructions do not have the required shape.
    BadFormat,
    /// The declared budget fails to cover the ceiling in at least one
    /// dimension; carries the ceiling that would have been required.
    Overweight(Weight),
}

} // verus!
