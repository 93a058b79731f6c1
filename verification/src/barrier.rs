use core::marker::PhantomData;
use vstd::prelude::*;
use crate::instruction::{Instruction, ProcessMessageError, WeightLimit};
use crate::location::Location;
use crate::weight::Weight;

verus! {

/// The externally configured membership test the barrier consults: the
/// allow-set over origin identifiers is injected as a type implementing
/// this trait, as the host system's configuration chooses. How the set is
/// populated is the implementer's affair; the barrier only asks whether a
/// given value is in it.
pub trait Contains<T> {
    /// Which values the implementation allows.
    spec fn spec_contains(t: &T) -> bool;

    /// Decides membership, exactly as `spec_contains` says.
    fn contains(t: &T) -> (r: bool)
        ensures
            r == Self::spec_contains(t);
}

/// The accepted message shape: at least three instructions, opening with
/// exactly `DescendOrigin`, then `WithdrawAsset`, then `BuyExecution`.
pub open spec fn prefix_ok(m: Seq<Instruction>) -> bool {
    &&& m.len() >= 3
    &&& m[0] is DescendOrigin
    &&& m[1] is WithdrawAsset
    &&& m[2] is BuyExecution
}

/// The budget the third instruction declares.
pub open spec fn declared_limit(m: Seq<Instruction>) -> WeightLimit
    recommends
        prefix_ok(m),
{
    m[2]->weight_limit
}

/// The message after a successful pass: the third instruction's budget is
/// replaced by exactly the ceiling, and nothing else changes.
pub open spec fn clamped(m: Seq<Instruction>, max: Weight) -> Seq<Instruction> {
    m.update(2, Instruction::BuyExecution { weight_limit: WeightLimit::Limited(max) })
}

/// Re-running the check is idempotent: on a message whose third instruction
/// already declares exactly the ceiling as its `Limited` budget — the state
/// every successful run leaves behind — the reconciler takes its success
/// branch again (the declared budget covers the ceiling), and the rewrite it
/// performs is the identity. Together with the contract of
/// `AllowTopLevelPaidExecutionDescendOriginFirst::should_execute`, a second
/// run with the same authorized origin and the same ceiling succeeds and
/// leaves the message unchanged.
pub proof fn lemma_clamp_idempotent(m: Seq<Instruction>, max: Weight)
    requires
        prefix_ok(m),
        m[2] == (Instruction::BuyExecution { weight_limit: WeightLimit::Limited(max) }),
    ensures
        declared_limit(m) matches WeightLimit::Limited(w) && w.spec_all_gte(max),
        clamped(m, max) == m,
{
    assert(clamped(m, max) =~= m);
}

/// Barrier allowing a top-level paid message that narrows its origin first:
/// the origin must be in the allow-set `T`, and the message must open with
/// `DescendOrigin`, `WithdrawAsset`, `BuyExecution`, in that order. On
/// success the third instruction's budget is rewritten to exactly the
/// caller's ceiling.
pub struct AllowTopLevelPaidExecutionDescendOriginFirst<T>(pub PhantomData<T>);

impl<T: Contains<Location>> AllowTopLevelPaidExecutionDescendOriginFirst<T> {
    /// Decides whether the message may be executed on behalf of `origin`
    /// under the ceiling `max_weight`, and on success normalizes the budget
    /// declared by the message's third instruction.
    ///
    /// The three stages run in order and stop at the first failure:
    /// an unauthorized origin is `Unsupported` whatever the message holds;
    /// an authorized origin with a malformed three-instruction prefix is
    /// `BadFormat`; a conformant message succeeds with its budget rewritten
    /// to exactly the ceiling when the declared budget is `Unlimited` or a
    /// `Limited` budget covering the ceiling in both dimensions, and is
    /// `Overweight` (carrying the ceiling), with the message untouched,
    /// when the declared budget falls short in at least one dimension.
    /// `weight_credit` is part of the interface but this policy never draws
    /// on it.
    pub fn should_execute(
        origin: &Location,
        message: &mut Vec<Instruction>,
        max_weight: Weight,
        weight_credit: &mut Weight,
    ) -> (r: Result<(), ProcessMessageError>)
        ensures
            *final(weight_credit) == *old(weight_credit),
            !T::spec_contains(origin) ==> r == Err::<(), ProcessMessageError>(
                ProcessMessageError::Unsupported,
            ) && final(message)@ == old(message)@,
            T::spec_contains(origin) && !prefix_ok(old(message)@) ==> r == Err::<(),
                ProcessMessageError,
            >(ProcessMessageError::BadFormat) && final(message)@ == old(message)@,
            T::spec_contains(origin) && prefix_ok(old(message)@) ==> (declared_limit(
                old(message)@,
            ) matches WeightLimit::Limited(w) ==> (if w.spec_all_gte(max_weight) {
                r is Ok && final(message)@ == clamped(old(message)@, max_weight)
            } else {
                r == Err::<(), ProcessMessageError>(ProcessMessageError::Overweight(max_weight))
                    && final(message)@ == old(message)@
            })),
            T::spec_contains(origin) && prefix_ok(old(message)@) && declared_limit(
                old(message)@,
            ) is Unlimited ==> r is Ok && final(message)@ == clamped(old(message)@, max_weight),
    {
        if !T::contains(origin) {
            return Err(ProcessMessageError::Unsupported);
        }
        if message.len() < 3 {
            return Err(ProcessMessageError::BadFormat);
        }
        let first = message[0];
        if !(matches!(first, Instruction::DescendOrigin)) {
            return Err(ProcessMessageError::BadFormat);
        }
        let second = message[1];
        if !(matches!(second, Instruction::WithdrawAsset)) {
            return Err(ProcessMessageError::BadFormat);
        }
        let third = message[2];
        match third {
            Instruction::BuyExecution { weight_limit: WeightLimit::Limited(declared) } => {
                if declared.all_gte(&max_weight) {
                    message[2] = Instruction::BuyExecution {
                        weight_limit: WeightLimit::Limited(max_weight),
                    };
                    Ok(())
                } else {
                    Err(ProcessMessageError::Overweight(max_weight))
                }
            },
            Instruction::BuyExecution { weight_limit: WeightLimit::Unlimited } => {
                message[2] = Instruction::BuyExecution {
                    weight_limit: WeightLimit::Limited(max_weight),
                };
                Ok(())
            },
            _ => Err(ProcessMessageError::BadFormat),
        }
    }
}

} // verus!
