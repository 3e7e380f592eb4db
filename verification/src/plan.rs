//! Plans: lists of steps of which each has to succeed before the next is taken.

use vstd::prelude::*;

verus! {

/// How a plan goes on.
#[derive(Debug, PartialEq, Eq)]
pub enum PlanNext<T, E> {
    /// Take this step.
    Take(T),
    /// All steps were taken, and all succeeded.
    Done,
    /// The error of the last step is that of the plan.
    Fail(E),
}

/// The steps that are left after the last one came out so, and what follows.
pub open spec fn plan_after<T, E>(left: Seq<T>, outcome: Result<(), E>) -> (
    Seq<T>,
    PlanNext<T, E>,
) {
    match outcome {
        Err(e) => (left, PlanNext::Fail(e)),
        Ok(_) => if left.len() == 0 {
            (left, PlanNext::Done)
        } else {
            (left.skip(1), PlanNext::Take(left[0]))
        },
    }
}

/// What follows the last step of a plan, from its outcome and the steps that are
/// left; what follows is no longer among them. A plan starts as if a step had
/// succeeded.
pub fn next_step<T, E>(left: &mut Vec<T>, outcome: Result<(), E>) -> (r: PlanNext<T, E>)
    ensures
        (final(left)@, r) == plan_after(old(left)@, outcome),
{
    match outcome {
        Err(e) => PlanNext::Fail(e),
        Ok(()) => if left.len() == 0 {
            PlanNext::Done
        } else {
            let ghost all = left@;
            let step = left.remove(0);
            assert(left@ == all.skip(1));
            PlanNext::Take(step)
        },
    }
}

/// While its steps succeed a plan takes each of them once, in order, and it is
/// done after the last.
pub proof fn law_plans_are_taken_in_order<T, E>(steps: Seq<T>, taken: int)
    requires
        0 <= taken <= steps.len(),
    ensures
        plan_after(steps.skip(taken), Ok::<(), E>(())) == if taken < steps.len() {
            (steps.skip(taken + 1), PlanNext::<T, E>::Take(steps[taken]))
        } else {
            (Seq::<T>::empty(), PlanNext::<T, E>::Done)
        },
{
    assert(steps.skip(taken).len() == steps.len() - taken);
    if taken < steps.len() {
        assert(steps.skip(taken).skip(1) =~= steps.skip(taken + 1));
    } else {
        assert(steps.skip(taken) =~= Seq::<T>::empty());
    }
}

/// A step that fails ends its plan with its error: no step is taken after it.
pub proof fn law_plans_stop_at_the_first_failure<T, E>(left: Seq<T>, e: E)
    ensures
        plan_after(left, Err::<(), E>(e)) == (left, PlanNext::<T, E>::Fail(e)),
{
}

} // verus!
