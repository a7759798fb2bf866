//! Laws of attaching context, stated over [`attached`].
use crate::attached;
use vstd::prelude::*;

verus! {

/// A success passes through: whatever the context, attaching it to `Ok(value)`
/// gives `Ok(value)`, so the context cannot be seen in the result.
pub proof fn lemma_success_passes_through<T, E, W>(value: T, context: W)
    ensures
        attached(Ok::<T, E>(value), context) == Ok::<T, (E, W)>(value),
{
}

/// A failure is paired with its context: attaching `context` to `Err(error)`
/// gives `Err((error, context))`, the failure first and the context second,
/// each exactly as given.
pub proof fn lemma_failure_is_paired<T, E, W>(error: E, context: W)
    ensures
        attached(Err::<T, E>(error), context) == Err::<T, (E, W)>((error, context)),
        attached(Err::<T, E>(error), context)->Err_0.0 == error,
        attached(Err::<T, E>(error), context)->Err_0.1 == context,
{
}

/// Contexts nest: attaching `first` and then `second` to a failure `error`
/// gives `Err(((error, first), second))`. The two contexts are neither merged
/// nor swapped.
pub proof fn lemma_contexts_nest<T, E, W1, W2>(error: E, first: W1, second: W2)
    ensures
        attached(attached(Err::<T, E>(error), first), second) == Err::<T, ((E, W1), W2)>(
            ((error, first), second),
        ),
{
}

/// Attaching a context adds no failure and hides none: the result is a failure
/// exactly where the outcome was one.
pub proof fn lemma_fails_only_where_outcome_failed<T, E, W>(outcome: Result<T, E>, context: W)
    ensures
        attached(outcome, context) is Err <==> outcome is Err,
        attached(outcome, context) is Ok <==> outcome is Ok,
{
}

/// Nothing is lost: two results of attaching a context are equal only where
/// the outcomes were equal, and, for failures, the contexts too.
pub proof fn lemma_nothing_is_lost<T, E, W>(
    outcome: Result<T, E>,
    context: W,
    other_outcome: Result<T, E>,
    other_context: W,
)
    requires
        attached(outcome, context) == attached(other_outcome, other_context),
    ensures
        outcome == other_outcome,
        outcome is Err ==> context == other_context,
{
}

} // verus!
