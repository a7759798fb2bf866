//! Attaching context to failures at the call site.
//!
//! The crate provides one trait, [`ErrWith`], with one method, `err_with`.
//! It is implemented for `Result<T, E>`: `result.err_with(w)` turns an
//! `Err(e)` into `Err((e, w))` and leaves an `Ok(..)` as it is.
//!
//! The pair is meant to be converted further. A caller that defines a
//! conversion from `(E, W)` into an error type of its own can record where a
//! failure happened and report it later:
//! `read(path).err_with(path)?` hands the failure and the path to that
//! conversion in one step.
use vstd::prelude::*;

pub mod laws;

verus! {

/// What attaching `context` to `outcome` gives: a success stays the success it
/// was, and a failure becomes the pair of that failure and the context.
pub open spec fn attached<T, E, W>(outcome: Result<T, E>, context: W) -> Result<T, (E, W)> {
    match outcome {
        Ok(value) => Ok(value),
        Err(error) => Err((error, context)),
    }
}

/// Values that stand for the outcome of an operation and can take a context
/// for the case that the operation failed.
pub trait ErrWith<T, E> {
    /// The outcome that `self` stands for.
    spec fn outcome(self) -> Result<T, E>;

    /// Attaches `with` to the failure, if there is one.
    ///
    /// A success is returned with its value untouched, and `with` is dropped.
    /// A failure is returned as the pair of the failure and `with`, both
    /// exactly as they were handed in. The call itself never fails: the
    /// result is a failure only where `self` was one.
    fn err_with<W>(self, with: W) -> (out: Result<T, (E, W)>)
        ensures
            out == attached(self.outcome(), with),
            self.outcome() matches Ok(value) ==> out == Ok::<T, (E, W)>(value),
            self.outcome() matches Err(error) ==> out == Err::<T, (E, W)>((error, with)),
            out is Err <==> self.outcome() is Err,
    ;
}

impl<T, E> ErrWith<T, E> for Result<T, E> {
    /// A `Result` stands for itself.
    open spec fn outcome(self) -> Result<T, E> {
        self
    }

    fn err_with<W>(self, with: W) -> (out: Result<T, (E, W)>) {
        match self {
            Ok(ok) => Ok(ok),
            Err(error) => Err((error, with)),
        }
    }
}

/// Attaches `context` to the failure in `outcome`, if there is one: the plain
/// function form of [`ErrWith::err_with`], for places where a method call
/// does not read well.
pub fn attach_context<T, E, W>(outcome: Result<T, E>, context: W) -> (out: Result<T, (E, W)>)
    ensures
        out == attached(outcome, context),
        outcome matches Ok(value) ==> out == Ok::<T, (E, W)>(value),
        outcome matches Err(error) ==> out == Err::<T, (E, W)>((error, context)),
        out is Err <==> outcome is Err,
{
    outcome.err_with(context)
}

} // verus!
