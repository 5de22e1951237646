use vstd::prelude::*;

verus! {

/// The result of a fallible operation: a success carrying the computed value,
/// or a failure carrying an error that says why no value was produced.
/// Exactly one variant is ever populated, and the tag never changes after
/// construction.
#[derive(Debug)]
pub enum Outcome<V, E> {
    Success(V),
    Failure(E),
}

impl<V, E> Outcome<V, E> {
    /// True exactly when the operation succeeded.
    pub fn is_success(&self) -> (r: bool)
        ensures
            r == (self is Success),
    {
        match self {
            Outcome::Success(_) => true,
            Outcome::Failure(_) => false,
        }
    }

    /// True exactly when the operation failed.
    pub fn is_failure(&self) -> (r: bool)
        ensures
            r == (self is Failure),
    {
        match self {
            Outcome::Success(_) => false,
            Outcome::Failure(_) => true,
        }
    }

    /// Unwraps the success value. Only a success may be unwrapped; a caller
    /// that wants to force a failure fatal must decide that for itself.
    pub fn into_value(self) -> (v: V)
        requires
            self is Success,
        ensures
            self == Outcome::<V, E>::Success(v),
    {
        match self {
            Outcome::Success(v) => v,
            Outcome::Failure(_) => vstd::pervasive::unreached(),
        }
    }

    /// Unwraps the error of a failure.
    pub fn into_error(self) -> (e: E)
        requires
            self is Failure,
        ensures
            self == Outcome::<V, E>::Failure(e),
    {
        match self {
            Outcome::Success(_) => vstd::pervasive::unreached(),
            Outcome::Failure(e) => e,
        }
    }
}

} // verus!
