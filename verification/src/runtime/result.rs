//! Result vocabulary for handler outcomes.
use vstd::prelude::*;

verus! {

/// A type that can be viewed as a `Result`.
pub trait ResultLike: Sized {
    /// The success value.
    type Ok;

    /// The error value.
    type Error;

    /// The outcome.
    spec fn outcome(self) -> Result<Self::Ok, Self::Error>;

    /// View the outcome by reference.
    fn as_result(&self) -> (result: Result<&Self::Ok, &Self::Error>)
        ensures
            match result {
                Ok(value) => self.outcome() == Ok::<Self::Ok, Self::Error>(*value),
                Err(error) => self.outcome() == Err::<Self::Ok, Self::Error>(*error),
            },
    ;

    /// Decompose into the outcome.
    fn into_result(self) -> (result: Result<Self::Ok, Self::Error>)
        ensures
            result == self.outcome(),
    ;
}

impl<T, E> ResultLike for Result<T, E> {
    type Ok = T;

    type Error = E;

    open spec fn outcome(self) -> Result<T, E> {
        self
    }

    fn as_result(&self) -> (result: Result<&T, &E>) {
        match self {
            Ok(value) => Ok(value),
            Err(error) => Err(error),
        }
    }

    fn into_result(self) -> (result: Result<T, E>) {
        self
    }
}

/// A result seen as a result is that result.
pub proof fn results_are_their_own_outcome<T, E>(
    outcome: Result<T, E>,
    seen: Result<&T, &E>,
    taken: Result<T, E>,
)
    requires
        call_ensures(<Result<T, E> as ResultLike>::as_result, (&outcome,), seen),
        call_ensures(<Result<T, E> as ResultLike>::into_result, (outcome,), taken),
    ensures
        taken == outcome,
        seen is Ok <==> outcome is Ok,
        seen matches Ok(value) ==> outcome == Ok::<T, E>(*value),
        seen matches Err(error) ==> outcome == Err::<T, E>(*error),
{
}

} // verus!
