//! Initializer building blocks.
use vstd::prelude::*;

verus! {

/// Actor initialization protocol: what crosses onto the actor task is the
/// initializer, so that the actor is constructed where it will live.
pub trait ActorInit<A, E>: Sized {
    /// Whether the initializer may be run.
    spec fn can_init(self) -> bool;

    /// Whether running the initializer may end in `result`.
    spec fn inits_to(self, result: Result<A, E>) -> bool;

    /// Consume the initializer and construct the actor.
    fn init(self) -> (result: Result<A, E>)
        requires
            self.can_init(),
        ensures
            self.inits_to(result),
    ;
}

/// An actor value as its own initializer: immediate and infallible.
#[derive(Debug)]
pub struct Ready<A> {
    pub actor: A,
}

impl<A, E> ActorInit<A, E> for Ready<A> {
    open spec fn can_init(self) -> bool {
        true
    }

    open spec fn inits_to(self, result: Result<A, E>) -> bool {
        result == Ok::<A, E>(self.actor)
    }

    fn init(self) -> (result: Result<A, E>) {
        Ok(self.actor)
    }
}

/// Initializer built from a construction closure.
#[derive(Debug)]
pub struct InitFn<F> {
    init: F,
}

impl<F> InitFn<F> {
    /// The construction closure.
    pub closed spec fn closure(self) -> F {
        self.init
    }

    /// Create the initializer from a construction closure.
    pub fn new(init: F) -> (initializer: Self)
        ensures
            initializer.closure() == init,
    {
        InitFn { init }
    }
}

impl<A, E, F: FnOnce() -> Result<A, E>> ActorInit<A, E> for InitFn<F> {
    open spec fn can_init(self) -> bool {
        call_requires(self.closure(), ())
    }

    open spec fn inits_to(self, result: Result<A, E>) -> bool {
        call_ensures(self.closure(), (), result)
    }

    fn init(self) -> (result: Result<A, E>) {
        (self.init)()
    }
}

/// An actor value initializes to itself, and a closure to what the closure returns; the
/// one always can be run, the other where the closure can be called.
pub proof fn initializers_give_their_actor<A, E, F: FnOnce() -> Result<A, E>>(
    actor: A,
    ready: Result<A, E>,
    closure: F,
    initializer: InitFn<F>,
    result: Result<A, E>,
)
    requires
        call_ensures(<Ready<A> as ActorInit<A, E>>::init, (Ready { actor },), ready),
        call_ensures(InitFn::<F>::new, (closure,), initializer),
        call_ensures(<InitFn<F> as ActorInit<A, E>>::init, (initializer,), result),
    ensures
        ready == Ok::<A, E>(actor),
        call_ensures(closure, (), result),
        call_requires(<Ready<A> as ActorInit<A, E>>::init, (Ready { actor },)),
        call_requires(closure, ()) ==> call_requires(
            <InitFn<F> as ActorInit<A, E>>::init,
            (initializer,),
        ),
{
}

} // verus!
