//! What a run loop offers to dispatchers and guarantees to locks.
use vstd::prelude::*;

verus! {

/// Whether a turn with the given number is among that many turns.
pub open spec fn is_turn(turns: nat, turn: int) -> bool {
    0 <= turn < turns
}

/// Contract for run loops that never overlap dispatches.
///
/// Lock strategies that elide synchronization rely on it: from the acquisition of
/// the actor state until the handler is done, no other dispatch of the same actor
/// is in flight.
pub trait SerializedDispatch {
    /// The number of dispatches in flight.
    spec fn dispatches_in_flight(&self) -> nat;

    /// Whether the loop is in a state that its steps lead to.
    spec fn is_reachable(&self) -> bool;

    /// No two dispatches are ever in flight at once.
    proof fn never_overlaps(&self)
        requires
            self.is_reachable(),
        ensures
            self.dispatches_in_flight() <= 1,
    ;
}

/// The dispatch-side view of an actor's run loop.
pub trait ActorRunLoopDispatchContext {
    /// The lock strategy of the actor.
    type LockStrategy;

    /// The state shared between the run loop and the actor's handles.
    type SharedState;

    /// The actor's own weak self-reference.
    type SelfRef;

    /// The lock strategy used to acquire access to the actor state.
    spec fn spec_lock_strategy(&self) -> Self::LockStrategy;

    /// The state shared between the run loop and the actor's handles.
    spec fn spec_shared_state(&self) -> Self::SharedState;

    /// The actor's own weak self-reference.
    spec fn spec_self_ref(&self) -> Self::SelfRef;

    /// The lock strategy used to acquire access to the actor state.
    fn lock_strategy(&self) -> (lock_strategy: &Self::LockStrategy)
        ensures
            *lock_strategy == self.spec_lock_strategy(),
    ;

    /// The state shared between the run loop and the actor's handles.
    fn shared_state(&self) -> (shared: &Self::SharedState)
        ensures
            *shared == self.spec_shared_state(),
    ;

    /// The actor's own weak self-reference.
    fn self_ref(&self) -> (self_ref: &Self::SelfRef)
        ensures
            *self_ref == self.spec_self_ref(),
    ;
}

} // verus!
