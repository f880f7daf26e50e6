//! The outcomes of an actor: why its run loop stops and how it terminated.
use vstd::prelude::*;

verus! {

/// Why an actor's run loop is stopping, handed to the actor's stop hook.
#[derive(Clone, Copy, Debug)]
pub enum StopReason<'a, E> {
    /// The event source signalled completion and the loop drained without
    /// failing.
    Finished,
    /// A handler, or the start hook, failed the actor with the recorded error.
    Failed(&'a E),
}

/// The recorded outcome of an actor.
#[derive(Debug)]
pub enum TerminationReason<E> {
    /// The run loop drained and exited cleanly.
    Finished,
    /// A handler, the start hook or init failed the actor with the error.
    Failed(E),
    /// The actor died with no outcome recorded: a panic unwound the loop, or
    /// the task was aborted.
    Aborted,
}

/// The error-free outcome of an actor, as observed by a watcher.
#[derive(Clone, Copy, Debug, PartialEq, Eq, Hash, Structural)]
pub enum TerminationKind {
    /// The run loop drained and exited cleanly.
    Finished,
    /// A handler, the start hook, or init failed the actor.
    Failed,
    /// The actor died with no recorded outcome: a panic, or a task abort.
    Aborted,
}

impl<E> TerminationReason<E> {
    /// The error-free discriminant of this reason.
    pub open spec fn spec_kind(self) -> TerminationKind {
        match self {
            TerminationReason::Finished => TerminationKind::Finished,
            TerminationReason::Failed(_) => TerminationKind::Failed,
            TerminationReason::Aborted => TerminationKind::Aborted,
        }
    }

    /// The error-free discriminant of this reason.
    pub fn kind(&self) -> (kind: TerminationKind)
        ensures
            kind == self.spec_kind(),
    {
        match self {
            TerminationReason::Finished => TerminationKind::Finished,
            TerminationReason::Failed(_) => TerminationKind::Failed,
            TerminationReason::Aborted => TerminationKind::Aborted,
        }
    }
}

/// The kind of an outcome tells which outcome it is, and nothing of the error.
pub proof fn kinds_tell_outcomes_apart<E>(reason: TerminationReason<E>, kind: TerminationKind)
    requires
        call_ensures(TerminationReason::<E>::kind, (&reason,), kind),
    ensures
        kind is Finished <==> reason is Finished,
        kind is Failed <==> reason is Failed,
        kind is Aborted <==> reason is Aborted,
{
}

} // verus!
