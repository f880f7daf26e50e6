//! The component selections that an actor gets where it configures none.
use crate::actor::binder::StaticOnlyBinder;
use crate::runtime::lock::UnguardedLock;
use crate::runtime::routing::NoPriorityRouter;
use crate::runtime::sequential_loop::SequentialRunLoop;
use crate::runtime::tokio_backend::channel::TokioMpscMultiLineActorChannel;
use vstd::prelude::*;

verus! {

/// Selects the binder of an actor that only takes statically dispatched messages,
/// whatever the actor is.
pub trait Select {
    /// The binder.
    type Binder;
}

impl<A> Select for A {
    type Binder = StaticOnlyBinder;
}

/// Default channel: a cancellation-safe `tokio::sync::mpsc` mailbox of one lane.
pub type DefaultChannel<T> = TokioMpscMultiLineActorChannel<1, T, NoPriorityRouter>;

/// Default runtime binder: dynamic sends never bind, only static dispatch is
/// available.
pub type DefaultRuntimeBinder<A> = <A as Select>::Binder;

/// Default lock strategy: no synchronization, relying on the serialized
/// [`DefaultRunLoop`] for exclusivity.
pub type DefaultLockStrategy<A> = UnguardedLock<A>;

/// Default run loop: one message handled to completion before the next is pulled.
pub type DefaultRunLoop = SequentialRunLoop;

} // verus!
