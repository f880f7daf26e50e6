//! Additional event sources multiplexed onto an actor's run loop.
//!
//! An actor can drive its run loop from more than its mailbox by providing an
//! [`EventDriver`]. Each turn the run loop hands the driver the mailbox and asks
//! it for the next message to dispatch; the driver decides *whether and how* to
//! look into the mailbox. Whatever it yields is dispatched exactly like a mailbox
//! message, so the locking model is untouched.
use crate::actor::channel::ActorMailbox;
use crate::actor::dispatch::{ActorMessageDispatcher, DispatchedActorMessage};
use crate::actor::protocol::dispatched;
use crate::actor::state::SharedActorState;
use crate::message::envelope::{EnvelopeType, MessageEnvelope};
use crate::message::rtti::MessageRtti;
use crate::runtime::lock::{ExclusiveLockStrategy, SharedLockStrategy};
use crate::runtime::routing::LanePoll;
use vstd::prelude::*;

verus! {

/// An event source that drives an actor's run loop alongside (or instead of) the
/// mailbox `B`. The actor has the lock strategy `L` and the shared state `S`.
pub trait EventDriver<L, S, B: ActorMailbox>: Sized {
    /// Whether the driver may produce `message`, going from the one state to the
    /// other, and the mailbox with it. A driver that says nothing may do anything.
    open spec fn produces(
        before: Self,
        mailbox: B,
        after: Self,
        left: B,
        message: LanePoll<B::Message>,
    ) -> bool {
        true
    }

    /// Produce the next message to dispatch: a message, `None` to stop the loop,
    /// or nothing yet.
    ///
    /// The driver owns the mailbox for the turn: it may look into it, race it
    /// against its own sources, or ignore it entirely, so that what is in it stays
    /// there. Touching the actor's lock and state is up to the driver, via `cx`.
    fn next(&mut self, cx: EventContext<'_, L, S>, mailbox: &mut B) -> (message: LanePoll<
        B::Message,
    >)
        ensures
            Self::produces(*old(self), *old(mailbox), *final(self), *final(mailbox), message),
    ;
}

/// The default driver: pull straight from the mailbox.
#[derive(Clone, Copy, Debug)]
pub struct DefaultDriver;

impl Default for DefaultDriver {
    fn default() -> (driver: Self)
        ensures
            driver == DefaultDriver,
    {
        DefaultDriver
    }
}

impl<L, S, B: ActorMailbox> EventDriver<L, S, B> for DefaultDriver {
    fn next(&mut self, cx: EventContext<'_, L, S>, mailbox: &mut B) -> (message: LanePoll<
        B::Message,
    >)
        ensures
            exists|asked: &mut B|
                #[trigger] call_ensures(B::try_receive, (asked,), message) && *asked == *old(
                    mailbox,
                ) && *final(asked) == *final(mailbox),
    {
        mailbox.try_receive()
    }
}

/// Capabilities handed to an [`EventDriver`] for one turn: the run loop's lock
/// strategy and shared state.
#[derive(Debug)]
pub struct EventContext<'a, L, S> {
    lock_strategy: &'a L,
    shared: &'a S,
}

impl<'a, L, S> EventContext<'a, L, S> {
    /// The actor's lock strategy.
    pub closed spec fn spec_lock_strategy(self) -> L {
        *self.lock_strategy
    }

    /// The actor's shared state.
    pub closed spec fn spec_state(self) -> S {
        *self.shared
    }

    /// Build a context over the run loop's lock strategy and shared state.
    pub fn new(lock_strategy: &'a L, shared: &'a S) -> (context: Self)
        ensures
            context.spec_lock_strategy() == *lock_strategy,
            context.spec_state() == *shared,
    {
        EventContext { lock_strategy, shared }
    }

    /// Raw access to the actor's lock strategy.
    pub fn lock_strategy(&self) -> (lock_strategy: &'a L)
        ensures
            *lock_strategy == self.spec_lock_strategy(),
    {
        self.lock_strategy
    }

    /// Acquire exclusive access to the actor state, where the lock strategy grants it
    /// through a shared reference.
    pub fn acquire_exclusive<A>(&self) -> (guard: <&'a L as ExclusiveLockStrategy<
        A,
    >>::ExclusiveGuard) where &'a L: ExclusiveLockStrategy<A>
        ensures
            call_ensures(
                <&'a L as ExclusiveLockStrategy<A>>::acquire_exclusive,
                (&self.spec_lock_strategy(),),
                guard,
            ),
    {
        self.lock_strategy.acquire_exclusive()
    }

    /// Acquire shared access to the actor state, where the lock strategy grants it
    /// through a shared reference.
    pub fn acquire_shared<A>(&self) -> (guard: <&'a L as SharedLockStrategy<
        A,
    >>::SharedGuard) where &'a L: SharedLockStrategy<A>
        ensures
            call_ensures(
                <&'a L as SharedLockStrategy<A>>::acquire_shared,
                (&self.spec_lock_strategy(),),
                guard,
            ),
    {
        self.lock_strategy.acquire_shared()
    }

    /// The actor's shared state (lifecycle, failure).
    pub fn state(&self) -> (state: &'a S)
        ensures
            *state == self.spec_state(),
    {
        self.shared
    }

    /// Build a fire-and-forget self-dispatch for `message`, to be yielded by an
    /// [`EventDriver`].
    pub fn message<'m, P, A, H>(
        &self,
        dispatcher: ActorMessageDispatcher<H>,
        rtti: &'m MessageRtti,
        message: P,
    ) -> (sealed: DispatchedActorMessage<'m, P, A, H>)
        ensures
            sealed.spec_dispatcher() == dispatcher,
            sealed.spec_envelope().wf(),
            sealed.spec_envelope().spec_rtti() == *rtti,
            sealed.spec_envelope().spec_payload() == message,
            sealed.spec_envelope().spec_answer_sender() is None,
            sealed.spec_envelope().spec_ty() == EnvelopeType::Tell,
    {
        self.message_with(dispatcher, rtti, message, None)
    }

    /// Build a self-dispatch carrying an explicit answer sender.
    pub fn message_with<'m, P, A, H>(
        &self,
        dispatcher: ActorMessageDispatcher<H>,
        rtti: &'m MessageRtti,
        message: P,
        answer_sender: Option<A>,
    ) -> (sealed: DispatchedActorMessage<'m, P, A, H>)
        ensures
            sealed.spec_dispatcher() == dispatcher,
            sealed.spec_envelope().wf(),
            sealed.spec_envelope().spec_rtti() == *rtti,
            sealed.spec_envelope().spec_payload() == message,
            sealed.spec_envelope().spec_answer_sender() == answer_sender,
            sealed.spec_envelope().spec_ty() == if answer_sender is Some {
                EnvelopeType::Ask
            } else {
                EnvelopeType::Tell
            },
    {
        dispatched(dispatcher, rtti, message, answer_sender)
    }
}

impl<'a, L, E, W, D, T, X, Y> EventContext<'a, L, SharedActorState<E, W, D, T, X, Y>> {
    /// The actor's user-defined shared data.
    pub fn extension(&self) -> (data: &'a X)
        ensures
            *data == self.spec_state().spec_shared_data(),
    {
        self.shared.shared_data()
    }
}

/// Carries an [`EventDriver`] across a run loop task.
#[derive(Debug)]
pub struct DemandSendDriver<D> {
    pub driver: D,
}

impl<D> DemandSendDriver<D> {
    /// Wrap a driver for transport on a run loop task.
    pub fn new(driver: D) -> (carried: Self)
        ensures
            carried.driver == driver,
    {
        DemandSendDriver { driver }
    }
}

/// What a driver dispatches to its own actor is the very message, sealed with its
/// dispatcher, without an answer sender unless one is given.
pub proof fn self_dispatches_keep_every_part<'a, 'm, L, S, P, A, H>(
    lock_strategy: &'a L,
    shared: &'a S,
    context: EventContext<'a, L, S>,
    dispatcher: ActorMessageDispatcher<H>,
    rtti: &'m MessageRtti,
    message: P,
    answer: Option<A>,
    told: DispatchedActorMessage<'m, P, A, H>,
    asked: DispatchedActorMessage<'m, P, A, H>,
)
    requires
        call_ensures(EventContext::<'a, L, S>::new, (lock_strategy, shared), context),
        call_ensures(
            EventContext::<'a, L, S>::message::<P, A, H>,
            (&context, dispatcher, rtti, message),
            told,
        ),
        call_ensures(
            EventContext::<'a, L, S>::message_with::<P, A, H>,
            (&context, dispatcher, rtti, message, answer),
            asked,
        ),
    ensures
        told.spec_dispatcher() == dispatcher && asked.spec_dispatcher() == dispatcher,
        forall|parts: Result<(P, Option<A>), MessageEnvelope<'m, P, A>>| #[trigger]
            call_ensures(MessageEnvelope::<'m, P, A>::unwrap, (told.spec_envelope(), rtti), parts)
                ==> (parts matches Ok(parts) && parts == (message, None::<A>)),
        forall|parts: Result<(P, Option<A>), MessageEnvelope<'m, P, A>>| #[trigger]
            call_ensures(MessageEnvelope::<'m, P, A>::unwrap, (asked.spec_envelope(), rtti), parts)
                ==> (parts matches Ok(parts) && parts == (message, answer)),
        forall|seen: &'a L| #[trigger]
            call_ensures(EventContext::<'a, L, S>::lock_strategy, (&context,), seen) ==> *seen
                == *lock_strategy,
        forall|seen: &'a S| #[trigger]
            call_ensures(EventContext::<'a, L, S>::state, (&context,), seen) ==> *seen == *shared,
{
}

} // verus!
