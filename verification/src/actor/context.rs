//! What a message handler is handed: the actor's services and the message.
use crate::actor::handle::{
    register_watch, unregister_watch, TypedActorHandle, WeakActorHandle,
};
use crate::actor::lifecycle::{TerminationKind, TerminationReason};
use crate::actor::rtti::ActorRtti;
use crate::actor::state::{without_watcher, ActorStateModel, LifecycleState, SharedActorState};
use crate::actor::supervision::{
    ActorId, Delivery, DeliveryMode, Subscription, Terminated, WatchDeliveryPolicy,
};
use crate::message::envelope::MessageEnvelope;
use crate::message::rtti::MessageRtti;
use vstd::prelude::*;

verus! {

/// Context passed to a message handler of an actor: the guard `G` on the actor
/// state, the actor's own runtime services `C`, and the envelope of a message of
/// the type described by `rtti`.
#[derive(Debug)]
pub struct MessageHandlerContext<'a, P, S, G, C> {
    actor_access: G,
    actor_context: C,
    rtti: &'a MessageRtti,
    envelope: MessageEnvelope<'a, P, S>,
}

impl<'a, P, S, G, C> MessageHandlerContext<'a, P, S, G, C> {
    /// The actor guard.
    pub closed spec fn spec_guard(self) -> G {
        self.actor_access
    }

    /// The actor's own runtime services.
    pub closed spec fn spec_actor_context(self) -> C {
        self.actor_context
    }

    /// The envelope.
    pub closed spec fn spec_envelope(self) -> MessageEnvelope<'a, P, S> {
        self.envelope
    }

    /// The envelope carries a message of the handler's type.
    pub closed spec fn wf(self) -> bool {
        self.envelope.carries(*self.rtti)
    }

    /// Create a new message handler context.
    ///
    /// Creation only succeeds if the envelope actually carries the correct message
    /// type; otherwise the envelope comes back.
    pub fn new(
        actor_access: G,
        actor_context: C,
        rtti: &'a MessageRtti,
        envelope: MessageEnvelope<'a, P, S>,
    ) -> (result: Result<Self, MessageEnvelope<'a, P, S>>)
        ensures
            result is Ok <==> envelope.carries(*rtti),
            result matches Ok(context) ==> context.wf() && context.spec_guard() == actor_access
                && context.spec_actor_context() == actor_context && context.spec_envelope()
                == envelope,
            result matches Err(returned) ==> returned == envelope,
    {
        if *envelope.rtti() != *rtti {
            return Err(envelope);
        }
        Ok(Self::new_unchecked(actor_access, actor_context, rtti, envelope))
    }

    /// Create a new message handler context for an envelope that is known to
    /// carry the handler's message type.
    pub fn new_unchecked(
        actor_access: G,
        actor_context: C,
        rtti: &'a MessageRtti,
        envelope: MessageEnvelope<'a, P, S>,
    ) -> (context: Self)
        requires
            envelope.carries(*rtti),
        ensures
            context.wf(),
            context.spec_guard() == actor_access,
            context.spec_actor_context() == actor_context,
            context.spec_envelope() == envelope,
    {
        MessageHandlerContext { actor_access, actor_context, rtti, envelope }
    }

    /// The actor's own runtime services: failing the actor, its lifecycle, its
    /// self-reference.
    pub fn actor_context(&mut self) -> (context: &mut C)
        ensures
            *context == old(self).spec_actor_context(),
            final(self).spec_actor_context() == *final(context),
            final(self).spec_guard() == old(self).spec_guard(),
            final(self).spec_envelope() == old(self).spec_envelope(),
            final(self).wf() == old(self).wf(),
    {
        &mut self.actor_context
    }

    /// Access the actor guard.
    pub fn guard(&self) -> (guard: &G)
        ensures
            *guard == self.spec_guard(),
    {
        &self.actor_access
    }

    /// Mutably access the actor guard.
    pub fn guard_mut(&mut self) -> (guard: &mut G)
        ensures
            *guard == old(self).spec_guard(),
            final(self).spec_guard() == *final(guard),
            final(self).spec_actor_context() == old(self).spec_actor_context(),
            final(self).spec_envelope() == old(self).spec_envelope(),
            final(self).wf() == old(self).wf(),
    {
        &mut self.actor_access
    }

    /// Access the message payload.
    pub fn message(&self) -> (message: &P)
        requires
            self.wf(),
        ensures
            *message == self.spec_envelope().spec_payload(),
    {
        self.envelope.payload_unchecked(self.rtti)
    }

    /// Decompose the context into the actor guard, the message and the answer
    /// sender.
    pub fn into_parts(self) -> (parts: (G, P, Option<S>))
        requires
            self.wf(),
        ensures
            parts.0 == self.spec_guard(),
            parts.1 == self.spec_envelope().spec_payload(),
            parts.2 == self.spec_envelope().spec_answer_sender(),
    {
        let (message, answer_sender) = self.envelope.unwrap_unchecked(self.rtti);
        (self.actor_access, message, answer_sender)
    }

    /// Decompose the context into the actor guard and the message envelope.
    pub fn into_parts_with_envelope(self) -> (parts: (G, MessageEnvelope<'a, P, S>))
        ensures
            parts.0 == self.spec_guard(),
            parts.1 == self.spec_envelope(),
    {
        (self.actor_access, self.envelope)
    }
}

/// The actor's own runtime services: a reduced surface to the shared state, with
/// the actor's weak self-reference.
#[derive(Debug)]
pub struct ActorContext<'a, E, W, D, T, X, Y> {
    pub state: &'a mut SharedActorState<E, W, D, T, X, Y>,
    pub self_ref: &'a W,
}

impl<'a, E, W, D, T, X, Y> ActorContext<'a, E, W, D, T, X, Y> {
    /// Create a context over the actor's shared state and weak self-reference.
    pub fn new(
        state: &'a mut SharedActorState<E, W, D, T, X, Y>,
        self_ref: &'a W,
    ) -> (context: Self)
        ensures
            *context.state == *old(state),
            *final(state) == *final(context.state),
            context.self_ref == self_ref,
    {
        ActorContext { state, self_ref }
    }

    /// The actor's own weak handle. It is what an actor hands out to be watched,
    /// and never keeps the actor alive on its own.
    pub fn weak_ref(&self) -> (self_ref: W) where W: Clone
        ensures
            cloned(*self.self_ref, self_ref),
    {
        self.self_ref.clone()
    }

    /// The actor's user-defined shared data.
    pub fn extension(&self) -> (data: &X)
        ensures
            *data == (*old(self.state)).spec_shared_data(),
    {
        self.state.shared_data()
    }

    /// Fail the actor: record `error` and stop the run loop, which notices at its
    /// next turn. The first error wins, later errors are dropped.
    pub fn fail(&mut self, error: E)
        ensures
            (*final(self).state)@ == (*old(self).state)@.after_recording(
                TerminationReason::Failed(error),
            ),
            (*final(self).state).same_data(*old(self).state),
            *final(final(self).state) == *final(old(self).state),
            final(self).self_ref == old(self).self_ref,
    {
        self.state.record_failure(error);
    }

    /// The current lifecycle state of the actor.
    pub fn lifecycle(&self) -> (state: LifecycleState)
        ensures
            state == (*old(self.state))@.lifecycle,
    {
        self.state.lifecycle()
    }

    /// Watch `watched` from this actor, which must handle the signal with the
    /// given dispatcher: a signal tagged `tag` is pushed into this actor's mailbox
    /// when `watched` terminates.
    pub fn watch<F, U, V, Z>(
        &self,
        dispatcher: D,
        watched: &mut SharedActorState<F, W, D, U, V, Z>,
        tag: u64,
    ) where W: Clone
        ensures
            ({
                let before = old(watched)@.subscriptions;
                let added = final(watched)@.subscriptions.last();
                &&& final(watched)@ == (ActorStateModel {
                    subscriptions: before.push(added),
                    ..old(watched)@
                })
                &&& cloned(*self.self_ref, added.spec_watcher())
                &&& added.spec_watcher_id() == (*old(self.state))@.id
                &&& added.spec_dispatcher() == dispatcher
                &&& added.spec_tag() == tag
                &&& added.spec_delivery_policy() == WatchDeliveryPolicy::Always
            }),
            final(watched).same_data(*old(watched)),
    {
        register_watch(self.weak_ref(), self.state.id(), dispatcher, watched, tag);
    }

    /// Stop watching `watched`: remove every subscription this actor registered
    /// on it. Idempotent.
    pub fn unwatch<F, U, V, Z>(&self, watched: &mut SharedActorState<F, W, D, U, V, Z>)
        ensures
            final(watched)@ == (ActorStateModel {
                subscriptions: without_watcher(
                    old(watched)@.subscriptions,
                    (*old(self.state))@.id,
                ),
                ..old(watched)@
            }),
            final(watched).same_data(*old(watched)),
    {
        unregister_watch(self.state.id(), watched);
    }
}

impl<'a, C, B, S, E, D, T, X, Y> ActorContext<'a, E, WeakActorHandle<C, B, S>, D, T, X, Y> {
    /// A strong handle to this actor, if one still exists: the weak self-reference,
    /// upgraded.
    pub fn actor_ref(&self) -> (handle: Option<TypedActorHandle<C, B, S>>)
        ensures
            call_ensures(WeakActorHandle::<C, B, S>::upgrade, (self.self_ref,), handle),
    {
        self.self_ref.upgrade()
    }
}

/// A handler is handed its own message: a context is made only of an envelope of the
/// handler's message type, and gives out the guard it was made with, the very message,
/// and the answer sender, where there is one. Any other envelope comes back.
pub proof fn handlers_get_their_own_message<'a, P, S, G, C>(
    wrapped: &'a MessageRtti,
    message: P,
    answer_sender: Option<S>,
    envelope: MessageEnvelope<'a, P, S>,
    guard: G,
    services: C,
    rtti: &'a MessageRtti,
    result: Result<MessageHandlerContext<'a, P, S, G, C>, MessageEnvelope<'a, P, S>>,
)
    requires
        call_ensures(MessageEnvelope::<'a, P, S>::new, (wrapped, message, answer_sender), envelope),
        call_ensures(
            MessageHandlerContext::<'a, P, S, G, C>::new,
            (guard, services, rtti, envelope),
            result,
        ),
    ensures
        result is Ok <==> wrapped.spec_identity() == rtti.spec_identity(),
        result matches Err(back) ==> back == envelope,
        result matches Ok(context) ==> {
            &&& call_requires(MessageHandlerContext::<'a, P, S, G, C>::into_parts, (context,))
            &&& forall|parts: (G, P, Option<S>)| #[trigger]
                call_ensures(MessageHandlerContext::<'a, P, S, G, C>::into_parts, (context,), parts)
                    ==> parts == (guard, message, answer_sender)
            &&& forall|seen: &P| #[trigger]
                call_ensures(MessageHandlerContext::<'a, P, S, G, C>::message, (&context,), seen)
                    ==> *seen == message
            &&& forall|seen: &G| #[trigger]
                call_ensures(MessageHandlerContext::<'a, P, S, G, C>::guard, (&context,), seen)
                    ==> *seen == guard
            &&& forall|parts: (G, MessageEnvelope<'a, P, S>)| #[trigger]
                call_ensures(
                    MessageHandlerContext::<'a, P, S, G, C>::into_parts_with_envelope,
                    (context,),
                    parts,
                ) ==> parts == (guard, envelope)
        },
{
}

/// An actor watches as its handles do: the watch is added behind those that are there,
/// and its signal goes to the actor's own weak reference and tells the tag that was
/// chosen, whatever number that is.
pub proof fn an_actors_watch_is_told_its_tag<'a, E, W: Clone, D, T, X, Y, F, U, V, Z>(
    context: ActorContext<'a, E, W, D, T, X, Y>,
    dispatcher: D,
    tag: u64,
    unwatched: SharedActorState<F, W, D, U, V, Z>,
    watched: SharedActorState<F, W, D, U, V, Z>,
    ended: ActorId,
    rtti: ActorRtti,
    kind: TerminationKind,
    delivery: Delivery<W, D>,
)
    requires
        exists|shared: &mut SharedActorState<F, W, D, U, V, Z>|
            #[trigger] call_ensures(
                ActorContext::<'a, E, W, D, T, X, Y>::watch::<F, U, V, Z>,
                (&context, dispatcher, shared, tag),
                (),
            ) && *shared == unwatched && *final(shared) == watched,
        call_ensures(
            Subscription::<W, D>::deliver,
            (watched@.subscriptions.last(), ended, rtti, kind),
            delivery,
        ),
    ensures
        watched@.subscriptions.len() == unwatched@.subscriptions.len() + 1,
        watched@.subscriptions.drop_last() == unwatched@.subscriptions,
        watched@ == (ActorStateModel { subscriptions: watched@.subscriptions, ..unwatched@ }),
        cloned(*context.self_ref, delivery.watcher),
        delivery.dispatcher == dispatcher,
        delivery.mode == DeliveryMode::WaitAsync,
        forall|told: u64| #[trigger]
            call_ensures(Terminated::tag, (&delivery.signal,), told) ==> told == tag,
        forall|told: TerminationKind| #[trigger]
            call_ensures(Terminated::kind, (&delivery.signal,), told) ==> told == kind,
{
    assert(unwatched@.subscriptions.push(watched@.subscriptions.last()).drop_last()
        =~= unwatched@.subscriptions);
}

/// Failing an actor from within records that very error, unless an outcome is on record
/// already, and changes nothing else.
pub proof fn the_first_failure_is_recorded<'a, E, W, D, T, X, Y>(error: E)
    ensures
        forall|context: &mut ActorContext<'a, E, W, D, T, X, Y>| #[trigger]
            call_ensures(ActorContext::<'a, E, W, D, T, X, Y>::fail, (context, error), ()) ==> {
                let before = (*context.state)@;
                let after = (*final(context).state)@;
                &&& before.reason is None ==> after.reason == Some(
                    TerminationReason::Failed(error),
                )
                &&& before.reason is Some ==> after.reason == before.reason
                &&& after == (ActorStateModel { reason: after.reason, ..before })
            },
{
}

} // verus!
