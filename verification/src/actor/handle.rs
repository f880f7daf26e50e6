//! Handles: what one holds of an actor, and what can be done with it.
use crate::actor::binder::ActorRuntimeBinder;
use crate::actor::channel::{
    prepared_by, ActorChannel, ActorChannelSendError, ActorChannelSendable,
};
use crate::actor::dispatch::{
    ActorMessageDispatcher, DispatchedActorMessage, DispatchedActorMessageContext,
};
use crate::actor::protocol::{dispatched, is_sealed};
use crate::actor::lifecycle::TerminationKind;
use crate::actor::rtti::{ActorRtti, ChannelRtti, SendSyncRtti};
use crate::actor::state::{without_watcher, ActorStateModel, SharedActorState};
use crate::actor::supervision::{
    ActorId, Delivery, DeliveryMode, Subscription, TerminalPath, Terminated, WatchDeliveryPolicy,
};
use crate::actor::weak::WeakRef;
use crate::message::channel::{answer_channel, made_together, AnswerReceiver, AnswerSender};
use crate::message::envelope::{EnvelopeType, MessageEnvelope};
use crate::message::rtti::MessageRtti;
use std::sync::Arc;
use vstd::prelude::*;
use vstd::std_specs::convert::{FromSpecImpl, TryFromSpecImpl};

verus! {

/// Why an ask yields no answer.
#[derive(Clone, Copy, Debug, PartialEq, Eq, Structural)]
pub enum AskError {
    /// The message could not be sent.
    SendFailed(ActorChannelSendError),
    /// No reply received.
    NoReply,
}

impl From<ActorChannelSendError> for AskError {
    fn from(error: ActorChannelSendError) -> (ask: AskError) {
        AskError::SendFailed(error)
    }
}

impl FromSpecImpl<ActorChannelSendError> for AskError {
    open spec fn obeys_from_spec() -> bool {
        true
    }

    open spec fn from_spec(error: ActorChannelSendError) -> AskError {
        AskError::SendFailed(error)
    }
}

/// What an ask comes to, from what became of the send and of the reply: the reply
/// only matters where the send went through.
pub open spec fn ask_outcome<T>(
    sent: Result<(), ActorChannelSendError>,
    reply: Option<T>,
) -> Result<T, AskError> {
    match sent {
        Err(error) => Err(AskError::SendFailed(error)),
        Ok(()) => match reply {
            Some(answer) => Ok(answer),
            None => Err(AskError::NoReply),
        },
    }
}

/// Only the framework's own prepared calls are [`Calling`].
pub trait Sealed {

}

/// The prepared-call operations a [`MessageCall`] forwards to.
pub trait Calling: Sealed + Sized {
    /// The exchange that yields the answer.
    type Ask;

    /// The send that is not awaited for a reply.
    type Tell;

    /// The exchange that blocks the thread.
    type BlockingAsk;

    /// The send that blocks the thread.
    type BlockingTell;

    /// The exchange that sends the message and waits for the reply.
    fn ask(self) -> Self::Ask;

    /// The send of the message without awaiting a reply.
    fn tell(self) -> Self::Tell;

    /// Send the message without awaiting a reply, without blocking or awaiting.
    fn try_tell(self) -> Result<(), ActorChannelSendError>;

    /// The send of the message without awaiting a reply, for a caller that blocks
    /// its thread on it.
    fn blocking_tell(self) -> Self::BlockingTell;

    /// The ask exchange, for a caller that blocks its thread on it.
    fn blocking_ask(self) -> Self::BlockingAsk;
}

/// A prepared call to an actor that has not yet been dispatched. The form of
/// communication is chosen by the method that is called on it.
#[derive(Debug)]
pub struct MessageCall<T> {
    inner: T,
}

impl<T> MessageCall<T> {
    /// The prepared call.
    pub closed spec fn prepared(self) -> T {
        self.inner
    }
}

impl<T: Calling> MessageCall<T> {
    /// Wrap a prepared call.
    pub fn new(inner: T) -> (call: Self)
        ensures
            call.prepared() == inner,
    {
        MessageCall { inner }
    }

    /// The exchange that sends the message and awaits the reply.
    pub fn ask(self) -> (asked: T::Ask)
        ensures
            call_ensures(T::ask, (self.prepared(),), asked),
    {
        self.inner.ask()
    }

    /// The send of the message without awaiting a reply.
    pub fn tell(self) -> (told: T::Tell)
        ensures
            call_ensures(T::tell, (self.prepared(),), told),
    {
        self.inner.tell()
    }

    /// Send the message without awaiting a reply, without blocking or awaiting.
    /// Enqueues if there is room and fails immediately otherwise.
    pub fn try_tell(self) -> (result: Result<(), ActorChannelSendError>)
        ensures
            call_ensures(T::try_tell, (self.prepared(),), result),
    {
        self.inner.try_tell()
    }

    /// The send of the message without awaiting a reply, for a caller that blocks
    /// its thread on it.
    pub fn blocking_tell(self) -> (told: T::BlockingTell)
        ensures
            call_ensures(T::blocking_tell, (self.prepared(),), told),
    {
        self.inner.blocking_tell()
    }

    /// The ask exchange, for a caller that blocks its thread on it.
    pub fn blocking_ask(self) -> (asked: T::BlockingAsk)
        ensures
            call_ensures(T::blocking_ask, (self.prepared(),), asked),
    {
        self.inner.blocking_ask()
    }
}

/// Register `watcher` to be notified when the actor of `watched` terminates,
/// with the watcher's own dispatcher for the signal. A watch always delivers.
pub fn register_watch<E, W, D, T, X, Y>(
    watcher: W,
    watcher_id: ActorId,
    dispatcher: D,
    watched: &mut SharedActorState<E, W, D, T, X, Y>,
    tag: u64,
)
    ensures
        ({
            let before = old(watched)@.subscriptions;
            let added = final(watched)@.subscriptions.last();
            &&& final(watched)@ == (ActorStateModel {
                subscriptions: before.push(added),
                ..old(watched)@
            })
            &&& added.spec_watcher() == watcher
            &&& added.spec_watcher_id() == watcher_id
            &&& added.spec_dispatcher() == dispatcher
            &&& added.spec_tag() == tag
            &&& added.spec_delivery_policy() == WatchDeliveryPolicy::Always
        }),
        final(watched).same_data(*old(watched)),
{
    watched.add_subscription(
        Subscription::new(watcher, watcher_id, dispatcher, tag, WatchDeliveryPolicy::default()),
    );
}

/// Remove every subscription registered by `watcher_id` on the actor of
/// `watched`. Idempotent.
pub fn unregister_watch<E, W, D, T, X, Y>(
    watcher_id: ActorId,
    watched: &mut SharedActorState<E, W, D, T, X, Y>,
)
    ensures
        final(watched)@ == (ActorStateModel {
            subscriptions: without_watcher(old(watched)@.subscriptions, watcher_id),
            ..old(watched)@
        }),
        final(watched).same_data(*old(watched)),
{
    watched.remove_subscriptions(watcher_id);
}

/// What identifies an actor to its handles: its type, its channel `C`, its binder
/// `B` and its shared state `S`.
#[derive(Debug)]
pub struct ActorIdentity<C, B, S> {
    pub rtti: ActorRtti,
    pub channel: C,
    pub binder: B,
    pub shared: S,
}

impl<C, B, S> ActorIdentity<C, B, S> {
    /// Create a new actor identity pointing to the given channel.
    pub fn new(rtti: ActorRtti, channel: C, binder: B, shared: S) -> (identity: Self)
        ensures
            identity.rtti == rtti,
            identity.channel == channel,
            identity.binder == binder,
            identity.shared == shared,
    {
        ActorIdentity { rtti, channel, binder, shared }
    }

    /// Whether this identifies an actor of the given type.
    pub fn is_of(&self, actor: &ActorRtti) -> (same: bool)
        ensures
            same == (self.rtti.spec_identity() == actor.spec_identity()),
    {
        self.rtti.identity() == actor.identity()
    }

    /// Bind the dispatcher for the given message type.
    pub fn bind<H>(&self, message: &MessageRtti) -> (dispatcher: Option<
        ActorMessageDispatcher<H>,
    >) where B: ActorRuntimeBinder<ActorMessageDispatcher<H>>
        ensures
            call_ensures(B::bind, (&self.binder, message), dispatcher),
    {
        self.binder.bind(message)
    }
}

/// A state that knows the actor it belongs to.
pub trait IdentifiedState {
    /// The id of the actor.
    spec fn spec_id(&self) -> ActorId;

    /// The id of the actor.
    fn id(&self) -> (id: ActorId)
        ensures
            id == self.spec_id(),
    ;
}

impl<E, W, D, T, X, Y> IdentifiedState for SharedActorState<E, W, D, T, X, Y> {
    open spec fn spec_id(&self) -> ActorId {
        self@.id
    }

    fn id(&self) -> (id: ActorId) {
        SharedActorState::id(self)
    }
}

/// Whether handles of actors of the given type may be shared between threads: the
/// channel and the error type may both be sent and shared.
pub open spec fn is_shareable(rtti: ActorRtti) -> bool {
    &&& rtti.spec_channel().send_sync.send
    &&& rtti.spec_channel().send_sync.sync
    &&& rtti.spec_error().send
    &&& rtti.spec_error().sync
}

/// A handle to an actor: the operations that can generally be done on one.
pub trait ActorHandle: Sized {
    /// The channel of the actor.
    type Channel;

    /// The binder of the actor.
    type Binder;

    /// The shared state of the actor.
    type Shared;

    /// The identity of the actor.
    spec fn spec_identity(&self) -> ActorIdentity<Self::Channel, Self::Binder, Self::Shared>;

    /// The identity of the actor.
    fn identity(&self) -> (identity: &Arc<
        ActorIdentity<Self::Channel, Self::Binder, Self::Shared>,
    >)
        ensures
            **identity == self.spec_identity(),
    ;

    /// Retrieve the RTTI of the actor this handle wraps.
    fn rtti(&self) -> (rtti: &ActorRtti)
        ensures
            *rtti == self.spec_identity().rtti,
    {
        &self.identity().rtti
    }

    /// Attempt to downcast this handle into a typed handle.
    ///
    /// This only succeeds if this handle actually points to an actor of the given
    /// type.
    fn downcast(&self, actor: &ActorRtti) -> (typed: Option<
        TypedActorHandle<Self::Channel, Self::Binder, Self::Shared>,
    >)
        ensures
            typed is Some <==> self.spec_identity().rtti.spec_identity() == actor.spec_identity(),
            typed matches Some(typed) ==> typed.points_to() == self.spec_identity(),
    {
        if !self.identity().is_of(actor) {
            return None;
        }
        Some(TypedActorHandle { identity: self.identity().clone() })
    }

    /// Bind the dispatcher for the given message type.
    fn bind_dispatcher<H>(&self, message: &MessageRtti) -> (dispatcher: Option<
        ActorMessageDispatcher<H>,
    >) where Self::Binder: ActorRuntimeBinder<ActorMessageDispatcher<H>>
        ensures
            call_ensures(
                <Self::Binder as ActorRuntimeBinder<ActorMessageDispatcher<H>>>::bind,
                (&self.spec_identity().binder, message),
                dispatcher,
            ),
    {
        self.identity().bind(message)
    }

    /// Prepare sending a message to this actor whose dispatcher the actor's binder
    /// looks up. `None` if the message does not bind.
    fn prepare_send_dynamic<'h, 'a, P, A, H>(&'h self, message: MessageEnvelope<'a, P, A>) -> (
    sendable: Option<
        <Self::Channel as ActorChannel<'h, DispatchedActorMessage<'a, P, A, H>>>::Sendable,
    >) where
        Self::Binder: ActorRuntimeBinder<ActorMessageDispatcher<H>>,
        Self::Channel: ActorChannel<'h, DispatchedActorMessage<'a, P, A, H>>,

        ensures
            sendable is None ==> call_ensures(
                <Self::Binder as ActorRuntimeBinder<ActorMessageDispatcher<H>>>::bind,
                (&self.spec_identity().binder, &message.spec_rtti()),
                None,
            ),
            sendable matches Some(sendable) ==> exists|
                sealed: DispatchedActorMessage<'a, P, A, H>,
            |
                {
                    &&& #[trigger] prepared_by(self.spec_identity().channel, sealed, sendable)
                    &&& sealed.spec_envelope() == message
                    &&& call_ensures(
                        <Self::Binder as ActorRuntimeBinder<ActorMessageDispatcher<H>>>::bind,
                        (&self.spec_identity().binder, &message.spec_rtti()),
                        Some(sealed.spec_dispatcher()),
                    )
                },
    {
        let bound = self.bind_dispatcher(message.rtti());
        assert(call_ensures(
            <Self::Binder as ActorRuntimeBinder<ActorMessageDispatcher<H>>>::bind,
            (&self.spec_identity().binder, &message.spec_rtti()),
            bound,
        ));
        match bound {
            Some(dispatcher) => {
                let sealed = DispatchedActorMessage::new(
                    dispatcher,
                    DispatchedActorMessageContext::of(message),
                );
                let sendable = self.identity().channel.prepare_send(sealed);
                let prepared = Some(sendable);
                assert(bound == Some(sealed.spec_dispatcher()));
                assert(prepared_by(self.spec_identity().channel, sealed, prepared->0));
                prepared
            },
            None => None,
        }
    }
}

/// A handle to an actor of a known type.
#[derive(Debug)]
pub struct TypedActorHandle<C, B, S> {
    identity: Arc<ActorIdentity<C, B, S>>,
}

impl<C, B, S> TypedActorHandle<C, B, S> {
    /// The identity of the actor that the handle points to.
    pub closed spec fn points_to(self) -> ActorIdentity<C, B, S> {
        *self.identity
    }
}

impl<C, B, S> Clone for TypedActorHandle<C, B, S> {
    fn clone(&self) -> (handle: Self)
        ensures
            handle == *self,
    {
        TypedActorHandle { identity: self.identity.clone() }
    }
}

impl<C, B, S> ActorHandle for TypedActorHandle<C, B, S> {
    type Channel = C;

    type Binder = B;

    type Shared = S;

    open spec fn spec_identity(&self) -> ActorIdentity<C, B, S> {
        self.points_to()
    }

    fn identity(&self) -> (identity: &Arc<ActorIdentity<C, B, S>>) {
        &self.identity
    }
}

/// An ask that has not been sent: the prepared send, and where the answer comes
/// in.
#[verifier::reject_recursive_types(T)]
#[derive(Debug)]
pub struct AskSendable<S, T> {
    pub sendable: S,
    pub receive: AnswerReceiver<T>,
}

impl<S, T> AskSendable<S, T> {
    /// The outcome of the exchange, from what became of the send and of the
    /// reply.
    pub fn exchange(sent: Result<(), ActorChannelSendError>, reply: Option<T>) -> (answer: Result<
        T,
        AskError,
    >)
        ensures
            answer == ask_outcome(sent, reply),
    {
        match sent {
            Err(error) => Err(AskError::from(error)),
            Ok(()) => match reply {
                Some(answer) => Ok(answer),
                None => Err(AskError::NoReply),
            },
        }
    }
}

/// A non-owning handle to an actor.
///
/// It can be [upgraded](Self::upgrade) to a strong [`TypedActorHandle`] while one
/// still exists, but never keeps the actor reachable by itself. This is what an
/// actor hands out to be watched.
#[verifier::reject_recursive_types(C)]
#[verifier::reject_recursive_types(B)]
#[verifier::reject_recursive_types(S)]
#[derive(Debug)]
pub struct WeakActorHandle<C, B, S> {
    identity: WeakRef<ActorIdentity<C, B, S>>,
}

impl<C, B, S> WeakActorHandle<C, B, S> {
    /// Whether the handle is a downgraded one to the actor with the given identity.
    pub closed spec fn is_of(self, identity: ActorIdentity<C, B, S>) -> bool {
        exists|strong: Arc<ActorIdentity<C, B, S>>| #[trigger]
            self.identity.refers_to(strong) && *strong == identity
    }

    /// Whether the handle was made dangling.
    pub closed spec fn is_dangling(self) -> bool {
        self.identity.is_dangling()
    }

    /// Whether `identity` is what upgrading the handle's reference returned.
    pub closed spec fn upgrade_returned(
        self,
        identity: Option<Arc<ActorIdentity<C, B, S>>>,
    ) -> bool {
        self.identity.upgrade_returned(identity)
    }

    /// Create a dangling weak handle, which can never be upgraded.
    pub fn dangling() -> (weak: Self)
        ensures
            weak.is_dangling(),
    {
        WeakActorHandle { identity: WeakRef::dangling() }
    }

    /// Upgrade to a strong handle, if the actor's identity is still alive. `None`
    /// once the last strong handle is gone.
    pub fn upgrade(&self) -> (handle: Option<TypedActorHandle<C, B, S>>)
        ensures
            self.is_dangling() ==> handle is None,
            handle matches Some(handle) ==> forall|identity: ActorIdentity<C, B, S>| #[trigger]
                self.is_of(identity) ==> handle.points_to() == identity,
            exists|found: Option<Arc<ActorIdentity<C, B, S>>>| #[trigger]
                self.upgrade_returned(found) && match found {
                    Some(found) => handle matches Some(handle) && handle.points_to() == *found,
                    None => handle is None,
                },
    {
        let found = self.identity.upgrade();
        assert(self.upgrade_returned(found));
        match found {
            Some(identity) => Some(TypedActorHandle { identity }),
            None => None,
        }
    }
}

impl<C, B, S> Clone for WeakActorHandle<C, B, S> {
    fn clone(&self) -> (weak: Self)
        ensures
            weak == *self,
    {
        WeakActorHandle { identity: self.identity.clone() }
    }
}

/// A handle that is downgraded and upgraded again points to the same actor, and a
/// dangling one is never upgraded.
pub proof fn an_upgraded_handle_points_to_its_actor<C, B, S>(
    handle: TypedActorHandle<C, B, S>,
    weak: WeakActorHandle<C, B, S>,
    upgraded: Option<TypedActorHandle<C, B, S>>,
)
    requires
        call_ensures(WeakActorHandle::<C, B, S>::upgrade, (&weak,), upgraded),
    ensures
        call_ensures(TypedActorHandle::<C, B, S>::downgrade, (&handle,), weak) ==> (
        upgraded matches Some(upgraded) ==> upgraded.points_to() == handle.points_to()),
        call_ensures(WeakActorHandle::<C, B, S>::dangling, (), weak) ==> upgraded is None,
{
}

impl<C, B, S> TypedActorHandle<C, B, S> {
    /// Assemble an actor handle from its parts.
    ///
    /// The caller is responsible for having spawned a run loop that consumes the
    /// mailbox side of `channel` and reports into `shared`.
    pub fn assemble(rtti: ActorRtti, channel: C, binder: B, shared: S) -> (handle: Self)
        ensures
            handle.spec_identity() == (ActorIdentity { rtti, channel, binder, shared }),
    {
        TypedActorHandle { identity: Arc::new(ActorIdentity::new(rtti, channel, binder, shared)) }
    }

    /// The handle that points to the given identity.
    pub fn of_identity(identity: Arc<ActorIdentity<C, B, S>>) -> (handle: Self)
        ensures
            handle.spec_identity() == *identity,
    {
        TypedActorHandle { identity }
    }

    /// Downgrade to a non-owning [`WeakActorHandle`].
    pub fn downgrade(&self) -> (weak: WeakActorHandle<C, B, S>)
        ensures
            weak.is_of(self.spec_identity()),
    {
        let weak = WeakActorHandle { identity: WeakRef::of(&self.identity) };
        assert(weak.identity.refers_to(self.identity));
        weak
    }

    /// Access the shared state of this actor (lifecycle, failure error, task).
    pub fn state(&self) -> (shared: &S)
        ensures
            *shared == self.spec_identity().shared,
    {
        &self.identity.shared
    }

    /// Retrieve the channel of the actor.
    pub fn channel(&self) -> (channel: &C)
        ensures
            *channel == self.spec_identity().channel,
    {
        &self.identity.channel
    }

    /// The handle without its type.
    pub closed spec fn erased(self) -> AnyLocalActorHandle<C, B, S> {
        AnyLocalActorHandle { identity: self.identity }
    }

    /// Type erase the actor handle into an untyped local handle.
    pub fn erase_type_local(self) -> (local: AnyLocalActorHandle<C, B, S>)
        ensures
            local == self.erased(),
            local.spec_identity() == self.spec_identity(),
    {
        AnyLocalActorHandle { identity: self.identity }
    }

    /// Type erase the actor handle into an untyped handle.
    pub fn erase_type(self) -> (shared: AnyActorHandle<C, B, S>)
        requires
            is_shareable(self.spec_identity().rtti),
        ensures
            shared.spec_identity() == self.spec_identity(),
    {
        AnyActorHandle { identity: self.identity }
    }

    /// Prepare sending a statically dispatched message to this actor, optionally
    /// carrying an answer sender: it is sealed and handed to the actor's channel.
    pub fn prepare_send<'h, 'a, P, A, H>(
        &'h self,
        dispatcher: ActorMessageDispatcher<H>,
        rtti: &'a MessageRtti,
        message: P,
        answer_sender: Option<A>,
    ) -> (sendable: C::Sendable) where
        C: ActorChannel<'h, DispatchedActorMessage<'a, P, A, H>>,

        ensures
            exists|sealed: DispatchedActorMessage<'a, P, A, H>|
                #[trigger] prepared_by(self.spec_identity().channel, sealed, sendable)
                    && is_sealed(sealed, dispatcher, *rtti, message, answer_sender),
    {
        let sealed = dispatched(dispatcher, rtti, message, answer_sender);
        let sendable = self.identity.channel.prepare_send(sealed);
        assert(prepared_by(self.spec_identity().channel, sealed, sendable));
        sendable
    }

    /// Prepare sending a message to this actor that expects no reply.
    pub fn tell<'h, 'a, P, A, H>(
        &'h self,
        dispatcher: ActorMessageDispatcher<H>,
        rtti: &'a MessageRtti,
        message: P,
    ) -> (sendable: C::Sendable) where
        C: ActorChannel<'h, DispatchedActorMessage<'a, P, A, H>>,

        ensures
            exists|sealed: DispatchedActorMessage<'a, P, A, H>|
                #[trigger] prepared_by(self.spec_identity().channel, sealed, sendable)
                    && is_sealed(sealed, dispatcher, *rtti, message, None),
    {
        self.prepare_send(dispatcher, rtti, message, None)
    }

    /// Prepare sending a message to this actor that expects a reply, together with
    /// where the reply comes in: the receiving end of the answer channel whose
    /// sending end the message carries.
    pub fn ask<'h, 'a, P, H, T>(
        &'h self,
        dispatcher: ActorMessageDispatcher<H>,
        rtti: &'a MessageRtti,
        message: P,
    ) -> (ask: AskSendable<C::Sendable, T>) where
        C: ActorChannel<'h, DispatchedActorMessage<'a, P, AnswerSender<T>, H>>,

        ensures
            exists|
                sealed: DispatchedActorMessage<'a, P, AnswerSender<T>, H>,
                sender: AnswerSender<T>,
            |
                {
                    &&& #[trigger] prepared_by(
                        self.spec_identity().channel,
                        sealed,
                        ask.sendable,
                    )
                    &&& #[trigger] is_sealed(sealed, dispatcher, *rtti, message, Some(sender))
                    &&& made_together(sender->Tokio_0, ask.receive->Tokio_0)
                },
    {
        let (answer_sender, receive) = answer_channel();
        let ghost sender = answer_sender;
        let sealed = dispatched(dispatcher, rtti, message, Some(answer_sender));
        let ask = AskSendable { sendable: self.identity.channel.prepare_send(sealed), receive };
        assert(prepared_by(self.spec_identity().channel, sealed, ask.sendable));
        assert(is_sealed(sealed, dispatcher, *rtti, message, Some(sender)));
        ask
    }
}

impl<C, B, S> TypedActorHandle<C, B, S> {
    /// Prepare a typed call to this actor. The form of communication is chosen on
    /// the returned [`MessageCall`].
    pub fn call<'h, 'a, P, H, T>(
        &'h self,
        dispatcher: ActorMessageDispatcher<H>,
        rtti: &'a MessageRtti,
        message: P,
    ) -> (call: MessageCall<PreparedCall<'h, 'a, C, B, S, P, H, T>>) where
        C: ActorChannel<'h, DispatchedActorMessage<'a, P, AnswerSender<T>, H>>,
        C::Sendable: ActorChannelSendable,

        ensures
            call.prepared().spec_channel() == self.spec_identity().channel,
            call.prepared().spec_dispatcher() == dispatcher,
            call.prepared().spec_rtti() == *rtti,
            call.prepared().spec_message() == message,
    {
        MessageCall::new(
            PreparedCall {
                handle: self,
                dispatcher,
                rtti,
                message,
                answer: core::marker::PhantomData,
            },
        )
    }
}

/// A call to an actor of a known type that is answered with a `T`: the handle, and
/// the message with its dispatcher.
#[verifier::reject_recursive_types(T)]
#[derive(Debug)]
pub struct PreparedCall<'h, 'a, C, B, S, P, H, T> {
    handle: &'h TypedActorHandle<C, B, S>,
    dispatcher: ActorMessageDispatcher<H>,
    rtti: &'a MessageRtti,
    message: P,
    answer: core::marker::PhantomData<T>,
}

impl<'h, 'a, C, B, S, P, H, T> PreparedCall<'h, 'a, C, B, S, P, H, T> {
    /// The channel of the actor that is called.
    pub closed spec fn spec_channel(self) -> C {
        self.handle.points_to().channel
    }

    /// The dispatcher of the message.
    pub closed spec fn spec_dispatcher(self) -> ActorMessageDispatcher<H> {
        self.dispatcher
    }

    /// The RTTI of the message.
    pub closed spec fn spec_rtti(self) -> MessageRtti {
        *self.rtti
    }

    /// The message.
    pub closed spec fn spec_message(self) -> P {
        self.message
    }
}

impl<'h, 'a, C, B, S, P, H, T> Sealed for PreparedCall<'h, 'a, C, B, S, P, H, T> {

}

impl<'h, 'a, C, B, S, P, H, T> Calling for PreparedCall<'h, 'a, C, B, S, P, H, T> where
    C: ActorChannel<'h, DispatchedActorMessage<'a, P, AnswerSender<T>, H>>,
    C::Sendable: ActorChannelSendable,
 {
    type Ask = AskSendable<C::Sendable, T>;

    type Tell = C::Sendable;

    type BlockingAsk = AskSendable<C::Sendable, T>;

    type BlockingTell = C::Sendable;

    fn ask(self) -> (asked: AskSendable<C::Sendable, T>)
        ensures
            exists|
                sealed: DispatchedActorMessage<'a, P, AnswerSender<T>, H>,
                sender: AnswerSender<T>,
            |
                {
                    &&& #[trigger] prepared_by(self.spec_channel(), sealed, asked.sendable)
                    &&& #[trigger] is_sealed(
                        sealed,
                        self.spec_dispatcher(),
                        self.spec_rtti(),
                        self.spec_message(),
                        Some(sender),
                    )
                    &&& made_together(sender->Tokio_0, asked.receive->Tokio_0)
                },
    {
        let asked = self.handle.ask(self.dispatcher, self.rtti, self.message);
        proof {
            let (sealed, sender) = choose|
                sealed: DispatchedActorMessage<'a, P, AnswerSender<T>, H>,
                sender: AnswerSender<T>,
            |
                {
                    &&& #[trigger] prepared_by(
                        self.handle.spec_identity().channel,
                        sealed,
                        asked.sendable,
                    )
                    &&& #[trigger] is_sealed(
                        sealed,
                        self.dispatcher,
                        *self.rtti,
                        self.message,
                        Some(sender),
                    )
                    &&& made_together(sender->Tokio_0, asked.receive->Tokio_0)
                };
            assert(prepared_by(self.spec_channel(), sealed, asked.sendable));
            assert(is_sealed(
                sealed,
                self.spec_dispatcher(),
                self.spec_rtti(),
                self.spec_message(),
                Some(sender),
            ));
        }
        asked
    }

    fn tell(self) -> (sendable: C::Sendable)
        ensures
            exists|sealed: DispatchedActorMessage<'a, P, AnswerSender<T>, H>|
                is_sealed(
                    sealed,
                    self.spec_dispatcher(),
                    self.spec_rtti(),
                    self.spec_message(),
                    None,
                ) && #[trigger] prepared_by(
                    self.spec_channel(),
                    sealed,
                    sendable,
                ),
    {
        assert(self.spec_channel() == self.handle.spec_identity().channel && self.spec_rtti()
            == *self.rtti);
        self.handle.tell(self.dispatcher, self.rtti, self.message)
    }

    fn try_tell(self) -> (result: Result<(), ActorChannelSendError>)
        ensures
            exists|
                sealed: DispatchedActorMessage<'a, P, AnswerSender<T>, H>,
                sendable: C::Sendable,
            |
                is_sealed(
                    sealed,
                    self.spec_dispatcher(),
                    self.spec_rtti(),
                    self.spec_message(),
                    None,
                ) && #[trigger] prepared_by(
                    self.spec_channel(),
                    sealed,
                    sendable,
                ) && call_ensures(
                    <C::Sendable as ActorChannelSendable>::try_send,
                    (sendable,),
                    result,
                ),
    {
        self.tell().try_send()
    }

    fn blocking_tell(self) -> (sendable: C::Sendable)
        ensures
            exists|sealed: DispatchedActorMessage<'a, P, AnswerSender<T>, H>|
                is_sealed(
                    sealed,
                    self.spec_dispatcher(),
                    self.spec_rtti(),
                    self.spec_message(),
                    None,
                ) && #[trigger] prepared_by(
                    self.spec_channel(),
                    sealed,
                    sendable,
                ),
    {
        self.tell()
    }

    fn blocking_ask(self) -> (asked: AskSendable<C::Sendable, T>)
        ensures
            exists|
                sealed: DispatchedActorMessage<'a, P, AnswerSender<T>, H>,
                sender: AnswerSender<T>,
            |
                {
                    &&& #[trigger] prepared_by(self.spec_channel(), sealed, asked.sendable)
                    &&& #[trigger] is_sealed(
                        sealed,
                        self.spec_dispatcher(),
                        self.spec_rtti(),
                        self.spec_message(),
                        Some(sender),
                    )
                    &&& made_together(sender->Tokio_0, asked.receive->Tokio_0)
                },
    {
        self.ask()
    }
}

impl<C, B, S: IdentifiedState> TypedActorHandle<C, B, S> {
    /// Watch the actor of `watched`: when it terminates, a signal tagged `tag` is
    /// pushed into *this* actor's mailbox, which is reached through `self_ref`
    /// and handles the signal with the given dispatcher.
    pub fn watch<E, W, D, T, X, Y>(
        &self,
        self_ref: W,
        dispatcher: D,
        watched: &mut SharedActorState<E, W, D, T, X, Y>,
        tag: u64,
    )
        ensures
            ({
                let before = old(watched)@.subscriptions;
                let added = final(watched)@.subscriptions.last();
                &&& final(watched)@ == (ActorStateModel {
                    subscriptions: before.push(added),
                    ..old(watched)@
                })
                &&& added.spec_watcher() == self_ref
                &&& added.spec_watcher_id() == self.spec_identity().shared.spec_id()
                &&& added.spec_dispatcher() == dispatcher
                &&& added.spec_tag() == tag
                &&& added.spec_delivery_policy() == WatchDeliveryPolicy::Always
            }),
            final(watched).same_data(*old(watched)),
    {
        register_watch(self_ref, self.identity.shared.id(), dispatcher, watched, tag);
    }

    /// Stop watching the actor of `watched`: remove every subscription this actor
    /// registered on it. Idempotent; a no-op if not watching (or already fired).
    pub fn unwatch<E, W, D, T, X, Y>(&self, watched: &mut SharedActorState<E, W, D, T, X, Y>)
        ensures
            final(watched)@ == (ActorStateModel {
                subscriptions: without_watcher(
                    old(watched)@.subscriptions,
                    self.spec_identity().shared.spec_id(),
                ),
                ..old(watched)@
            }),
            final(watched).same_data(*old(watched)),
    {
        unregister_watch(self.identity.shared.id(), watched);
    }
}

/// A handle that resolves to a concrete actor's [`TypedActorHandle`].
pub trait DerivedHandle: ActorHandle {
    /// Recover the underlying typed handle.
    fn into_typed_handle(self) -> (typed: TypedActorHandle<
        Self::Channel,
        Self::Binder,
        Self::Shared,
    >)
        ensures
            typed.spec_identity() == self.spec_identity(),
    ;
}

impl<C, B, S> DerivedHandle for TypedActorHandle<C, B, S> {
    fn into_typed_handle(self) -> (typed: TypedActorHandle<C, B, S>) {
        self
    }
}

/// A type-erased handle that may only be used on the thread it is on.
#[derive(Debug)]
pub struct AnyLocalActorHandle<C, B, S> {
    identity: Arc<ActorIdentity<C, B, S>>,
}

impl<C, B, S> Clone for AnyLocalActorHandle<C, B, S> {
    fn clone(&self) -> (handle: Self)
        ensures
            handle == *self,
    {
        AnyLocalActorHandle { identity: self.identity.clone() }
    }
}

impl<C, B, S> ActorHandle for AnyLocalActorHandle<C, B, S> {
    type Channel = C;

    type Binder = B;

    type Shared = S;

    closed spec fn spec_identity(&self) -> ActorIdentity<C, B, S> {
        *self.identity
    }

    fn identity(&self) -> (identity: &Arc<ActorIdentity<C, B, S>>) {
        &self.identity
    }
}

/// A type-erased handle that may be used on any thread.
#[derive(Debug)]
pub struct AnyActorHandle<C, B, S> {
    identity: Arc<ActorIdentity<C, B, S>>,
}

impl<C, B, S> Clone for AnyActorHandle<C, B, S> {
    fn clone(&self) -> (handle: Self)
        ensures
            handle == *self,
    {
        proof {
            use_type_invariant(self);
        }
        AnyActorHandle { identity: self.identity.clone() }
    }
}

impl<C, B, S> ActorHandle for AnyActorHandle<C, B, S> {
    type Channel = C;

    type Binder = B;

    type Shared = S;

    closed spec fn spec_identity(&self) -> ActorIdentity<C, B, S> {
        *self.identity
    }

    fn identity(&self) -> (identity: &Arc<ActorIdentity<C, B, S>>) {
        &self.identity
    }
}

impl<C, B, S> AnyLocalActorHandle<C, B, S> {
    /// What the handle becomes as a shared handle: itself again, if the channel
    /// or error type may not be sent to and shared between threads.
    pub closed spec fn shared(self) -> Result<AnyActorHandle<C, B, S>, Self> {
        if is_shareable(self.spec_identity().rtti) {
            Ok(AnyActorHandle { identity: self.identity })
        } else {
            Err(self)
        }
    }

    /// Try to convert this handle into a shared handle.
    ///
    /// Fails with the handle if the channel or error type may not be sent to and
    /// shared between threads.
    pub fn into_shared(self) -> (result: Result<AnyActorHandle<C, B, S>, Self>)
        ensures
            result == self.shared(),
            result is Ok <==> is_shareable(self.spec_identity().rtti),
            result matches Ok(shared) ==> shared.spec_identity() == self.spec_identity(),
            result matches Err(local) ==> local == self,
    {
        let channel_rtti = self.identity.rtti.channel();
        let error_rtti = self.identity.rtti.error();
        if channel_rtti.is_send() && channel_rtti.is_sync() && error_rtti.send && error_rtti.sync {
            Ok(AnyActorHandle { identity: self.identity })
        } else {
            Err(self)
        }
    }
}

impl<C, B, S> AnyActorHandle<C, B, S> {
    /// The actor's handles may be shared between threads.
    #[verifier::type_invariant]
    pub closed spec fn wf(self) -> bool {
        is_shareable(self.identity.rtti)
    }

    /// The handle as a local handle.
    pub closed spec fn local(self) -> AnyLocalActorHandle<C, B, S> {
        AnyLocalActorHandle { identity: self.identity }
    }

    /// Convert this handle into a local handle.
    pub fn into_local(self) -> (local: AnyLocalActorHandle<C, B, S>)
        ensures
            local == self.local(),
            local.spec_identity() == self.spec_identity(),
            is_shareable(local.spec_identity().rtti),
    {
        proof {
            use_type_invariant(&self);
        }
        AnyLocalActorHandle { identity: self.identity }
    }
}

impl<C, B, S> From<TypedActorHandle<C, B, S>> for AnyLocalActorHandle<C, B, S> {
    fn from(handle: TypedActorHandle<C, B, S>) -> (local: Self) {
        handle.erase_type_local()
    }
}

impl<C, B, S> FromSpecImpl<TypedActorHandle<C, B, S>> for AnyLocalActorHandle<C, B, S> {
    open spec fn obeys_from_spec() -> bool {
        true
    }

    open spec fn from_spec(handle: TypedActorHandle<C, B, S>) -> Self {
        handle.erased()
    }
}

impl<C, B, S> From<AnyActorHandle<C, B, S>> for AnyLocalActorHandle<C, B, S> {
    fn from(shared: AnyActorHandle<C, B, S>) -> (local: Self) {
        shared.into_local()
    }
}

impl<C, B, S> FromSpecImpl<AnyActorHandle<C, B, S>> for AnyLocalActorHandle<C, B, S> {
    open spec fn obeys_from_spec() -> bool {
        true
    }

    open spec fn from_spec(shared: AnyActorHandle<C, B, S>) -> Self {
        shared.local()
    }
}

impl<C, B, S> TryFrom<AnyLocalActorHandle<C, B, S>> for AnyActorHandle<C, B, S> {
    type Error = AnyLocalActorHandle<C, B, S>;

    fn try_from(local: AnyLocalActorHandle<C, B, S>) -> (result: Result<
        Self,
        AnyLocalActorHandle<C, B, S>,
    >) {
        local.into_shared()
    }
}

impl<C, B, S> TryFromSpecImpl<AnyLocalActorHandle<C, B, S>> for AnyActorHandle<C, B, S> {
    open spec fn obeys_try_from_spec() -> bool {
        true
    }

    open spec fn try_from_spec(local: AnyLocalActorHandle<C, B, S>) -> Result<
        Self,
        AnyLocalActorHandle<C, B, S>,
    > {
        local.shared()
    }
}

/// A shared handle made local turns back into the same shared handle, and a local
/// handle that was shared turns back into the same local handle.
pub proof fn local_and_shared_round_trip<C, B, S>(
    shared: AnyActorHandle<C, B, S>,
    local: AnyLocalActorHandle<C, B, S>,
)
    requires
        shared.wf(),
    ensures
        shared.local().shared() == Ok::<AnyActorHandle<C, B, S>, AnyLocalActorHandle<C, B, S>>(
            shared,
        ),
        local.shared() matches Ok(again) ==> again.local() == local,
{
}

/// What an ask comes to: a failed send fails it with that very error, whatever the
/// reply; an answer to one that went through is its result, and without one there is
/// none.
pub proof fn asks_come_to_their_answer<S, T>(
    sent: Result<(), ActorChannelSendError>,
    reply: Option<T>,
    answer: Result<T, AskError>,
)
    requires
        call_ensures(AskSendable::<S, T>::exchange, (sent, reply), answer),
    ensures
        forall|error: ActorChannelSendError|
            answer == Err::<T, AskError>(AskError::SendFailed(error)) <==> sent == Err::<
                (),
                ActorChannelSendError,
            >(error),
        answer == Err::<T, AskError>(AskError::NoReply) <==> sent is Ok && reply is None,
        forall|value: T| answer == Ok::<T, AskError>(value) <==> sent is Ok && reply == Some(value),
{
}

/// A handle may be shared between threads exactly where the actor's channel may be sent
/// and shared and its error type may be sent and shared; it is then a handle to the same
/// actor, and otherwise the handle that it was.
pub proof fn handles_are_shared_as_their_actor_may_be<C, B, S>(
    identity: usize,
    name: &'static str,
    channel_rtti: SendSyncRtti,
    error_rtti: SendSyncRtti,
    rtti: ActorRtti,
    channel: C,
    binder: B,
    shared: S,
    handle: TypedActorHandle<C, B, S>,
    local: AnyLocalActorHandle<C, B, S>,
    result: Result<AnyActorHandle<C, B, S>, AnyLocalActorHandle<C, B, S>>,
)
    requires
        call_ensures(
            ActorRtti::new_named,
            (identity, name, ChannelRtti { send_sync: channel_rtti }, error_rtti),
            rtti,
        ),
        call_ensures(
            TypedActorHandle::<C, B, S>::assemble,
            (rtti, channel, binder, shared),
            handle,
        ),
        call_ensures(TypedActorHandle::<C, B, S>::erase_type_local, (handle,), local),
        call_ensures(AnyLocalActorHandle::<C, B, S>::into_shared, (local,), result),
    ensures
        result is Ok <==> channel_rtti.send && channel_rtti.sync && error_rtti.send
            && error_rtti.sync,
        result matches Ok(any) ==> any.spec_identity() == (ActorIdentity {
            rtti,
            channel,
            binder,
            shared,
        }),
        result matches Err(same) ==> same == local,
        local.spec_identity() == (ActorIdentity { rtti, channel, binder, shared }),
        result is Ok ==> call_requires(TypedActorHandle::<C, B, S>::erase_type, (handle,)),
        forall|any: AnyActorHandle<C, B, S>| #[trigger]
            call_ensures(TypedActorHandle::<C, B, S>::erase_type, (handle,), any)
                ==> any.spec_identity() == local.spec_identity(),
        forall|any: AnyActorHandle<C, B, S>, again: AnyLocalActorHandle<C, B, S>| #[trigger]
            call_ensures(AnyActorHandle::<C, B, S>::into_local, (any,), again)
                ==> again.spec_identity() == any.spec_identity(),
{
}

/// A handle without its type gets it back by naming it: for the address that the actor's
/// type lives at, and for no other.
pub proof fn handles_are_downcast_to_their_own_type<C, B, S>(
    rtti: ActorRtti,
    channel: C,
    binder: B,
    shared: S,
    handle: TypedActorHandle<C, B, S>,
    local: AnyLocalActorHandle<C, B, S>,
    named: ActorRtti,
    numbers: (usize, usize),
    typed: Option<TypedActorHandle<C, B, S>>,
)
    requires
        call_ensures(
            TypedActorHandle::<C, B, S>::assemble,
            (rtti, channel, binder, shared),
            handle,
        ),
        call_ensures(TypedActorHandle::<C, B, S>::erase_type_local, (handle,), local),
        call_ensures(ActorRtti::identity, (&rtti,), numbers.0),
        call_ensures(ActorRtti::identity, (&named,), numbers.1),
        call_ensures(
            <AnyLocalActorHandle<C, B, S> as ActorHandle>::downcast,
            (&local, &named),
            typed,
        ),
    ensures
        typed is Some <==> numbers.0 == numbers.1,
        typed matches Some(typed) ==> typed.spec_identity() == (ActorIdentity {
            rtti,
            channel,
            binder,
            shared,
        }),
        forall|found: &C| #[trigger]
            call_ensures(TypedActorHandle::<C, B, S>::channel, (&handle,), found) ==> *found
                == channel,
        forall|found: &S| #[trigger]
            call_ensures(TypedActorHandle::<C, B, S>::state, (&handle,), found) ==> *found
                == shared,
{
}

/// Whoever watches an actor hears of its end: however a watch is registered, and however
/// many there were before, the last signal is the watch's own. It goes to the watcher
/// and its dispatcher, tells the tag that was chosen, whatever number that is, and is
/// never dropped for want of room.
pub proof fn a_watch_is_told_its_tag<C, B, S: IdentifiedState, E, W, D, T, X, Y>(
    handle: TypedActorHandle<C, B, S>,
    watcher: W,
    watcher_id: ActorId,
    dispatcher: D,
    tag: u64,
    unwatched: SharedActorState<E, W, D, T, X, Y>,
    watched: SharedActorState<E, W, D, T, X, Y>,
    error: E,
    failed: SharedActorState<E, W, D, T, X, Y>,
    rtti: ActorRtti,
    path: TerminalPath,
    deliveries: Vec<Delivery<W, D>>,
)
    requires
        ({
            ||| exists|shared: &mut SharedActorState<E, W, D, T, X, Y>|
                #[trigger] call_ensures(
                    register_watch::<E, W, D, T, X, Y>,
                    (watcher, watcher_id, dispatcher, shared, tag),
                    (),
                ) && *shared == unwatched && *final(shared) == watched
            ||| exists|shared: &mut SharedActorState<E, W, D, T, X, Y>|
                #[trigger] call_ensures(
                    TypedActorHandle::<C, B, S>::watch::<E, W, D, T, X, Y>,
                    (&handle, watcher, dispatcher, shared, tag),
                    (),
                ) && *shared == unwatched && *final(shared) == watched
        }),
        unwatched@.reason is None,
        exists|shared: &mut SharedActorState<E, W, D, T, X, Y>|
            #[trigger] call_ensures(
                SharedActorState::<E, W, D, T, X, Y>::record_failure,
                (shared, error),
                (),
            ) && *shared == watched && *final(shared) == failed,
        match path {
            TerminalPath::Async => exists|shared: &mut SharedActorState<E, W, D, T, X, Y>|
                #[trigger] call_ensures(
                    SharedActorState::<E, W, D, T, X, Y>::notify_subscribers,
                    (shared, rtti),
                    deliveries,
                ) && *shared == failed,
            TerminalPath::Drop => exists|shared: &mut SharedActorState<E, W, D, T, X, Y>|
                #[trigger] call_ensures(
                    SharedActorState::<E, W, D, T, X, Y>::notify_subscribers_now,
                    (shared, rtti),
                    deliveries,
                ) && *shared == failed,
        },
    ensures
        deliveries.len() == unwatched@.subscriptions.len() + 1,
        deliveries@.last().watcher == watcher,
        deliveries@.last().dispatcher == dispatcher,
        deliveries@.last().mode != DeliveryMode::Nonblocking,
        forall|told: u64| #[trigger]
            call_ensures(Terminated::tag, (&deliveries@.last().signal,), told) ==> told == tag,
        forall|told: ActorId| #[trigger]
            call_ensures(Terminated::watched, (&deliveries@.last().signal,), told) ==> told
                == unwatched@.id,
        forall|told: ActorRtti| #[trigger]
            call_ensures(Terminated::rtti, (&deliveries@.last().signal,), told) ==> told == rtti,
        forall|told: TerminationKind| #[trigger]
            call_ensures(Terminated::kind, (&deliveries@.last().signal,), told) ==> told is Failed,
{
    let i = unwatched@.subscriptions.len() as int;
    assert(failed@.subscriptions == watched@.subscriptions);
    assert(failed@.subscriptions.len() == i + 1);
    assert(failed@.subscriptions[i].delivers(
        unwatched@.id,
        rtti,
        TerminationKind::Failed,
        path,
        deliveries@[i],
    ));
}

/// A handle sends the very message: what is handed to the actor's channel is the message
/// sealed with its dispatcher, with the answer sender that was given; an ask carries the
/// sending end of the channel whose receiving end the caller gets, and a tell none.
pub proof fn handles_send_the_very_message<'h, 'a, C, B, S, P, H, T>(
    handle: &'h TypedActorHandle<C, B, S>,
    dispatcher: ActorMessageDispatcher<H>,
    rtti: &'a MessageRtti,
    message: P,
    told: C::Sendable,
    asked: AskSendable<C::Sendable, T>,
) where C: ActorChannel<'h, DispatchedActorMessage<'a, P, AnswerSender<T>, H>>
    requires
        call_ensures(
            TypedActorHandle::<C, B, S>::tell::<P, AnswerSender<T>, H>,
            (handle, dispatcher, rtti, message),
            told,
        ),
        call_ensures(
            TypedActorHandle::<C, B, S>::ask::<P, H, T>,
            (handle, dispatcher, rtti, message),
            asked,
        ),
    ensures
        exists|sealed: DispatchedActorMessage<'a, P, AnswerSender<T>, H>|
            {
                &&& #[trigger] call_ensures(
                    C::prepare_send,
                    (&handle.spec_identity().channel, sealed),
                    told,
                )
                &&& sealed.spec_dispatcher() == dispatcher
                &&& sealed.spec_envelope().spec_rtti() == *rtti
                &&& sealed.spec_envelope().spec_payload() == message
                &&& sealed.spec_envelope().spec_answer_sender() is None
            },
        exists|sealed: DispatchedActorMessage<'a, P, AnswerSender<T>, H>|
            {
                &&& #[trigger] call_ensures(
                    C::prepare_send,
                    (&handle.spec_identity().channel, sealed),
                    asked.sendable,
                )
                &&& sealed.spec_dispatcher() == dispatcher
                &&& sealed.spec_envelope().spec_rtti() == *rtti
                &&& sealed.spec_envelope().spec_payload() == message
                &&& sealed.spec_envelope().spec_answer_sender() matches Some(sender)
                &&& made_together(sender->Tokio_0, asked.receive->Tokio_0)
            },
{
    let channel = handle.spec_identity().channel;
    let sealed = choose|sealed: DispatchedActorMessage<'a, P, AnswerSender<T>, H>|
        #[trigger] prepared_by(channel, sealed, told) && is_sealed(
            sealed,
            dispatcher,
            *rtti,
            message,
            None,
        );
    assert(call_ensures(C::prepare_send, (&channel, sealed), told));
    let (carried, sender) = choose|
        sealed: DispatchedActorMessage<'a, P, AnswerSender<T>, H>,
        sender: AnswerSender<T>,
    |
        {
            &&& #[trigger] prepared_by(channel, sealed, asked.sendable)
            &&& #[trigger] is_sealed(sealed, dispatcher, *rtti, message, Some(sender))
            &&& made_together(sender->Tokio_0, asked.receive->Tokio_0)
        };
    assert(call_ensures(C::prepare_send, (&channel, carried), asked.sendable));
}

/// Ending a watch is removing the watcher's subscriptions, whichever way it is ended:
/// by the id of the watcher, or through the watcher's own handle.
pub proof fn watches_are_ended_by_their_watcher<C, B, S: IdentifiedState, E, W, D, T, X, Y>(
    handle: TypedActorHandle<C, B, S>,
    watcher: ActorId,
    watched: SharedActorState<E, W, D, T, X, Y>,
    unregistered: SharedActorState<E, W, D, T, X, Y>,
    unwatched: SharedActorState<E, W, D, T, X, Y>,
    removed: SharedActorState<E, W, D, T, X, Y>,
)
    requires
        watcher == handle.spec_identity().shared.spec_id(),
        exists|shared: &mut SharedActorState<E, W, D, T, X, Y>|
            #[trigger] call_ensures(
                unregister_watch::<E, W, D, T, X, Y>,
                (watcher, shared),
                (),
            ) && *shared == watched && *final(shared) == unregistered,
        exists|shared: &mut SharedActorState<E, W, D, T, X, Y>|
            #[trigger] call_ensures(
                TypedActorHandle::<C, B, S>::unwatch::<E, W, D, T, X, Y>,
                (&handle, shared),
                (),
            ) && *shared == watched && *final(shared) == unwatched,
        exists|shared: &mut SharedActorState<E, W, D, T, X, Y>|
            #[trigger] call_ensures(
                SharedActorState::<E, W, D, T, X, Y>::remove_subscriptions,
                (shared, watcher),
                (),
            ) && *shared == watched && *final(shared) == removed,
    ensures
        unregistered@ == removed@,
        unwatched@ == removed@,
{
}

} // verus!
