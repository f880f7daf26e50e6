//! Protocol calls: a message sealed with its dispatcher, and the ask exchange as a
//! state machine.
use crate::actor::channel::{ActorChannel, ActorChannelSendError, ActorChannelSendable};
use crate::actor::dispatch::{
    ActorMessageDispatcher, DispatchedActorMessage, DispatchedActorMessageContext,
};
use crate::actor::handle::ask_outcome;
use crate::actor::handle::{ActorHandle, AskError, AskSendable, Calling, Sealed};
use crate::message::channel::made_together;
use crate::message::channel::{answer_channel, AnswerReceiver, AnswerSender};
use crate::message::envelope::{EnvelopeType, MessageEnvelope};
use crate::message::rtti::MessageRtti;
use vstd::prelude::*;

verus! {

/// Whether `sealed` is the message, of the type that `rtti` describes, sealed with
/// the dispatcher and, where an answer is expected, the answer sender.
pub open spec fn is_sealed<'a, P, S, H>(
    sealed: DispatchedActorMessage<'a, P, S, H>,
    dispatcher: ActorMessageDispatcher<H>,
    rtti: MessageRtti,
    message: P,
    answer: Option<S>,
) -> bool {
    &&& sealed.spec_dispatcher() == dispatcher
    &&& sealed.spec_envelope().wf()
    &&& sealed.spec_envelope().spec_rtti() == rtti
    &&& sealed.spec_envelope().spec_payload() == message
    &&& sealed.spec_envelope().spec_answer_sender() == answer
    &&& sealed.spec_envelope().spec_ty() == if answer is Some {
        EnvelopeType::Ask
    } else {
        EnvelopeType::Tell
    }
}

/// Seal a message with its pre-bound dispatcher into a dispatched message.
pub fn dispatched<'a, P, S, H>(
    dispatcher: ActorMessageDispatcher<H>,
    rtti: &'a MessageRtti,
    message: P,
    answer: Option<S>,
) -> (sealed: DispatchedActorMessage<'a, P, S, H>)
    ensures
        is_sealed(sealed, dispatcher, *rtti, message, answer),
{
    let envelope = MessageEnvelope::new(rtti, message, answer);
    DispatchedActorMessage::new(dispatcher, DispatchedActorMessageContext::of(envelope))
}

/// What a protocol call needs of a handle: turn a sealed message into one that is
/// prepared to be sent. Every actor handle does.
pub trait ErasedDispatch<'h, M> {
    /// A message prepared to be sent, and not yet sent.
    type Sendable;

    /// Whether `sendable` is `message`, prepared to be sent to the actor.
    spec fn prepares(&self, message: M, sendable: Self::Sendable) -> bool;

    /// Prepare sending a message that is sealed with its dispatcher.
    fn prepare_dispatched(&'h self, message: M) -> (sendable: Self::Sendable)
        ensures
            self.prepares(message, sendable),
    ;
}

impl<'h, M, A: ActorHandle> ErasedDispatch<'h, M> for A where A::Channel: ActorChannel<'h, M> {
    type Sendable = <A::Channel as ActorChannel<'h, M>>::Sendable;

    open spec fn prepares(&self, message: M, sendable: Self::Sendable) -> bool {
        call_ensures(
            <A::Channel as ActorChannel<'h, M>>::prepare_send,
            (&self.spec_identity().channel, message),
            sendable,
        )
    }

    fn prepare_dispatched(&'h self, message: M) -> (sendable: Self::Sendable) {
        self.identity().channel.prepare_send(message)
    }
}

/// A prepared protocol call that is answered with a `T`: the handle, the message's
/// cached dispatcher, and the message itself.
#[verifier::reject_recursive_types(T)]
#[derive(Debug)]
pub struct ErasedCall<'h, 'a, I, P, H, T> {
    inner: &'h I,
    dispatcher: ActorMessageDispatcher<H>,
    rtti: &'a MessageRtti,
    message: P,
    answer: core::marker::PhantomData<T>,
}

impl<'h, 'a, I, P, H, T> ErasedCall<'h, 'a, I, P, H, T> {
    /// The handle of the actor that is called.
    pub closed spec fn spec_inner(self) -> I {
        *self.inner
    }

    /// The cached dispatcher.
    pub closed spec fn spec_dispatcher(self) -> ActorMessageDispatcher<H> {
        self.dispatcher
    }

    /// The RTTI of the message.
    pub closed spec fn spec_rtti(self) -> MessageRtti {
        *self.rtti
    }

    /// The message.
    pub closed spec fn spec_message(self) -> P {
        self.message
    }

    /// Whether `sealed` is the call's message, sealed with its dispatcher and the
    /// given answer sender.
    pub open spec fn seals(
        self,
        answer: Option<AnswerSender<T>>,
        sealed: DispatchedActorMessage<'a, P, AnswerSender<T>, H>,
    ) -> bool {
        is_sealed(
            sealed,
            self.spec_dispatcher(),
            self.spec_rtti(),
            self.spec_message(),
            answer,
        )
    }

    /// Assemble a call from a handle, a message and its cached dispatcher.
    pub fn new(
        inner: &'h I,
        dispatcher: ActorMessageDispatcher<H>,
        rtti: &'a MessageRtti,
        message: P,
    ) -> (call: Self)
        ensures
            call.spec_inner() == *inner,
            call.spec_dispatcher() == dispatcher,
            call.spec_rtti() == *rtti,
            call.spec_message() == message,
    {
        ErasedCall { inner, dispatcher, rtti, message, answer: core::marker::PhantomData }
    }
}

impl<
    'h,
    'a,
    I: ErasedDispatch<'h, DispatchedActorMessage<'a, P, AnswerSender<T>, H>>,
    P,
    H,
    T,
> ErasedCall<'h, 'a, I, P, H, T> {
    /// Whether `sendable` is what the call's handle makes of its message, sealed
    /// with the given answer sender.
    pub open spec fn prepares(
        self,
        answer: Option<AnswerSender<T>>,
        sendable: I::Sendable,
    ) -> bool {
        exists|sealed: DispatchedActorMessage<'a, P, AnswerSender<T>, H>| #[trigger]
            self.seals(answer, sealed) && self.spec_inner().prepares(sealed, sendable)
    }

    /// Prepare the message of this call to be sent, optionally carrying an answer
    /// sender.
    pub fn sendable(self, answer: Option<AnswerSender<T>>) -> (sendable: I::Sendable)
        ensures
            self.prepares(answer, sendable),
    {
        let sealed = dispatched(self.dispatcher, self.rtti, self.message, answer);
        assert(self.seals(answer, sealed));
        self.inner.prepare_dispatched(sealed)
    }

    /// Begin asking: the message to send, carrying the sending end of a new answer
    /// channel, and the exchange that waits for the send and then, at the receiving
    /// end, for the answer.
    pub fn into_future(self) -> (begun: (I::Sendable, ErasedAsk<AnswerReceiver<T>>))
        ensures
            exists|sender: AnswerSender<T>| #[trigger]
                self.prepares(Some(sender), begun.0) && (begun.1.state() matches AskState::Sending(
                    receiver,
                ) && made_together(sender->Tokio_0, receiver->Tokio_0)),
    {
        let (sender, receiver) = answer_channel();
        let ghost answer = sender;
        let sendable = self.sendable(Some(sender));
        let begun = (sendable, ErasedAsk { state: AskState::Sending(receiver) });
        assert(self.prepares(Some(answer), begun.0));
        begun
    }
}

impl<'h, 'a, I, P, H, T> Sealed for ErasedCall<'h, 'a, I, P, H, T> {

}

impl<
    'h,
    'a,
    I: ErasedDispatch<'h, DispatchedActorMessage<'a, P, AnswerSender<T>, H>>,
    P,
    H,
    T,
> Calling for ErasedCall<'h, 'a, I, P, H, T> where I::Sendable: ActorChannelSendable {
    type Ask = (I::Sendable, ErasedAsk<AnswerReceiver<T>>);

    type Tell = I::Sendable;

    type BlockingAsk = AskSendable<I::Sendable, T>;

    type BlockingTell = I::Sendable;

    fn ask(self) -> (begun: (I::Sendable, ErasedAsk<AnswerReceiver<T>>))
        ensures
            exists|sender: AnswerSender<T>| #[trigger]
                self.prepares(Some(sender), begun.0) && (begun.1.state() matches AskState::Sending(
                    receiver,
                ) && made_together(sender->Tokio_0, receiver->Tokio_0)),
    {
        self.into_future()
    }

    fn tell(self) -> (sendable: I::Sendable)
        ensures
            self.prepares(None, sendable),
    {
        self.sendable(None)
    }

    fn try_tell(self) -> (result: Result<(), ActorChannelSendError>)
        ensures
            exists|sendable: I::Sendable| #[trigger]
                self.prepares(None, sendable) && call_ensures(
                    <I::Sendable as ActorChannelSendable>::try_send,
                    (sendable,),
                    result,
                ),
    {
        self.sendable(None).try_send()
    }

    fn blocking_tell(self) -> (sendable: I::Sendable)
        ensures
            self.prepares(None, sendable),
    {
        self.sendable(None)
    }

    fn blocking_ask(self) -> (asked: AskSendable<I::Sendable, T>)
        ensures
            exists|sender: AnswerSender<T>| #[trigger]
                self.prepares(Some(sender), asked.sendable) && made_together(
                    sender->Tokio_0,
                    asked.receive->Tokio_0,
                ),
    {
        let (sender, receive) = answer_channel();
        let ghost answer = sender;
        let asked = AskSendable { sendable: self.sendable(Some(sender)), receive };
        assert(self.prepares(Some(answer), asked.sendable));
        asked
    }
}

/// Where an ask exchange is.
#[derive(Debug)]
pub enum AskState<R> {
    /// The message is being sent; the answer is awaited behind it.
    Sending(R),
    /// The message is sent; the answer is awaited.
    Receiving(R),
    /// The exchange is over.
    Done,
}

/// What polling an ask exchange's current step found.
#[derive(Debug)]
pub enum AskEvent<T> {
    /// The send was polled: it is not done yet.
    SendPending,
    /// The send was polled: it is done.
    Sent(Result<(), ActorChannelSendError>),
    /// The answer receiver was polled: there is nothing yet.
    ReplyPending,
    /// The answer receiver was polled: it has the answer, or `None` if there will
    /// be none.
    Replied(Option<T>),
}

/// How an ask exchange goes on.
#[derive(Debug)]
pub enum AskStep<T> {
    /// Nothing more to do until woken.
    Pending,
    /// The answer receiver is to be polled, right now.
    PollReply,
    /// The exchange is over.
    Ready(Result<T, AskError>),
}

/// One step of an ask exchange: where it is next, and how it goes on.
pub open spec fn ask_step<R, T>(state: AskState<R>, event: AskEvent<T>) -> (
    AskState<R>,
    AskStep<T>,
) {
    match event {
        AskEvent::SendPending | AskEvent::ReplyPending => (state, AskStep::Pending),
        AskEvent::Sent(Ok(())) => (AskState::Receiving(state->Sending_0), AskStep::PollReply),
        AskEvent::Sent(Err(error)) => (
            AskState::Done,
            AskStep::Ready(Err(AskError::SendFailed(error))),
        ),
        AskEvent::Replied(Some(answer)) => (AskState::Done, AskStep::Ready(Ok(answer))),
        AskEvent::Replied(None) => (AskState::Done, AskStep::Ready(Err(AskError::NoReply))),
    }
}

/// A polled exchange comes to what an awaited or blocking one does: once the send
/// is done, and the reply is in where it went through, the exchange is over with
/// the same outcome. Until then nothing it is polled with moves it.
pub proof fn polled_exchanges_come_to_the_same<R, T>(
    receiver: R,
    sent: Result<(), ActorChannelSendError>,
    reply: Option<T>,
)
    ensures
        ask_step(AskState::Sending(receiver), AskEvent::<T>::SendPending) == (
            AskState::Sending(receiver),
            AskStep::<T>::Pending,
        ),
        ask_step(AskState::Receiving(receiver), AskEvent::<T>::ReplyPending) == (
            AskState::Receiving(receiver),
            AskStep::<T>::Pending,
        ),
        ({
            let (after_send, send_step) = ask_step(
                AskState::Sending(receiver),
                AskEvent::<T>::Sent(sent),
            );
            if sent is Err {
                &&& after_send is Done
                &&& send_step == AskStep::Ready(ask_outcome(sent, reply))
            } else {
                let (after_reply, reply_step) = ask_step(after_send, AskEvent::Replied(reply));
                &&& after_send == AskState::Receiving(receiver)
                &&& send_step is PollReply
                &&& after_reply is Done
                &&& reply_step == AskStep::Ready(ask_outcome(sent, reply))
            }
        }),
{
}

/// The ask exchange of an [`ErasedCall`]: drive the send, then await the reply.
#[derive(Debug)]
pub struct ErasedAsk<R> {
    state: AskState<R>,
}

impl<R> ErasedAsk<R> {
    /// Where the exchange is.
    pub closed spec fn state(self) -> AskState<R> {
        self.state
    }

    /// Whether the exchange waits for the given event. Nothing may be polled
    /// after the exchange is over.
    pub open spec fn awaits<T>(self, event: AskEvent<T>) -> bool {
        match event {
            AskEvent::SendPending | AskEvent::Sent(_) => self.state() is Sending,
            AskEvent::ReplyPending | AskEvent::Replied(_) => self.state() is Receiving,
        }
    }

    /// The answer receiver, while the answer is awaited.
    pub fn receiver(&mut self) -> (receiver: Option<&mut R>)
        ensures
            receiver is Some <==> old(self).state() is Receiving,
            receiver is None ==> *final(self) == *old(self),
            receiver matches Some(receiver) ==> old(self).state() == AskState::Receiving(*receiver)
                && final(self).state() == AskState::Receiving(*final(receiver)),
    {
        match &mut self.state {
            AskState::Receiving(receiver) => Some(receiver),
            _ => None,
        }
    }

    /// Take one step of the exchange. A send that failed ends it with the send
    /// error; a send that went through makes the answer receiver be polled at
    /// once; an answer ends it with the answer, and the lack of one with
    /// [`AskError::NoReply`].
    pub fn poll<T>(&mut self, event: AskEvent<T>) -> (step: AskStep<T>)
        requires
            old(self).awaits(event),
        ensures
            (final(self).state(), step) == ask_step(old(self).state(), event),
    {
        match event {
            AskEvent::SendPending | AskEvent::ReplyPending => AskStep::Pending,
            AskEvent::Sent(Ok(())) => {
                let mut state: AskState<R> = AskState::Done;
                core::mem::swap(&mut state, &mut self.state);
                if let AskState::Sending(receiver) = state {
                    self.state = AskState::Receiving(receiver);
                }
                AskStep::PollReply
            },
            AskEvent::Sent(Err(error)) => {
                self.state = AskState::Done;
                AskStep::Ready(Err(AskError::SendFailed(error)))
            },
            AskEvent::Replied(reply) => {
                self.state = AskState::Done;
                match reply {
                    Some(answer) => AskStep::Ready(Ok(answer)),
                    None => AskStep::Ready(Err(AskError::NoReply)),
                }
            },
        }
    }
}

/// A sealed message is the message that was sealed: taken apart, it gives back its
/// dispatcher, its type, the very message, and the answer sender where one was sealed
/// in.
pub proof fn sealing_keeps_every_part<'a, P, S, H>(
    dispatcher: ActorMessageDispatcher<H>,
    rtti: &'a MessageRtti,
    message: P,
    answer: Option<S>,
    sealed: DispatchedActorMessage<'a, P, S, H>,
    parts: (ActorMessageDispatcher<H>, DispatchedActorMessageContext<'a, P, S>),
    unwrapped: Result<(P, Option<S>), MessageEnvelope<'a, P, S>>,
)
    requires
        call_ensures(dispatched::<P, S, H>, (dispatcher, rtti, message, answer), sealed),
        call_ensures(DispatchedActorMessage::<'a, P, S, H>::into_parts, (sealed,), parts),
        call_ensures(MessageEnvelope::<'a, P, S>::unwrap, (parts.1.envelope, rtti), unwrapped),
    ensures
        parts.0 == dispatcher,
        unwrapped == Ok::<(P, Option<S>), MessageEnvelope<'a, P, S>>((message, answer)),
        forall|told: &'a MessageRtti| #[trigger]
            call_ensures(MessageEnvelope::<'a, P, S>::rtti, (&parts.1.envelope,), told) ==> *told
                == *rtti,
        forall|ty: EnvelopeType| #[trigger]
            call_ensures(MessageEnvelope::<'a, P, S>::ty, (&parts.1.envelope,), ty) ==> (ty is Ask
                <==> answer is Some),
{
}

/// A call sends its own message, once: telling and asking hand the actor's handle the
/// message of the call, sealed with the dispatcher of the call, an ask with the sending
/// end of the answer channel whose receiving end the caller gets, a tell without any.
pub proof fn calls_send_their_own_message<
    'h,
    'a,
    I: ErasedDispatch<'h, DispatchedActorMessage<'a, P, AnswerSender<T>, H>>,
    P,
    H,
    T,
>(
    inner: &'h I,
    dispatcher: ActorMessageDispatcher<H>,
    rtti: &'a MessageRtti,
    message: P,
    call: ErasedCall<'h, 'a, I, P, H, T>,
    answer: Option<AnswerSender<T>>,
    sendable: I::Sendable,
    begun: (I::Sendable, ErasedAsk<AnswerReceiver<T>>),
)
    requires
        call_ensures(
            ErasedCall::<'h, 'a, I, P, H, T>::new,
            (inner, dispatcher, rtti, message),
            call,
        ),
        call_ensures(ErasedCall::<'h, 'a, I, P, H, T>::sendable, (call, answer), sendable),
        call_ensures(ErasedCall::<'h, 'a, I, P, H, T>::into_future, (call,), begun),
    ensures
        exists|sealed: DispatchedActorMessage<'a, P, AnswerSender<T>, H>|
            {
                &&& #[trigger] inner.prepares(sealed, sendable)
                &&& sealed.spec_dispatcher() == dispatcher
                &&& sealed.spec_envelope().spec_rtti() == *rtti
                &&& sealed.spec_envelope().spec_payload() == message
                &&& sealed.spec_envelope().spec_answer_sender() == answer
            },
        exists|sealed: DispatchedActorMessage<'a, P, AnswerSender<T>, H>|
            {
                &&& #[trigger] inner.prepares(sealed, begun.0)
                &&& sealed.spec_dispatcher() == dispatcher
                &&& sealed.spec_envelope().spec_rtti() == *rtti
                &&& sealed.spec_envelope().spec_payload() == message
                &&& sealed.spec_envelope().spec_answer_sender() matches Some(sender)
                &&& begun.1.state() matches AskState::Sending(receiver)
                &&& made_together(sender->Tokio_0, receiver->Tokio_0)
            },
{
    let sealed = choose|sealed: DispatchedActorMessage<'a, P, AnswerSender<T>, H>| #[trigger]
        call.seals(answer, sealed) && call.spec_inner().prepares(sealed, sendable);
    assert(inner.prepares(sealed, sendable));
    let sender = choose|sender: AnswerSender<T>| #[trigger]
        call.prepares(Some(sender), begun.0) && (begun.1.state() matches AskState::Sending(
            receiver,
        ) && made_together(sender->Tokio_0, receiver->Tokio_0));
    let asked = choose|sealed: DispatchedActorMessage<'a, P, AnswerSender<T>, H>| #[trigger]
        call.seals(Some(sender), sealed) && call.spec_inner().prepares(sealed, begun.0);
    assert(inner.prepares(asked, begun.0));
}

/// An ask goes through its two steps in order, with the same receiver: it stays where
/// it is while its step is pending; a send that went through makes the reply be polled,
/// a send that failed ends it with that very error, an answer with that very answer,
/// and the lack of one with that there is none. It is over exactly then.
pub proof fn an_ask_sends_then_receives<R, T>(
    before: ErasedAsk<R>,
    event: AskEvent<T>,
    after: ErasedAsk<R>,
    step: AskStep<T>,
)
    requires
        exists|ask: &mut ErasedAsk<R>|
            #[trigger] call_ensures(ErasedAsk::<R>::poll::<T>, (ask, event), step) && *ask == before
                && *final(ask) == after,
        before.state() is Sending ==> event is SendPending || event is Sent,
        before.state() is Receiving ==> event is ReplyPending || event is Replied,
        before.state() !is Done,
    ensures
        step is Pending <==> event is SendPending || event is ReplyPending,
        step is Pending ==> after.state() == before.state(),
        step is PollReply <==> (event matches AskEvent::Sent(Ok(_))),
        step is PollReply ==> (before.state() matches AskState::Sending(receiver) && after.state()
            == AskState::Receiving(receiver)),
        step is Ready <==> after.state() is Done,
        event matches AskEvent::Sent(Err(error)) ==> step == AskStep::<T>::Ready(
            Err(AskError::SendFailed(error)),
        ),
        event matches AskEvent::Replied(Some(answer)) ==> step == AskStep::Ready(Ok(answer)),
        event matches AskEvent::Replied(None) ==> step == AskStep::<T>::Ready(
            Err(AskError::NoReply),
        ),
        forall|ask: &mut ErasedAsk<R>|
            *ask == before ==> #[trigger] call_requires(ErasedAsk::<R>::poll::<T>, (ask, event)),
{
}

/// Every handle sends through the channel of its actor.
pub proof fn handles_send_through_their_channel<'h, M, A: ActorHandle>(
    handle: &'h A,
    message: M,
    sendable: <A as ErasedDispatch<'h, M>>::Sendable,
) where A::Channel: ActorChannel<'h, M>
    requires
        call_ensures(<A as ErasedDispatch<'h, M>>::prepare_dispatched, (handle, message), sendable),
    ensures
        call_ensures(
            <A::Channel as ActorChannel<'h, M>>::prepare_send,
            (&handle.spec_identity().channel, message),
            sendable,
        ),
{
}

} // verus!
