//! Dispatch: messages sealed together with the dispatcher that runs their handler.
use crate::message::envelope::MessageEnvelope;
use vstd::prelude::*;

verus! {

/// Reference to an actor's dispatch context, valid for `'ctx`: work that holds it
/// is gone before the dispatch context goes away.
#[derive(Debug)]
pub struct DispatchContextPtr<'ctx, C> {
    raw: &'ctx C,
}

impl<'ctx, C> DispatchContextPtr<'ctx, C> {
    /// The dispatch context.
    pub closed spec fn context(self) -> C {
        *self.raw
    }

    /// The pointer to the given dispatch context.
    pub closed spec fn pointing_to(ctx: &'ctx C) -> Self {
        DispatchContextPtr { raw: ctx }
    }

    /// Construct a dispatch context pointer from a typed reference.
    pub fn new(ctx: &'ctx C) -> (ptr: Self)
        ensures
            ptr == DispatchContextPtr::pointing_to(ctx),
            ptr.context() == *ctx,
    {
        DispatchContextPtr { raw: ctx }
    }

    /// Recover the typed reference from the pointer.
    pub fn cast_as(self) -> (ctx: &'ctx C)
        ensures
            *ctx == self.context(),
    {
        self.raw
    }
}

/// A dispatcher: what builds and runs the handler of an actor/message pair.
#[derive(Clone, Copy, Debug, PartialEq, Eq)]
pub struct ActorMessageDispatcher<H> {
    pub handler: H,
}

impl<H> ActorMessageDispatcher<H> {
    /// Create a new message dispatcher using the given handler.
    pub fn new(handler: H) -> (dispatcher: Self)
        ensures
            dispatcher.handler == handler,
    {
        ActorMessageDispatcher { handler }
    }

    /// Run the dispatcher on a dispatch context and a message, which yields the
    /// work that handles the message.
    pub fn invoke<'ctx, 'a, C, P, S, W>(
        self,
        ctx: DispatchContextPtr<'ctx, C>,
        message_context: DispatchedActorMessageContext<'a, P, S>,
    ) -> (work: W) where
        H: FnOnce(DispatchContextPtr<'ctx, C>, DispatchedActorMessageContext<'a, P, S>) -> W,

        requires
            call_requires(self.handler, (ctx, message_context)),
        ensures
            call_ensures(self.handler, (ctx, message_context), work),
    {
        (self.handler)(ctx, message_context)
    }
}

/// An [`ActorMessageDispatcher`] as declared for an actor/message pair.
#[derive(Debug)]
pub struct StaticDispatcher<H> {
    dispatcher: ActorMessageDispatcher<H>,
}

impl<H> StaticDispatcher<H> {
    /// The raw dispatcher.
    pub closed spec fn dispatcher(self) -> ActorMessageDispatcher<H> {
        self.dispatcher
    }

    /// Create a static dispatcher from a raw dispatcher.
    pub fn new_unchecked(dispatcher: ActorMessageDispatcher<H>) -> (declared: Self)
        ensures
            declared.dispatcher() == dispatcher,
    {
        StaticDispatcher { dispatcher }
    }

    /// Unwrap the raw dispatcher.
    pub fn into_dispatcher(self) -> (dispatcher: ActorMessageDispatcher<H>)
        ensures
            dispatcher == self.dispatcher(),
    {
        self.dispatcher
    }
}

/// What a dispatcher is run with: the envelope.
#[derive(Debug)]
pub struct DispatchedActorMessageContext<'a, P, S> {
    pub envelope: MessageEnvelope<'a, P, S>,
}

/// The span a handler runs under.
#[derive(Clone, Copy, Debug)]
pub struct HandlerSpan;

impl<'a, P, S> DispatchedActorMessageContext<'a, P, S> {
    /// The context for an envelope.
    pub fn of(envelope: MessageEnvelope<'a, P, S>) -> (context: Self)
        ensures
            context.envelope == envelope,
    {
        DispatchedActorMessageContext { envelope }
    }

    /// Decompose the context into the envelope and the handler span.
    pub fn into_parts(self) -> (parts: (MessageEnvelope<'a, P, S>, HandlerSpan))
        ensures
            parts.0 == self.envelope,
    {
        (self.envelope, HandlerSpan)
    }
}

impl HandlerSpan {
    /// Run handler work under the span. The work itself is unchanged.
    pub fn instrument<F>(self, work: F) -> (instrumented: F)
        ensures
            instrumented == work,
    {
        work
    }
}

/// A message on its way to an actor, together with its dispatcher.
#[derive(Debug)]
pub struct DispatchedActorMessage<'a, P, S, H> {
    dispatcher: ActorMessageDispatcher<H>,
    context: DispatchedActorMessageContext<'a, P, S>,
}

impl<'a, P, S, H> DispatchedActorMessage<'a, P, S, H> {
    /// The dispatcher of the message.
    pub closed spec fn spec_dispatcher(self) -> ActorMessageDispatcher<H> {
        self.dispatcher
    }

    /// The envelope carried by this message.
    pub closed spec fn spec_envelope(self) -> MessageEnvelope<'a, P, S> {
        self.context.envelope
    }

    /// Create a dispatched message from a dispatcher and its context.
    pub fn new(
        dispatcher: ActorMessageDispatcher<H>,
        context: DispatchedActorMessageContext<'a, P, S>,
    ) -> (message: Self)
        ensures
            message.spec_dispatcher() == dispatcher,
            message.spec_envelope() == context.envelope,
    {
        DispatchedActorMessage { dispatcher, context }
    }

    /// The context the dispatcher is run with.
    pub closed spec fn spec_context(self) -> DispatchedActorMessageContext<'a, P, S> {
        self.context
    }

    /// Dispatch the message onto the loop that the given context belongs to: run
    /// its dispatcher on that context, which yields the work that handles the
    /// message.
    pub fn dispatch_onto_loop<'ctx, C, W>(self, ctx: &'ctx C) -> (work: W) where
        H: FnOnce(DispatchContextPtr<'ctx, C>, DispatchedActorMessageContext<'a, P, S>) -> W,

        requires
            call_requires(
                self.spec_dispatcher().handler,
                (DispatchContextPtr::pointing_to(ctx), self.spec_context()),
            ),
        ensures
            call_ensures(
                self.spec_dispatcher().handler,
                (DispatchContextPtr::pointing_to(ctx), self.spec_context()),
                work,
            ),
    {
        let (dispatcher, context) = self.into_parts();
        dispatcher.invoke(DispatchContextPtr::new(ctx), context)
    }

    /// Access the envelope carried by this message.
    pub fn envelope(&self) -> (envelope: &MessageEnvelope<'a, P, S>)
        ensures
            *envelope == self.spec_envelope(),
    {
        &self.context.envelope
    }

    /// Decompose the message into its parts.
    pub fn into_parts(self) -> (parts: (
        ActorMessageDispatcher<H>,
        DispatchedActorMessageContext<'a, P, S>,
    ))
        ensures
            parts.0 == self.spec_dispatcher(),
            parts.1 == self.spec_context(),
            parts.1.envelope == self.spec_envelope(),
    {
        (self.dispatcher, self.context)
    }
}

} // verus!
