//! Handles, calls, contexts and locks.
use factories_actor::actor::binder::{ActorRuntimeBinder, StaticOnlyBinder};
use factories_actor::actor::channel::{ActorChannel, ActorChannelSendError};
use factories_actor::actor::context::{ActorContext, MessageHandlerContext};
use factories_actor::actor::dispatch::{
    ActorMessageDispatcher, DispatchContextPtr, DispatchedActorMessage,
    DispatchedActorMessageContext, StaticDispatcher,
};
use factories_actor::actor::event::{DemandSendDriver, EventContext};
use factories_actor::actor::handle::{
    register_watch, unregister_watch, ActorHandle, AnyActorHandle, AnyLocalActorHandle, AskError,
    AskSendable, Calling, DerivedHandle, MessageCall, Sealed, TypedActorHandle, WeakActorHandle,
};
use factories_actor::actor::protocol::{AskEvent, AskStep, ErasedCall};
use factories_actor::actor::rtti::{ActorRtti, ChannelRtti, SendSyncRtti};
use factories_actor::actor::state::{LifecycleState, SharedActorState};
use factories_actor::actor::supervision::ActorIdSource;
use factories_actor::actor::task::{ActorTaskHandle, ActorTaskHandleVTable};
use factories_actor::actor::work::{
    into_work, FutureWork, FutureWorkConverter, NoWork, SendFutureConverter,
};
use factories_actor::message::channel::AnswerSender;
use factories_actor::message::envelope::{EnvelopeType, MessageEnvelope};
use factories_actor::message::rtti::{BasicTypeRtti, MessageRtti};
use factories_actor::runtime::lock::{
    AccessMode, Exclusive, ExclusiveLockStrategy, LockStrategy, Shared, UnguardedGuard,
    UnguardedLock,
};
use factories_actor::runtime::routing::{LanePoll, NoPriorityRouter};
use factories_actor::runtime::tokio_backend::channel::{
    TokioMpscMultiLineActorChannel, TokioMpscMultilaneActorMailbox,
};
use factories_actor::runtime::tokio_backend::lock::{TokioMutexLock, TokioRwLock};
use factories_actor::runtime::tokio_backend::spawner::TokioTaskSpawner;
use std::cell::Cell;

type State = SharedActorState<&'static str, &'static str, char, (), u32, ()>;

const OPEN: SendSyncRtti = SendSyncRtti {
    send: true,
    sync: true,
};

fn actor(identity: usize, error: SendSyncRtti) -> ActorRtti {
    ActorRtti::new_named(identity, "Counter", ChannelRtti::new(OPEN), error)
}

fn message(identity: usize) -> &'static MessageRtti {
    let info = BasicTypeRtti::new::<u32>();
    Box::leak(Box::new(MessageRtti::new_named(
        identity, "Add", info, true, true, true, info,
    )))
}

fn state(source: &mut ActorIdSource) -> State {
    SharedActorState::new(source, 5, ())
}

fn handle(source: &mut ActorIdSource) -> TypedActorHandle<&'static str, StaticOnlyBinder, State> {
    TypedActorHandle::assemble(actor(80, OPEN), "channel", StaticOnlyBinder, state(source))
}

/// A component with a plain method behind its handler.
struct Customized {
    hits: u32,
}

impl Customized {
    fn touch(&mut self) {
        self.hits += 1;
    }
}

#[test]
fn handler_methods_stay_plain_methods() {
    let mut customized = Customized { hits: 0 };
    customized.touch();
    assert_eq!(customized.hits, 1);
}

#[test]
fn handler_methods_run_under_a_guard() {
    let mut lock = UnguardedLock::new(Customized { hits: 0 });
    let rtti = message(8);
    let envelope: MessageEnvelope<'_, u32, ()> = MessageEnvelope::new(rtti, 3, None);
    let mut context = MessageHandlerContext::new(lock.acquire(), (), rtti, envelope).unwrap();
    assert_eq!(*context.message(), 3);
    context.guard_mut().deref_mut().touch();
    assert_eq!(context.guard().deref().hits, 1);
    let (guard, message, answer) = context.into_parts();
    assert_eq!((message, answer), (3, None));
    drop(guard);
    assert_eq!(lock.into_inner().hits, 1);
}

struct LockActor {
    value: u32,
}

fn acquire(lock: &mut UnguardedLock<LockActor>) -> UnguardedGuard<'_, LockActor> {
    lock.acquire_exclusive()
}

#[test]
fn sequential_acquisitions_share_state() {
    let mut lock = UnguardedLock::new(LockActor { value: 5 });

    let mut guard = acquire(&mut lock);
    guard.deref_mut().value += 1;
    drop(guard);

    let guard = acquire(&mut lock);
    assert_eq!(guard.deref().value, 6);
    drop(guard);

    assert_eq!(lock.into_inner().value, 6);
}

#[test]
fn a_dropped_guard_frees_the_lock() {
    let mut lock = UnguardedLock::from(1u8);
    let mut guard = <Exclusive as AccessMode<u8, _>>::acquire(&mut lock);
    *guard.deref_mut() = 3;
    drop(guard);
    let guard = <Shared as AccessMode<u8, _>>::acquire(&mut lock);
    assert_eq!(*guard.deref(), 3);
    drop(guard);
    *lock.acquire().deref_mut() += 4;
    assert_eq!(*lock.acquire().deref(), 7);
    *lock.get_mut() = 2;
    assert_eq!(LockStrategy::into_inner(lock), 2);
}

#[test]
fn tokio_locks_hold_and_return_the_actor() {
    let lock = TokioMutexLock::new(LockActor { value: 1 });
    lock.mutex().try_lock().unwrap().value += 1;
    assert_eq!(lock.into_inner().value, 2);
    let lock = TokioRwLock::new(LockActor { value: 3 });
    lock.lock().try_write().unwrap().value += 1;
    assert_eq!(LockStrategy::into_inner(lock).value, 4);
    assert_eq!(TokioMutexLock::from(5).into_inner(), 5);
    assert_eq!(TokioRwLock::from(6).into_inner(), 6);
}

#[test]
fn tokio_locks_are_acquired_through_access_modes() {
    let lock = TokioMutexLock::new(1u8);
    let acquisition = <Exclusive as AccessMode<u8, _>>::acquire(&lock);
    let mut guard = acquisition.lock.try_lock().unwrap();
    *guard = 2;
    assert!(lock.mutex().try_lock().is_err(), "it is this lock that is held");
    drop(guard);
    assert_eq!(lock.into_inner(), 2);
    let lock = TokioRwLock::new(3u8);
    *<Exclusive as AccessMode<u8, _>>::acquire(&lock).lock.try_write().unwrap() = 4;
    let acquisition = <Shared as AccessMode<u8, _>>::acquire(&lock);
    assert_eq!(*acquisition.lock.try_read().unwrap(), 4);
}

#[test]
fn a_driver_acquires_the_actors_lock() {
    let lock = TokioRwLock::new(5u8);
    let context = EventContext::new(&lock, &"shared");
    *context.acquire_exclusive::<u8>().lock.try_write().unwrap() += 1;
    assert_eq!(*context.acquire_shared::<u8>().lock.try_read().unwrap(), 6);
    assert_eq!(lock.into_inner(), 6);
}

#[test]
fn a_spawner_needs_a_runtime() {
    assert!(TokioTaskSpawner::current().is_none());
    let runtime = tokio::runtime::Builder::new_current_thread()
        .build()
        .unwrap();
    let _inside = runtime.enter();
    let spawner = TokioTaskSpawner::current().unwrap();
    assert_eq!(spawner.handle().id(), runtime.handle().id());
    let direct = TokioTaskSpawner::new(runtime.handle().clone());
    assert_eq!(direct.handle().id(), runtime.handle().id());
}

#[test]
fn handles_downcast_to_their_own_actor_type() {
    let mut source = ActorIdSource::new();
    let handle = handle(&mut source);
    assert_eq!(*handle.channel(), "channel");
    assert_eq!(handle.state().id().as_usize(), 1);
    let local = handle.clone().erase_type_local();
    assert_eq!(*local.rtti(), actor(80, OPEN));
    assert!(local.downcast(&actor(88, OPEN)).is_none());
    let typed = local.downcast(&actor(80, OPEN)).unwrap();
    assert_eq!(typed.state().id(), handle.state().id());
    let derived = typed.into_typed_handle();
    assert_eq!(*derived.channel(), "channel");
}

#[test]
fn weak_handles_do_not_keep_their_actor() {
    let mut source = ActorIdSource::new();
    let strong = handle(&mut source);
    let other = handle(&mut source);
    let weak = strong.downgrade();
    let upgraded = weak.clone().upgrade().unwrap();
    assert_eq!(upgraded.state().id(), strong.state().id());
    assert_ne!(upgraded.state().id(), other.state().id());
    drop(strong);
    assert!(weak.upgrade().is_some(), "one strong handle is left");
    drop(upgraded);
    assert!(weak.upgrade().is_none());
    let dangling: WeakActorHandle<u8, StaticOnlyBinder, ()> = WeakActorHandle::dangling();
    assert!(dangling.upgrade().is_none());
    assert!(dangling.clone().upgrade().is_none());
}

#[test]
fn a_context_hands_out_its_actor() {
    type Weak = WeakActorHandle<&'static str, StaticOnlyBinder, u8>;
    let strong = TypedActorHandle::assemble(actor(80, OPEN), "channel", StaticOnlyBinder, 9u8);
    let weak = strong.downgrade();
    let mut source = ActorIdSource::new();
    let mut shared: SharedActorState<(), Weak, (), (), (), ()> =
        SharedActorState::new(&mut source, (), ());
    let context = ActorContext::new(&mut shared, &weak);
    assert_eq!(*context.actor_ref().unwrap().state(), 9);
    assert_eq!(*context.weak_ref().upgrade().unwrap().state(), 9);
    drop(strong);
    assert!(context.actor_ref().is_none());
}

#[test]
fn shared_handles_need_open_channel_and_error() {
    let mut source = ActorIdSource::new();
    let shared = handle(&mut source).erase_type();
    let local: AnyLocalActorHandle<_, _, _> = shared.into();
    let again = AnyActorHandle::try_from(local).unwrap();
    assert_eq!(again.clone().into_local().rtti().name(), "Counter");

    for (channel, error) in [
        (OPEN, SendSyncRtti { send: true, sync: false }),
        (OPEN, SendSyncRtti { send: false, sync: true }),
        (SendSyncRtti { send: true, sync: false }, OPEN),
        (SendSyncRtti { send: false, sync: true }, OPEN),
    ] {
        let rtti = ActorRtti::new_named(96, "Homebound", ChannelRtti::new(channel), error);
        let homebound =
            TypedActorHandle::assemble(rtti, "channel", StaticOnlyBinder, state(&mut source));
        let local = AnyLocalActorHandle::from(homebound);
        let kept = local.into_shared().unwrap_err();
        assert_eq!(kept.rtti().name(), "Homebound");
    }
}

#[derive(Clone, Copy)]
struct OneBinder;

impl ActorRuntimeBinder<ActorMessageDispatcher<char>> for OneBinder {
    fn bind(&self, message: &MessageRtti) -> Option<ActorMessageDispatcher<char>> {
        if message.identity() == 8 {
            Some(ActorMessageDispatcher::new('h'))
        } else {
            None
        }
    }
}

#[test]
fn dynamic_sends_go_through_the_binder() {
    let mut source = ActorIdSource::new();
    let (channel, mut mailbox) = Channel::new_bounded(1);
    let handle =
        TypedActorHandle::assemble(actor(80, OPEN), channel, OneBinder, state(&mut source))
            .erase_type();
    let send = |identity| {
        let message: MessageEnvelope<'_, u32, AnswerSender<u32>> =
            MessageEnvelope::new(message(identity), 5, None);
        let sendable = handle.prepare_send_dynamic::<_, _, char>(message)?;
        Some(sendable.try_send())
    };
    assert_eq!(send(16), None, "only what binds is sent");
    assert_eq!(send(8), Some(Ok(())));
    assert_eq!(send(8), Some(Err(ActorChannelSendError::MailboxFull)));
    let (handler, payload, answer) = next(&mut mailbox);
    assert_eq!((handler, payload, answer.is_none()), ('h', 5, true));
}

/// Hands every message back as its sendable.
struct HandingBack;

impl<'c> ActorChannel<'c, Message> for HandingBack {
    type Sendable = Message;

    fn prepare_send(&'c self, message: Message) -> Message {
        message
    }
}

#[test]
fn tells_and_asks_go_to_the_actors_channel() {
    let mut source = ActorIdSource::new();
    let (reached, mut mailbox) = reachable(&mut source);
    let sendable = reached.tell(ActorMessageDispatcher::new('t'), message(8), 4);
    assert_eq!(sendable.try_send(), Ok(()));
    let (handler, payload, answer) = next(&mut mailbox);
    assert_eq!((handler, payload, answer.is_none()), ('t', 4, true));
    let mut ask = reached.ask(ActorMessageDispatcher::new('a'), message(8), 6);
    assert_eq!(ask.sendable.try_send(), Ok(()));
    let (handler, payload, answer) = next(&mut mailbox);
    assert_eq!((handler, payload), ('a', 6));
    answer.unwrap().send(60u32).unwrap();
    assert_eq!(ask.receive.try_recv(), Some(Some(60)));
    let sendable =
        reached.prepare_send(ActorMessageDispatcher::new('p'), message(8), 7, None);
    assert_eq!(sendable.try_send(), Ok(()));
    assert_eq!(next(&mut mailbox).1, 7);
    drop(mailbox);
    let sendable = reached.tell(ActorMessageDispatcher::new('t'), message(8), 4);
    assert_eq!(sendable.try_send(), Err(ActorChannelSendError::ActorDead));

    let handed =
        TypedActorHandle::assemble(actor(80, OPEN), HandingBack, StaticOnlyBinder, ());
    let told = handed.tell(ActorMessageDispatcher::new('t'), message(8), 4);
    assert_eq!(told.envelope().ty(), EnvelopeType::Tell);
    assert_eq!(told.envelope().payload(message(8)), Some(&4));
    let asked = handed.ask::<_, _, u32>(ActorMessageDispatcher::new('a'), message(8), 6);
    assert_eq!(asked.sendable.envelope().ty(), EnvelopeType::Ask);
}

#[test]
fn exchange_outcomes() {
    type Exchange = AskSendable<(), u32>;
    assert_eq!(Exchange::exchange(Ok(()), Some(7)), Ok(7));
    assert_eq!(Exchange::exchange(Ok(()), None), Err(AskError::NoReply));
    assert_eq!(
        Exchange::exchange(Err(ActorChannelSendError::MailboxFull), Some(7)),
        Err(AskError::SendFailed(ActorChannelSendError::MailboxFull))
    );
    assert_eq!(
        AskError::from(ActorChannelSendError::ActorDead),
        AskError::SendFailed(ActorChannelSendError::ActorDead)
    );
}

type Message = DispatchedActorMessage<'static, u32, AnswerSender<u32>, char>;
type Channel = TokioMpscMultiLineActorChannel<1, Message, NoPriorityRouter>;
type Mailbox = TokioMpscMultilaneActorMailbox<1, Message>;

/// A handle whose channel has room for one message, and the mailbox behind it.
fn reachable(
    source: &mut ActorIdSource,
) -> (TypedActorHandle<Channel, StaticOnlyBinder, State>, Mailbox) {
    let (channel, mailbox) = Channel::new_bounded(1);
    let handle =
        TypedActorHandle::assemble(actor(80, OPEN), channel, StaticOnlyBinder, state(source));
    (handle, mailbox)
}

/// What is in the mailbox: the handler, the payload and the answer sender.
fn next(mailbox: &mut Mailbox) -> (char, u32, Option<AnswerSender<u32>>) {
    match mailbox.try_receive() {
        LanePoll::Ready(Some(received)) => {
            let (dispatcher, context) = received.into_parts();
            let rtti = context.envelope.rtti();
            let (payload, answer) = context.envelope.unwrap_unchecked(rtti);
            (dispatcher.handler, payload, answer)
        }
        _ => panic!("expected a message"),
    }
}

#[test]
fn an_erased_ask_sends_then_receives() {
    let mut source = ActorIdSource::new();
    let (handle, mut mailbox) = reachable(&mut source);
    let handle = handle.erase_type();
    let call = ErasedCall::new(&handle, ActorMessageDispatcher::new('d'), message(8), 9);
    let (sendable, mut ask) = call.into_future();
    assert!(ask.receiver().is_none());
    assert!(matches!(
        ask.poll::<u32>(AskEvent::SendPending),
        AskStep::Pending
    ));
    assert!(matches!(
        ask.poll::<u32>(AskEvent::Sent(sendable.try_send())),
        AskStep::PollReply
    ));
    assert_eq!(ask.receiver().unwrap().try_recv(), None);
    assert!(matches!(
        ask.poll::<u32>(AskEvent::ReplyPending),
        AskStep::Pending
    ));
    let (handler, payload, answer) = next(&mut mailbox);
    assert_eq!((handler, payload), ('d', 9));
    answer.unwrap().send(12).unwrap();
    let reply = ask.receiver().unwrap().try_recv().unwrap();
    assert!(matches!(
        ask.poll(AskEvent::Replied(reply)),
        AskStep::Ready(Ok(12))
    ));
    assert!(ask.receiver().is_none());
}

#[test]
fn an_erased_ask_fails_with_its_send_or_for_want_of_a_reply() {
    let mut source = ActorIdSource::new();
    let (handle, mut mailbox) = reachable(&mut source);
    let handle = handle.erase_type_local();
    let call = || ErasedCall::new(&handle, ActorMessageDispatcher::new('d'), message(8), 9);
    let (sendable, mut ask) = call().into_future();
    ask.poll::<u32>(AskEvent::Sent(sendable.try_send()));
    drop(next(&mut mailbox));
    let reply = ask.receiver().unwrap().try_recv().unwrap();
    assert!(matches!(
        ask.poll(AskEvent::Replied(reply)),
        AskStep::Ready(Err(AskError::NoReply))
    ));
    assert_eq!(call().sendable(None).try_send(), Ok(()));
    assert!(next(&mut mailbox).2.is_none());
    drop(mailbox);
    let (sendable, mut ask) = call().into_future();
    assert!(matches!(
        ask.poll::<u32>(AskEvent::Sent(sendable.try_send())),
        AskStep::Ready(Err(AskError::SendFailed(ActorChannelSendError::ActorDead)))
    ));
}

#[test]
fn an_erased_call_chooses_its_form_of_communication() {
    let mut source = ActorIdSource::new();
    let (handle, mut mailbox) = reachable(&mut source);
    let call = || {
        MessageCall::new(ErasedCall::new(
            &handle,
            ActorMessageDispatcher::new('d'),
            message(8),
            9,
        ))
    };
    assert_eq!(call().try_tell(), Ok(()));
    assert_eq!(call().try_tell(), Err(ActorChannelSendError::MailboxFull));
    assert!(next(&mut mailbox).2.is_none());
    assert_eq!(call().tell().try_send(), Ok(()));
    assert!(next(&mut mailbox).2.is_none());
    assert_eq!(call().blocking_tell().try_send(), Ok(()));
    assert!(next(&mut mailbox).2.is_none());
    let (sendable, _ask) = call().ask();
    assert_eq!(sendable.try_send(), Ok(()));
    assert!(next(&mut mailbox).2.is_some());
    let mut asked = call().blocking_ask();
    assert_eq!(asked.sendable.try_send(), Ok(()));
    next(&mut mailbox).2.unwrap().send(3).unwrap();
    assert_eq!(asked.receive.try_recv(), Some(Some(3)));
}

#[test]
fn a_typed_call_chooses_its_form_of_communication() {
    let mut source = ActorIdSource::new();
    let (handle, mut mailbox) = reachable(&mut source);
    let call = |payload| handle.call(ActorMessageDispatcher::new('c'), message(8), payload);
    assert_eq!(call(1).try_tell(), Ok(()));
    assert_eq!(call(2).try_tell(), Err(ActorChannelSendError::MailboxFull));
    let (handler, payload, answer) = next(&mut mailbox);
    assert_eq!((handler, payload, answer.is_none()), ('c', 1, true));
    assert_eq!(call(3).tell().try_send(), Ok(()));
    assert_eq!(next(&mut mailbox).1, 3);
    assert_eq!(call(4).blocking_tell().try_send(), Ok(()));
    assert_eq!(next(&mut mailbox).1, 4);
    let mut asked = call(5).ask();
    assert_eq!(asked.sendable.try_send(), Ok(()));
    let (_, payload, answer) = next(&mut mailbox);
    answer.unwrap().send(payload * 10).unwrap();
    assert_eq!(asked.receive.try_recv(), Some(Some(50)));
    let mut asked = call(6).blocking_ask();
    assert_eq!(asked.sendable.try_send(), Ok(()));
    drop(next(&mut mailbox));
    assert_eq!(asked.receive.try_recv(), Some(None));
    drop(mailbox);
    assert_eq!(call(7).try_tell(), Err(ActorChannelSendError::ActorDead));
}

#[test]
fn watching_and_unwatching_through_a_handle() {
    let mut source = ActorIdSource::new();
    let watcher = handle(&mut source);
    let mut watched = state(&mut source);
    watcher.watch("me", 'd', &mut watched, 3);
    watcher.watch("me", 'd', &mut watched, 4);
    let other = state(&mut source);
    register_watch("other", other.id(), 'o', &mut watched, 5);
    watcher.unwatch(&mut watched);
    watched.mark_finished();
    let signals = watched.notify_subscribers(actor(80, OPEN));
    assert_eq!(signals.len(), 1);
    assert_eq!((signals[0].watcher, signals[0].signal.tag()), ("other", 5));

    let mut again = state(&mut source);
    register_watch("other", other.id(), 'o', &mut again, 6);
    unregister_watch(other.id(), &mut again);
    again.mark_finished();
    assert!(again.notify_subscribers(actor(80, OPEN)).is_empty());
}

#[test]
fn a_context_fails_its_actor_once() {
    let mut source = ActorIdSource::new();
    let mut shared = state(&mut source);
    let mut watched = state(&mut source);
    let id = shared.id();
    let mut context = ActorContext::new(&mut shared, &"weak");
    assert_eq!(context.lifecycle(), LifecycleState::Starting);
    assert_eq!(context.weak_ref(), "weak");
    assert_eq!(*context.extension(), 5);
    context.watch('d', &mut watched, 2);
    context.fail("first");
    context.fail("second");
    assert_eq!(shared.failed_error(), Some(&"first"));
    watched.mark_finished();
    let (_, subscriptions) = watched.take_subscriptions().unwrap();
    assert_eq!(subscriptions.len(), 1);
    assert_eq!(subscriptions[0].watcher_id(), id);

    let mut watched = state(&mut source);
    let context = ActorContext::new(&mut shared, &"weak");
    context.watch('d', &mut watched, 2);
    context.unwatch(&mut watched);
    watched.mark_finished();
    assert!(watched.take_subscriptions().unwrap().1.is_empty());
}

#[test]
fn a_handler_context_takes_its_own_message_type_only() {
    let envelope: MessageEnvelope<'_, u32, ()> = MessageEnvelope::new(message(8), 3, None);
    let mut source = ActorIdSource::new();
    let mut shared = state(&mut source);
    let refused = MessageHandlerContext::new((), (), message(16), envelope).unwrap_err();
    let services = ActorContext::new(&mut shared, &"weak");
    let mut context =
        MessageHandlerContext::new("guard", services, message(8), refused).unwrap();
    context.actor_context().fail("failed");
    let (guard, envelope) = context.into_parts_with_envelope();
    assert_eq!(guard, "guard");
    assert_eq!(envelope.payload(message(8)), Some(&3));
    assert_eq!(shared.failed_error(), Some(&"failed"));
}

#[test]
fn an_event_context_builds_self_messages() {
    let context = EventContext::new(&"lock", &"shared");
    assert_eq!((*context.lock_strategy(), *context.state()), ("lock", "shared"));
    let tick: DispatchedActorMessage<'_, u32, (), char> =
        context.message(ActorMessageDispatcher::new('t'), message(8), 1);
    assert_eq!(tick.envelope().ty(), EnvelopeType::Tell);
    let ask = context.message_with(ActorMessageDispatcher::new('t'), message(8), 1, Some("s"));
    assert_eq!(ask.envelope().ty(), EnvelopeType::Ask);
    assert_eq!(DemandSendDriver::new('x').driver, 'x');
    let shared = state(&mut ActorIdSource::new());
    assert_eq!(*EventContext::new(&"lock", &shared).extension(), 5);
}

#[test]
fn dispatch_parts() {
    let declared = StaticDispatcher::new_unchecked(ActorMessageDispatcher::new('h'));
    assert_eq!(declared.into_dispatcher().handler, 'h');
    let context = 31u8;
    assert_eq!(*DispatchContextPtr::new(&context).cast_as(), 31);
    let envelope: MessageEnvelope<'_, u32, ()> = MessageEnvelope::new(message(8), 3, None);
    let (_, span) = DispatchedActorMessageContext::of(envelope).into_parts();
    assert_eq!(span.instrument("work"), "work");
}

/// Add what the message carries to what the dispatch context holds.
fn add_to_context<'a>(
    ctx: DispatchContextPtr<'a, u32>,
    message: DispatchedActorMessageContext<'static, u32, ()>,
) -> u32 {
    let (envelope, _) = message.into_parts();
    let rtti = envelope.rtti();
    *ctx.cast_as() + envelope.unwrap_unchecked(rtti).0
}

#[test]
fn dispatching_runs_the_handler_on_the_loop() {
    type Handler = fn(DispatchContextPtr<'_, u32>, DispatchedActorMessageContext<'static, u32, ()>) -> u32;
    let dispatcher = ActorMessageDispatcher::new(add_to_context as Handler);
    let envelope: MessageEnvelope<'static, u32, ()> = MessageEnvelope::new(message(8), 3, None);
    let dispatched =
        DispatchedActorMessage::new(dispatcher, DispatchedActorMessageContext::of(envelope));
    let context = 40u32;
    assert_eq!(dispatched.dispatch_onto_loop::<u32, u32>(&context), 43);
}

#[derive(Debug)]
struct Recorded<'a> {
    aborts: &'a Cell<u32>,
}

impl<'a> ActorTaskHandleVTable for Recorded<'a> {
    type Wait = &'a Cell<u32>;

    fn abort(&self) {
        self.aborts.set(self.aborts.get() + 1);
    }

    fn wait_for_termination(&self) -> &'a Cell<u32> {
        self.aborts
    }
}

#[derive(Debug)]
struct Large<'a> {
    inner: Recorded<'a>,
    _pad: [u64; 4],
}

impl<'a> ActorTaskHandleVTable for Large<'a> {
    type Wait = u32;

    fn abort(&self) {
        self.inner.abort();
    }

    fn wait_for_termination(&self) -> u32 {
        self.inner.aborts.get() + 100
    }
}

#[test]
fn task_handles_abort() {
    let aborts = Cell::new(0);
    let small = ActorTaskHandle::from_vtable(Recorded { aborts: &aborts });
    assert!(matches!(small, ActorTaskHandle::Inline(_)));
    assert_eq!(small.wait_for_termination().get(), 0, "waiting aborts nothing");
    small.abort();
    assert_eq!(aborts.get(), 1);
    assert_eq!(small.get().aborts.get(), 1);
    small.close();
    assert_eq!(aborts.get(), 2, "a closed handle aborts its task");
    let large = ActorTaskHandle::from_vtable(Large {
        inner: Recorded { aborts: &aborts },
        _pad: [0; 4],
    });
    assert!(matches!(large, ActorTaskHandle::Boxed(_)));
    assert_eq!(large.wait_for_termination(), 102);
    large.abort();
    assert_eq!(aborts.get(), 3);
    let boxed = Box::new(Recorded { aborts: &aborts });
    ActorTaskHandleVTable::abort(&boxed);
    assert_eq!(aborts.get(), 4);
    assert_eq!(ActorTaskHandleVTable::wait_for_termination(&boxed).get(), 4);
}

#[test]
fn work_is_a_future_or_nothing() {
    let nothing = into_work::<SendFutureConverter<char>, _>(NoWork);
    assert_eq!(nothing, None);
    let work = into_work::<SendFutureConverter<char>, _>(FutureWork { future: 'f' });
    assert_eq!(
        <SendFutureConverter<char> as FutureWorkConverter>::into_future(work),
        Some('f')
    );
}

struct Prepared;

impl Sealed for Prepared {}

impl Calling for Prepared {
    type Ask = &'static str;
    type Tell = &'static str;
    type BlockingAsk = u8;
    type BlockingTell = Result<(), ActorChannelSendError>;

    fn ask(self) -> &'static str {
        "asked"
    }

    fn tell(self) -> &'static str {
        "told"
    }

    fn try_tell(self) -> Result<(), ActorChannelSendError> {
        Err(ActorChannelSendError::MailboxFull)
    }

    fn blocking_tell(self) -> Result<(), ActorChannelSendError> {
        Ok(())
    }

    fn blocking_ask(self) -> u8 {
        9
    }
}

#[test]
fn a_message_call_forwards() {
    assert_eq!(MessageCall::new(Prepared).ask(), "asked");
    assert_eq!(MessageCall::new(Prepared).tell(), "told");
    assert_eq!(
        MessageCall::new(Prepared).try_tell(),
        Err(ActorChannelSendError::MailboxFull)
    );
    assert_eq!(MessageCall::new(Prepared).blocking_tell(), Ok(()));
    assert_eq!(MessageCall::new(Prepared).blocking_ask(), 9);
}
