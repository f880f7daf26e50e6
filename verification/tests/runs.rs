//! Run loops, the standard run and the capture log.
use factories_actor::actor::lifecycle::{StopReason, TerminationKind};
use factories_actor::actor::rtti::{ActorRtti, ChannelRtti, SendSyncRtti};
use factories_actor::actor::run_loop::ActorRunLoopDispatchContext;
use factories_actor::actor::state::{LifecycleState, SharedActorState};
use factories_actor::actor::supervision::{
    ActorId, ActorIdSource, DeliveryMode, Subscription, WatchDeliveryPolicy,
};
use factories_actor::actor::channel::ActorMailbox;
use factories_actor::actor::dispatch::{
    ActorMessageDispatcher, DispatchContextPtr, DispatchedActorMessage,
    DispatchedActorMessageContext,
};
use factories_actor::actor::event::{DefaultDriver, EventContext, EventDriver};
use factories_actor::actor::protocol::dispatched;
use factories_actor::actor::work::SendFutureConverter;
use factories_actor::capture::{
    record_message, CaptureEvent, CaptureFrame, CaptureSink, Dispatch, EventId,
};
use factories_actor::message::rtti::{BasicTypeRtti, MessageRtti};
use factories_actor::runtime::concurrent_loop::{
    ConcurrentAction, ConcurrentEvent, ConcurrentRunLoop,
};
use factories_actor::runtime::init::{ActorInit, InitFn, Ready};
use factories_actor::runtime::lock::UnguardedLock;
use factories_actor::runtime::loop_support::{
    stop_reason, RunPhase, StandardDispatchContext, StandardRun,
};
use factories_actor::runtime::result::ResultLike;
use factories_actor::runtime::routing::LanePoll;
use factories_actor::runtime::sequential_loop::{
    SequentialAction, SequentialEvent, SequentialRunLoop,
};
use factories_actor::runtime::standard::run_loop::{StandardActorRunLoopImpl, StandardEvent};
use std::sync::Mutex;

#[derive(Debug, Clone, PartialEq, Eq)]
struct Boom(u32);

type State = SharedActorState<Boom, &'static str, char, (), (), ()>;

#[derive(Default)]
struct Collected(Mutex<Vec<CaptureEvent>>);

impl CaptureSink for Collected {
    fn record(&self, event: CaptureEvent) {
        self.0.lock().expect("sink mutex").push(event);
    }
}

impl Collected {
    fn events(&self) -> Vec<CaptureEvent> {
        self.0.lock().expect("sink mutex").clone()
    }
}

const OPEN: SendSyncRtti = SendSyncRtti {
    send: true,
    sync: true,
};

fn rtti(name: &'static str) -> ActorRtti {
    ActorRtti::new_named(80, name, ChannelRtti::new(OPEN), OPEN)
}

fn state(source: &mut ActorIdSource) -> State {
    SharedActorState::new(source, (), ())
}

/// Run an actor up to its loop.
fn started(name: &'static str, shared: &mut State, sink: &Collected) -> StandardRun {
    let mut run = StandardRun::new(rtti(name));
    assert_eq!(run.init_returned(shared, Ok('a')), Some('a'));
    let (runs, _) = run.start_hook_returned(shared, Some(sink));
    assert!(runs);
    run
}

/// Let an actor's run end in an orderly way and be dropped.
fn ended(mut run: StandardRun, shared: &mut State, sink: &Collected) {
    run.loop_quiesced(shared);
    run.stop_hook_returned(shared, Some(sink));
    run.watchers_notified(shared);
    run.dropped(shared, Some(sink));
    run.announce_dead(shared);
}

#[test]
fn sink_receives_recorded_events() {
    let sink = Collected::default();
    let mut source = ActorIdSource::new();
    let id = EventId {
        actor: ActorId::new(&mut source),
        seq: 1,
    };

    sink.record(CaptureEvent::Spawned {
        id,
        actor_type: "Widget",
        parent: None,
        caused_by: None,
    });

    let events = sink.0.lock().expect("sink mutex");
    assert_eq!(events.len(), 1);
    assert!(matches!(
        events[0],
        CaptureEvent::Spawned {
            actor_type: "Widget",
            parent: None,
            ..
        }
    ));
}

#[test]
fn births_and_deaths_are_captured() {
    let sink = Collected::default();
    let mut source = ActorIdSource::new();
    let mut shared = state(&mut source);
    let run = started("Node", &mut shared, &sink);
    ended(run, &mut shared, &sink);

    let events = sink.events();
    assert!(
        events
            .iter()
            .any(|e| matches!(e, CaptureEvent::Spawned { actor_type: "Node", .. })),
        "expected a Spawned event, got {events:?}",
    );
    assert!(
        events
            .iter()
            .any(|e| matches!(e, CaptureEvent::Died { actor_type: "Node", .. })),
        "expected a Died event, got {events:?}",
    );
    assert_eq!(events.len(), 2);
}

#[test]
fn message_edges_and_causality_are_captured() {
    let sink = Collected::default();
    let mut source = ActorIdSource::new();
    let mut downstream = state(&mut source);
    let mut upstream = state(&mut source);
    let up_id = upstream.id();
    let down_id = downstream.id();

    let (_, handling) =
        record_message(&mut upstream, Some(&sink), None, "Relay", Dispatch::Ask);
    record_message(
        &mut downstream,
        Some(&sink),
        Some(handling),
        "Note",
        Dispatch::Tell,
    );

    let events = sink.events();

    // external -> upstream (the relay ask): from = None
    let relay_evt = events
        .iter()
        .find_map(|e| match e {
            CaptureEvent::Message {
                id, from: None, to, ..
            } if *to == up_id => Some(*id),
            _ => None,
        })
        .unwrap_or_else(|| panic!("external relay edge (from=None) not captured: {events:?}"));

    // upstream -> downstream (the note tell): from = Some(upstream), caused by the relay
    let note_edge = events
        .iter()
        .find(|e| {
            matches!(e,
                CaptureEvent::Message { from: Some(f), to, .. } if *f == up_id && *to == down_id)
        })
        .unwrap_or_else(|| panic!("upstream->downstream edge not captured: {events:?}"));

    if let CaptureEvent::Message {
        caused_by,
        dispatch,
        message_type,
        ..
    } = note_edge
    {
        assert_eq!(
            *caused_by,
            Some(relay_evt),
            "the edge is causally linked to the message whose handling produced it",
        );
        assert_eq!((*dispatch, *message_type), (Dispatch::Tell, "Note"));
    }
}

#[test]
fn a_childs_spawn_records_its_parent() {
    let sink = Collected::default();
    let mut source = ActorIdSource::new();
    let mut root = state(&mut source);
    let root_id = root.id();
    let (sprout, handling) =
        record_message(&mut root, Some(&sink), None, "Sprout", Dispatch::Ask);
    let Some(CaptureEvent::Message { id: sprout, .. }) = sprout else {
        panic!("the sprout message must be captured")
    };

    let mut leaf = state(&mut source);
    leaf.set_capture_birth(Some(handling));
    started("Leaf", &mut leaf, &sink);

    let events = sink.events();
    assert!(
        events.iter().any(|e| matches!(e,
            CaptureEvent::Spawned { actor_type: "Leaf", parent: Some(p), caused_by: Some(c), .. }
                if *p == root_id && *c == sprout)),
        "the child's Spawned should record root as its parent: {events:?}",
    );
}

#[test]
fn an_aborted_actor_emits_exactly_one_died() {
    let sink = Collected::default();
    let mut source = ActorIdSource::new();
    let mut shared = state(&mut source);
    let mut run = started("Doomed", &mut shared, &sink);

    // The handler panics: the run is dropped in the middle of its loop.
    let actions = run.dropped(&mut shared, Some(&sink));
    assert!(actions.aborted);
    run.announce_dead(&mut shared);

    let events = sink.events();
    let deaths: Vec<_> = events
        .iter()
        .filter(|e| matches!(e, CaptureEvent::Died { .. }))
        .collect();
    assert_eq!(deaths.len(), 1, "exactly one Died, no double-emit: {events:?}");
    assert!(
        matches!(
            deaths[0],
            CaptureEvent::Died {
                reason: TerminationKind::Aborted,
                ..
            }
        ),
        "the abort path records Aborted: {:?}",
        deaths[0],
    );
    assert_eq!(shared.lifecycle(), LifecycleState::Dead);
}

#[test]
fn nothing_is_captured_without_a_sink() {
    let mut source = ActorIdSource::new();
    let mut shared = state(&mut source);
    let mut run = StandardRun::new(rtti("Node"));
    run.init_returned(&mut shared, Ok(()));
    let (runs, emitted) = run.start_hook_returned(&mut shared, None::<&Collected>);
    assert!(runs && emitted.is_none());
    let (event, frame) =
        record_message(&mut shared, None::<&Collected>, None, "Note", Dispatch::Tell);
    assert!(event.is_none());
    assert_eq!(
        frame,
        CaptureFrame {
            actor: shared.id(),
            event: None
        }
    );
    assert_eq!(shared.next_capture_event_id().seq, 1, "no id was minted");
}

#[test]
fn a_failed_init_never_runs() {
    let sink = Collected::default();
    let mut source = ActorIdSource::new();
    let mut shared = state(&mut source);
    let mut run = StandardRun::new(rtti("Node"));
    assert_eq!(run.init_returned::<(), _, _, _, _, _, _>(&mut shared, Err(Boom(3))), None);
    let actions = run.dropped(&mut shared, Some(&sink));
    assert!(!actions.aborted);
    assert!(actions.died.is_none());
    run.announce_dead(&mut shared);
    assert_eq!(shared.failed_error(), Some(&Boom(3)));
    assert_eq!(shared.lifecycle(), LifecycleState::Dead);
    assert!(sink.events().is_empty());
}

#[test]
fn a_failed_start_hook_skips_loop_and_stop_hook() {
    let sink = Collected::default();
    let mut source = ActorIdSource::new();
    let mut shared = state(&mut source);
    let mut run = StandardRun::new(rtti("Node"));
    run.init_returned(&mut shared, Ok(()));
    shared.record_failure(Boom(1));
    let (runs, emitted) = run.start_hook_returned(&mut shared, Some(&sink));
    assert!(!runs && emitted.is_none());
    assert_eq!(shared.lifecycle(), LifecycleState::Starting);
    run.dropped(&mut shared, Some(&sink));
    run.announce_dead(&mut shared);
    assert_eq!(shared.failed_error(), Some(&Boom(1)));
}

#[test]
fn watchers_hear_of_an_orderly_end_before_dead() {
    let sink = Collected::default();
    let mut source = ActorIdSource::new();
    let mut shared = state(&mut source);
    let watcher = ActorId::new(&mut source);
    shared.add_subscription(Subscription::new(
        "weak",
        watcher,
        'w',
        8,
        WatchDeliveryPolicy::Always,
    ));
    let mut run = started("Node", &mut shared, &sink);
    run.loop_quiesced(&mut shared);
    assert_eq!(shared.lifecycle(), LifecycleState::Stopping);
    assert!(matches!(stop_reason(&shared), StopReason::Finished));
    let (died, signals) = run.stop_hook_returned(&mut shared, Some(&sink));
    assert!(matches!(
        died,
        Some(CaptureEvent::Died {
            reason: TerminationKind::Finished,
            ..
        })
    ));
    assert_eq!(signals.len(), 1);
    assert_eq!(signals[0].mode, DeliveryMode::WaitAsync);
    assert_eq!(signals[0].signal.kind(), TerminationKind::Finished);
    run.watchers_notified(&shared);
    let actions = run.dropped(&mut shared, Some(&sink));
    assert!(!actions.aborted && actions.deliveries.is_empty() && actions.died.is_none());
    run.announce_dead(&mut shared);
    assert_eq!(shared.lifecycle(), LifecycleState::Dead);
}

#[test]
fn stop_hook_gets_the_reclaimed_actor() {
    let sink = Collected::default();
    let mut source = ActorIdSource::new();
    let mut shared = state(&mut source);
    let mut run = started("Node", &mut shared, &sink);
    let context = StandardDispatchContext::new(UnguardedLock::new(41u32), "shared", "weak");
    assert_eq!(*context.shared(), "shared");
    assert_eq!(*context.shared_state(), "shared");
    assert_eq!(*context.self_ref(), "weak");
    shared.record_failure(Boom(9));
    let (actor, rest, self_ref): (u32, _, _) = context.run_stop_hook(&mut run, &mut shared);
    assert_eq!((actor, rest, self_ref), (41, "shared", "weak"));
    assert_eq!(shared.lifecycle(), LifecycleState::Stopping);
    assert!(matches!(stop_reason(&shared), StopReason::Failed(Boom(9))));
}

type Context = StandardDispatchContext<&'static str, u32, ()>;
type Handler = for<'c> fn(
    DispatchContextPtr<'c, Context>,
    DispatchedActorMessageContext<'static, u32, ()>,
) -> Option<u32>;
type Message = DispatchedActorMessage<'static, u32, (), Handler>;

/// What a handler of the message works out: its payload, on top of what the actor
/// shares.
fn add_to_shared<'c>(
    ctx: DispatchContextPtr<'c, Context>,
    message: DispatchedActorMessageContext<'static, u32, ()>,
) -> Option<u32> {
    let (envelope, _) = message.into_parts();
    let rtti = envelope.rtti();
    Some(*ctx.cast_as().shared() + envelope.unwrap_unchecked(rtti).0)
}

fn plus() -> &'static MessageRtti {
    let info = BasicTypeRtti::new::<u32>();
    Box::leak(Box::new(MessageRtti::new_named(
        8, "Plus", info, true, true, true, info,
    )))
}

fn adding(payload: u32) -> Message {
    let handler: Handler = add_to_shared;
    dispatched(ActorMessageDispatcher::new(handler), plus(), payload, None)
}

/// A mailbox that hands out what it holds, last first, and ends after that.
struct Stack(Vec<Message>);

impl ActorMailbox for Stack {
    type Message = Message;

    fn try_receive(&mut self) -> LanePoll<Message> {
        LanePoll::Ready(self.0.pop())
    }
}

/// A driver that yields two messages of its own before it turns to the mailbox.
struct BacklogFirst {
    backlog: u32,
}

impl EventDriver<&'static str, u32, Stack> for BacklogFirst {
    fn next(
        &mut self,
        cx: EventContext<'_, &'static str, u32>,
        mailbox: &mut Stack,
    ) -> LanePoll<Message> {
        if self.backlog == 0 {
            return mailbox.try_receive();
        }
        self.backlog -= 1;
        assert_eq!((*cx.lock_strategy(), *cx.state()), ("lock", 1000));
        let handler: Handler = add_to_shared;
        LanePoll::Ready(Some(cx.message(
            ActorMessageDispatcher::new(handler),
            plus(),
            self.backlog,
        )))
    }
}

#[test]
fn a_turn_dispatches_what_the_driver_yields() {
    let context: Context = StandardDispatchContext::new("lock", 1000, ());
    let mut mailbox = Stack(vec![adding(7), adding(8)]);
    let mut driver = BacklogFirst { backlog: 2 };
    let mut turn = |mailbox: &mut Stack| {
        context.next_dispatch::<_, _, _, SendFutureConverter<u32>, _, _>(&mut driver, mailbox)
    };
    assert_eq!(turn(&mut mailbox), LanePoll::Ready(Some(Some(1001))));
    assert_eq!(turn(&mut mailbox), LanePoll::Ready(Some(Some(1000))));
    assert_eq!(mailbox.0.len(), 2, "the driver left the mailbox alone");
    assert_eq!(turn(&mut mailbox), LanePoll::Ready(Some(Some(1008))));
    assert_eq!(mailbox.0.len(), 1);
    assert_eq!(turn(&mut mailbox), LanePoll::Ready(Some(Some(1007))));
    assert_eq!(turn(&mut mailbox), LanePoll::Ready(None));
}

/// A mailbox in which there is nothing yet.
struct Waiting;

impl ActorMailbox for Waiting {
    type Message = Message;

    fn try_receive(&mut self) -> LanePoll<Message> {
        LanePoll::Pending
    }
}

#[test]
fn the_default_driver_pulls_from_the_mailbox() {
    let context: Context = StandardDispatchContext::new("lock", 20, ());
    let mut driver = DefaultDriver;
    let mut mailbox = Stack(vec![adding(3)]);
    assert_eq!(
        context.next_dispatch::<_, _, _, SendFutureConverter<u32>, _, _>(&mut driver, &mut mailbox),
        LanePoll::Ready(Some(Some(23)))
    );
    assert!(mailbox.0.is_empty());
    assert_eq!(
        context.next_dispatch::<_, _, _, SendFutureConverter<u32>, _, _>(&mut driver, &mut mailbox),
        LanePoll::Ready(None)
    );
    assert_eq!(
        context.next_dispatch::<_, _, _, SendFutureConverter<u32>, _, _>(&mut driver, &mut Waiting),
        LanePoll::Pending
    );
}

#[test]
fn stopping_is_announced_from_running_only() {
    let mut source = ActorIdSource::new();
    for dead in [false, true] {
        let mut shared = state(&mut source);
        let sink = Collected::default();
        let run = &mut StandardRun::new(rtti("A"));
        assert_eq!(run.current_phase(), RunPhase::Initializing);
        assert_eq!(run.init_returned(&mut shared, Ok(1u8)), Some(1));
        assert_eq!(run.current_phase(), RunPhase::StartHook);
        if dead {
            shared.transition_dead();
        }
        assert!(run.start_hook_returned(&mut shared, Some(&sink)).0);
        let expected = if dead {
            LifecycleState::Dead
        } else {
            LifecycleState::Running
        };
        assert_eq!(shared.lifecycle(), expected);
        if !dead {
            shared.transition_stopping();
        }
        let context = StandardDispatchContext::new(UnguardedLock::new(1u8), (), ());
        assert_eq!(context.run_stop_hook(run, &mut shared).0, 1);
        let expected = if dead {
            LifecycleState::Dead
        } else {
            LifecycleState::Stopping
        };
        assert_eq!(shared.lifecycle(), expected);
        assert_eq!(run.current_phase(), RunPhase::StopHook);
        let (emitted, _) = run.stop_hook_returned(&mut shared, Some(&sink));
        assert!(matches!(
            emitted,
            Some(CaptureEvent::Died { reason: TerminationKind::Finished, .. })
        ));
        assert_eq!(sink.events().len(), 2);
    }
}

#[test]
fn sequential_loop_handles_one_at_a_time() {
    let mut source = ActorIdSource::new();
    let mut shared = state(&mut source);
    let mut run_loop = SequentialRunLoop::build();
    assert!(matches!(
        run_loop.run::<char, _, _, _, _, _, _>(&shared, SequentialEvent::Begin),
        SequentialAction::Pull
    ));
    assert!(matches!(
        run_loop.run(&shared, SequentialEvent::Pulled(Some('h'))),
        SequentialAction::Drive('h')
    ));
    assert!(matches!(
        run_loop.run::<char, _, _, _, _, _, _>(&shared, SequentialEvent::Handled),
        SequentialAction::Pull
    ));
    assert!(matches!(
        run_loop.run(&shared, SequentialEvent::Pulled(Some('i'))),
        SequentialAction::Drive('i')
    ));
    shared.record_failure(Boom(100));
    assert!(matches!(
        run_loop.run::<char, _, _, _, _, _, _>(&shared, SequentialEvent::Handled),
        SequentialAction::RunStopHook
    ));
}

#[test]
fn sequential_loop_stops_with_its_driver() {
    let mut source = ActorIdSource::new();
    let shared = state(&mut source);
    let mut run_loop = SequentialRunLoop::build();
    run_loop.run::<char, _, _, _, _, _, _>(&shared, SequentialEvent::Begin);
    assert!(matches!(
        run_loop.run::<char, _, _, _, _, _, _>(&shared, SequentialEvent::Pulled(None)),
        SequentialAction::RunStopHook
    ));
}

#[test]
fn concurrent_loop_drains_on_a_clean_stop() {
    let mut source = ActorIdSource::new();
    let shared = state(&mut source);
    let mut run_loop = ConcurrentRunLoop::build();
    assert_eq!(
        run_loop.run::<char, _, _, _, _, _, _>(&shared, ConcurrentEvent::Begin),
        (None, ConcurrentAction::Pull)
    );
    for handler in ['a', 'b'] {
        assert_eq!(
            run_loop.run(&shared, ConcurrentEvent::Pulled(Some(handler))),
            (Some(handler), ConcurrentAction::PullOrFinish)
        );
    }
    assert_eq!(
        run_loop.run::<char, _, _, _, _, _, _>(&shared, ConcurrentEvent::Pulled(None)),
        (None, ConcurrentAction::Drain)
    );
    assert_eq!(
        run_loop.run::<char, _, _, _, _, _, _>(&shared, ConcurrentEvent::Finished),
        (None, ConcurrentAction::Drain)
    );
    assert_eq!(
        run_loop.run::<char, _, _, _, _, _, _>(&shared, ConcurrentEvent::Finished),
        (None, ConcurrentAction::RunStopHook { dropped: 0 })
    );
}

#[test]
fn concurrent_loop_drops_work_on_failure() {
    let mut source = ActorIdSource::new();
    let mut shared = state(&mut source);
    let mut run_loop = ConcurrentRunLoop::build();
    run_loop.run::<char, _, _, _, _, _, _>(&shared, ConcurrentEvent::Begin);
    for handler in ['a', 'b', 'c'] {
        run_loop.run(&shared, ConcurrentEvent::Pulled(Some(handler)));
    }
    shared.record_failure(Boom(1));
    assert_eq!(
        run_loop.run::<char, _, _, _, _, _, _>(&shared, ConcurrentEvent::Finished),
        (None, ConcurrentAction::RunStopHook { dropped: 2 })
    );
}

#[test]
fn plain_loop_ignores_failures() {
    let mut source = ActorIdSource::new();
    let mut shared = state(&mut source);
    assert_eq!(
        StandardActorRunLoopImpl::run_with(Ok::<char, Boom>('a'), &mut shared),
        Some('a')
    );
    let mut run_loop = StandardActorRunLoopImpl::new();
    assert_eq!(run_loop.run(StandardEvent::Received(Some('h'))), Some('h'));
    assert_eq!(run_loop.run::<char>(StandardEvent::WorkYielded), None);
    assert_eq!(run_loop.run::<char>(StandardEvent::Received(None)), None);
    assert_eq!(
        StandardActorRunLoopImpl::run_with(Err::<char, Boom>(Boom(2)), &mut shared),
        None
    );
    assert_eq!(shared.failed_error(), Some(&Boom(2)));
}

#[test]
fn initializers() {
    let ready: Result<u8, Boom> = Ready { actor: 3 }.init();
    assert_eq!(ready, Ok(3));
    let built: Result<u8, Boom> = InitFn::new(|| Ok(4)).init();
    assert_eq!(built, Ok(4));
    let failed: Result<u8, Boom> = InitFn::new(|| Err(Boom(5))).init();
    assert_eq!(failed, Err(Boom(5)));
}

#[test]
fn results_are_result_like() {
    let ok: Result<u8, Boom> = Ok(1);
    assert_eq!(ok.as_result(), Ok(&1));
    assert_eq!(ok.into_result(), Ok(1));
    let err: Result<u8, Boom> = Err(Boom(2));
    assert_eq!(err.as_result(), Err(&Boom(2)));
    assert_eq!(err.into_result(), Err(Boom(2)));
}
