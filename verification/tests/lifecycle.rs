//! The lifecycle cell and the shared state of an actor.
use factories_actor::actor::lifecycle::{StopReason, TerminationKind, TerminationReason};
use factories_actor::actor::rtti::{ActorRtti, ChannelRtti, SendSyncRtti};
use factories_actor::actor::state::{LifecycleCell, LifecycleState, SharedActorState, WakerSet};
use factories_actor::actor::supervision::{
    ActorId, ActorIdSource, DeliveryMode, Subscription, WatchDeliveryPolicy,
};
use factories_actor::capture::{CaptureEvent, CaptureFrame, CaptureSink, EventId};
use factories_actor::runtime::loop_support::stop_reason;
use std::sync::atomic::{AtomicUsize, Ordering};
use std::sync::{Arc, Mutex};

type State = SharedActorState<&'static str, u8, char, u32, u64, ()>;

const OPEN: SendSyncRtti = SendSyncRtti {
    send: true,
    sync: true,
};

fn rtti() -> ActorRtti {
    ActorRtti::new_named(80, "Node", ChannelRtti::new(OPEN), OPEN)
}

fn state(source: &mut ActorIdSource) -> State {
    SharedActorState::new(source, 7, ())
}

#[test]
fn starts_in_starting() {
    let cell = LifecycleCell::new();
    assert_eq!(cell.current(), LifecycleState::Starting);
}

#[test]
fn transition_running_from_starting() {
    let mut cell = LifecycleCell::new();
    cell.transition_running();
    assert_eq!(cell.current(), LifecycleState::Running);
}

#[test]
fn transition_dead_is_terminal() {
    let mut cell = LifecycleCell::new();
    cell.transition_dead();
    cell.transition_running();
    assert_eq!(cell.current(), LifecycleState::Dead, "dead is terminal");
}

#[test]
fn wait_observes_running() {
    let waker = futures::task::noop_waker();
    let mut cell = LifecycleCell::new();
    assert_eq!(cell.wait_leave_starting(&waker), None);
    cell.transition_running();
    assert_eq!(
        cell.wait_leave_starting(&waker),
        Some(LifecycleState::Running)
    );
}

#[test]
fn wait_observes_dead() {
    let waker = futures::task::noop_waker();
    let mut cell = LifecycleCell::new();
    assert_eq!(cell.wait_leave_starting(&waker), None);
    cell.transition_dead();
    assert_eq!(cell.wait_leave_starting(&waker), Some(LifecycleState::Dead));
}

#[test]
fn wait_ready_immediately_when_not_starting() {
    let waker = futures::task::noop_waker();
    let mut cell = LifecycleCell::new();
    cell.transition_running();
    assert_eq!(
        cell.wait_leave_starting(&waker),
        Some(LifecycleState::Running)
    );
}

struct CountingWaker(AtomicUsize);

impl futures::task::ArcWake for CountingWaker {
    fn wake_by_ref(arc_self: &Arc<Self>) {
        arc_self.0.fetch_add(1, Ordering::SeqCst);
    }
}

impl CountingWaker {
    fn new() -> Arc<Self> {
        Arc::new(Self(AtomicUsize::new(0)))
    }

    fn count(&self) -> usize {
        self.0.load(Ordering::SeqCst)
    }
}

#[test]
fn wait_for_terminal_wakes_all_waiters() {
    let mut cell = LifecycleCell::new();

    let w1 = CountingWaker::new();
    let w2 = CountingWaker::new();
    let waker1 = futures::task::waker(w1.clone());
    let waker2 = futures::task::waker(w2.clone());

    assert!(!cell.wait_for_terminal(&waker1));
    assert!(!cell.wait_for_terminal(&waker2));

    cell.transition_dead();

    assert_eq!(w1.count(), 1, "first terminal waiter must be woken");
    assert_eq!(w2.count(), 1, "second terminal waiter must be woken");
}

#[test]
fn a_second_death_wakes_nobody() {
    let mut source = ActorIdSource::new();
    let mut shared = state(&mut source);
    let counted = CountingWaker::new();
    let waker = futures::task::waker(counted.clone());
    // The same task waits for two things: it is registered once.
    assert!(!shared.wait_for_terminal(&waker));
    assert!(!shared.wait_for_terminal(&waker));
    shared.transition_dead();
    assert_eq!(counted.count(), 1);
    shared.transition_dead();
    assert_eq!(counted.count(), 1, "a woken waiter is not woken again");
    assert_eq!(shared.lifecycle(), LifecycleState::Dead);
}

#[test]
fn waiters_can_be_woken_later() {
    let mut source = ActorIdSource::new();
    let mut shared = state(&mut source);
    let counted = CountingWaker::new();
    let waker = futures::task::waker(counted.clone());
    assert!(!shared.wait_for_terminal(&waker));
    let mut waiters = shared.take_waiters();
    shared.transition_dead();
    assert_eq!(counted.count(), 0, "who was taken out is left to the caller");
    waiters.wake_all();
    assert_eq!(counted.count(), 1);
    assert!(shared.wait_for_terminal(&waker));
}

#[test]
fn wait_for_terminal_pending_until_dead() {
    let waker = futures::task::noop_waker();
    let mut cell = LifecycleCell::new();

    // Still starting: pending.
    assert!(!cell.wait_for_terminal(&waker));

    // Leaving Starting for Running is not terminal: still pending.
    cell.transition_running();
    assert!(!cell.wait_for_terminal(&waker));

    // Reaching Dead resolves it.
    cell.transition_dead();
    assert!(cell.wait_for_terminal(&waker));
}

#[test]
fn stopping_follows_running_only() {
    let mut cell = LifecycleCell::default();
    cell.transition_stopping();
    assert_eq!(cell.current(), LifecycleState::Starting);
    cell.transition_running();
    cell.transition_stopping();
    assert_eq!(cell.current(), LifecycleState::Stopping);
    cell.transition_running();
    assert_eq!(cell.current(), LifecycleState::Stopping);
    cell.transition_dead();
    cell.transition_stopping();
    assert_eq!(cell.current(), LifecycleState::Dead);
}

#[test]
fn lifecycle_numbers_round_trip() {
    for (state, raw) in [
        (LifecycleState::Starting, 0),
        (LifecycleState::Running, 1),
        (LifecycleState::Stopping, 2),
        (LifecycleState::Dead, 3),
    ] {
        assert_eq!(state.as_raw(), raw);
        assert_eq!(LifecycleState::from_raw(raw), state);
    }
}

#[test]
fn a_waker_registers_once() {
    let counting = CountingWaker::new();
    let waker = futures::task::waker(counting.clone());
    let mut set = WakerSet::new();
    set.register(&waker);
    set.register(&waker);
    set.wake_all();
    assert_eq!(counting.count(), 1);
    set.wake_all();
    assert_eq!(counting.count(), 1, "woken wakers are gone");
    assert!(set.take().is_empty());
}

#[test]
fn first_outcome_wins() {
    let mut source = ActorIdSource::new();
    let mut shared = state(&mut source);
    assert!(shared.termination_reason().is_none());
    assert!(matches!(stop_reason(&shared), StopReason::Finished));
    shared.record_failure("first");
    shared.record_failure("second");
    shared.mark_finished();
    shared.mark_aborted();
    assert_eq!(shared.failed_error(), Some(&"first"));
    assert_eq!(
        shared.termination_reason().unwrap().kind(),
        TerminationKind::Failed
    );
    assert!(matches!(stop_reason(&shared), StopReason::Failed(&"first")));

    let mut clean = state(&mut source);
    clean.mark_finished();
    clean.record_failure("late");
    assert!(matches!(
        clean.termination_reason(),
        Some(TerminationReason::Finished)
    ));
    assert_eq!(clean.failed_error(), None);
}

#[test]
fn a_task_attaches_once() {
    let mut source = ActorIdSource::new();
    let mut shared = state(&mut source);
    assert_eq!(shared.task(), None);
    assert_eq!(shared.attach_task(3), Ok(()));
    assert_eq!(shared.attach_task(4), Err(4));
    assert_eq!(shared.task(), Some(&3));
    assert_eq!(*shared.shared_data(), 7);
    assert_eq!(*shared.extensions(), ());
}

#[test]
fn unwatch_removes_one_watchers_subscriptions() {
    let mut source = ActorIdSource::new();
    let mut shared = state(&mut source);
    let a = ActorId::new(&mut source);
    let b = ActorId::new(&mut source);
    let always = WatchDeliveryPolicy::default();
    shared.add_subscription(Subscription::new(1, a, 'a', 10, always));
    shared.add_subscription(Subscription::new(2, b, 'b', 20, always));
    shared.add_subscription(Subscription::new(3, a, 'c', 30, always));
    shared.remove_subscriptions(a);
    shared.remove_subscriptions(a);
    shared.mark_finished();
    let signals = shared.notify_subscribers(rtti());
    assert_eq!(signals.len(), 1);
    assert_eq!(signals[0].watcher, 2);
    assert_eq!(signals[0].dispatcher, 'b');
    assert_eq!(signals[0].signal.tag(), 20);
}

#[test]
fn watchers_are_notified_once_and_only_with_a_reason() {
    let mut source = ActorIdSource::new();
    let mut shared = state(&mut source);
    let watcher = ActorId::new(&mut source);
    for (tag, policy) in [
        (1, WatchDeliveryPolicy::Always),
        (2, WatchDeliveryPolicy::WaitNonblockingOnly),
        (3, WatchDeliveryPolicy::NoWait),
    ] {
        shared.add_subscription(Subscription::new(0, watcher, 'd', tag, policy));
    }
    assert!(shared.notify_subscribers(rtti()).is_empty());
    assert!(shared.take_subscriptions().is_none());
    shared.record_failure("broken");
    let signals = shared.notify_subscribers_now(rtti());
    let seen: Vec<(u64, DeliveryMode)> =
        signals.iter().map(|s| (s.signal.tag(), s.mode)).collect();
    assert_eq!(
        seen,
        vec![
            (1, DeliveryMode::WaitBlocking),
            (2, DeliveryMode::Nonblocking),
            (3, DeliveryMode::Nonblocking),
        ]
    );
    for signal in &signals {
        assert_eq!(signal.signal.kind(), TerminationKind::Failed);
        assert_eq!(signal.signal.watched(), shared.id());
        assert_eq!(signal.signal.rtti(), rtti());
    }
    assert!(shared.notify_subscribers_now(rtti()).is_empty());
}

#[derive(Default)]
struct Collected(Mutex<Vec<CaptureEvent>>);

impl CaptureSink for Collected {
    fn record(&self, event: CaptureEvent) {
        self.0.lock().expect("sink mutex").push(event);
    }
}

#[test]
fn dropping_the_guard_ends_in_dead() {
    let sink = Collected::default();
    let mut source = ActorIdSource::new();
    let mut shared = state(&mut source);
    let watcher = ActorId::new(&mut source);
    shared.transition_running();
    shared.add_subscription(Subscription::new(
        5,
        watcher,
        'w',
        9,
        WatchDeliveryPolicy::Always,
    ));
    let guard = shared.dead_on_drop(rtti());
    let actions = guard.begin(&mut shared, Some(&sink));
    assert!(actions.aborted);
    assert!(matches!(
        actions.died,
        Some(CaptureEvent::Died {
            actor_type: "Node",
            reason: TerminationKind::Aborted,
            ..
        })
    ));
    assert_eq!(actions.deliveries.len(), 1);
    assert_eq!(sink.0.lock().unwrap().len(), 1);
    assert_eq!(shared.lifecycle(), LifecycleState::Running);
    guard.finish(&mut shared);
    assert_eq!(shared.lifecycle(), LifecycleState::Dead);
}

#[test]
fn event_ids_count_up_per_actor() {
    let mut source = ActorIdSource::new();
    let mut shared = state(&mut source);
    let first = shared.next_capture_event_id();
    let second = shared.next_capture_event_id();
    assert_eq!(first.actor, shared.id());
    assert_eq!(second.seq, first.seq + 1);
    let frame = CaptureFrame {
        actor: shared.id(),
        event: Some(EventId {
            actor: shared.id(),
            seq: 4,
        }),
    };
    assert_eq!(shared.capture_birth(), None);
    shared.set_capture_birth(Some(frame));
    shared.set_capture_birth(None);
    assert_eq!(shared.capture_birth(), Some(frame), "the birth is set once");
}
