//! Actor ids, watches and delivery policies.
use factories_actor::actor::lifecycle::TerminationKind;
use factories_actor::actor::rtti::{ActorRtti, ChannelRtti, SendSyncRtti};
use factories_actor::actor::supervision::{
    ActorId, ActorIdSource, DeliveryMode, NonZeroId, Subscription, TerminalPath,
    WatchDeliveryPolicy,
};
use std::mem::size_of;

#[test]
fn actor_id_option_is_niche_packed() {
    assert_eq!(size_of::<ActorId>(), size_of::<usize>());
    assert_eq!(
        size_of::<Option<ActorId>>(),
        size_of::<ActorId>(),
        "Option<ActorId> must niche-pack so a send from outside any actor is a free `None`",
    );
}

#[test]
fn ids_are_monotonic_and_nonzero() {
    let mut source = ActorIdSource::new();
    let a = ActorId::new(&mut source);
    let b = ActorId::new(&mut source);
    assert!(b.as_usize() > a.as_usize(), "ids increase monotonically");
    assert_ne!(
        a.as_usize(),
        0,
        "0 is reserved as the `Option<ActorId>` niche"
    );
}

#[test]
fn ids_start_at_one_and_go_up_by_one() {
    let mut source = ActorIdSource::new();
    let ids: Vec<usize> = (0..4).map(|_| ActorId::new(&mut source).into()).collect();
    assert_eq!(ids, vec![1, 2, 3, 4]);
}

#[test]
fn ids_show_their_number() {
    let mut source = ActorIdSource::new();
    assert_eq!(ActorId::new(&mut source).to_text(), "Actor#1");
    let mut last = ActorId::new(&mut source);
    for _ in 2..120 {
        last = ActorId::new(&mut source);
    }
    assert_eq!(last.to_text(), "Actor#120");
    assert_eq!(last.as_non_zero_usize().get(), 120);
    let copy = last;
    assert_eq!(copy, last);
    assert_ne!(ActorId::new(&mut source), last);
}

#[test]
fn ids_convert_to_their_numbers() {
    let mut source = ActorIdSource::new();
    let _ = ActorId::new(&mut source);
    let id = ActorId::new(&mut source);
    assert_eq!(usize::from(id), 2);
    assert_eq!(NonZeroId::from(id).get(), 2);
}

#[test]
fn zero_is_no_id() {
    assert!(NonZeroId::new(0).is_none());
    assert_eq!(NonZeroId::new(17).unwrap().get(), 17);
}

#[test]
fn delivery_policies() {
    let always = WatchDeliveryPolicy::Always;
    let nonblocking = WatchDeliveryPolicy::WaitNonblockingOnly;
    let no_wait = WatchDeliveryPolicy::NoWait;
    assert_eq!(WatchDeliveryPolicy::default(), always);
    assert_eq!(always.mode(TerminalPath::Async), DeliveryMode::WaitAsync);
    assert_eq!(
        nonblocking.mode(TerminalPath::Async),
        DeliveryMode::WaitAsync
    );
    assert_eq!(no_wait.mode(TerminalPath::Async), DeliveryMode::Nonblocking);
    assert_eq!(always.mode(TerminalPath::Drop), DeliveryMode::WaitBlocking);
    assert_eq!(
        nonblocking.mode(TerminalPath::Drop),
        DeliveryMode::Nonblocking
    );
    assert_eq!(no_wait.mode(TerminalPath::Drop), DeliveryMode::Nonblocking);
}

#[test]
fn a_signal_carries_who_died_and_how() {
    let open = SendSyncRtti {
        send: true,
        sync: true,
    };
    let rtti = ActorRtti::new_named(80, "Node", ChannelRtti::new(open), open);
    let mut source = ActorIdSource::new();
    let watched = ActorId::new(&mut source);
    let watcher = ActorId::new(&mut source);
    let subscription =
        Subscription::new("weak", watcher, "dispatch", 12, WatchDeliveryPolicy::NoWait);
    assert_eq!(subscription.watcher_id(), watcher);
    let delivery = subscription.deliver(watched, rtti, TerminationKind::Aborted);
    assert_eq!(delivery.mode, DeliveryMode::Nonblocking);
    assert_eq!(delivery.signal.watched(), watched);
    assert_eq!(delivery.signal.kind(), TerminationKind::Aborted);
    assert_eq!(delivery.signal.tag(), 12);
    assert_eq!(delivery.signal.rtti().name(), "Node");
    let (handle, dispatcher, signal) = delivery.prepare(Some('h')).unwrap();
    assert_eq!((handle, dispatcher, signal.tag()), ('h', "dispatch", 12));

    let gone = Subscription::new("weak", watcher, "dispatch", 1, WatchDeliveryPolicy::Always);
    let delivery = gone.deliver_now(watched, rtti, TerminationKind::Finished);
    assert_eq!(delivery.mode, DeliveryMode::WaitBlocking);
    assert!(delivery.prepare::<char>(None).is_none());
}
