//! Dispatch IDs, dispatch tables and the registry.
use factories_actor::actor::binder::{ActorRuntimeBinder, StaticOnlyBinder};
use factories_actor::actor::dispatch::ActorMessageDispatcher;
use factories_actor::actor::rtti::{ActorRtti, ChannelRtti, SendSyncRtti};
use factories_actor::message::rtti::{BasicTypeRtti, DispatchId, MessageRtti};
use factories_actor::runtime::registry::{
    ActorDispatchTable, DispatchRegistry, DynamicHandlerRegistration, RegistryBinder,
};
use std::cell::Cell;

const OPEN: SendSyncRtti = SendSyncRtti {
    send: true,
    sync: true,
};

fn actor(identity: usize, name: &'static str) -> ActorRtti {
    ActorRtti::new_named(identity, name, ChannelRtti::new(OPEN), OPEN)
}

fn message(identity: usize, name: &'static str) -> MessageRtti {
    let info = BasicTypeRtti::new::<u64>();
    MessageRtti::new_named(identity, name, info, true, true, true, info)
}

fn id(value: usize) -> DispatchId {
    DispatchId::new(value).expect("test IDs are non-zero")
}

#[test]
fn dynamic_dispatch_id_is_write_once() {
    let mut rtti = message(8, "WriteOnceMsg");

    assert_eq!(rtti.dynamic_dispatch_id(), None);

    assert_eq!(rtti.assign_dynamic_dispatch_id(id(42)), Ok(()));
    assert_eq!(rtti.assign_dynamic_dispatch_id(id(43)), Err(id(42)));

    assert_eq!(rtti.dynamic_dispatch_id(), Some(id(42)));
}

#[test]
fn dispatch_ids_are_not_zero() {
    assert_eq!(DispatchId::new(0), None);
    assert_eq!(id(5).get(), 5);
}

type Handler = fn(&Cell<u32>, &Cell<u32>);

fn dispatch_a(a: &Cell<u32>, _: &Cell<u32>) {
    a.set(a.get() + 1);
}

fn dispatch_b(_: &Cell<u32>, b: &Cell<u32>) {
    b.set(b.get() + 1);
}

#[test]
fn table_bind_resolves_unique_and_shared() {
    let mut unique_msg = message(8, "UniqueMsg");
    let mut shared_msg = message(16, "SharedMsg");
    let mut foreign_msg = message(24, "ForeignMsg");
    let unassigned_msg = message(32, "UnassignedMsg");
    let _ = unique_msg.assign_dynamic_dispatch_id(id(10));
    let _ = shared_msg.assign_dynamic_dispatch_id(id(12));
    let _ = foreign_msg.assign_dynamic_dispatch_id(id(100));

    let table: ActorDispatchTable<ActorMessageDispatcher<Handler>> =
        ActorDispatchTable::from_parts(
            actor(8, "TableActor"),
            id(10),
            vec![ActorMessageDispatcher::new(dispatch_a)],
            vec![(id(12), ActorMessageDispatcher::new(dispatch_b))],
        );
    let (a_calls, b_calls) = (Cell::new(0), Cell::new(0));

    let unique = table.bind(&unique_msg).expect("unique message must bind");
    (unique.handler)(&a_calls, &b_calls);
    assert_eq!(a_calls.get(), 1);
    assert_eq!(b_calls.get(), 0);

    let shared = table.bind(&shared_msg).expect("shared message must bind");
    (shared.handler)(&a_calls, &b_calls);
    assert_eq!(a_calls.get(), 1);
    assert_eq!(b_calls.get(), 1);

    // Assigned ID, but not in this actor's table.
    assert!(table.bind(&foreign_msg).is_none());

    // No ID assigned at all.
    assert!(table.bind(&unassigned_msg).is_none());
    assert_eq!(table.actor(), actor(8, "TableActor"));
}

fn registration(
    actor: ActorRtti,
    message: MessageRtti,
    dispatcher: &'static str,
) -> DynamicHandlerRegistration<&'static str> {
    DynamicHandlerRegistration::from_raw(actor, message, dispatcher)
}

fn slots(messages: &Vec<MessageRtti>) -> Vec<Option<usize>> {
    messages
        .iter()
        .map(|m| m.dynamic_dispatch_id().map(|id| id.get()))
        .collect()
}

#[test]
fn unique_messages_are_numbered_before_shared_ones() {
    let (alpha, beta) = (actor(100, "Alpha"), actor(200, "Beta"));
    let (m1, m2, m3, m4) = (
        message(8, "m1"),
        message(16, "m2"),
        message(24, "m3"),
        message(32, "m4"),
    );
    // m1 is shared; m3 is Alpha's alone, m2 and m4 are Beta's alone.
    let regs = vec![
        registration(beta, m4, "beta m4"),
        registration(beta, m1, "beta m1"),
        registration(alpha, m3, "alpha m3"),
        registration(alpha, m1, "alpha m1"),
        registration(beta, m2, "beta m2"),
    ];
    let mut messages = vec![m1, m2, m3, m4, message(40, "unregistered")];
    let registry = DispatchRegistry::build(&regs, &mut messages);
    assert_eq!(
        slots(&messages),
        vec![Some(4), Some(2), Some(1), Some(3), None]
    );
    assert_eq!(registry.frozen_registration_count(), 5);

    let binder = RegistryBinder::new(&registry, &alpha);
    assert_eq!(binder.bind(&messages[0]), Some("alpha m1"));
    assert_eq!(binder.bind(&messages[1]), None);
    assert_eq!(binder.bind(&messages[2]), Some("alpha m3"));
    assert_eq!(binder.bind(&messages[3]), None);
    assert_eq!(binder.bind(&messages[4]), None);
    let binder = RegistryBinder::new(&registry, &beta);
    assert_eq!(binder.bind(&messages[0]), Some("beta m1"));
    assert_eq!(binder.bind(&messages[1]), Some("beta m2"));
    assert_eq!(binder.bind(&messages[2]), None);
    assert_eq!(binder.bind(&messages[3]), Some("beta m4"));
    assert!(registry.table_for(&actor(300, "Gamma")).is_none());
    assert_eq!(
        RegistryBinder::new(&registry, &actor(300, "Gamma")).bind(&messages[0]),
        None
    );
}

#[test]
fn registration_order_and_repetition_change_nothing() {
    let (alpha, beta) = (actor(100, "Alpha"), actor(200, "Beta"));
    let (m1, m2) = (message(8, "m1"), message(16, "m2"));
    let one = registration(alpha, m1, "one");
    let two = registration(beta, m1, "two");
    let three = registration(beta, m2, "three");
    let mut expected = vec![m1, m2];
    DispatchRegistry::build(&vec![one, two, three], &mut expected);
    assert_eq!(slots(&expected), vec![Some(2), Some(1)]);
    for regs in [
        vec![three, two, one],
        vec![two, one, three],
        vec![one, one, two, three, two],
    ] {
        let mut messages = vec![m1, m2];
        let registry = DispatchRegistry::build(&regs, &mut messages);
        assert_eq!(slots(&messages), slots(&expected));
        let binder = RegistryBinder::new(&registry, &beta);
        assert_eq!(binder.bind(&messages[0]), Some("two"));
        assert_eq!(binder.bind(&messages[1]), Some("three"));
    }
}

#[test]
fn empty_registry_binds_nothing() {
    let regs: Vec<DynamicHandlerRegistration<&'static str>> = Vec::new();
    let mut messages = vec![message(8, "m1")];
    let registry = DispatchRegistry::build(&regs, &mut messages);
    assert_eq!(slots(&messages), vec![None]);
    let binder = RegistryBinder::new(&registry, &actor(100, "Alpha"));
    assert_eq!(binder.bind(&messages[0]), None);
}

#[test]
fn late_registrations_are_reported() {
    let alpha = actor(100, "Alpha");
    let (m1, m2) = (message(8, "m1"), message(16, "m2"));
    let mut regs = vec![registration(alpha, m1, "one")];
    let mut messages = vec![m1, m2];
    let registry = DispatchRegistry::build(&regs, &mut messages);
    assert!(!registry.is_stale(regs.len()));
    assert!(registry.debug_assert_fresh(&regs).is_ok());
    assert!(RegistryBinder::new_fresh(&registry, &regs, &alpha).is_ok());

    // The newest registration comes first.
    regs.insert(0, registration(alpha, m2, "late"));
    assert!(registry.is_stale(regs.len()));
    let stale = registry.debug_assert_fresh(&regs).unwrap_err();
    assert_eq!(stale.late_count, 1);
    assert_eq!(stale.late, "Alpha/m2");
    assert!(RegistryBinder::new_fresh(&registry, &regs, &alpha).is_err());

    // The late registration is not part of the tables.
    let binder = RegistryBinder::new(&registry, &alpha);
    assert_eq!(binder.bind(&messages[0]), Some("one"));
    assert_eq!(binder.bind(&messages[1]), None);
}

#[test]
fn static_only_binder_never_binds() {
    let mut rtti = message(8, "m1");
    let _ = rtti.assign_dynamic_dispatch_id(id(1));
    let bound: Option<&'static str> = StaticOnlyBinder::default().bind(&rtti);
    assert_eq!(bound, None);
}
