//! Append-only capture log: typed observation events emitted to a sink.
//!
//! An event is emitted for each observable action: an actor born, an actor dead,
//! a message delivered. Causality is by explicit id links, never by timing: every
//! event has an [`EventId`] and carries the event that caused it.
use crate::actor::lifecycle::{TerminationKind, TerminationReason};
use crate::actor::run_loop::is_turn;
use crate::actor::state::SharedActorState;
use crate::actor::supervision::ActorId;
use vstd::prelude::*;

verus! {

/// Identity of a captured event: the actor that emitted it plus that actor's
/// own monotonic sequence number.
#[derive(Clone, Copy, Debug, PartialEq, Eq, Hash)]
pub struct EventId {
    /// The actor that emitted the event.
    pub actor: ActorId,
    /// That actor's sequence number for this event.
    pub seq: usize,
}

/// How a captured message was dispatched.
#[derive(Clone, Copy, Debug, PartialEq, Eq, Hash, Structural)]
pub enum Dispatch {
    /// Fire-and-forget.
    Tell,
    /// Request-response.
    Ask,
}

/// What an actor is doing when it sends a message or spawns another actor: who
/// it is and the event whose handling is under way.
#[derive(Clone, Copy, Debug, PartialEq, Eq, Hash)]
pub struct CaptureFrame {
    pub actor: ActorId,
    pub event: Option<EventId>,
}

/// One observation in the capture log.
#[derive(Clone, Copy, Debug)]
pub enum CaptureEvent {
    /// An actor was born (reached `Running`).
    Spawned {
        id: EventId,
        actor_type: &'static str,
        /// The actor that spawned it, or `None` for a root spawn.
        parent: Option<ActorId>,
        caused_by: Option<EventId>,
    },
    /// An actor terminated.
    Died {
        id: EventId,
        actor_type: &'static str,
        reason: TerminationKind,
        caused_by: Option<EventId>,
    },
    /// A message was delivered to an actor - emitted by the receiver.
    Message {
        id: EventId,
        /// The sender, or `None` if sent from outside any actor.
        from: Option<ActorId>,
        /// The receiver (always equal to `id.actor`).
        to: ActorId,
        message_type: &'static str,
        dispatch: Dispatch,
        caused_by: Option<EventId>,
    },
}

/// The write end of the capture log: receives [`CaptureEvent`]s.
pub trait CaptureSink<Ev = CaptureEvent>: Send + Sync {
    /// Record one event. Called from actor loops - must not block.
    fn record(&self, event: Ev);
}

/// Where one event can go. Giving it the event uses it up, so whoever holds one can
/// emit at most one event.
pub trait CaptureTarget<Ev>: Sized {
    /// Take the event.
    fn give(self, event: Ev);
}

/// A reference to a sink takes one event, which the sink records: the event moves,
/// and one of an arbitrary type can be neither copied nor made up.
impl<'a, Ev, S: CaptureSink<Ev> + ?Sized> CaptureTarget<Ev> for &'a S {
    fn give(self, event: Ev)
        ensures
            call_ensures(S::record, (self, event), ()),
    {
        self.record(event)
    }
}

/// A capture log that is kept in order.
#[derive(Debug)]
pub struct CaptureLog {
    events: Vec<CaptureEvent>,
}

impl View for CaptureLog {
    type V = Seq<CaptureEvent>;

    closed spec fn view(&self) -> Seq<CaptureEvent> {
        self.events@
    }
}

impl CaptureLog {
    /// A log without events.
    pub fn new() -> (log: Self)
        ensures
            log@ == Seq::<CaptureEvent>::empty(),
    {
        CaptureLog { events: Vec::new() }
    }

    /// The events, in the order in which they were emitted.
    pub fn events(&self) -> (events: &Vec<CaptureEvent>)
        ensures
            events@ == self@,
    {
        &self.events
    }
}

impl<'a> CaptureTarget<CaptureEvent> for &'a mut CaptureLog {
    fn give(self, event: CaptureEvent)
        ensures
            final(self)@ == old(self)@.push(event),
    {
        self.events.push(event);
    }
}

/// Whether the event was given to where it is to be emitted to. A reference to a
/// sink then had its [`CaptureSink::record`] called with it.
pub open spec fn is_recorded<K: CaptureTarget<CaptureEvent>>(
    sink: Option<K>,
    event: CaptureEvent,
) -> bool {
    sink matches Some(sink) && call_ensures(K::give, (sink, event), ())
}

impl CaptureFrame {
    /// The actor of a frame, `None` outside any actor.
    pub open spec fn actor_of(frame: Option<CaptureFrame>) -> Option<ActorId> {
        match frame {
            Some(frame) => Some(frame.actor),
            None => None,
        }
    }

    /// The event of a frame, `None` outside any actor.
    pub open spec fn event_of(frame: Option<CaptureFrame>) -> Option<EventId> {
        match frame {
            Some(frame) => frame.event,
            None => None,
        }
    }
}

impl CaptureEvent {
    /// The identity of the event.
    pub open spec fn event_id(self) -> EventId {
        match self {
            CaptureEvent::Spawned { id, .. } => id,
            CaptureEvent::Died { id, .. } => id,
            CaptureEvent::Message { id, .. } => id,
        }
    }

    /// The event that caused this one, `None` at a causal root.
    pub open spec fn cause(self) -> Option<EventId> {
        match self {
            CaptureEvent::Spawned { caused_by, .. } => caused_by,
            CaptureEvent::Died { caused_by, .. } => caused_by,
            CaptureEvent::Message { caused_by, .. } => caused_by,
        }
    }

    /// The birth of an actor, linked to the frame it was spawned from.
    pub fn spawned(id: EventId, actor_type: &'static str, birth: Option<CaptureFrame>) -> (event:
        CaptureEvent)
        ensures
            event == (CaptureEvent::Spawned {
                id,
                actor_type,
                parent: CaptureFrame::actor_of(birth),
                caused_by: CaptureFrame::event_of(birth),
            }),
    {
        match birth {
            Some(frame) => CaptureEvent::Spawned {
                id,
                actor_type,
                parent: Some(frame.actor),
                caused_by: frame.event,
            },
            None => CaptureEvent::Spawned { id, actor_type, parent: None, caused_by: None },
        }
    }

    /// The death of an actor.
    pub fn died(id: EventId, actor_type: &'static str, reason: TerminationKind) -> (event:
        CaptureEvent)
        ensures
            event == (CaptureEvent::Died { id, actor_type, reason, caused_by: None }),
    {
        CaptureEvent::Died { id, actor_type, reason, caused_by: None }
    }

    /// The delivery of a message, linked to the frame it was sent from.
    pub fn message(
        id: EventId,
        sender: Option<CaptureFrame>,
        message_type: &'static str,
        dispatch: Dispatch,
    ) -> (event: CaptureEvent)
        ensures
            event == (CaptureEvent::Message {
                id,
                from: CaptureFrame::actor_of(sender),
                to: id.actor,
                message_type,
                dispatch,
                caused_by: CaptureFrame::event_of(sender),
            }),
    {
        match sender {
            Some(frame) => CaptureEvent::Message {
                id,
                from: Some(frame.actor),
                to: id.actor,
                message_type,
                dispatch,
                caused_by: frame.event,
            },
            None => CaptureEvent::Message {
                id,
                from: None,
                to: id.actor,
                message_type,
                dispatch,
                caused_by: None,
            },
        }
    }
}

/// Emit a [`CaptureEvent::Spawned`] for the actor, if there is a sink to emit it
/// to. Returns the emitted event.
///
/// Called from the run loop once the actor reaches `Running`.
pub fn record_spawned<E, W, D, T, X, Y, K: CaptureTarget<CaptureEvent>>(
    shared: &mut SharedActorState<E, W, D, T, X, Y>,
    sink: Option<K>,
    actor_type: &'static str,
) -> (emitted: Option<CaptureEvent>)
    ensures
        emitted is Some <==> sink is Some,
        emitted matches Some(event) ==> {
            &&& event matches CaptureEvent::Spawned { id, actor_type: name, parent, caused_by }
            &&& id.actor == old(shared)@.id && id.seq == old(shared)@.capture_seq
            &&& name == actor_type
            &&& parent == CaptureFrame::actor_of(old(shared)@.birth())
            &&& caused_by == CaptureFrame::event_of(old(shared)@.birth())
            &&& is_recorded(sink, event)
        },
        final(shared)@ == if sink is Some {
            old(shared)@.after_minting()
        } else {
            old(shared)@
        },
        final(shared).same_data(*old(shared)),
{
    match sink {
        Some(sink) => {
            let birth = shared.capture_birth();
            let event = CaptureEvent::spawned(shared.next_capture_event_id(), actor_type, birth);
            sink.give(event);
            Some(event)
        },
        None => None,
    }
}

/// Emit a [`CaptureEvent::Died`] for the actor, if there is a sink to emit it to.
/// Returns the emitted event.
///
/// Called from the run loop's stop path (clean or failed) and the terminal drop
/// guard (abort); the reason is the recorded outcome, `Aborted` for want of one.
pub fn record_died<E, W, D, T, X, Y, K: CaptureTarget<CaptureEvent>>(
    shared: &mut SharedActorState<E, W, D, T, X, Y>,
    sink: Option<K>,
    actor_type: &'static str,
) -> (emitted: Option<CaptureEvent>)
    ensures
        emitted is Some <==> sink is Some,
        emitted matches Some(event) ==> {
            &&& event matches CaptureEvent::Died { id, actor_type: name, reason, caused_by }
            &&& id.actor == old(shared)@.id && id.seq == old(shared)@.capture_seq
            &&& name == actor_type
            &&& reason == match old(shared)@.kind() {
                Some(kind) => kind,
                None => TerminationKind::Aborted,
            }
            &&& caused_by is None
            &&& is_recorded(sink, event)
        },
        final(shared)@ == if sink is Some {
            old(shared)@.after_minting()
        } else {
            old(shared)@
        },
        final(shared).same_data(*old(shared)),
{
    match sink {
        Some(sink) => {
            let reason = match shared.termination_reason() {
                Some(reason) => reason.kind(),
                None => TerminationKind::Aborted,
            };
            let event = CaptureEvent::died(shared.next_capture_event_id(), actor_type, reason);
            sink.give(event);
            Some(event)
        },
        None => None,
    }
}

/// Emit a [`CaptureEvent::Message`] for a message delivered to the actor, if
/// there is a sink to emit it to. Returns the frame in which the message is
/// handled: what the handler sends or spawns is caused by the delivery.
pub fn record_message<E, W, D, T, X, Y, K: CaptureTarget<CaptureEvent>>(
    shared: &mut SharedActorState<E, W, D, T, X, Y>,
    sink: Option<K>,
    sender: Option<CaptureFrame>,
    message_type: &'static str,
    dispatch: Dispatch,
) -> (result: (Option<CaptureEvent>, CaptureFrame))
    ensures
        result.0 is Some <==> sink is Some,
        result.0 matches Some(event) ==> {
            &&& event matches CaptureEvent::Message {
                id,
                from,
                to,
                message_type: name,
                dispatch: how,
                caused_by,
            }
            &&& id.actor == old(shared)@.id && id.seq == old(shared)@.capture_seq
            &&& to == id.actor
            &&& name == message_type
            &&& how == dispatch
            &&& from == CaptureFrame::actor_of(sender)
            &&& caused_by == CaptureFrame::event_of(sender)
            &&& result.1.event == Some(id)
            &&& is_recorded(sink, event)
        },
        result.0 is None ==> result.1.event is None,
        result.1.actor == old(shared)@.id,
        final(shared)@ == if sink is Some {
            old(shared)@.after_minting()
        } else {
            old(shared)@
        },
        final(shared).same_data(*old(shared)),
{
    match sink {
        Some(sink) => {
            let id = shared.next_capture_event_id();
            let event = CaptureEvent::message(id, sender, message_type, dispatch);
            sink.give(event);
            (Some(event), CaptureFrame { actor: shared.id(), event: Some(id) })
        },
        None => (None, CaptureFrame { actor: shared.id(), event: None }),
    }
}

/// Whether the first `count` events of a log hold one with the given id.
pub open spec fn is_logged(log: Seq<CaptureEvent>, count: int, id: EventId) -> bool {
    exists|i: int| 0 <= i < count && (#[trigger] log[i]).event_id() == id
}

/// Whether every event of a log is caused by an earlier one, or is a causal root.
pub open spec fn is_causal(log: Seq<CaptureEvent>) -> bool {
    forall|i: int|
        0 <= i < log.len() ==> ((#[trigger] log[i]).cause() matches Some(cause) ==> is_logged(
            log,
            i,
            cause,
        ))
}

/// Whether the event of a frame, if it has one, is in a log.
pub open spec fn is_known(log: Seq<CaptureEvent>, frame: Option<CaptureFrame>) -> bool {
    CaptureFrame::event_of(frame) matches Some(id) ==> is_logged(log, log.len() as int, id)
}

/// The causal links of a log form no cycle: an event that is linked to the frame
/// it happens in, while the log holds what that frame is about, has its cause
/// before it; and so will whatever happens in the frame in which the event itself
/// is handled.
pub proof fn links_point_backwards(
    log: Seq<CaptureEvent>,
    frame: Option<CaptureFrame>,
    event: CaptureEvent,
    handling: CaptureFrame,
)
    requires
        is_causal(log),
        is_known(log, frame),
        event.cause() == CaptureFrame::event_of(frame),
        handling.event == Some(event.event_id()),
    ensures
        is_causal(log.push(event)),
        is_known(log.push(event), Some(handling)),
        is_known(log.push(event), frame),
{
    let longer = log.push(event);
    assert forall|i: int, id: EventId| 0 <= i <= log.len() && #[trigger] is_logged(
        log,
        i,
        id,
    ) implies is_logged(longer, i, id) && is_logged(longer, longer.len() as int, id) by {
        let j = choose|j: int| 0 <= j < i && (#[trigger] log[j]).event_id() == id;
        assert(longer[j] == log[j]);
    }
    assert forall|i: int| 0 <= i < longer.len() implies (
    (#[trigger] longer[i]).cause() matches Some(cause) ==> is_logged(longer, i, cause)) by {
        if i < log.len() {
            assert(longer[i] == log[i]);
        }
    }
    assert(longer[log.len() as int].event_id() == event.event_id());
}

/// A sink that an event is emitted to records that event.
pub proof fn sinks_record_what_is_emitted<S: CaptureSink + ?Sized>(sink: &S, event: CaptureEvent)
    requires
        is_recorded(Some(sink), event),
    ensures
        call_ensures(S::record, (sink, event), ()),
{
}

/// One delivery is one entry of the log: the log grows by the delivery and nothing
/// else. The entry says who sent the message, within which event, who got it, of
/// what type it was and how it was sent; and whatever its handling causes is linked
/// to that very entry.
pub proof fn a_delivery_is_logged_once<E, W, D, T, X, Y>(
    sender: Option<CaptureFrame>,
    message_type: &'static str,
    dispatch: Dispatch,
)
    ensures
        forall|
            shared: &mut SharedActorState<E, W, D, T, X, Y>,
            log: &mut CaptureLog,
            result: (Option<CaptureEvent>, CaptureFrame),
        | #[trigger]
            call_ensures(
                record_message::<E, W, D, T, X, Y, &mut CaptureLog>,
                (shared, Some(log), sender, message_type, dispatch),
                result,
            ) ==> {
                &&& final(log)@.len() == log@.len() + 1
                &&& final(log)@.drop_last() == log@
                &&& result.0 == Some(final(log)@.last())
                &&& final(log)@.last() matches CaptureEvent::Message {
                    id,
                    from,
                    to,
                    message_type: name,
                    dispatch: how,
                    caused_by,
                }
                &&& from == match sender {
                    Some(frame) => Some(frame.actor),
                    None => None,
                }
                &&& caused_by == match sender {
                    Some(frame) => frame.event,
                    None => None,
                }
                &&& id.actor == shared@.id && to == shared@.id
                &&& id.seq == shared@.capture_seq
                &&& name == message_type && how == dispatch
                &&& result.1.actor == shared@.id && result.1.event == Some(id)
            },
{
    assert forall|
        shared: &mut SharedActorState<E, W, D, T, X, Y>,
        log: &mut CaptureLog,
        result: (Option<CaptureEvent>, CaptureFrame),
    | #[trigger]
        call_ensures(
            record_message::<E, W, D, T, X, Y, &mut CaptureLog>,
            (shared, Some(log), sender, message_type, dispatch),
            result,
        ) implies final(log)@.drop_last() == log@ && result.0 == Some(final(log)@.last()) by {
        assert(final(log)@ == log@.push(result.0->0));
        assert(log@.push(result.0->0).drop_last() =~= log@);
    }
}

/// One birth is one entry of the log: the log grows by the birth and nothing else.
/// The entry names the actor that was born and its type, and is linked to the frame
/// that it was spawned from.
pub proof fn a_birth_is_logged_once<E, W, D, T, X, Y>(actor_type: &'static str)
    ensures
        forall|
            shared: &mut SharedActorState<E, W, D, T, X, Y>,
            log: &mut CaptureLog,
            emitted: Option<CaptureEvent>,
        | #[trigger]
            call_ensures(
                record_spawned::<E, W, D, T, X, Y, &mut CaptureLog>,
                (shared, Some(log), actor_type),
                emitted,
            ) ==> {
                &&& final(log)@.len() == log@.len() + 1
                &&& final(log)@.drop_last() == log@
                &&& emitted == Some(final(log)@.last())
                &&& final(log)@.last() matches CaptureEvent::Spawned {
                    id,
                    actor_type: name,
                    parent,
                    caused_by,
                }
                &&& id.actor == shared@.id && id.seq == shared@.capture_seq && name == actor_type
                &&& shared@.capture_birth matches Some(Some(frame)) ==> parent == Some(frame.actor)
                    && caused_by == frame.event
                &&& !(shared@.capture_birth matches Some(Some(_))) ==> parent is None
                    && caused_by is None
            },
{
    assert forall|
        shared: &mut SharedActorState<E, W, D, T, X, Y>,
        log: &mut CaptureLog,
        emitted: Option<CaptureEvent>,
    | #[trigger]
        call_ensures(
            record_spawned::<E, W, D, T, X, Y, &mut CaptureLog>,
            (shared, Some(log), actor_type),
            emitted,
        ) implies final(log)@.drop_last() == log@ && emitted == Some(final(log)@.last()) by {
        assert(final(log)@ == log@.push(emitted->0));
        assert(log@.push(emitted->0).drop_last() =~= log@);
    }
}

/// One death is one entry of the log: the log grows by the death and nothing else.
/// The entry names the actor that died and its type, and tells a clean end, a
/// failure and an abort apart.
pub proof fn a_death_is_logged_once<E, W, D, T, X, Y>(actor_type: &'static str)
    ensures
        forall|
            shared: &mut SharedActorState<E, W, D, T, X, Y>,
            log: &mut CaptureLog,
            emitted: Option<CaptureEvent>,
        | #[trigger]
            call_ensures(
                record_died::<E, W, D, T, X, Y, &mut CaptureLog>,
                (shared, Some(log), actor_type),
                emitted,
            ) ==> {
                &&& final(log)@.len() == log@.len() + 1
                &&& final(log)@.drop_last() == log@
                &&& emitted == Some(final(log)@.last())
                &&& final(log)@.last() matches CaptureEvent::Died {
                    id,
                    actor_type: name,
                    reason,
                    caused_by,
                }
                &&& id.actor == shared@.id && id.seq == shared@.capture_seq && name == actor_type
                &&& caused_by is None
                &&& reason is Finished <==> (shared@.reason matches Some(
                    TerminationReason::Finished,
                ))
                &&& reason is Failed <==> (shared@.reason matches Some(
                    TerminationReason::Failed(_),
                ))
            },
{
    assert forall|
        shared: &mut SharedActorState<E, W, D, T, X, Y>,
        log: &mut CaptureLog,
        emitted: Option<CaptureEvent>,
    | #[trigger]
        call_ensures(
            record_died::<E, W, D, T, X, Y, &mut CaptureLog>,
            (shared, Some(log), actor_type),
            emitted,
        ) implies final(log)@.drop_last() == log@ && emitted == Some(final(log)@.last()) by {
        assert(final(log)@ == log@.push(emitted->0));
        assert(log@.push(emitted->0).drop_last() =~= log@);
    }
}

/// Without anywhere to emit to, nothing is emitted and no event id is used up.
pub proof fn without_a_sink_nothing_is_emitted<E, W, D, T, X, Y>(
    sender: Option<CaptureFrame>,
    name: &'static str,
    dispatch: Dispatch,
)
    ensures
        forall|
            shared: &mut SharedActorState<E, W, D, T, X, Y>,
            result: (Option<CaptureEvent>, CaptureFrame),
        | #[trigger]
            call_ensures(
                record_message::<E, W, D, T, X, Y, &mut CaptureLog>,
                (shared, None, sender, name, dispatch),
                result,
            ) ==> final(shared)@ == shared@ && result.0 is None && result.1.event is None
                && result.1.actor == shared@.id,
        forall|
            shared: &mut SharedActorState<E, W, D, T, X, Y>,
            emitted: Option<CaptureEvent>,
        | #[trigger]
            call_ensures(
                record_spawned::<E, W, D, T, X, Y, &mut CaptureLog>,
                (shared, None, name),
                emitted,
            ) ==> final(shared)@ == shared@ && emitted is None,
        forall|
            shared: &mut SharedActorState<E, W, D, T, X, Y>,
            emitted: Option<CaptureEvent>,
        | #[trigger]
            call_ensures(
                record_died::<E, W, D, T, X, Y, &mut CaptureLog>,
                (shared, None, name),
                emitted,
            ) ==> final(shared)@ == shared@ && emitted is None,
{
}

/// No two entries that an actor emits have the same id: whatever it emits, in
/// whatever order, and whatever else is done to its state in between that uses up no
/// event id, each entry's number is larger than those of all before it.
pub proof fn no_two_entries_share_an_id<E, W, D, T, X, Y>(
    befores: Seq<SharedActorState<E, W, D, T, X, Y>>,
    afters: Seq<SharedActorState<E, W, D, T, X, Y>>,
    events: Seq<CaptureEvent>,
    i: int,
    j: int,
)
    requires
        befores.len() == events.len(),
        afters.len() == events.len(),
        forall|k: int| #[trigger]
            is_turn(events.len(), k) ==> {
                ||| exists|
                    shared: &mut SharedActorState<E, W, D, T, X, Y>,
                    log: &mut CaptureLog,
                    sender: Option<CaptureFrame>,
                    name: &'static str,
                    dispatch: Dispatch,
                    frame: CaptureFrame,
                |
                    #[trigger] call_ensures(
                        record_message::<E, W, D, T, X, Y, &mut CaptureLog>,
                        (shared, Some(log), sender, name, dispatch),
                        (Some(events[k]), frame),
                    ) && *shared == befores[k] && *final(shared) == afters[k]
                ||| exists|
                    shared: &mut SharedActorState<E, W, D, T, X, Y>,
                    log: &mut CaptureLog,
                    name: &'static str,
                |
                    #[trigger] call_ensures(
                        record_spawned::<E, W, D, T, X, Y, &mut CaptureLog>,
                        (shared, Some(log), name),
                        Some(events[k]),
                    ) && *shared == befores[k] && *final(shared) == afters[k]
                ||| exists|
                    shared: &mut SharedActorState<E, W, D, T, X, Y>,
                    log: &mut CaptureLog,
                    name: &'static str,
                |
                    #[trigger] call_ensures(
                        record_died::<E, W, D, T, X, Y, &mut CaptureLog>,
                        (shared, Some(log), name),
                        Some(events[k]),
                    ) && *shared == befores[k] && *final(shared) == afters[k]
            },
        forall|k: int, next: int| #[trigger]
            is_turn(events.len(), k) && #[trigger] is_turn(events.len(), next) && next == k + 1
                ==> afters[k]@.capture_seq == befores[next]@.capture_seq && afters[k]@.id
                == befores[next]@.id,
        forall|k: int| #[trigger]
            is_turn(events.len(), k) ==> befores[k]@.capture_seq < usize::MAX,
        0 <= i < j < events.len(),
    ensures
        events[i].event_id().seq < events[j].event_id().seq,
        events[i].event_id() != events[j].event_id(),
        events[i].event_id().actor == events[j].event_id().actor,
    decreases j,
{
    assert(is_turn(events.len(), j));
    assert(is_turn(events.len(), j - 1));
    if i < j - 1 {
        no_two_entries_share_an_id(befores, afters, events, i, j - 1);
    }
}

} // verus!
