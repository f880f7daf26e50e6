//! The plain run loop: it pulls until its mailbox closes, then drains.
use crate::actor::run_loop::is_turn;
use crate::actor::state::SharedActorState;
use crate::runtime::loop_support::init_or_fail;
use crate::actor::lifecycle::TerminationReason;
use vstd::prelude::*;

verus! {

/// Where a plain run loop is.
#[derive(Clone, Copy, Debug, PartialEq, Eq, Structural)]
pub enum StandardPhase {
    /// A message is awaited, while the work set runs.
    Receiving,
    /// The work set is being driven to completion.
    Draining,
    /// The loop is over.
    Done,
}

/// What happened to a plain run loop.
#[derive(Debug)]
pub enum StandardEvent<H> {
    /// The work set yielded: a handler has completed, or there is none.
    WorkYielded,
    /// A message was received and dispatched, or the mailbox is closed.
    Received(Option<H>),
}

/// Run loop that runs handlers concurrently until the mailbox closes, then drives
/// the pending ones to completion. It looks at no failure.
#[derive(Debug)]
pub struct StandardActorRunLoopImpl {
    phase: StandardPhase,
    /// The number of handlers in the work set.
    in_flight: usize,
}

impl StandardActorRunLoopImpl {
    /// Where the loop is.
    pub closed spec fn phase(self) -> StandardPhase {
        self.phase
    }

    /// The number of handlers in the work set.
    pub closed spec fn in_flight(self) -> usize {
        self.in_flight
    }

    /// Whether the loop waits for the given event.
    pub open spec fn awaits<H>(self, event: StandardEvent<H>) -> bool {
        match event {
            StandardEvent::WorkYielded => self.phase() != StandardPhase::Done,
            StandardEvent::Received(_) => self.phase() == StandardPhase::Receiving
                && self.in_flight() < usize::MAX,
        }
    }

    /// A loop awaiting its first message.
    pub fn new() -> (run_loop: Self)
        ensures
            run_loop.phase() == StandardPhase::Receiving,
            run_loop.in_flight() == 0,
    {
        StandardActorRunLoopImpl { phase: StandardPhase::Receiving, in_flight: 0 }
    }

    /// The outcome of the initializer: the constructed actor to run the loop
    /// with, or `None` with the error recorded.
    pub fn run_with<A, E, W, D, T, X, Y>(
        init: Result<A, E>,
        shared: &mut SharedActorState<E, W, D, T, X, Y>,
    ) -> (actor: Option<A>)
        ensures
            actor is Some <==> init is Ok,
            init matches Ok(constructed) ==> actor == Some(constructed) && final(shared)@ == old(
                shared,
            )@,
            init matches Err(error) ==> final(shared)@ == old(shared)@.after_recording(
                TerminationReason::Failed(error),
            ),
            final(shared).same_data(*old(shared)),
    {
        init_or_fail(init, shared)
    }

    /// Take the next step of the loop. Returns the handler to put into the work
    /// set, if any.
    pub fn run<H>(&mut self, event: StandardEvent<H>) -> (handler: Option<H>)
        requires
            old(self).awaits(event),
        ensures
            match event {
                StandardEvent::Received(Some(received)) => {
                    &&& handler == Some(received)
                    &&& final(self).in_flight() == old(self).in_flight() + 1
                    &&& final(self).phase() == StandardPhase::Receiving
                },
                StandardEvent::Received(None) => {
                    &&& handler is None
                    &&& final(self).in_flight() == old(self).in_flight()
                    &&& final(self).phase() == if old(self).in_flight() == 0 {
                        StandardPhase::Done
                    } else {
                        StandardPhase::Draining
                    }
                },
                StandardEvent::WorkYielded => {
                    &&& handler is None
                    &&& final(self).in_flight() == if old(self).in_flight() == 0 {
                        0
                    } else {
                        old(self).in_flight() - 1
                    }
                    &&& final(self).phase() == if old(self).phase() == StandardPhase::Draining
                        && final(self).in_flight() == 0 {
                        StandardPhase::Done
                    } else {
                        old(self).phase()
                    }
                },
            },
    {
        match event {
            StandardEvent::Received(Some(handler)) => {
                self.in_flight = self.in_flight + 1;
                Some(handler)
            },
            StandardEvent::Received(None) => {
                self.phase = if self.in_flight == 0 {
                    StandardPhase::Done
                } else {
                    StandardPhase::Draining
                };
                None
            },
            StandardEvent::WorkYielded => {
                if self.in_flight > 0 {
                    self.in_flight = self.in_flight - 1;
                }
                if self.phase == StandardPhase::Draining && self.in_flight == 0 {
                    self.phase = StandardPhase::Done;
                }
                None
            },
        }
    }
}

/// Whether the mailbox was found closed.
pub open spec fn closed<H>(events: Seq<StandardEvent<H>>) -> bool {
    exists|i: int|
        0 <= i < events.len() && (#[trigger] events[i]) == StandardEvent::<H>::Received(None)
}

/// However long it runs, the loop puts each received handler, that very one, into the
/// work set, receives until its mailbox is closed, and is over once it is and no handler
/// is left, whatever their number. Whatever it waits for is accepted.
pub proof fn the_plain_loop_drains_after_the_close<H>(
    states: Seq<StandardActorRunLoopImpl>,
    events: Seq<StandardEvent<H>>,
    handlers: Seq<Option<H>>,
    i: int,
)
    requires
        states.len() == events.len() + 1,
        handlers.len() == events.len(),
        call_ensures(StandardActorRunLoopImpl::new, (), states[0]),
        forall|k: int, next: int| #[trigger]
            is_turn(events.len(), k) && next == k + 1 && #[trigger] is_turn(states.len(), next)
                ==> exists|run_loop: &mut StandardActorRunLoopImpl|
                #[trigger] call_ensures(
                    StandardActorRunLoopImpl::run::<H>,
                    (run_loop, events[k]),
                    handlers[k],
                ) && *run_loop == states[k] && *final(run_loop) == states[next],
        forall|k: int| #[trigger]
            is_turn(events.len(), k) && events[k] is Received ==> !closed(events.take(k)),
        0 <= i < events.len() < usize::MAX,
    ensures
        handlers[i] == match events[i] {
            StandardEvent::Received(received) => received,
            StandardEvent::WorkYielded => None,
        },
        states[i + 1].in_flight() == match events[i] {
            StandardEvent::Received(Some(_)) => states[i].in_flight() + 1,
            StandardEvent::Received(None) => states[i].in_flight() as int,
            StandardEvent::WorkYielded => if states[i].in_flight() == 0 {
                0
            } else {
                states[i].in_flight() - 1
            },
        },
        states[i + 1].phase() is Receiving <==> !closed(events.take(i + 1)),
        states[i + 1].phase() is Done <==> closed(events.take(i + 1)) && states[i + 1].in_flight()
            == 0,
        forall|run_loop: &mut StandardActorRunLoopImpl, event: StandardEvent<H>|
            *run_loop == states[i + 1] && (if closed(events.take(i + 1)) {
                event is WorkYielded && states[i + 1].in_flight() > 0
            } else {
                true
            }) ==> #[trigger] call_requires(
                StandardActorRunLoopImpl::run::<H>,
                (run_loop, event),
            ),
{
    plain_loop_follows_its_events(states, events, handlers, i);
    plain_loop_follows_its_events(states, events, handlers, i + 1);
    assert(is_turn(events.len(), i));
    assert(is_turn(states.len(), i + 1));
}

/// Where the loop is, after some of its events.
proof fn plain_loop_follows_its_events<H>(
    states: Seq<StandardActorRunLoopImpl>,
    events: Seq<StandardEvent<H>>,
    handlers: Seq<Option<H>>,
    i: int,
)
    requires
        states.len() == events.len() + 1,
        handlers.len() == events.len(),
        call_ensures(StandardActorRunLoopImpl::new, (), states[0]),
        forall|k: int, next: int| #[trigger]
            is_turn(events.len(), k) && next == k + 1 && #[trigger] is_turn(states.len(), next)
                ==> exists|run_loop: &mut StandardActorRunLoopImpl|
                #[trigger] call_ensures(
                    StandardActorRunLoopImpl::run::<H>,
                    (run_loop, events[k]),
                    handlers[k],
                ) && *run_loop == states[k] && *final(run_loop) == states[next],
        forall|k: int| #[trigger]
            is_turn(events.len(), k) && events[k] is Received ==> !closed(events.take(k)),
        0 <= i <= events.len() < usize::MAX,
    ensures
        states[i].in_flight() <= i,
        states[i].phase() is Receiving <==> !closed(events.take(i)),
        states[i].phase() is Done ==> states[i].in_flight() == 0,
        states[i].phase() is Draining ==> states[i].in_flight() > 0,
    decreases i,
{
    if i > 0 {
        let before = events.take(i - 1);
        let now = events.take(i);
        plain_loop_follows_its_events(states, events, handlers, i - 1);
        assert(is_turn(events.len(), i - 1));
        assert(is_turn(states.len(), i));
        assert(now[i - 1] == events[i - 1]);
        assert forall|k: int| 0 <= k < i - 1 implies before[k] == #[trigger] now[k] by {}
        if closed(before) {
            let k = choose|k: int|
                0 <= k < before.len() && (#[trigger] before[k]) == StandardEvent::<H>::Received(
                    None,
                );
            assert(now[k] == StandardEvent::<H>::Received(None));
        }
        if closed(now) && !closed(before) {
            let k = choose|k: int|
                0 <= k < now.len() && (#[trigger] now[k]) == StandardEvent::<H>::Received(None);
            assert(k == i - 1) by {
                if k < i - 1 {
                    assert(before[k] == now[k]);
                }
            }
        }
    } else {
        assert(events.take(0).len() == 0);
    }
}

} // verus!
