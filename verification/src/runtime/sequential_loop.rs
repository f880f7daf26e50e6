//! The run loop that runs message handlers strictly sequentially.
use crate::actor::lifecycle::TerminationReason;
use crate::actor::run_loop::{is_turn, SerializedDispatch};
use crate::actor::state::SharedActorState;
use vstd::prelude::*;

verus! {

/// Where a sequential run loop is.
#[derive(Clone, Copy, Debug, PartialEq, Eq, Structural)]
pub enum SequentialPhase {
    /// The loop has not begun.
    Idle,
    /// The next dispatch is being pulled.
    Pulling,
    /// A handler is being driven to completion.
    Driving,
    /// The loop has quiesced.
    Quiesced,
}

/// What happened to a sequential run loop.
#[derive(Debug)]
pub enum SequentialEvent<H> {
    /// The loop begins.
    Begin,
    /// The driver yielded the next handler, or stopped the loop.
    Pulled(Option<H>),
    /// The handler has completed.
    Handled,
}

/// What a sequential run loop wants done next.
#[derive(Debug)]
pub enum SequentialAction<H> {
    /// Pull the next dispatch.
    Pull,
    /// Drive the handler to completion.
    Drive(H),
    /// The loop has quiesced: run the stop hook.
    RunStopHook,
}

/// Run loop that runs message handlers strictly sequentially: each dispatch is
/// driven to completion before the next is pulled. Dispatches never overlap, so
/// the actor state needs no real lock.
#[derive(Debug)]
pub struct SequentialRunLoop {
    phase: SequentialPhase,
    /// The number of handlers in flight.
    in_flight: usize,
}

impl SequentialRunLoop {
    /// Where the loop is.
    pub closed spec fn phase(self) -> SequentialPhase {
        self.phase
    }

    /// Whether the loop waits for the given event.
    pub open spec fn awaits<H>(self, event: SequentialEvent<H>) -> bool {
        match event {
            SequentialEvent::Begin => self.phase() == SequentialPhase::Idle,
            SequentialEvent::Pulled(_) => self.phase() == SequentialPhase::Pulling,
            SequentialEvent::Handled => self.phase() == SequentialPhase::Driving,
        }
    }

    /// The number of handlers in flight: those that were handed out to be driven
    /// and have not completed.
    pub closed spec fn in_flight(self) -> usize {
        self.in_flight
    }

    /// One handler is in flight while it is driven, and none otherwise.
    pub open spec fn wf(self) -> bool {
        self.in_flight() == if self.phase() == SequentialPhase::Driving {
            1usize
        } else {
            0usize
        }
    }

    /// Every loop is well-formed.
    #[verifier::type_invariant]
    spec fn is_wf(self) -> bool {
        self.wf()
    }

    /// A loop that has not begun.
    pub fn build() -> (run_loop: Self)
        ensures
            run_loop.phase() == SequentialPhase::Idle,
            run_loop.in_flight() == 0,
    {
        SequentialRunLoop { phase: SequentialPhase::Idle, in_flight: 0 }
    }

    /// Take the next step of the loop.
    ///
    /// Before each pull the loop looks whether a handler failed the actor: if
    /// so, it stops pulling. The stop hook still runs.
    pub fn run<H, E, W, D, T, X, Y>(
        &mut self,
        shared: &SharedActorState<E, W, D, T, X, Y>,
        event: SequentialEvent<H>,
    ) -> (action: SequentialAction<H>)
        requires
            old(self).awaits(event),
        ensures
            match event {
                SequentialEvent::Begin | SequentialEvent::Handled => {
                    if shared@.failed_error() is Some {
                        action is RunStopHook && final(self).phase() == SequentialPhase::Quiesced
                    } else {
                        action is Pull && final(self).phase() == SequentialPhase::Pulling
                    }
                },
                SequentialEvent::Pulled(Some(handler)) => {
                    action == SequentialAction::Drive(handler) && final(self).phase()
                        == SequentialPhase::Driving
                },
                SequentialEvent::Pulled(None) => {
                    action is RunStopHook && final(self).phase() == SequentialPhase::Quiesced
                },
            },
            old(self).wf() && final(self).wf(),
            final(self).in_flight() == old(self).in_flight() + (if action is Drive {
                1int
            } else {
                0int
            }) - (if event is Handled {
                1int
            } else {
                0int
            }),
            action is Drive ==> old(self).in_flight() == 0,
            action is RunStopHook ==> final(self).in_flight() == 0,
    {
        proof {
            use_type_invariant(&*self);
        }
        match event {
            SequentialEvent::Pulled(Some(handler)) => {
                *self = SequentialRunLoop {
                    phase: SequentialPhase::Driving,
                    in_flight: self.in_flight + 1,
                };
                SequentialAction::Drive(handler)
            },
            SequentialEvent::Pulled(None) => {
                self.phase = SequentialPhase::Quiesced;
                SequentialAction::RunStopHook
            },
            SequentialEvent::Begin => self.head(shared.failed_error().is_some(), self.in_flight),
            SequentialEvent::Handled => self.head(
                shared.failed_error().is_some(),
                self.in_flight - 1,
            ),
        }
    }

    /// The head of the loop: whether a handler failed the actor decides whether to
    /// pull on.
    fn head<H>(&mut self, failed: bool, in_flight: usize) -> (action: SequentialAction<H>)
        requires
            in_flight == 0,
        ensures
            final(self).in_flight() == in_flight,
            final(self).wf(),
            failed ==> action is RunStopHook && final(self).phase() == SequentialPhase::Quiesced,
            !failed ==> action is Pull && final(self).phase() == SequentialPhase::Pulling,
    {
        if failed {
            *self = SequentialRunLoop { phase: SequentialPhase::Quiesced, in_flight };
            SequentialAction::RunStopHook
        } else {
            *self = SequentialRunLoop { phase: SequentialPhase::Pulling, in_flight };
            SequentialAction::Pull
        }
    }
}

impl SerializedDispatch for SequentialRunLoop {
    open spec fn dispatches_in_flight(&self) -> nat {
        self.in_flight() as nat
    }

    open spec fn is_reachable(&self) -> bool {
        self.wf()
    }

    proof fn never_overlaps(&self) {
    }
}

/// The number of handlers that were handed out to be driven.
pub open spec fn handed_out<H>(actions: Seq<SequentialAction<H>>) -> nat
    decreases actions.len(),
{
    if actions.len() == 0 {
        0
    } else if actions.last() is Drive {
        handed_out(actions.drop_last()) + 1
    } else {
        handed_out(actions.drop_last())
    }
}

/// The number of handlers that completed.
pub open spec fn completed<H>(events: Seq<SequentialEvent<H>>) -> nat
    decreases events.len(),
{
    if events.len() == 0 {
        0
    } else if events.last() is Handled {
        completed(events.drop_last()) + 1
    } else {
        completed(events.drop_last())
    }
}

/// Whether the event is the one that the action asked for.
pub open spec fn answers<H>(action: SequentialAction<H>, event: SequentialEvent<H>) -> bool {
    match action {
        SequentialAction::Pull => event is Pulled,
        SequentialAction::Drive(_) => event is Handled,
        SequentialAction::RunStopHook => false,
    }
}

/// However long it runs, the loop drives each yielded handler, that very one, before
/// it pulls again, and goes on pulling until its driver stops it or a handler fails
/// the actor. So no more than one handler is ever in flight, none is left when the
/// stop hook runs, and whatever was asked for is accepted.
pub proof fn one_handler_after_the_other<H, E, W, D, T, X, Y>(
    states: Seq<SequentialRunLoop>,
    shared: Seq<SharedActorState<E, W, D, T, X, Y>>,
    events: Seq<SequentialEvent<H>>,
    actions: Seq<SequentialAction<H>>,
    k: int,
)
    requires
        states.len() == events.len() + 1,
        shared.len() == events.len(),
        actions.len() == events.len(),
        call_ensures(SequentialRunLoop::build, (), states[0]),
        forall|i: int| #[trigger]
            is_turn(events.len(), i) ==> exists|run_loop: &mut SequentialRunLoop|
                #[trigger] call_ensures(
                    SequentialRunLoop::run::<H, E, W, D, T, X, Y>,
                    (run_loop, &shared[i], events[i]),
                    actions[i],
                ) && *run_loop == states[i] && *final(run_loop) == states[i + 1],
        events.len() > 0 ==> events[0] is Begin,
        forall|i: int, next: int| #[trigger]
            is_turn(events.len(), i) && #[trigger] is_turn(events.len(), next) && next == i + 1
                ==> answers(actions[i], events[next]),
        0 <= k < events.len(),
    ensures
        ({
            let failed = shared[k]@.reason matches Some(TerminationReason::Failed(_));
            let running = handed_out(actions.take(k + 1)) - completed(events.take(k + 1));
            &&& actions[k] is Pull <==> !failed && !(events[k] is Pulled)
            &&& forall|handler: H|
                events[k] == SequentialEvent::Pulled(Some(handler)) <==> actions[k]
                    == SequentialAction::Drive(handler)
            &&& running == if actions[k] is Drive {
                1int
            } else {
                0int
            }
        }),
        forall|run_loop: &mut SequentialRunLoop|
            *run_loop == states[k] ==> #[trigger] call_requires(
                SequentialRunLoop::run::<H, E, W, D, T, X, Y>,
                (run_loop, &shared[k], events[k]),
            ),
{
    follows_its_events(states, shared, events, actions, k);
}

/// The loop's own account of where it is agrees with what it asked for.
proof fn follows_its_events<H, E, W, D, T, X, Y>(
    states: Seq<SequentialRunLoop>,
    shared: Seq<SharedActorState<E, W, D, T, X, Y>>,
    events: Seq<SequentialEvent<H>>,
    actions: Seq<SequentialAction<H>>,
    k: int,
)
    requires
        states.len() == events.len() + 1,
        shared.len() == events.len(),
        actions.len() == events.len(),
        call_ensures(SequentialRunLoop::build, (), states[0]),
        forall|i: int| #[trigger]
            is_turn(events.len(), i) ==> exists|run_loop: &mut SequentialRunLoop|
                #[trigger] call_ensures(
                    SequentialRunLoop::run::<H, E, W, D, T, X, Y>,
                    (run_loop, &shared[i], events[i]),
                    actions[i],
                ) && *run_loop == states[i] && *final(run_loop) == states[i + 1],
        events.len() > 0 ==> events[0] is Begin,
        forall|i: int, next: int| #[trigger]
            is_turn(events.len(), i) && #[trigger] is_turn(events.len(), next) && next == i + 1
                ==> answers(actions[i], events[next]),
        0 <= k < events.len(),
    ensures
        states[k].awaits(events[k]),
        ({
            let failed = shared[k]@.reason matches Some(TerminationReason::Failed(_));
            let running = handed_out(actions.take(k + 1)) - completed(events.take(k + 1));
            &&& actions[k] is Pull <==> !failed && !(events[k] is Pulled)
            &&& forall|handler: H|
                events[k] == SequentialEvent::Pulled(Some(handler)) <==> actions[k]
                    == SequentialAction::Drive(handler)
            &&& running == if actions[k] is Drive {
                1int
            } else {
                0int
            }
        }),
        states[k + 1].phase() == match actions[k] {
            SequentialAction::Pull => SequentialPhase::Pulling,
            SequentialAction::Drive(_) => SequentialPhase::Driving,
            SequentialAction::RunStopHook => SequentialPhase::Quiesced,
        },
    decreases k,
{
    assert(is_turn(events.len(), k));
    assert(events.take(k + 1).drop_last() =~= events.take(k));
    assert(actions.take(k + 1).drop_last() =~= actions.take(k));
    assert(events.take(k + 1).last() == events[k] && actions.take(k + 1).last() == actions[k]);
    if k > 0 {
        follows_its_events(states, shared, events, actions, k - 1);
        assert(is_turn(events.len(), k - 1));
        assert(answers(actions[k - 1], events[k]));
    } else {
        assert(completed(events.take(0)) == 0 && handed_out(actions.take(0)) == 0);
    }
}

} // verus!
