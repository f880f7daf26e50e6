//! The run loop that runs message handlers concurrently in a work set.
use crate::actor::lifecycle::TerminationReason;
use crate::actor::run_loop::is_turn;
use crate::actor::state::SharedActorState;
use vstd::prelude::*;

verus! {

/// Where a concurrent run loop is.
#[derive(Clone, Copy, Debug, PartialEq, Eq, Structural)]
pub enum ConcurrentPhase {
    /// The loop has not begun.
    Idle,
    /// The next dispatch is being pulled, while the work set runs.
    Pulling,
    /// The work set is being driven to completion.
    Draining,
    /// The loop has quiesced.
    Quiesced,
}

/// What happened to a concurrent run loop.
#[derive(Debug)]
pub enum ConcurrentEvent<H> {
    /// The loop begins.
    Begin,
    /// The driver yielded the next handler, or stopped the loop.
    Pulled(Option<H>),
    /// A handler of the work set has completed.
    Finished,
}

/// What a concurrent run loop wants done next.
#[derive(Clone, Copy, Debug, PartialEq, Eq, Structural)]
pub enum ConcurrentAction {
    /// Pull the next dispatch. The work set is empty.
    Pull,
    /// Pull the next dispatch, while running the work set until a handler
    /// completes, whichever comes first.
    PullOrFinish,
    /// Run the work set until a handler completes.
    Drain,
    /// The loop has quiesced: drop the given number of handlers still in the
    /// work set, then run the stop hook.
    RunStopHook { dropped: usize },
}

/// Run loop that runs message handlers concurrently in a work set, while it
/// keeps pulling. Pending work is drained on a clean stop and dropped on failure.
#[derive(Debug)]
pub struct ConcurrentRunLoop {
    phase: ConcurrentPhase,
    /// The number of handlers in the work set.
    in_flight: usize,
}

impl ConcurrentRunLoop {
    /// Where the loop is.
    pub closed spec fn phase(self) -> ConcurrentPhase {
        self.phase
    }

    /// The number of handlers in the work set.
    pub closed spec fn in_flight(self) -> usize {
        self.in_flight
    }

    /// Whether the loop waits for the given event. A handler can only complete
    /// where there is one.
    pub open spec fn awaits<H>(self, event: ConcurrentEvent<H>) -> bool {
        match event {
            ConcurrentEvent::Begin => self.phase() == ConcurrentPhase::Idle && self.in_flight()
                == 0,
            ConcurrentEvent::Pulled(_) => self.phase() == ConcurrentPhase::Pulling
                && self.in_flight() < usize::MAX,
            ConcurrentEvent::Finished => self.in_flight() > 0 && (self.phase()
                == ConcurrentPhase::Pulling || self.phase() == ConcurrentPhase::Draining),
        }
    }

    /// The head of the loop: whether a handler failed the actor decides whether
    /// to pull on.
    pub open spec fn at_head(self, failed: bool, in_flight: usize, action: ConcurrentAction) -> bool {
        &&& self.in_flight() == if failed {
            0
        } else {
            in_flight
        }
        &&& self.phase() == if failed {
            ConcurrentPhase::Quiesced
        } else {
            ConcurrentPhase::Pulling
        }
        &&& action == if failed {
            ConcurrentAction::RunStopHook { dropped: in_flight }
        } else if in_flight == 0 {
            ConcurrentAction::Pull
        } else {
            ConcurrentAction::PullOrFinish
        }
    }

    /// The drain behind the loop: pending work is driven to completion, unless a
    /// failure compromised the actor.
    pub open spec fn at_drain(
        self,
        failed: bool,
        in_flight: usize,
        action: ConcurrentAction,
    ) -> bool {
        if failed || in_flight == 0 {
            &&& self.in_flight() == 0
            &&& self.phase() == ConcurrentPhase::Quiesced
            &&& action == ConcurrentAction::RunStopHook { dropped: in_flight }
        } else {
            &&& self.in_flight() == in_flight
            &&& self.phase() == ConcurrentPhase::Draining
            &&& action == ConcurrentAction::Drain
        }
    }

    /// A loop that has not begun.
    pub fn build() -> (run_loop: Self)
        ensures
            run_loop.phase() == ConcurrentPhase::Idle,
            run_loop.in_flight() == 0,
    {
        ConcurrentRunLoop { phase: ConcurrentPhase::Idle, in_flight: 0 }
    }

    fn head(&mut self, failed: bool) -> (action: ConcurrentAction)
        ensures
            final(self).at_head(failed, old(self).in_flight(), action),
    {
        if failed {
            let dropped: usize = self.in_flight;
            self.in_flight = 0;
            self.phase = ConcurrentPhase::Quiesced;
            return ConcurrentAction::RunStopHook { dropped };
        }
        self.phase = ConcurrentPhase::Pulling;
        if self.in_flight == 0 {
            ConcurrentAction::Pull
        } else {
            ConcurrentAction::PullOrFinish
        }
    }

    fn drain(&mut self, failed: bool) -> (action: ConcurrentAction)
        ensures
            final(self).at_drain(failed, old(self).in_flight(), action),
    {
        if failed || self.in_flight == 0 {
            let dropped: usize = self.in_flight;
            self.in_flight = 0;
            self.phase = ConcurrentPhase::Quiesced;
            return ConcurrentAction::RunStopHook { dropped };
        }
        self.phase = ConcurrentPhase::Draining;
        ConcurrentAction::Drain
    }

    /// Take the next step of the loop. Returns the handler to put into the work
    /// set, if any, and what to do next.
    pub fn run<H, E, W, D, T, X, Y>(
        &mut self,
        shared: &SharedActorState<E, W, D, T, X, Y>,
        event: ConcurrentEvent<H>,
    ) -> (result: (Option<H>, ConcurrentAction))
        requires
            old(self).awaits(event),
        ensures
            ({
                let failed = shared@.failed_error() is Some;
                let before = old(self).in_flight();
                match event {
                    ConcurrentEvent::Begin => {
                        &&& result.0 is None
                        &&& final(self).at_head(failed, before, result.1)
                    },
                    ConcurrentEvent::Pulled(Some(handler)) => {
                        &&& result.0 == Some(handler)
                        &&& final(self).at_head(failed, (before + 1) as usize, result.1)
                    },
                    ConcurrentEvent::Pulled(None) => {
                        &&& result.0 is None
                        &&& final(self).at_drain(failed, before, result.1)
                    },
                    ConcurrentEvent::Finished => {
                        &&& result.0 is None
                        &&& if old(self).phase() == ConcurrentPhase::Pulling {
                            final(self).at_head(failed, (before - 1) as usize, result.1)
                        } else {
                            final(self).at_drain(failed, (before - 1) as usize, result.1)
                        }
                    },
                }
            }),
    {
        let failed = shared.failed_error().is_some();
        match event {
            ConcurrentEvent::Begin => (None, self.head(failed)),
            ConcurrentEvent::Pulled(Some(handler)) => {
                self.in_flight = self.in_flight + 1;
                (Some(handler), self.head(failed))
            },
            ConcurrentEvent::Pulled(None) => (None, self.drain(failed)),
            ConcurrentEvent::Finished => {
                self.in_flight = self.in_flight - 1;
                if self.phase == ConcurrentPhase::Pulling {
                    (None, self.head(failed))
                } else {
                    (None, self.drain(failed))
                }
            },
        }
    }
}

/// A clean stop drops no work, no work is lost, and an empty work set is never
/// waited for: whatever the loop wants next, pending work is dropped on a failure
/// only, what is not dropped stays in flight, and waiting for a handler to
/// complete happens only while there is one.
pub proof fn clean_stop_drops_nothing(
    run_loop: ConcurrentRunLoop,
    failed: bool,
    in_flight: usize,
    action: ConcurrentAction,
)
    requires
        run_loop.at_head(failed, in_flight, action) || run_loop.at_drain(failed, in_flight, action),
    ensures
        action matches ConcurrentAction::RunStopHook { dropped } ==> (failed || dropped == 0)
            && dropped == in_flight && run_loop.in_flight() == 0,
        !(action is RunStopHook) ==> run_loop.in_flight() == in_flight,
        action == ConcurrentAction::PullOrFinish || action == ConcurrentAction::Drain
            ==> run_loop.in_flight() > 0,
        failed ==> action is RunStopHook,
{
}

/// The number of handlers that the driver yielded.
pub open spec fn yielded<H>(events: Seq<ConcurrentEvent<H>>) -> nat
    decreases events.len(),
{
    if events.len() == 0 {
        0
    } else if events.last() matches ConcurrentEvent::Pulled(Some(_)) {
        yielded(events.drop_last()) + 1
    } else {
        yielded(events.drop_last())
    }
}

/// The number of handlers that completed.
pub open spec fn completed<H>(events: Seq<ConcurrentEvent<H>>) -> nat
    decreases events.len(),
{
    if events.len() == 0 {
        0
    } else if events.last() is Finished {
        completed(events.drop_last()) + 1
    } else {
        completed(events.drop_last())
    }
}

/// Whether the driver stopped the loop.
pub open spec fn stopped<H>(events: Seq<ConcurrentEvent<H>>) -> bool {
    exists|i: int| 0 <= i < events.len() && (#[trigger] events[i]) == ConcurrentEvent::<H>::Pulled(
        None,
    )
}

/// Whether the event is one that the action asked for.
pub open spec fn answers<H>(action: ConcurrentAction, event: ConcurrentEvent<H>) -> bool {
    match action {
        ConcurrentAction::Pull => event is Pulled,
        ConcurrentAction::PullOrFinish => event is Pulled || event is Finished,
        ConcurrentAction::Drain => event is Finished,
        ConcurrentAction::RunStopHook { .. } => false,
    }
}

/// The loop's own account of where it is agrees with what happened to it.
proof fn follows_its_events<H, E, W, D, T, X, Y>(
    states: Seq<ConcurrentRunLoop>,
    shared: Seq<SharedActorState<E, W, D, T, X, Y>>,
    events: Seq<ConcurrentEvent<H>>,
    results: Seq<(Option<H>, ConcurrentAction)>,
    k: int,
)
    requires
        states.len() == events.len() + 1,
        shared.len() == events.len(),
        results.len() == events.len(),
        events.len() < usize::MAX,
        call_ensures(ConcurrentRunLoop::build, (), states[0]),
        forall|i: int| #[trigger]
            is_turn(events.len(), i) ==> exists|run_loop: &mut ConcurrentRunLoop|
                #[trigger] call_ensures(
                    ConcurrentRunLoop::run::<H, E, W, D, T, X, Y>,
                    (run_loop, &shared[i], events[i]),
                    results[i],
                ) && *run_loop == states[i] && *final(run_loop) == states[i + 1],
        events.len() > 0 ==> events[0] is Begin,
        forall|i: int, next: int| #[trigger]
            is_turn(events.len(), i) && #[trigger] is_turn(events.len(), next) && next == i + 1
                ==> answers(results[i].1, events[next]),
        0 <= k < events.len(),
    ensures
        states[k].awaits(events[k]),
        ({
            let sofar = events.take(k + 1);
            let failed = shared[k]@.reason matches Some(TerminationReason::Failed(_));
            &&& completed(sofar) <= yielded(sofar) <= k
            &&& results[k].0 == match events[k] {
                ConcurrentEvent::Pulled(handler) => handler,
                _ => None,
            }
            &&& results[k].1 is Pull <==> !failed && !stopped(sofar) && completed(sofar) == yielded(
                sofar,
            )
            &&& results[k].1 is PullOrFinish <==> !failed && !stopped(sofar) && completed(sofar)
                < yielded(sofar)
            &&& results[k].1 is Drain <==> !failed && stopped(sofar) && completed(sofar) < yielded(
                sofar,
            )
            &&& results[k].1 matches ConcurrentAction::RunStopHook { dropped } ==> dropped
                == yielded(sofar) - completed(sofar)
        }),
        !(results[k].1 is RunStopHook) ==> {
            let sofar = events.take(k + 1);
            &&& states[k + 1].in_flight() == yielded(sofar) - completed(sofar)
            &&& states[k + 1].phase() == if stopped(sofar) {
                ConcurrentPhase::Draining
            } else {
                ConcurrentPhase::Pulling
            }
        },
    decreases k,
{
    let sofar = events.take(k + 1);
    assert(sofar.drop_last() =~= events.take(k));
    assert(sofar.last() == events[k]);
    assert(is_turn(events.len(), k));
    assert(stopped(sofar) <==> stopped(events.take(k)) || events[k]
        == ConcurrentEvent::<H>::Pulled(None)) by {
        assert(sofar[k] == events[k]);
        if stopped(events.take(k)) {
            let i = choose|i: int|
                0 <= i < k && (#[trigger] events.take(k)[i]) == ConcurrentEvent::<H>::Pulled(None);
            assert(sofar[i] == events.take(k)[i]);
        }
        if stopped(sofar) {
            let i = choose|i: int|
                0 <= i < sofar.len() && (#[trigger] sofar[i]) == ConcurrentEvent::<H>::Pulled(None);
            if i < k {
                assert(events.take(k)[i] == sofar[i]);
            }
        }
    }
    if k > 0 {
        follows_its_events(states, shared, events, results, k - 1);
        assert(is_turn(events.len(), k - 1));
        assert(answers(results[k - 1].1, events[k]));
    } else {
        assert(events.take(0).len() == 0);
    }
}

/// However long it runs and however many handlers overlap, the loop goes on pulling
/// until its driver stops it or the actor fails. Then the handlers that did not
/// complete are waited for or, on a failure, dropped, every one of them. What it
/// wants next depends on nothing but whether the actor failed, whether the driver
/// stopped it, and whether a yielded handler has not completed; every yielded handler
/// is handed out to be run; and whatever was asked for is accepted.
pub proof fn only_a_stop_or_a_failure_ends_the_pulling<H, E, W, D, T, X, Y>(
    states: Seq<ConcurrentRunLoop>,
    shared: Seq<SharedActorState<E, W, D, T, X, Y>>,
    events: Seq<ConcurrentEvent<H>>,
    results: Seq<(Option<H>, ConcurrentAction)>,
    k: int,
)
    requires
        states.len() == events.len() + 1,
        shared.len() == events.len(),
        results.len() == events.len(),
        events.len() < usize::MAX,
        call_ensures(ConcurrentRunLoop::build, (), states[0]),
        forall|i: int| #[trigger]
            is_turn(events.len(), i) ==> exists|run_loop: &mut ConcurrentRunLoop|
                #[trigger] call_ensures(
                    ConcurrentRunLoop::run::<H, E, W, D, T, X, Y>,
                    (run_loop, &shared[i], events[i]),
                    results[i],
                ) && *run_loop == states[i] && *final(run_loop) == states[i + 1],
        events.len() > 0 ==> events[0] is Begin,
        forall|i: int, next: int| #[trigger]
            is_turn(events.len(), i) && #[trigger] is_turn(events.len(), next) && next == i + 1
                ==> answers(results[i].1, events[next]),
        0 <= k < events.len(),
    ensures
        ({
            let sofar = events.take(k + 1);
            let failed = shared[k]@.reason matches Some(TerminationReason::Failed(_));
            &&& completed(sofar) <= yielded(sofar) <= k
            &&& results[k].0 == match events[k] {
                ConcurrentEvent::Pulled(handler) => handler,
                _ => None,
            }
            &&& results[k].1 is Pull <==> !failed && !stopped(sofar) && completed(sofar) == yielded(
                sofar,
            )
            &&& results[k].1 is PullOrFinish <==> !failed && !stopped(sofar) && completed(sofar)
                < yielded(sofar)
            &&& results[k].1 is Drain <==> !failed && stopped(sofar) && completed(sofar) < yielded(
                sofar,
            )
            &&& results[k].1 matches ConcurrentAction::RunStopHook { dropped } ==> dropped
                == yielded(sofar) - completed(sofar)
        }),
        forall|run_loop: &mut ConcurrentRunLoop|
            *run_loop == states[k] ==> #[trigger] call_requires(
                ConcurrentRunLoop::run::<H, E, W, D, T, X, Y>,
                (run_loop, &shared[k], events[k]),
            ),
{
    follows_its_events(states, shared, events, results, k);
}

} // verus!
