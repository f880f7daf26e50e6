//! Shared building blocks for the standard run loops.
//!
//! A run loop is mostly the same scaffolding: init, start hook, the loop proper,
//! stop hook, notification of the watchers, death. [`StandardRun`] is that
//! scaffolding as a state machine: whoever drives it performs what a step asks
//! for and reports back with the next step.
use crate::actor::channel::ActorMailbox;
use crate::actor::dispatch::{
    DispatchContextPtr, DispatchedActorMessage, DispatchedActorMessageContext,
};
use crate::actor::event::{EventContext, EventDriver};
use crate::actor::lifecycle::{StopReason, TerminationKind, TerminationReason};
use crate::actor::rtti::ActorRtti;
use crate::actor::run_loop::ActorRunLoopDispatchContext;
use crate::actor::state::{
    all_woken, signals, ActorStateModel, DeadOnDropGuard, DropActions, LifecycleState,
    SharedActorState,
};
use crate::actor::supervision::{ActorId, ActorIdSource, Delivery, TerminalPath, Terminated};
use crate::actor::work::FutureWorkConverter;
use crate::capture::{
    is_recorded, record_died, record_spawned, CaptureEvent, CaptureFrame, CaptureLog,
    CaptureTarget,
};
use crate::runtime::lock::LockStrategy;
use crate::runtime::routing::LanePoll;
use vstd::prelude::*;

verus! {

/// Where an actor's run is.
#[derive(Clone, Copy, Debug, PartialEq, Eq, Structural)]
pub enum RunPhase {
    /// The initializer is running.
    Initializing,
    /// The start hook is running.
    StartHook,
    /// The loop is processing messages.
    Looping,
    /// The stop hook is running.
    StopHook,
    /// The watchers are being notified.
    Notifying,
    /// The run has returned.
    Exited,
    /// The actor was announced dead.
    Dead,
}

/// What phase and shared state of a run have to do with each other.
pub open spec fn run_invariant<E, W, D, T>(
    phase: RunPhase,
    state: ActorStateModel<E, W, D, T>,
) -> bool {
    match phase {
        RunPhase::Initializing | RunPhase::StartHook => state.lifecycle == LifecycleState::Starting,
        RunPhase::Looping => state.lifecycle == LifecycleState::Running,
        RunPhase::StopHook | RunPhase::Notifying => state.lifecycle == LifecycleState::Stopping
            && state.reason is Some,
        RunPhase::Exited => state.lifecycle != LifecycleState::Dead && state.lifecycle
            != LifecycleState::Running && state.reason is Some,
        RunPhase::Dead => state.lifecycle == LifecycleState::Dead && state.reason is Some,
    }
}

/// Run the outcome of an actor initializer: the constructed actor, or `None`
/// with the error recorded.
///
/// Does *not* announce `Running`: the start hook comes first.
pub fn init_or_fail<A, E, W, D, T, X, Y>(
    result: Result<A, E>,
    shared: &mut SharedActorState<E, W, D, T, X, Y>,
) -> (actor: Option<A>)
    ensures
        actor is Some <==> result is Ok,
        result matches Ok(constructed) ==> actor == Some(constructed) && final(shared)@
            == old(shared)@,
        result matches Err(error) ==> final(shared)@ == old(shared)@.after_recording(
            TerminationReason::Failed(error),
        ),
        final(shared).same_data(*old(shared)),
{
    match result {
        Ok(actor) => Some(actor),
        Err(error) => {
            shared.record_failure(error);
            None
        },
    }
}

/// The reason to hand to the stop hook, from whether an error was recorded.
pub fn stop_reason<E, W, D, T, X, Y>(shared: &SharedActorState<E, W, D, T, X, Y>) -> (reason:
    StopReason<'_, E>)
    ensures
        match reason {
            StopReason::Finished => shared@.failed_error() is None,
            StopReason::Failed(error) => shared@.failed_error() == Some(*error),
        },
{
    match shared.failed_error() {
        Some(error) => StopReason::Failed(error),
        None => StopReason::Finished,
    }
}

/// The run of one actor, from spawn to death.
#[derive(Debug)]
pub struct StandardRun {
    phase: RunPhase,
    guard: DeadOnDropGuard,
}

impl StandardRun {
    /// Where the run is.
    pub closed spec fn phase(self) -> RunPhase {
        self.phase
    }

    /// The RTTI of the actor's type.
    pub closed spec fn spec_rtti(self) -> ActorRtti {
        self.guard.spec_rtti()
    }

    /// Where the run is.
    pub fn current_phase(&self) -> (phase: RunPhase)
        ensures
            phase == self.phase(),
    {
        self.phase
    }

    /// Begin the run of an actor of the given type: the initializer is to run.
    pub fn new(rtti: ActorRtti) -> (run: Self)
        ensures
            run.phase() == RunPhase::Initializing,
            run.spec_rtti() == rtti,
    {
        StandardRun { phase: RunPhase::Initializing, guard: DeadOnDropGuard::new(rtti) }
    }

    /// The initializer has returned. On success the start hook is to run; on
    /// failure the error is recorded and the run is over.
    pub fn init_returned<A, E, W, D, T, X, Y>(
        &mut self,
        shared: &mut SharedActorState<E, W, D, T, X, Y>,
        result: Result<A, E>,
    ) -> (actor: Option<A>)
        requires
            old(self).phase() == RunPhase::Initializing,
        ensures
            final(self).spec_rtti() == old(self).spec_rtti(),
            run_invariant(old(self).phase(), old(shared)@) ==> run_invariant(
                final(self).phase(),
                final(shared)@,
            ),
            final(shared).same_data(*old(shared)),
            result matches Ok(constructed) ==> actor == Some(constructed) && final(self).phase()
                == RunPhase::StartHook && final(shared)@ == old(shared)@,
            result matches Err(error) ==> actor is None && final(self).phase() == RunPhase::Exited
                && final(shared)@ == old(shared)@.after_recording(TerminationReason::Failed(error)),
    {
        let actor = init_or_fail(result, shared);
        self.phase = if actor.is_some() {
            RunPhase::StartHook
        } else {
            RunPhase::Exited
        };
        actor
    }

    /// The start hook has returned. If it failed the actor, the run is over
    /// before the loop runs, and the stop hook does not run, since the actor
    /// never reached `Running`. Otherwise `Running` is announced, the birth event
    /// emitted, and the loop is to run. Returns whether the loop is to run, and
    /// the emitted event.
    pub fn start_hook_returned<E, W, D, T, X, Y, K: CaptureTarget<CaptureEvent>>(
        &mut self,
        shared: &mut SharedActorState<E, W, D, T, X, Y>,
        sink: Option<K>,
    ) -> (result: (bool, Option<CaptureEvent>))
        requires
            old(self).phase() == RunPhase::StartHook,
        ensures
            final(self).spec_rtti() == old(self).spec_rtti(),
            run_invariant(old(self).phase(), old(shared)@) ==> run_invariant(
                final(self).phase(),
                final(shared)@,
            ),
            final(shared).same_data(*old(shared)),
            result.0 == (old(shared)@.failed_error() is None),
            !result.0 ==> final(self).phase() == RunPhase::Exited && final(shared)@ == old(
                shared,
            )@ && result.1 is None,
            result.0 ==> {
                let running = ActorStateModel {
                    lifecycle: old(shared)@.lifecycle.after_running(),
                    waiters: Seq::empty(),
                    ..old(shared)@
                };
                &&& all_woken(old(shared)@.waiters)
                &&& final(self).phase() == RunPhase::Looping
                &&& final(shared)@ == if sink is Some {
                    running.after_minting()
                } else {
                    running
                }
                &&& result.1 is Some <==> sink is Some
                &&& result.1 matches Some(event) ==> {
                    &&& event matches CaptureEvent::Spawned { id, actor_type, parent, caused_by }
                    &&& id.actor == old(shared)@.id && id.seq == old(shared)@.capture_seq
                    &&& actor_type@ == old(self).spec_rtti().spec_name()
                    &&& parent == CaptureFrame::actor_of(old(shared)@.birth())
                    &&& caused_by == CaptureFrame::event_of(old(shared)@.birth())
                    &&& is_recorded(sink, event)
                }
            },
    {
        if shared.failed_error().is_some() {
            self.phase = RunPhase::Exited;
            return (false, None);
        }
        shared.transition_running();
        let emitted = record_spawned(shared, sink, self.guard.rtti().name());
        self.phase = RunPhase::Looping;
        (true, emitted)
    }

    /// The loop has quiesced: no more dispatches are in flight. `Stopping` is
    /// announced and the clean outcome recorded, unless the actor failed; the
    /// stop hook is to run, with [`stop_reason`].
    pub fn loop_quiesced<E, W, D, T, X, Y>(
        &mut self,
        shared: &mut SharedActorState<E, W, D, T, X, Y>,
    )
        requires
            old(self).phase() == RunPhase::Looping,
        ensures
            final(self).spec_rtti() == old(self).spec_rtti(),
            final(self).phase() == RunPhase::StopHook,
            run_invariant(old(self).phase(), old(shared)@) ==> run_invariant(
                final(self).phase(),
                final(shared)@,
            ),
            final(shared)@ == (ActorStateModel {
                lifecycle: old(shared)@.lifecycle.after_stopping(),
                ..old(shared)@
            }).after_recording(TerminationReason::Finished),
            final(shared)@.failed_error() == old(shared)@.failed_error(),
            final(shared).same_data(*old(shared)),
    {
        shared.transition_stopping();
        if shared.failed_error().is_none() {
            shared.mark_finished();
        }
        self.phase = RunPhase::StopHook;
    }

    /// The stop hook has returned: the death event is emitted, and the watchers
    /// are to be notified, before `Dead` is announced. Returns the emitted event
    /// and the signals for the watchers.
    pub fn stop_hook_returned<E, W, D, T, X, Y, K: CaptureTarget<CaptureEvent>>(
        &mut self,
        shared: &mut SharedActorState<E, W, D, T, X, Y>,
        sink: Option<K>,
    ) -> (result: (Option<CaptureEvent>, Vec<Delivery<W, D>>))
        requires
            old(self).phase() == RunPhase::StopHook,
        ensures
            final(self).spec_rtti() == old(self).spec_rtti(),
            final(self).phase() == RunPhase::Notifying,
            run_invariant(old(self).phase(), old(shared)@) ==> run_invariant(
                final(self).phase(),
                final(shared)@,
            ),
            final(shared).same_data(*old(shared)),
            final(shared)@ == if sink is Some {
                old(shared)@.after_minting().after_taking()
            } else {
                old(shared)@.after_taking()
            },
            old(shared)@.reason is None ==> result.1.len() == 0,
            old(shared)@.reason matches Some(reason) ==> signals(
                old(shared)@.subscriptions,
                old(shared)@.id,
                old(self).spec_rtti(),
                reason.spec_kind(),
                TerminalPath::Async,
                result.1@,
            ),
            result.0 is Some <==> sink is Some,
            result.0 matches Some(event) ==> {
                &&& event matches CaptureEvent::Died { id, actor_type, reason, caused_by }
                &&& id.actor == old(shared)@.id && id.seq == old(shared)@.capture_seq
                &&& actor_type@ == old(self).spec_rtti().spec_name()
                &&& reason == match old(shared)@.kind() {
                    Some(kind) => kind,
                    None => TerminationKind::Aborted,
                }
                &&& caused_by is None
                &&& is_recorded(sink, event)
            },
    {
        let emitted = record_died(shared, sink, self.guard.rtti().name());
        let deliveries = shared.notify_subscribers(self.guard.rtti());
        self.phase = RunPhase::Notifying;
        (emitted, deliveries)
    }

    /// The watchers are notified: the run returns.
    pub fn watchers_notified<E, W, D, T, X, Y>(
        &mut self,
        shared: &SharedActorState<E, W, D, T, X, Y>,
    )
        requires
            old(self).phase() == RunPhase::Notifying,
        ensures
            final(self).spec_rtti() == old(self).spec_rtti(),
            final(self).phase() == RunPhase::Exited,
            run_invariant(old(self).phase(), shared@) ==> run_invariant(
                final(self).phase(),
                shared@,
            ),
    {
        self.phase = RunPhase::Exited;
    }

    /// The run is dropped, in whatever phase: after it returned, or because a
    /// panic unwound it or its task was aborted. Collects what is left to do
    /// before `Dead` is announced.
    pub fn dropped<E, W, D, T, X, Y, K: CaptureTarget<CaptureEvent>>(
        &mut self,
        shared: &mut SharedActorState<E, W, D, T, X, Y>,
        sink: Option<K>,
    ) -> (actions: DropActions<W, D>)
        requires
            old(self).phase() != RunPhase::Dead,
        ensures
            final(self).phase() == old(self).phase(),
            final(self).spec_rtti() == old(self).spec_rtti(),
            run_invariant(old(self).phase(), old(shared)@) ==> run_invariant(
                final(self).phase(),
                final(shared)@,
            ),
            final(shared).same_data(*old(shared)),
            final(shared)@ == ({
                let recorded = old(shared)@.after_recording(TerminationReason::Aborted);
                if sink is Some && recorded.reason->0 is Aborted {
                    recorded.after_minting().after_taking()
                } else {
                    recorded.after_taking()
                }
            }),
            final(shared)@.reason is Some && final(shared)@.subscriptions.len() == 0,
            actions.aborted == (final(shared)@.reason->0 is Aborted),
            actions.died is Some <==> actions.aborted && sink is Some,
            actions.died matches Some(event) ==> {
                &&& event matches CaptureEvent::Died { id, actor_type, reason, caused_by }
                &&& caused_by is None
                &&& id.actor == old(shared)@.id && id.seq == old(shared)@.capture_seq
                &&& actor_type@ == old(self).spec_rtti().spec_name()
                &&& reason == TerminationKind::Aborted
                &&& is_recorded(sink, event)
            },
            signals(
                old(shared)@.subscriptions,
                old(shared)@.id,
                old(self).spec_rtti(),
                final(shared)@.reason->0.spec_kind(),
                TerminalPath::Drop,
                actions.deliveries@,
            ),
    {
        self.guard.begin(shared, sink)
    }

    /// Announce that the actor is dead, after what [`StandardRun::dropped`] left
    /// to do is done.
    pub fn announce_dead<E, W, D, T, X, Y>(
        &mut self,
        shared: &mut SharedActorState<E, W, D, T, X, Y>,
    )
        ensures
            final(self).spec_rtti() == old(self).spec_rtti(),
            final(self).phase() == RunPhase::Dead,
            old(shared)@.reason is Some ==> run_invariant(final(self).phase(), final(shared)@),
            final(shared)@ == old(shared)@.after_dying(),
            all_woken(old(shared)@.waiters),
            final(shared).same_data(*old(shared)),
    {
        self.guard.finish(shared);
        self.phase = RunPhase::Dead;
    }
}

/// The dispatch context shared by the standard run loops: the actor's lock
/// strategy `L`, its shared state `S` and its weak self-reference `W`.
#[derive(Debug)]
pub struct StandardDispatchContext<L, S, W> {
    lock_strategy: L,
    shared: S,
    self_ref: W,
}

impl<L, S, W> ActorRunLoopDispatchContext for StandardDispatchContext<L, S, W> {
    type LockStrategy = L;

    type SharedState = S;

    type SelfRef = W;

    closed spec fn spec_lock_strategy(&self) -> L {
        self.lock_strategy
    }

    closed spec fn spec_shared_state(&self) -> S {
        self.shared
    }

    closed spec fn spec_self_ref(&self) -> W {
        self.self_ref
    }

    fn lock_strategy(&self) -> (lock_strategy: &L) {
        &self.lock_strategy
    }

    fn shared_state(&self) -> (shared: &S) {
        &self.shared
    }

    fn self_ref(&self) -> (self_ref: &W) {
        &self.self_ref
    }
}

impl<L, S, W> StandardDispatchContext<L, S, W> {
    /// Build the context from the actor's lock strategy, shared state and weak
    /// self-reference.
    pub fn new(lock_strategy: L, shared: S, self_ref: W) -> (context: Self)
        ensures
            context.spec_lock_strategy() == lock_strategy,
            context.spec_shared_state() == shared,
            context.spec_self_ref() == self_ref,
    {
        StandardDispatchContext { lock_strategy, shared, self_ref }
    }

    /// The actor's shared state (lifecycle, failure).
    pub fn shared(&self) -> (shared: &S)
        ensures
            *shared == self.spec_shared_state(),
    {
        &self.shared
    }

    /// Whether `work` is what a turn comes to whose driver yielded `message`: the
    /// work that its handler makes of it on this context, as the run loop drives
    /// it; nothing where there is no message yet, and the end where the driver
    /// stopped the loop.
    pub open spec fn dispatches<'ctx, 'a, P, A, H, K: FutureWorkConverter<'ctx>>(
        &'ctx self,
        message: LanePoll<DispatchedActorMessage<'a, P, A, H>>,
        work: LanePoll<K::Driven>,
    ) -> bool where
        H: FnOnce(
            DispatchContextPtr<'ctx, Self>,
            DispatchedActorMessageContext<'a, P, A>,
        ) -> K::Erased,
     {
        match message {
            LanePoll::Pending => work is Pending,
            LanePoll::Ready(None) => work == LanePoll::<K::Driven>::Ready(None),
            LanePoll::Ready(Some(message)) => {
                &&& work matches LanePoll::Ready(Some(driven))
                &&& exists|erased: K::Erased|
                    #[trigger] call_ensures(
                        message.spec_dispatcher().handler,
                        (DispatchContextPtr::pointing_to(self), message.spec_context()),
                        erased,
                    ) && call_ensures(K::into_future, (erased,), driven)
            },
        }
    }

    /// One dispatch turn: ask the `driver` for the next message, dispatch it onto
    /// this context, and produce the work that acquires the lock and runs the
    /// handler, ready to be driven. The driver owns the decision whether to look
    /// into the mailbox. `Ready(None)` means that the driver stopped the loop.
    pub fn next_dispatch<'ctx, 'a, P, A, H, K, B, D>(
        &'ctx self,
        driver: &mut D,
        mailbox: &mut B,
    ) -> (work: LanePoll<K::Driven>) where
        K: FutureWorkConverter<'ctx>,
        B: ActorMailbox<Message = DispatchedActorMessage<'a, P, A, H>>,
        D: EventDriver<L, S, B>,
        H: FnOnce(
            DispatchContextPtr<'ctx, Self>,
            DispatchedActorMessageContext<'a, P, A>,
        ) -> K::Erased,

        requires
            forall|after: D, left: B, message: DispatchedActorMessage<'a, P, A, H>| #[trigger]
                D::produces(
                    *old(driver),
                    *old(mailbox),
                    after,
                    left,
                    LanePoll::Ready(Some(message)),
                ) ==> call_requires(
                    message.spec_dispatcher().handler,
                    (DispatchContextPtr::pointing_to(self), message.spec_context()),
                ),
            forall|erased: K::Erased| call_requires(K::into_future, (erased,)),
        ensures
            exists|
                asked: &mut D,
                cx: EventContext<'ctx, L, S>,
                polled: &mut B,
                message: LanePoll<DispatchedActorMessage<'a, P, A, H>>,
            |
                {
                    &&& #[trigger] call_ensures(D::next, (asked, cx, polled), message)
                    &&& *asked == *old(driver) && *final(asked) == *final(driver)
                    &&& *polled == *old(mailbox) && *final(polled) == *final(mailbox)
                    &&& cx.spec_lock_strategy() == self.spec_lock_strategy()
                    &&& cx.spec_state() == self.spec_shared_state()
                    &&& self.dispatches::<P, A, H, K>(message, work)
                },
    {
        let cx = EventContext::new(&self.lock_strategy, &self.shared);
        match driver.next(cx, mailbox) {
            LanePoll::Pending => LanePoll::Pending,
            LanePoll::Ready(None) => LanePoll::Ready(None),
            LanePoll::Ready(Some(message)) => {
                let erased = message.dispatch_onto_loop(self);
                LanePoll::Ready(Some(K::into_future(erased)))
            },
        }
    }

    /// Quiesce the loop and consume the context, whose lock then is the actor's
    /// sole owner: `Stopping` is announced, which does nothing if the actor is not
    /// `Running`; the clean outcome is recorded, unless there is one on record; and
    /// the actor is reclaimed by value for its stop hook.
    pub fn run_stop_hook<A, E, V, D, T, X, Y>(
        self,
        run: &mut StandardRun,
        shared: &mut SharedActorState<E, V, D, T, X, Y>,
    ) -> (reclaimed: (A, S, W)) where L: LockStrategy<A>
        requires
            old(run).phase() == RunPhase::Looping,
        ensures
            call_ensures(L::into_inner, (self.spec_lock_strategy(),), reclaimed.0),
            reclaimed.1 == self.spec_shared_state(),
            reclaimed.2 == self.spec_self_ref(),
            final(run).spec_rtti() == old(run).spec_rtti(),
            final(run).phase() == RunPhase::StopHook,
            run_invariant(old(run).phase(), old(shared)@) ==> run_invariant(
                final(run).phase(),
                final(shared)@,
            ),
            final(shared)@ == (ActorStateModel {
                lifecycle: old(shared)@.lifecycle.after_stopping(),
                ..old(shared)@
            }).after_recording(TerminationReason::Finished),
            final(shared)@.failed_error() == old(shared)@.failed_error(),
            final(shared).same_data(*old(shared)),
    {
        run.loop_quiesced(shared);
        let actor = self.lock_strategy.into_inner();
        (actor, self.shared, self.self_ref)
    }
}

/// What handlers and handles do to the shared state while a run is in some phase
/// keeps the run's invariant: failing the actor, watching it, ending a watch,
/// waiting for it and minting event ids.
pub proof fn handlers_keep_the_run_invariant<E, W, D, T>(
    phase: RunPhase,
    before: ActorStateModel<E, W, D, T>,
    after: ActorStateModel<E, W, D, T>,
    error: E,
)
    requires
        run_invariant(phase, before),
        after.lifecycle == before.lifecycle,
        after.reason == before.reason || after.reason == before.after_recording(
            TerminationReason::Failed(error),
        ).reason,
    ensures
        run_invariant(phase, after),
{
}

/// Observers of `Dead` always see a reason, and observers of `Stopping` do so
/// too: the outcome is recorded before either is announced.
pub proof fn reason_is_recorded_before_it_is_announced<E, W, D, T>(
    phase: RunPhase,
    state: ActorStateModel<E, W, D, T>,
)
    requires
        run_invariant(phase, state),
        state.lifecycle == LifecycleState::Dead || state.lifecycle == LifecycleState::Stopping,
    ensures
        state.reason is Some,
{
}

/// An orderly end is no abort: where the outcome on record is a clean finish or
/// a failure, dropping the run records nothing else, so that the death event the
/// orderly end emitted stays the only one.
pub proof fn orderly_end_is_no_abort<E, W, D, T>(state: ActorStateModel<E, W, D, T>)
    requires
        state.reason matches Some(reason) && !(reason is Aborted),
    ensures
        state.after_recording(TerminationReason::Aborted) == state,
        !(state.after_recording(TerminationReason::Aborted).reason->0 is Aborted),
{
}

/// A turn dispatches what the driver yields and nothing else: the driver is asked once,
/// with the loop's lock and state; its message is handled by the message's own
/// dispatcher on this loop's context, and becomes the work; the loop is over where the
/// driver stops it, and waits where the driver does.
pub proof fn a_turn_dispatches_what_the_driver_yields<'ctx, 'a, L, S, W, P, A, H, K, B, D>(
    lock_strategy: L,
    shared: S,
    self_ref: W,
    context: &'ctx StandardDispatchContext<L, S, W>,
    driver: D,
    mailbox: B,
    driver_after: D,
    mailbox_after: B,
    work: LanePoll<K::Driven>,
) where
    K: FutureWorkConverter<'ctx>,
    B: ActorMailbox<Message = DispatchedActorMessage<'a, P, A, H>>,
    D: EventDriver<L, S, B>,
    H: FnOnce(
        DispatchContextPtr<'ctx, StandardDispatchContext<L, S, W>>,
        DispatchedActorMessageContext<'a, P, A>,
    ) -> K::Erased,

    requires
        call_ensures(
            StandardDispatchContext::<L, S, W>::new,
            (lock_strategy, shared, self_ref),
            *context,
        ),
        exists|asked: &mut D, polled: &mut B|
            #[trigger] call_ensures(
                StandardDispatchContext::<L, S, W>::next_dispatch::<P, A, H, K, B, D>,
                (context, asked, polled),
                work,
            ) && *asked == driver && *polled == mailbox && *final(asked) == driver_after
                && *final(polled) == mailbox_after,
    ensures
        exists|
            asked: &mut D,
            cx: EventContext<'ctx, L, S>,
            polled: &mut B,
            message: LanePoll<DispatchedActorMessage<'a, P, A, H>>,
        |
            {
                &&& #[trigger] call_ensures(D::next, (asked, cx, polled), message)
                &&& *asked == driver && *final(asked) == driver_after
                &&& *polled == mailbox && *final(polled) == mailbox_after
                &&& cx.spec_lock_strategy() == lock_strategy
                &&& cx.spec_state() == shared
                &&& message is Pending <==> work is Pending
                &&& message == LanePoll::<DispatchedActorMessage<'a, P, A, H>>::Ready(None)
                    <==> work == LanePoll::<K::Driven>::Ready(None)
                &&& message matches LanePoll::Ready(Some(message)) ==> {
                    &&& work matches LanePoll::Ready(Some(driven))
                    &&& exists|erased: K::Erased|
                        #[trigger] call_ensures(
                            message.spec_dispatcher().handler,
                            (DispatchContextPtr::pointing_to(context), message.spec_context()),
                            erased,
                        ) && call_ensures(K::into_future, (erased,), driven)
                }
            },
{
}

/// A run that nothing disturbs goes through all of an actor's life: the constructed
/// actor is handed out, `Running` is announced after the start hook and before the loop,
/// `Stopping` with the clean outcome after the loop and before the stop hook, then every
/// watcher is notified, and the drop finds nothing left to do but to announce `Dead`,
/// with the outcome still the clean one.
pub proof fn an_undisturbed_run_finishes<A, E, W, D, T, X, Y>(
    rtti: ActorRtti,
    runs: Seq<StandardRun>,
    shared: Seq<SharedActorState<E, W, D, T, X, Y>>,
    actor: A,
    constructed: Option<A>,
    started: (bool, Option<CaptureEvent>),
    stopped: (Option<CaptureEvent>, Vec<Delivery<W, D>>),
    actions: DropActions<W, D>,
    outcome: Option<&TerminationReason<E>>,
)
    requires
        runs.len() == 7 && shared.len() == 7,
        call_ensures(StandardRun::new, (rtti,), runs[0]),
        exists|source: &mut ActorIdSource, data: X, extensions: Y| #[trigger]
            call_ensures(
                SharedActorState::<E, W, D, T, X, Y>::new,
                (source, data, extensions),
                shared[0],
            ),
        exists|driven: &mut StandardRun, state: &mut SharedActorState<E, W, D, T, X, Y>|
            #[trigger] call_ensures(
                StandardRun::init_returned::<A, E, W, D, T, X, Y>,
                (driven, state, Ok(actor)),
                constructed,
            ) && *driven == runs[0] && *final(driven) == runs[1] && *state == shared[0]
                && *final(state) == shared[1],
        exists|driven: &mut StandardRun, state: &mut SharedActorState<E, W, D, T, X, Y>|
            #[trigger] call_ensures(
                StandardRun::start_hook_returned::<E, W, D, T, X, Y, &mut CaptureLog>,
                (driven, state, None),
                started,
            ) && *driven == runs[1] && *final(driven) == runs[2] && *state == shared[1]
                && *final(state) == shared[2],
        exists|driven: &mut StandardRun, state: &mut SharedActorState<E, W, D, T, X, Y>|
            #[trigger] call_ensures(
                StandardRun::loop_quiesced::<E, W, D, T, X, Y>,
                (driven, state),
                (),
            ) && *driven == runs[2] && *final(driven) == runs[3] && *state == shared[2]
                && *final(state) == shared[3],
        exists|driven: &mut StandardRun, state: &mut SharedActorState<E, W, D, T, X, Y>|
            #[trigger] call_ensures(
                StandardRun::stop_hook_returned::<E, W, D, T, X, Y, &mut CaptureLog>,
                (driven, state, None),
                stopped,
            ) && *driven == runs[3] && *final(driven) == runs[4] && *state == shared[3]
                && *final(state) == shared[4],
        exists|driven: &mut StandardRun, state: &mut SharedActorState<E, W, D, T, X, Y>|
            #[trigger] call_ensures(
                StandardRun::dropped::<E, W, D, T, X, Y, &mut CaptureLog>,
                (driven, state, None),
                actions,
            ) && *driven == runs[4] && *final(driven) == runs[5] && *state == shared[4]
                && *final(state) == shared[5],
        exists|driven: &mut StandardRun, state: &mut SharedActorState<E, W, D, T, X, Y>|
            #[trigger] call_ensures(
                StandardRun::announce_dead::<E, W, D, T, X, Y>,
                (driven, state),
                (),
            ) && *driven == runs[5] && *final(driven) == runs[6] && *state == shared[5]
                && *final(state) == shared[6],
        call_ensures(
            SharedActorState::<E, W, D, T, X, Y>::termination_reason,
            (&shared[6],),
            outcome,
        ),
    ensures
        constructed == Some(actor),
        started.0,
        shared[1]@.lifecycle is Starting,
        shared[2]@.lifecycle is Running,
        shared[3]@.lifecycle is Stopping && shared[4]@.lifecycle is Stopping,
        shared[5]@.lifecycle is Stopping,
        shared[6]@.lifecycle is Dead,
        shared[2]@.reason is None,
        shared[3]@.reason matches Some(TerminationReason::Finished),
        outcome matches Some(TerminationReason::Finished),
        !actions.aborted && actions.died is None && actions.deliveries.len() == 0,
        shared[6]@.id == shared[0]@.id,
        forall|phase: RunPhase| #[trigger]
            call_ensures(StandardRun::current_phase, (&runs[6],), phase) ==> phase is Dead,
{
}

/// An initializer that fails ends the run before any hook: there is no actor, and the
/// actor dies of that very error without ever having been `Running`, which every watcher
/// is told.
pub proof fn a_failed_initializer_ends_the_run<A, E, W, D, T, X, Y>(
    runs: Seq<StandardRun>,
    shared: Seq<SharedActorState<E, W, D, T, X, Y>>,
    error: E,
    constructed: Option<A>,
    actions: DropActions<W, D>,
    i: int,
)
    requires
        runs.len() == 4 && shared.len() == 4,
        shared[0]@.reason is None && shared[0]@.lifecycle is Starting,
        0 <= i < shared[0]@.subscriptions.len(),
        exists|driven: &mut StandardRun, state: &mut SharedActorState<E, W, D, T, X, Y>|
            #[trigger] call_ensures(
                StandardRun::init_returned::<A, E, W, D, T, X, Y>,
                (driven, state, Err(error)),
                constructed,
            ) && *driven == runs[0] && *final(driven) == runs[1] && *state == shared[0]
                && *final(state) == shared[1],
        exists|driven: &mut StandardRun, state: &mut SharedActorState<E, W, D, T, X, Y>|
            #[trigger] call_ensures(
                StandardRun::dropped::<E, W, D, T, X, Y, &mut CaptureLog>,
                (driven, state, None),
                actions,
            ) && *driven == runs[1] && *final(driven) == runs[2] && *state == shared[1]
                && *final(state) == shared[2],
        exists|driven: &mut StandardRun, state: &mut SharedActorState<E, W, D, T, X, Y>|
            #[trigger] call_ensures(
                StandardRun::announce_dead::<E, W, D, T, X, Y>,
                (driven, state),
                (),
            ) && *driven == runs[2] && *final(driven) == runs[3] && *state == shared[2]
                && *final(state) == shared[3],
    ensures
        constructed is None,
        !actions.aborted && actions.died is None,
        shared[1]@.lifecycle is Starting && shared[2]@.lifecycle is Starting,
        shared[3]@.lifecycle is Dead,
        shared[3]@.reason == Some(TerminationReason::Failed(error)),
        actions.deliveries.len() == shared[0]@.subscriptions.len(),
        forall|told: u64| #[trigger]
            call_ensures(Terminated::tag, (&actions.deliveries@[i].signal,), told) ==> told
                == shared[0]@.subscriptions[i].spec_tag(),
        forall|told: TerminationKind| #[trigger]
            call_ensures(Terminated::kind, (&actions.deliveries@[i].signal,), told)
                ==> told is Failed,
{
    assert(shared[1]@.subscriptions[i].delivers(
        shared[0]@.id,
        runs[1].spec_rtti(),
        TerminationKind::Failed,
        TerminalPath::Drop,
        actions.deliveries@[i],
    ));
}

/// A start hook that fails the actor keeps the loop from running: nothing is announced,
/// the outcome stays that error, and no birth is emitted.
pub proof fn a_failed_start_hook_keeps_the_loop_from_running<E, W, D, T, X, Y>(
    run: StandardRun,
    after: StandardRun,
    failed: SharedActorState<E, W, D, T, X, Y>,
    left: SharedActorState<E, W, D, T, X, Y>,
    error: &E,
    started: (bool, Option<CaptureEvent>),
)
    requires
        call_ensures(
            SharedActorState::<E, W, D, T, X, Y>::failed_error,
            (&failed,),
            Some(error),
        ),
        exists|driven: &mut StandardRun, state: &mut SharedActorState<E, W, D, T, X, Y>|
            #[trigger] call_ensures(
                StandardRun::start_hook_returned::<E, W, D, T, X, Y, &mut CaptureLog>,
                (driven, state, None),
                started,
            ) && *driven == run && *final(driven) == after && *state == failed
                && *final(state) == left,
    ensures
        !started.0 && started.1 is None,
        left@ == failed@,
        forall|phase: RunPhase| #[trigger]
            call_ensures(StandardRun::current_phase, (&after,), phase) ==> phase is Exited,
{
}

/// A run that is dropped before any outcome is recorded was aborted, wherever it was:
/// that is the outcome then, and every watcher is told so, with the tag of its watch.
pub proof fn a_dropped_run_was_aborted<E, W, D, T, X, Y>(
    run: StandardRun,
    after: StandardRun,
    shared: SharedActorState<E, W, D, T, X, Y>,
    left: SharedActorState<E, W, D, T, X, Y>,
    actions: DropActions<W, D>,
    i: int,
)
    requires
        shared@.reason is None,
        0 <= i < shared@.subscriptions.len(),
        exists|dropped: &mut StandardRun, state: &mut SharedActorState<E, W, D, T, X, Y>|
            #[trigger] call_ensures(
                StandardRun::dropped::<E, W, D, T, X, Y, &mut CaptureLog>,
                (dropped, state, None),
                actions,
            ) && *dropped == run && *final(dropped) == after && *state == shared && *final(state)
                == left,
    ensures
        actions.aborted,
        left@.reason matches Some(TerminationReason::Aborted),
        left@.subscriptions.len() == 0,
        actions.deliveries.len() == shared@.subscriptions.len(),
        actions.deliveries@[i].watcher == shared@.subscriptions[i].spec_watcher(),
        forall|told: u64| #[trigger]
            call_ensures(Terminated::tag, (&actions.deliveries@[i].signal,), told) ==> told
                == shared@.subscriptions[i].spec_tag(),
        forall|told: TerminationKind| #[trigger]
            call_ensures(Terminated::kind, (&actions.deliveries@[i].signal,), told)
                ==> told is Aborted,
        forall|told: ActorId| #[trigger]
            call_ensures(Terminated::watched, (&actions.deliveries@[i].signal,), told) ==> told
                == shared@.id,
{
    assert(shared@.subscriptions[i].delivers(
        shared@.id,
        run.spec_rtti(),
        TerminationKind::Aborted,
        TerminalPath::Drop,
        actions.deliveries@[i],
    ));
}

/// The stop hook is told the outcome on record: the very error of an actor that failed,
/// and a clean finish otherwise. A failed loop keeps its error when it quiesces.
pub proof fn the_stop_hook_is_told_the_outcome<E, W, D, T, X, Y>(
    run: StandardRun,
    after: StandardRun,
    looping: SharedActorState<E, W, D, T, X, Y>,
    quiesced: SharedActorState<E, W, D, T, X, Y>,
    error: Option<&E>,
    reason: StopReason<'_, E>,
)
    requires
        call_ensures(SharedActorState::<E, W, D, T, X, Y>::failed_error, (&looping,), error),
        exists|driven: &mut StandardRun, state: &mut SharedActorState<E, W, D, T, X, Y>|
            #[trigger] call_ensures(
                StandardRun::loop_quiesced::<E, W, D, T, X, Y>,
                (driven, state),
                (),
            ) && *driven == run && *final(driven) == after && *state == looping
                && *final(state) == quiesced,
        call_ensures(stop_reason::<E, W, D, T, X, Y>, (&quiesced,), reason),
    ensures
        reason is Finished <==> error is None,
        reason matches StopReason::Failed(told) ==> error == Some(told),
        looping@.reason is None ==> (quiesced@.reason matches Some(TerminationReason::Finished)),
        looping@.reason is Some ==> quiesced@.reason == looping@.reason,
        looping@.lifecycle is Running ==> quiesced@.lifecycle is Stopping,
{
}

} // verus!
