//! The state shared between an actor's handles and its run loop.
use crate::actor::lifecycle::{TerminationKind, TerminationReason};
use crate::actor::rtti::ActorRtti;
use crate::actor::run_loop::is_turn;
use crate::actor::supervision::gives_out;
use crate::actor::supervision::{
    ActorId, ActorIdSource, Delivery, DeliveryMode, Subscription, TerminalPath, Terminated,
    WatchDeliveryPolicy,
};
use crate::capture::is_recorded;
use crate::capture::{record_died, CaptureEvent, CaptureFrame, CaptureTarget, EventId};
use core::task::Waker;
use vstd::prelude::*;

verus! {

/// [`core::task::Waker`], a handle for waking up a task.
#[verifier::external_type_specification]
#[verifier::external_body]
pub struct ExWaker(Waker);

/// The task that a waker wakes.
pub uninterp spec fn waker_task(waker: Waker) -> int;

/// Calls [`Waker::will_wake`]. If it says so, both wakers wake the same task; it
/// may fail to recognise that they do.
#[verifier::external_body]
fn will_wake(waker: &Waker, other: &Waker) -> (same: bool)
    ensures
        same ==> waker_task(*waker) == waker_task(*other),
{
    waker.will_wake(other)
}

/// Whether `same` is what [`Waker::will_wake`] said of the two wakers.
pub closed spec fn will_wake_said(waker: Waker, other: Waker, same: bool) -> bool {
    call_ensures(will_wake, (&waker, &other), same)
}

/// Calls `Waker::clone`. The clone wakes the same task.
#[verifier::external_body]
fn clone_waker(waker: &Waker) -> (clone: Waker)
    ensures
        waker_task(clone) == waker_task(*waker),
{
    waker.clone()
}

/// Calls [`Waker::wake`], which wakes the waker's task. When the task then runs is
/// up to its executor.
#[verifier::external_body]
fn wake(waker: Waker) {
    waker.wake()
}

/// Whether [`Waker::wake`] was called on the waker.
pub closed spec fn woken(waker: Waker) -> bool {
    call_ensures(wake, (waker,), ())
}

/// Whether [`Waker::wake`] was called on every one of the wakers.
pub open spec fn all_woken(wakers: Seq<Waker>) -> bool {
    forall|i: int| 0 <= i < wakers.len() ==> woken(#[trigger] wakers[i])
}

/// A set of wakers awaiting a lifecycle transition.
///
/// Any number of concurrent waiters is supported: every registered waker is
/// woken on the next transition. Registration is idempotent per task.
#[derive(Debug)]
pub struct WakerSet {
    wakers: Vec<Waker>,
}

impl View for WakerSet {
    type V = Seq<Waker>;

    closed spec fn view(&self) -> Seq<Waker> {
        self.wakers@
    }
}

impl WakerSet {
    /// An empty set.
    pub fn new() -> (set: Self)
        ensures
            set@ == Seq::<Waker>::empty(),
    {
        WakerSet { wakers: Vec::new() }
    }

    /// Whether a waker that is seen to wake the same task is already registered.
    fn is_registered(&self, waker: &Waker) -> (known: bool)
        ensures
            known ==> is_awaited(self@, *waker),
            known ==> exists|i: int|
                0 <= i < self@.len() && #[trigger] will_wake_said(self@[i], *waker, true),
            !known ==> forall|i: int|
                0 <= i < self@.len() ==> #[trigger] will_wake_said(self@[i], *waker, false),
    {
        let mut i: usize = 0;
        while i < self.wakers.len()
            invariant
                i <= self.wakers.len(),
                forall|j: int| 0 <= j < i ==> #[trigger] will_wake_said(self@[j], *waker, false),
            decreases self.wakers.len() - i,
        {
            let same: bool = will_wake(&self.wakers[i], waker);
            assert(will_wake_said(self@[i as int], *waker, same));
            if same {
                assert(waker_task(self@[i as int]) == waker_task(*waker));
                return true;
            }
            i = i + 1;
        }
        false
    }

    /// Add `waker`, unless an equivalent one is known to be registered.
    pub fn insert_unless(&mut self, known: bool, waker: Waker)
        ensures
            final(self)@ == if known {
                old(self)@
            } else {
                old(self)@.push(waker)
            },
    {
        if !known {
            self.wakers.push(waker);
        }
    }

    /// Register `waker` to be woken on the next transition, unless an
    /// equivalent waker is already registered.
    pub fn register(&mut self, waker: &Waker)
        ensures
            registers(old(self)@, *waker, final(self)@),
    {
        let known: bool = self.is_registered(waker);
        let clone = clone_waker(waker);
        self.insert_unless(known, clone);
        assert(!known ==> self@.drop_last() =~= old(self)@ && self@.last() == clone);
    }

    /// Take every registered waker out of the set.
    pub fn take(&mut self) -> (wakers: Vec<Waker>)
        ensures
            wakers@ == old(self)@,
            final(self)@ == Seq::<Waker>::empty(),
    {
        let mut taken: Vec<Waker> = Vec::new();
        core::mem::swap(&mut taken, &mut self.wakers);
        taken
    }

    /// Wake and clear every registered waker. Still-pending futures re-register
    /// on their next poll.
    pub fn wake_all(&mut self)
        ensures
            final(self)@ == Seq::<Waker>::empty(),
            all_woken(old(self)@),
    {
        let mut taken = self.take();
        let ghost all = taken@;
        let ghost mut count: int = 0;
        while taken.len() > 0
            invariant
                0 <= count <= all.len(),
                taken@ == all.skip(count),
                all_woken(all.take(count)),
            decreases taken.len(),
        {
            let waker = taken.remove(0);
            wake(waker);
            proof {
                assert(waker == all[count] && woken(all[count]));
                assert(all.take(count + 1) =~= all.take(count).push(waker));
                assert(taken@ =~= all.skip(count + 1));
                count = count + 1;
            }
        }
        assert(all.take(count) =~= all);
    }
}

/// Whether one of the wakers wakes the given waker's task.
pub open spec fn is_awaited(wakers: Seq<Waker>, waker: Waker) -> bool {
    exists|i: int| 0 <= i < wakers.len() && waker_task(#[trigger] wakers[i]) == waker_task(waker)
}

/// What registering a waker does to the registered ones: they stay as they are,
/// where one of them was seen to wake the waker's task; where none was, one that
/// does is added behind them.
pub open spec fn registers(before: Seq<Waker>, waker: Waker, after: Seq<Waker>) -> bool {
    ||| {
        &&& after == before
        &&& is_awaited(before, waker)
        &&& exists|i: int|
            0 <= i < before.len() && will_wake_said(#[trigger] before[i], waker, true)
    }
    ||| {
        &&& after.len() == before.len() + 1
        &&& after.drop_last() == before
        &&& waker_task(after.last()) == waker_task(waker)
        &&& forall|i: int|
            0 <= i < before.len() ==> will_wake_said(#[trigger] before[i], waker, false)
    }
}

/// Whoever is told to wait is awaited: once registered, a waker's task is among
/// those that the next transition wakes, and so is every task that was before.
pub proof fn registered_tasks_are_awaited(before: Seq<Waker>, waker: Waker, after: Seq<Waker>)
    requires
        registers(before, waker, after),
    ensures
        is_awaited(after, waker),
        forall|other: Waker| is_awaited(before, other) ==> is_awaited(after, other),
{
    if after != before {
        assert(waker_task(after[before.len() as int]) == waker_task(waker));
    }
    assert forall|other: Waker| is_awaited(before, other) implies is_awaited(after, other) by {
        let i = choose|i: int|
            0 <= i < before.len() && waker_task(#[trigger] before[i]) == waker_task(other);
        if after != before {
            assert(after.drop_last()[i] == after[i]);
        }
        assert(waker_task(after[i]) == waker_task(other));
    }
}

/// Whoever registered is woken: when every registered waker is, so is one that
/// wakes the task of each waker that was registered.
pub proof fn registered_tasks_are_woken(wakers: Seq<Waker>, waker: Waker)
    requires
        is_awaited(wakers, waker),
        all_woken(wakers),
    ensures
        exists|other: Waker| #[trigger] woken(other) && waker_task(other) == waker_task(waker),
{
    let i = choose|i: int|
        0 <= i < wakers.len() && waker_task(#[trigger] wakers[i]) == waker_task(waker);
    assert(woken(wakers[i]));
}

/// Whether no two of the wakers wake the same task.
pub open spec fn wake_different_tasks(wakers: Seq<Waker>) -> bool {
    forall|i: int, j: int|
        0 <= i < j < wakers.len() ==> waker_task(#[trigger] wakers[i]) != waker_task(
            #[trigger] wakers[j],
        )
}

/// However often a task waits, it is woken once: after any number of registrations,
/// each task that waits has exactly one waker in the set, so that waking the set
/// wakes it once. This is so as long as [`Waker::will_wake`] recognises the tasks
/// that are registered already.
pub proof fn each_waiting_task_is_registered_once(polls: Seq<Waker>, sets: Seq<Seq<Waker>>)
    requires
        sets.len() == polls.len() + 1,
        sets[0].len() == 0,
        forall|k: int, next: int|
            0 <= k < polls.len() && next == k + 1 ==> registers(
                #[trigger] sets[k],
                polls[k],
                #[trigger] sets[next],
            ),
        forall|k: int, i: int|
            0 <= k < polls.len() && 0 <= i < sets[k].len() && waker_task(#[trigger] sets[k][i])
                == waker_task(polls[k]) ==> !will_wake_said(sets[k][i], polls[k], false),
    ensures
        wake_different_tasks(sets.last()),
        forall|k: int| 0 <= k < polls.len() ==> is_awaited(sets.last(), #[trigger] polls[k]),
    decreases polls.len(),
{
    if polls.len() > 0 {
        let last = polls.len() - 1;
        let before = sets[last];
        let after = sets[last + 1];
        let fewer = sets.drop_last();
        assert(fewer.last() == before);
        assert forall|k: int, next: int| 0 <= k < last && next == k + 1 implies registers(
            #[trigger] fewer[k],
            polls.drop_last()[k],
            #[trigger] fewer[next],
        ) by {
            assert(fewer[k] == sets[k] && fewer[next] == sets[next]);
        }
        assert forall|k: int, i: int|
            0 <= k < last && 0 <= i < fewer[k].len() && waker_task(#[trigger] fewer[k][i])
                == waker_task(polls.drop_last()[k]) implies !will_wake_said(
            fewer[k][i],
            polls.drop_last()[k],
            false,
        ) by {
            assert(fewer[k] == sets[k]);
            assert(sets[k][i] == fewer[k][i]);
        }
        each_waiting_task_is_registered_once(polls.drop_last(), fewer);
        assert(registers(before, polls[last], after));
        registered_tasks_are_awaited(before, polls[last], after);
        assert forall|k: int| 0 <= k < polls.len() implies is_awaited(after, #[trigger] polls[k]) by {
            if k < last {
                assert(polls.drop_last()[k] == polls[k]);
            }
        }
        if after != before {
            assert forall|i: int, j: int| 0 <= i < j < after.len() implies waker_task(
                #[trigger] after[i],
            ) != waker_task(#[trigger] after[j]) by {
                assert(after.drop_last()[i] == after[i]);
                if j < before.len() {
                    assert(after.drop_last()[j] == after[j]);
                } else {
                    assert(sets[last][i] == after[i]);
                    assert(will_wake_said(before[i], polls[last], false));
                }
            }
        }
    }
}

/// The lifecycle of an actor, from spawn to death.
#[derive(Clone, Copy, Debug, PartialEq, Eq, Hash, Structural)]
pub enum LifecycleState {
    /// The actor task exists but initialization has not completed yet.
    Starting,
    /// Initialization succeeded and the run loop is processing messages.
    Running,
    /// The run loop has stopped pulling new work and is running the actor's stop
    /// hook before the actor is dropped. Reached from `Running`.
    Stopping,
    /// The actor is dead: init failed, the run loop exited or the task was
    /// aborted. This state is terminal.
    Dead,
}

impl LifecycleState {
    /// The number that stands for the state.
    pub open spec fn spec_raw(self) -> u8 {
        match self {
            LifecycleState::Starting => 0,
            LifecycleState::Running => 1,
            LifecycleState::Stopping => 2,
            LifecycleState::Dead => 3,
        }
    }

    /// The number that stands for the state.
    pub fn as_raw(self) -> (raw: u8)
        ensures
            raw == self.spec_raw(),
    {
        match self {
            LifecycleState::Starting => 0,
            LifecycleState::Running => 1,
            LifecycleState::Stopping => 2,
            LifecycleState::Dead => 3,
        }
    }

    /// The state that a number stands for.
    pub fn from_raw(raw: u8) -> (state: Self)
        requires
            raw <= 3,
        ensures
            state.spec_raw() == raw,
    {
        match raw {
            0 => LifecycleState::Starting,
            1 => LifecycleState::Running,
            2 => LifecycleState::Stopping,
            _ => LifecycleState::Dead,
        }
    }

    /// The state after announcing that startup has completed.
    pub open spec fn after_running(self) -> LifecycleState {
        if self == LifecycleState::Starting {
            LifecycleState::Running
        } else {
            self
        }
    }

    /// The state after announcing that the run loop stops.
    pub open spec fn after_stopping(self) -> LifecycleState {
        if self == LifecycleState::Running {
            LifecycleState::Stopping
        } else {
            self
        }
    }
}

/// Lifecycle tracking cell: the lifecycle state of an actor plus the wakers of
/// everyone awaiting a transition.
#[derive(Debug)]
pub struct LifecycleCell {
    state: u8,
    waiters: WakerSet,
}

impl LifecycleCell {
    #[verifier::type_invariant]
    spec fn is_state(self) -> bool {
        self.state <= 3
    }

    /// The current lifecycle state.
    pub closed spec fn spec_current(self) -> LifecycleState {
        match self.state {
            0 => LifecycleState::Starting,
            1 => LifecycleState::Running,
            2 => LifecycleState::Stopping,
            _ => LifecycleState::Dead,
        }
    }

    /// The wakers of everyone awaiting a transition.
    pub closed spec fn waiters(self) -> Seq<Waker> {
        self.waiters@
    }

    /// A cell in `Starting`, awaited by no one.
    pub fn new() -> (cell: Self)
        ensures
            cell.spec_current() == LifecycleState::Starting,
            cell.waiters() == Seq::<Waker>::empty(),
    {
        LifecycleCell { state: LifecycleState::Starting.as_raw(), waiters: WakerSet::new() }
    }

    /// The current lifecycle state.
    pub fn current(&self) -> (state: LifecycleState)
        ensures
            state == self.spec_current(),
    {
        proof {
            use_type_invariant(self);
        }
        LifecycleState::from_raw(self.state)
    }

    /// Take out the wakers of everyone awaiting a transition, for a caller that wakes
    /// them itself.
    pub fn take_waiters(&mut self) -> (waiters: WakerSet)
        ensures
            waiters@ == old(self).waiters(),
            final(self).spec_current() == old(self).spec_current(),
            final(self).waiters() == Seq::<Waker>::empty(),
    {
        proof {
            use_type_invariant(&*self);
        }
        let mut waiters = WakerSet::new();
        core::mem::swap(&mut waiters, &mut self.waiters);
        waiters
    }

    /// Wake everyone awaiting a transition.
    fn wake_waiters(&mut self)
        ensures
            all_woken(old(self).waiters()),
            final(self).spec_current() == old(self).spec_current(),
            final(self).waiters() == Seq::<Waker>::empty(),
    {
        let mut waiters = self.take_waiters();
        waiters.wake_all();
    }

    /// Transition from `Starting` to `Running` and wake all waiters.
    ///
    /// No-op if the state is not `Starting` (the actor may already be dead),
    /// apart from waking.
    pub fn transition_running(&mut self)
        ensures
            final(self).spec_current() == old(self).spec_current().after_running(),
            final(self).waiters() == Seq::<Waker>::empty(),
            all_woken(old(self).waiters()),
    {
        proof {
            use_type_invariant(&*self);
        }
        if self.state == 0 {
            self.state = 1;
        }
        self.wake_waiters();
    }

    /// Transition from `Running` to `Stopping`.
    ///
    /// No-op if the state is not `Running` (the actor may already be dead, or
    /// never left `Starting` because init or start failed).
    pub fn transition_stopping(&mut self)
        ensures
            final(self).spec_current() == old(self).spec_current().after_stopping(),
            final(self).waiters() == old(self).waiters(),
    {
        proof {
            use_type_invariant(&*self);
        }
        if self.state == 1 {
            self.state = 2;
        }
    }

    /// Transition to `Dead` and wake all waiters. Terminal and idempotent.
    pub fn transition_dead(&mut self)
        ensures
            final(self).spec_current() == LifecycleState::Dead,
            final(self).waiters() == Seq::<Waker>::empty(),
            all_woken(old(self).waiters()),
    {
        proof {
            use_type_invariant(&*self);
        }
        self.state = 3;
        self.wake_waiters();
    }

    /// One poll of a wait for the terminal `Dead`: whether it is reached. If
    /// not, the waker is registered for the next transition.
    pub fn wait_for_terminal(&mut self, waker: &Waker) -> (ready: bool)
        ensures
            ready == (old(self).spec_current() == LifecycleState::Dead),
            final(self).spec_current() == old(self).spec_current(),
            ready ==> final(self).waiters() == old(self).waiters(),
            !ready ==> registers(old(self).waiters(), *waker, final(self).waiters()),
    {
        proof {
            use_type_invariant(&*self);
        }
        if self.current() == LifecycleState::Dead {
            return true;
        }
        let mut waiters = WakerSet::new();
        core::mem::swap(&mut waiters, &mut self.waiters);
        waiters.register(waker);
        self.waiters = waiters;
        false
    }

    /// One poll of a wait for the state to leave `Starting`: the state it left
    /// for. If it has not, the waker is registered for the next transition.
    pub fn wait_leave_starting(&mut self, waker: &Waker) -> (left_for: Option<LifecycleState>)
        ensures
            left_for == if old(self).spec_current() == LifecycleState::Starting {
                None
            } else {
                Some(old(self).spec_current())
            },
            final(self).spec_current() == old(self).spec_current(),
            left_for is Some ==> final(self).waiters() == old(self).waiters(),
            left_for is None ==> registers(old(self).waiters(), *waker, final(self).waiters()),
    {
        proof {
            use_type_invariant(&*self);
        }
        let state = self.current();
        if state != LifecycleState::Starting {
            return Some(state);
        }
        let mut waiters = WakerSet::new();
        core::mem::swap(&mut waiters, &mut self.waiters);
        waiters.register(waker);
        self.waiters = waiters;
        None
    }
}

impl Default for LifecycleCell {
    fn default() -> (cell: Self)
        ensures
            cell.spec_current() == LifecycleState::Starting,
            cell.waiters() == Seq::<Waker>::empty(),
    {
        LifecycleCell::new()
    }
}

/// `Dead` is terminal: no announcement leads out of it. `Stopping` is reached
/// from `Running` only, and no announcement leads backwards.
pub proof fn dead_is_terminal(state: LifecycleState)
    ensures
        LifecycleState::Dead.after_running() == LifecycleState::Dead,
        LifecycleState::Dead.after_stopping() == LifecycleState::Dead,
        state.after_running() != LifecycleState::Starting,
        state.after_running().spec_raw() >= state.spec_raw(),
        state.after_stopping().spec_raw() >= state.spec_raw(),
        state.after_stopping() == LifecycleState::Stopping ==> state == LifecycleState::Running
            || state == LifecycleState::Stopping,
{
}

/// What the state shared between an actor's handles and its run loop holds.
pub struct ActorStateModel<E, W, D, T> {
    pub id: ActorId,
    pub reason: Option<TerminationReason<E>>,
    pub lifecycle: LifecycleState,
    pub waiters: Seq<Waker>,
    pub subscriptions: Seq<Subscription<W, D>>,
    pub task: Option<T>,
    pub capture_seq: usize,
    pub capture_birth: Option<Option<CaptureFrame>>,
}

impl<E, W, D, T> ActorStateModel<E, W, D, T> {
    /// The state after recording an outcome: the first recorded one wins.
    pub open spec fn after_recording(self, reason: TerminationReason<E>) -> Self {
        if self.reason is Some {
            self
        } else {
            ActorStateModel { reason: Some(reason), ..self }
        }
    }

    /// The error the actor failed with, if it failed.
    pub open spec fn failed_error(self) -> Option<E> {
        match self.reason {
            Some(TerminationReason::Failed(error)) => Some(error),
            _ => None,
        }
    }

    /// The error-free outcome, if one is recorded.
    pub open spec fn kind(self) -> Option<TerminationKind> {
        match self.reason {
            Some(reason) => Some(reason.spec_kind()),
            None => None,
        }
    }

    /// The state after its subscriptions were taken: they are gone, unless no
    /// outcome is recorded yet.
    pub open spec fn after_taking(self) -> Self {
        if self.reason is Some {
            ActorStateModel { subscriptions: Seq::empty(), ..self }
        } else {
            self
        }
    }

    /// The state after the actor was announced dead, and everyone who waited woken.
    pub open spec fn after_dying(self) -> Self {
        ActorStateModel { lifecycle: LifecycleState::Dead, waiters: Seq::empty(), ..self }
    }

    /// The subscriptions to notify: those registered, once an outcome is
    /// recorded.
    pub open spec fn notified(self) -> Seq<Subscription<W, D>> {
        if self.reason is Some {
            self.subscriptions
        } else {
            Seq::empty()
        }
    }

    /// The frame of the actor that spawned this one, if any.
    pub open spec fn birth(self) -> Option<CaptureFrame> {
        match self.capture_birth {
            Some(frame) => frame,
            None => None,
        }
    }

    /// The state after minting one capture event id.
    pub open spec fn after_minting(self) -> Self {
        ActorStateModel {
            capture_seq: if self.capture_seq == usize::MAX {
                0
            } else {
                (self.capture_seq + 1) as usize
            },
            ..self
        }
    }
}

/// The subscriptions that are not the watcher's.
pub open spec fn without_watcher<W, D>(
    subscriptions: Seq<Subscription<W, D>>,
    watcher: ActorId,
) -> Seq<Subscription<W, D>> {
    subscriptions.filter(
        |subscription: Subscription<W, D>|
            subscription.spec_watcher_id().number() != watcher.number(),
    )
}

/// Whether `deliveries` are the subscriptions' signals that `watched`
/// terminated, in their order.
pub open spec fn signals<W, D>(
    subscriptions: Seq<Subscription<W, D>>,
    watched: ActorId,
    rtti: ActorRtti,
    kind: TerminationKind,
    path: TerminalPath,
    deliveries: Seq<Delivery<W, D>>,
) -> bool {
    &&& deliveries.len() == subscriptions.len()
    &&& forall|i: int|
        0 <= i < subscriptions.len() ==> (#[trigger] subscriptions[i]).delivers(
            watched,
            rtti,
            kind,
            path,
            deliveries[i],
        )
}

/// State shared between an actor's handles and its run loop: errors of type `E`,
/// watchers `W` with dispatchers `D`, a task handle `T`, user-defined shared data
/// `X` and the extensions `Y` injected at spawn.
#[derive(Debug)]
pub struct SharedActorState<E, W, D, T, X, Y> {
    id: ActorId,
    reason: Option<TerminationReason<E>>,
    lifecycle: LifecycleCell,
    subscriptions: Vec<Subscription<W, D>>,
    task: Option<T>,
    shared_data: X,
    extensions: Y,
    capture_seq: usize,
    capture_birth: Option<Option<CaptureFrame>>,
}

impl<E, W, D, T, X, Y> View for SharedActorState<E, W, D, T, X, Y> {
    type V = ActorStateModel<E, W, D, T>;

    closed spec fn view(&self) -> ActorStateModel<E, W, D, T> {
        ActorStateModel {
            id: self.id,
            reason: self.reason,
            lifecycle: self.lifecycle.spec_current(),
            waiters: self.lifecycle.waiters(),
            subscriptions: self.subscriptions@,
            task: self.task,
            capture_seq: self.capture_seq,
            capture_birth: self.capture_birth,
        }
    }
}

impl<E, W, D, T, X, Y> SharedActorState<E, W, D, T, X, Y> {
    /// The user-defined shared data.
    pub closed spec fn spec_shared_data(self) -> X {
        self.shared_data
    }

    /// The extensions injected at spawn.
    pub closed spec fn spec_extensions(self) -> Y {
        self.extensions
    }

    /// Whether both states hold the same shared data and extensions, which are
    /// frozen for the actor's life.
    pub open spec fn same_data(self, other: Self) -> bool {
        self.spec_shared_data() == other.spec_shared_data() && self.spec_extensions()
            == other.spec_extensions()
    }

    /// Create the shared state of an actor that is starting.
    pub fn new(source: &mut ActorIdSource, shared_data: X, extensions: Y) -> (state: Self)
        requires
            old(source).next() != 0,
        ensures
            gives_out(old(source).next(), state@.id.number(), final(source).next()),
            state@.reason is None,
            state@.lifecycle == LifecycleState::Starting,
            state@.waiters == Seq::<Waker>::empty(),
            state@.subscriptions == Seq::<Subscription<W, D>>::empty(),
            state@.task is None,
            state@.capture_seq == 1,
            state@.capture_birth is None,
            state.spec_shared_data() == shared_data,
            state.spec_extensions() == extensions,
    {
        SharedActorState {
            id: ActorId::new(source),
            reason: None,
            lifecycle: LifecycleCell::new(),
            subscriptions: Vec::new(),
            task: None,
            shared_data,
            extensions,
            capture_seq: 1,
            capture_birth: None,
        }
    }

    /// Record that the actor failed with `error`. Write-once: the first recorded
    /// outcome wins.
    pub fn record_failure(&mut self, error: E)
        ensures
            final(self)@ == old(self)@.after_recording(TerminationReason::Failed(error)),
            final(self).same_data(*old(self)),
    {
        if self.reason.is_none() {
            self.reason = Some(TerminationReason::Failed(error));
        }
    }

    /// Record that the actor finished cleanly. No-op if an outcome is already
    /// recorded.
    pub fn mark_finished(&mut self)
        ensures
            final(self)@ == old(self)@.after_recording(TerminationReason::Finished),
            final(self).same_data(*old(self)),
    {
        if self.reason.is_none() {
            self.reason = Some(TerminationReason::Finished);
        }
    }

    /// Record that the actor was aborted (panic or task abort). No-op if an
    /// outcome is already recorded.
    pub fn mark_aborted(&mut self)
        ensures
            final(self)@ == old(self)@.after_recording(TerminationReason::Aborted),
            final(self).same_data(*old(self)),
    {
        if self.reason.is_none() {
            self.reason = Some(TerminationReason::Aborted);
        }
    }

    /// The recorded termination reason, if any.
    pub fn termination_reason(&self) -> (reason: Option<&TerminationReason<E>>)
        ensures
            reason is Some <==> self@.reason is Some,
            reason matches Some(reason) ==> self@.reason == Some(*reason),
    {
        self.reason.as_ref()
    }

    /// The error the actor failed with, if its recorded reason is a failure.
    pub fn failed_error(&self) -> (error: Option<&E>)
        ensures
            error is Some <==> self@.failed_error() is Some,
            error matches Some(error) ==> self@.failed_error() == Some(*error),
    {
        match &self.reason {
            Some(TerminationReason::Failed(error)) => Some(error),
            _ => None,
        }
    }

    /// This actor's process-unique, never-reused identity.
    pub fn id(&self) -> (id: ActorId)
        ensures
            id == self@.id,
    {
        self.id
    }

    /// Register a termination subscription (a watcher to notify on death).
    pub fn add_subscription(&mut self, subscription: Subscription<W, D>)
        ensures
            final(self)@ == (ActorStateModel {
                subscriptions: old(self)@.subscriptions.push(subscription),
                ..old(self)@
            }),
            final(self).same_data(*old(self)),
    {
        self.subscriptions.push(subscription);
    }

    /// Remove every subscription registered by the given watcher.
    pub fn remove_subscriptions(&mut self, watcher: ActorId)
        ensures
            final(self)@ == (ActorStateModel {
                subscriptions: without_watcher(old(self)@.subscriptions, watcher),
                ..old(self)@
            }),
            final(self).same_data(*old(self)),
    {
        let ghost before = self.subscriptions@;
        let ghost keep = |subscription: Subscription<W, D>|
            subscription.spec_watcher_id().number() != watcher.number();
        let mut kept: Vec<Subscription<W, D>> = Vec::new();
        let mut rest: Vec<Subscription<W, D>> = Vec::new();
        core::mem::swap(&mut rest, &mut self.subscriptions);
        let ghost mut taken: int = 0;
        reveal(Seq::filter);
        assert(before.take(0) =~= Seq::empty());
        while rest.len() > 0
            invariant
                0 <= taken <= before.len(),
                rest@ == before.skip(taken),
                kept@ == before.take(taken).filter(keep),
                keep == (|subscription: Subscription<W, D>|
                    subscription.spec_watcher_id().number() != watcher.number()),
            decreases rest.len(),
        {
            reveal(Seq::filter);
            let subscription = rest.remove(0);
            proof {
                assert(subscription == before[taken]);
                assert(before.take(taken + 1).drop_last() =~= before.take(taken));
                assert(rest@ =~= before.skip(taken + 1));
                taken = taken + 1;
            }
            if subscription.watcher_id() != watcher {
                kept.push(subscription);
            }
        }
        assert(before.take(taken) =~= before);
        self.subscriptions = kept;
    }

    /// Drain the recorded subscriptions, returning them with the termination
    /// kind to deliver. `None` if no reason is recorded yet.
    pub fn take_subscriptions(&mut self) -> (taken: Option<
        (TerminationKind, Vec<Subscription<W, D>>),
    >)
        ensures
            final(self)@ == old(self)@.after_taking(),
            final(self).same_data(*old(self)),
            taken is Some <==> old(self)@.reason is Some,
            taken matches Some(taken) ==> Some(taken.0) == old(self)@.kind() && taken.1@
                == old(self)@.subscriptions,
    {
        let kind = match &self.reason {
            Some(reason) => reason.kind(),
            None => {
                return None;
            },
        };
        let mut subscriptions: Vec<Subscription<W, D>> = Vec::new();
        core::mem::swap(&mut subscriptions, &mut self.subscriptions);
        Some((kind, subscriptions))
    }

    /// Drain the subscriptions into the signals for the watchers, to be
    /// delivered on the run loop's orderly end before `Dead` is announced.
    pub fn notify_subscribers(&mut self, rtti: ActorRtti) -> (deliveries: Vec<Delivery<W, D>>)
        ensures
            final(self)@ == old(self)@.after_taking(),
            final(self).same_data(*old(self)),
            old(self)@.reason is None ==> deliveries.len() == 0,
            old(self)@.reason matches Some(reason) ==> signals(
                old(self)@.subscriptions,
                old(self)@.id,
                rtti,
                reason.spec_kind(),
                TerminalPath::Async,
                deliveries@,
            ),
    {
        let id = self.id();
        match self.take_subscriptions() {
            Some((kind, subscriptions)) => deliver_all(
                subscriptions,
                id,
                rtti,
                kind,
                TerminalPath::Async,
            ),
            None => Vec::new(),
        }
    }

    /// Drain the subscriptions into the signals for the watchers on the drop
    /// path (panic or task abort).
    pub fn notify_subscribers_now(&mut self, rtti: ActorRtti) -> (deliveries: Vec<Delivery<W, D>>)
        ensures
            final(self)@ == old(self)@.after_taking(),
            final(self).same_data(*old(self)),
            old(self)@.reason is None ==> deliveries.len() == 0,
            old(self)@.reason matches Some(reason) ==> signals(
                old(self)@.subscriptions,
                old(self)@.id,
                rtti,
                reason.spec_kind(),
                TerminalPath::Drop,
                deliveries@,
            ),
    {
        let id = self.id();
        match self.take_subscriptions() {
            Some((kind, subscriptions)) => deliver_all(
                subscriptions,
                id,
                rtti,
                kind,
                TerminalPath::Drop,
            ),
            None => Vec::new(),
        }
    }

    /// Attach the task handle of the spawned actor task. Fails with the handle
    /// if one was already attached.
    pub fn attach_task(&mut self, task: T) -> (result: Result<(), T>)
        ensures
            old(self)@.task is None ==> result is Ok && final(self)@ == (ActorStateModel {
                task: Some(task),
                ..old(self)@
            }),
            old(self)@.task is Some ==> result == Err::<(), T>(task) && final(self)@ == old(self)@,
            final(self).same_data(*old(self)),
    {
        if self.task.is_some() {
            return Err(task);
        }
        self.task = Some(task);
        Ok(())
    }

    /// The task handle of the actor task, if one was attached.
    pub fn task(&self) -> (task: Option<&T>)
        ensures
            task is Some <==> self@.task is Some,
            task matches Some(task) ==> self@.task == Some(*task),
    {
        self.task.as_ref()
    }

    /// The guard that a run loop of an actor of the given type holds: dropping it
    /// ends in `Dead`, whatever ended the run.
    pub fn dead_on_drop(&self, rtti: ActorRtti) -> (guard: DeadOnDropGuard)
        ensures
            guard.spec_rtti() == rtti,
    {
        DeadOnDropGuard::new(rtti)
    }

    /// The actor's user-defined shared data.
    pub fn shared_data(&self) -> (data: &X)
        ensures
            *data == self.spec_shared_data(),
    {
        &self.shared_data
    }

    /// The extensions injected at spawn.
    pub fn extensions(&self) -> (extensions: &Y)
        ensures
            *extensions == self.spec_extensions(),
    {
        &self.extensions
    }

    /// Mint this actor's next capture event id.
    pub fn next_capture_event_id(&mut self) -> (id: EventId)
        ensures
            id.actor == old(self)@.id,
            id.seq == old(self)@.capture_seq,
            final(self)@ == old(self)@.after_minting(),
            final(self).same_data(*old(self)),
    {
        let seq: usize = self.capture_seq;
        self.capture_seq = seq.wrapping_add(1);
        EventId { actor: self.id, seq }
    }

    /// Record the frame of the actor that spawned this one. No-op if one is
    /// already recorded.
    pub fn set_capture_birth(&mut self, frame: Option<CaptureFrame>)
        ensures
            final(self)@ == (ActorStateModel {
                capture_birth: if old(self)@.capture_birth is Some {
                    old(self)@.capture_birth
                } else {
                    Some(frame)
                },
                ..old(self)@
            }),
            final(self).same_data(*old(self)),
    {
        if self.capture_birth.is_none() {
            self.capture_birth = Some(frame);
        }
    }

    /// The frame of the actor that spawned this one, if any (`None` for a root
    /// spawn or if none was recorded).
    pub fn capture_birth(&self) -> (frame: Option<CaptureFrame>)
        ensures
            frame == self@.birth(),
    {
        match self.capture_birth {
            Some(frame) => frame,
            None => None,
        }
    }

    /// The current lifecycle state of the actor.
    pub fn lifecycle(&self) -> (state: LifecycleState)
        ensures
            state == self@.lifecycle,
    {
        self.lifecycle.current()
    }

    /// Take out the wakers of everyone who waits, for a caller that wakes them
    /// itself.
    pub fn take_waiters(&mut self) -> (waiters: WakerSet)
        ensures
            waiters@ == old(self)@.waiters,
            final(self)@ == (ActorStateModel { waiters: Seq::empty(), ..old(self)@ }),
            final(self).same_data(*old(self)),
    {
        self.lifecycle.take_waiters()
    }

    /// Transition from `Starting` to `Running`. No-op outside `Starting`, apart
    /// from waking everyone who waits.
    pub fn transition_running(&mut self)
        ensures
            final(self)@ == (ActorStateModel {
                lifecycle: old(self)@.lifecycle.after_running(),
                waiters: Seq::empty(),
                ..old(self)@
            }),
            all_woken(old(self)@.waiters),
            final(self).same_data(*old(self)),
    {
        self.lifecycle.transition_running();
    }

    /// Transition from `Running` to `Stopping`. No-op outside `Running`.
    pub fn transition_stopping(&mut self)
        ensures
            final(self)@ == (ActorStateModel {
                lifecycle: old(self)@.lifecycle.after_stopping(),
                ..old(self)@
            }),
            final(self).same_data(*old(self)),
    {
        self.lifecycle.transition_stopping();
    }

    /// Transition to `Dead` and wake everyone who waits. Terminal and
    /// idempotent.
    pub fn transition_dead(&mut self)
        ensures
            final(self)@ == old(self)@.after_dying(),
            all_woken(old(self)@.waiters),
            final(self).same_data(*old(self)),
    {
        self.lifecycle.transition_dead();
    }

    /// One poll of a wait for the lifecycle to leave `Starting`.
    pub fn wait_leave_starting(&mut self, waker: &Waker) -> (left_for: Option<LifecycleState>)
        ensures
            left_for == if old(self)@.lifecycle == LifecycleState::Starting {
                None
            } else {
                Some(old(self)@.lifecycle)
            },
            final(self)@ == (ActorStateModel { waiters: final(self)@.waiters, ..old(self)@ }),
            left_for is Some ==> final(self)@.waiters == old(self)@.waiters,
            left_for is None ==> registers(old(self)@.waiters, *waker, final(self)@.waiters),
            final(self).same_data(*old(self)),
    {
        self.lifecycle.wait_leave_starting(waker)
    }

    /// One poll of a wait for the lifecycle to reach the terminal `Dead`.
    pub fn wait_for_terminal(&mut self, waker: &Waker) -> (ready: bool)
        ensures
            ready == (old(self)@.lifecycle == LifecycleState::Dead),
            final(self)@ == (ActorStateModel { waiters: final(self)@.waiters, ..old(self)@ }),
            ready ==> final(self)@.waiters == old(self)@.waiters,
            !ready ==> registers(old(self)@.waiters, *waker, final(self)@.waiters),
            final(self).same_data(*old(self)),
    {
        self.lifecycle.wait_for_terminal(waker)
    }
}

/// Turn subscriptions into the signals for their watchers.
fn deliver_all<W, D>(
    subscriptions: Vec<Subscription<W, D>>,
    watched: ActorId,
    rtti: ActorRtti,
    kind: TerminationKind,
    path: TerminalPath,
) -> (deliveries: Vec<Delivery<W, D>>)
    ensures
        signals(subscriptions@, watched, rtti, kind, path, deliveries@),
{
    let ghost all = subscriptions@;
    let mut rest = subscriptions;
    let mut deliveries: Vec<Delivery<W, D>> = Vec::new();
    while rest.len() > 0
        invariant
            deliveries.len() + rest.len() == all.len(),
            rest@ == all.skip(deliveries.len() as int),
            forall|i: int|
                0 <= i < deliveries.len() ==> (#[trigger] all[i]).delivers(
                    watched,
                    rtti,
                    kind,
                    path,
                    deliveries@[i],
                ),
        decreases rest.len(),
    {
        let subscription = rest.remove(0);
        assert(subscription == all[deliveries.len() as int]);
        let delivery = match path {
            TerminalPath::Async => subscription.deliver(watched, rtti, kind),
            TerminalPath::Drop => subscription.deliver_now(watched, rtti, kind),
        };
        deliveries.push(delivery);
        assert(rest@ =~= all.skip(deliveries.len() as int));
    }
    deliveries
}

/// What the end of an actor's run loop, however it came about, leaves to do
/// before the actor is announced dead.
#[derive(Debug)]
pub struct DropActions<W, D> {
    /// Whether the actor was aborted (panic or task abort).
    pub aborted: bool,
    /// The death event that was emitted, on an abort.
    pub died: Option<CaptureEvent>,
    /// The signals for the watchers that were not notified yet.
    pub deliveries: Vec<Delivery<W, D>>,
}

/// Guard that makes an actor's end observable, whatever ends its run loop: loop
/// exit, handler panic or task abort.
///
/// Its drop is done in two steps, with the watchers notified in between:
/// [`DeadOnDropGuard::begin`] and [`DeadOnDropGuard::finish`].
#[derive(Clone, Copy, Debug)]
pub struct DeadOnDropGuard {
    rtti: ActorRtti,
}

impl DeadOnDropGuard {
    /// The RTTI of the guarded actor's type.
    pub closed spec fn spec_rtti(self) -> ActorRtti {
        self.rtti
    }

    /// The guard of an actor of the given type.
    pub fn new(rtti: ActorRtti) -> (guard: Self)
        ensures
            guard.spec_rtti() == rtti,
    {
        DeadOnDropGuard { rtti }
    }

    /// The RTTI of the guarded actor's type.
    pub fn rtti(&self) -> (rtti: ActorRtti)
        ensures
            rtti == self.spec_rtti(),
    {
        self.rtti
    }

    /// Record the fallback outcome, so that observers of `Dead` always see some
    /// reason, and collect what is left to do.
    ///
    /// A clean drain or a failure has already recorded an outcome, emitted the
    /// death event and notified the watchers; only an abort arrives here with
    /// nothing recorded.
    pub fn begin<E, W, D, T, X, Y, K: CaptureTarget<CaptureEvent>>(
        &self,
        shared: &mut SharedActorState<E, W, D, T, X, Y>,
        sink: Option<K>,
    ) -> (actions: DropActions<W, D>)
        ensures
            ({
                let recorded = old(shared)@.after_recording(TerminationReason::Aborted);
                let emits = sink is Some && recorded.reason->0 is Aborted;
                &&& actions.aborted == (recorded.reason->0 is Aborted)
                &&& actions.died is Some <==> emits
                &&& actions.died matches Some(event) ==> {
                    &&& event matches CaptureEvent::Died { id, actor_type, reason, caused_by }
                    &&& caused_by is None
                    &&& actor_type@ == self.spec_rtti().spec_name()
                    &&& id.actor == old(shared)@.id && id.seq == old(shared)@.capture_seq
                    &&& reason == TerminationKind::Aborted
                    &&& is_recorded(sink, event)
                }
                &&& signals(
                    old(shared)@.subscriptions,
                    old(shared)@.id,
                    self.spec_rtti(),
                    recorded.reason->0.spec_kind(),
                    TerminalPath::Drop,
                    actions.deliveries@,
                )
                &&& final(shared)@ == if emits {
                    recorded.after_minting().after_taking()
                } else {
                    recorded.after_taking()
                }
            }),
            final(shared).same_data(*old(shared)),
    {
        shared.mark_aborted();
        let aborted = match shared.termination_reason() {
            Some(TerminationReason::Aborted) => true,
            _ => false,
        };
        let died = if aborted {
            record_died(shared, sink, self.rtti.name())
        } else {
            None
        };
        let deliveries = shared.notify_subscribers_now(self.rtti);
        DropActions { aborted, died, deliveries }
    }

    /// Announce that the actor is dead.
    pub fn finish<E, W, D, T, X, Y>(self, shared: &mut SharedActorState<E, W, D, T, X, Y>)
        ensures
            final(shared)@ == old(shared)@.after_dying(),
            all_woken(old(shared)@.waiters),
            final(shared).same_data(*old(shared)),
    {
        shared.transition_dead();
    }
}

/// Announcing an actor dead a second time changes nothing and wakes nobody: a
/// transition wakes those who wait, and no one is left who does.
pub proof fn a_second_death_wakes_nobody<E, W, D, T>(state: ActorStateModel<E, W, D, T>)
    ensures
        state.after_dying().lifecycle == LifecycleState::Dead,
        state.after_dying().waiters.len() == 0,
        state.after_dying().after_dying() == state.after_dying(),
{
}

/// The first recorded outcome wins: once an outcome is recorded, nothing an
/// actor or its handles do to the state changes it.
pub proof fn first_outcome_wins<E, W, D, T>(
    state: ActorStateModel<E, W, D, T>,
    reason: TerminationReason<E>,
)
    requires
        state.reason is Some,
    ensures
        state.after_recording(reason) == state,
        state.after_taking().reason == state.reason,
        state.after_minting().reason == state.reason,
{
}

/// An actor that was ever recorded to have failed keeps its error; one that
/// finished or was aborted never gets one.
pub proof fn recorded_error_stays<E, W, D, T>(
    state: ActorStateModel<E, W, D, T>,
    first: TerminationReason<E>,
    second: TerminationReason<E>,
)
    requires
        state.reason is None,
    ensures
        state.after_recording(first).reason == Some(first),
        state.after_recording(first).after_recording(second) == state.after_recording(first),
        state.after_recording(first).failed_error() == match first {
            TerminationReason::Failed(error) => Some(error),
            _ => None,
        },
{
}

/// A watch is notified once: nothing is before an outcome is recorded, then every
/// subscription is, and none of them again.
pub proof fn a_watch_is_notified_once<E, W, D, T>(state: ActorStateModel<E, W, D, T>)
    ensures
        state.reason is None ==> state.notified().len() == 0 && state.after_taking() == state,
        state.reason is Some ==> state.notified() == state.subscriptions
            && state.after_taking().notified().len() == 0,
{
}

/// The capture event ids an actor mints increase, as long as its numbers last; so
/// none of them is minted twice.
pub proof fn event_numbers_increase<E, W, D, T>(
    states: Seq<ActorStateModel<E, W, D, T>>,
    i: int,
    j: int,
)
    requires
        forall|k: int, next: int|
            0 <= k && next == k + 1 && next < states.len() ==> (#[trigger] states[k]).capture_seq
                < usize::MAX && (#[trigger] states[next]).capture_seq
                == states[k].after_minting().capture_seq,
        0 <= i < j < states.len(),
    ensures
        states[i].capture_seq < states[j].capture_seq,
    decreases j,
{
    assert(states[j - 1].capture_seq < usize::MAX && states[j].capture_seq
        == states[j - 1].after_minting().capture_seq);
    if i < j - 1 {
        event_numbers_increase(states, i, j - 1);
    }
}

/// Ending a watch removes exactly the watcher's subscriptions: none of them is
/// left, and every other one stays.
pub proof fn unwatch_is_exact<W, D>(
    subscriptions: Seq<Subscription<W, D>>,
    watcher: ActorId,
)
    ensures
        forall|i: int|
            0 <= i < without_watcher(subscriptions, watcher).len() ==> (
            #[trigger] without_watcher(subscriptions, watcher)[i]).spec_watcher_id().number()
                != watcher.number(),
        forall|i: int|
            0 <= i < subscriptions.len() && (
            #[trigger] subscriptions[i]).spec_watcher_id().number() != watcher.number()
                ==> without_watcher(subscriptions, watcher).contains(subscriptions[i]),
        without_watcher(without_watcher(subscriptions, watcher), watcher) == without_watcher(
            subscriptions,
            watcher,
        ),
    decreases subscriptions.len(),
{
    reveal(Seq::filter);
    let rest = without_watcher(subscriptions, watcher);
    if subscriptions.len() > 0 {
        let before = subscriptions.drop_last();
        let kept = without_watcher(before, watcher);
        unwatch_is_exact(before, watcher);
        if subscriptions.last().spec_watcher_id().number() != watcher.number() {
            assert(rest == kept.push(subscriptions.last()));
            assert(rest.drop_last() =~= kept);
            assert forall|i: int|
                0 <= i < subscriptions.len() && (
                #[trigger] subscriptions[i]).spec_watcher_id().number()
                    != watcher.number() implies rest.contains(subscriptions[i]) by {
                if i < before.len() {
                    assert(before[i] == subscriptions[i]);
                    let k = choose|k: int| 0 <= k < kept.len() && kept[k] == subscriptions[i];
                    assert(rest[k] == subscriptions[i]);
                } else {
                    assert(rest[kept.len() as int] == subscriptions[i]);
                }
            }
        } else {
            assert forall|i: int|
                0 <= i < subscriptions.len() && (
                #[trigger] subscriptions[i]).spec_watcher_id().number()
                    != watcher.number() implies rest.contains(subscriptions[i]) by {
                assert(before[i] == subscriptions[i]);
            }
        }
    }
}

/// Watching and then ending the watch leaves everyone else's subscriptions as
/// they were.
pub proof fn unwatch_undoes_watch<W, D>(
    subscriptions: Seq<Subscription<W, D>>,
    subscription: Subscription<W, D>,
)
    ensures
        without_watcher(subscriptions.push(subscription), subscription.spec_watcher_id())
            == without_watcher(subscriptions, subscription.spec_watcher_id()),
{
    reveal(Seq::filter);
    assert(subscriptions.push(subscription).drop_last() =~= subscriptions);
}

/// Everyone who watches an actor hears of its end, and what they asked to hear:
/// however many watches were registered, whatever outcome was recorded, and on
/// either path, there is one signal for each watch, in the order of the watches. It
/// goes to the watch's watcher and dispatcher and tells the watch's tag, the actor
/// that terminated and its type, and how it ended.
pub proof fn every_watch_is_told_its_tag<E, W, D, T, X, Y>(
    unwatched: SharedActorState<E, W, D, T, X, Y>,
    states: Seq<SharedActorState<E, W, D, T, X, Y>>,
    watchers: Seq<W>,
    watcher_ids: Seq<ActorId>,
    dispatchers: Seq<D>,
    tags: Seq<u64>,
    policies: Seq<WatchDeliveryPolicy>,
    subscriptions: Seq<Subscription<W, D>>,
    outcome: TerminationReason<E>,
    ended: SharedActorState<E, W, D, T, X, Y>,
    rtti: ActorRtti,
    path: TerminalPath,
    notified: SharedActorState<E, W, D, T, X, Y>,
    deliveries: Vec<Delivery<W, D>>,
    i: int,
)
    requires
        exists|source: &mut ActorIdSource, data: X, extensions: Y| #[trigger]
            call_ensures(
                SharedActorState::<E, W, D, T, X, Y>::new,
                (source, data, extensions),
                unwatched,
            ),
        states.len() == tags.len() + 1,
        states[0] == unwatched,
        forall|k: int, next: int| #[trigger]
            is_turn(tags.len(), k) && next == k + 1 && #[trigger] is_turn(states.len(), next) ==> {
                &&& call_ensures(
                    Subscription::<W, D>::new,
                    (watchers[k], watcher_ids[k], dispatchers[k], tags[k], policies[k]),
                    subscriptions[k],
                )
                &&& exists|shared: &mut SharedActorState<E, W, D, T, X, Y>|
                    #[trigger] call_ensures(
                        SharedActorState::<E, W, D, T, X, Y>::add_subscription,
                        (shared, subscriptions[k]),
                        (),
                    ) && *shared == states[k] && *final(shared) == states[next]
            },
        match outcome {
            TerminationReason::Finished => exists|
                shared: &mut SharedActorState<E, W, D, T, X, Y>,
            |
                #[trigger] call_ensures(
                    SharedActorState::<E, W, D, T, X, Y>::mark_finished,
                    (shared,),
                    (),
                ) && *shared == states.last() && *final(shared) == ended,
            TerminationReason::Failed(error) => exists|
                shared: &mut SharedActorState<E, W, D, T, X, Y>,
            |
                #[trigger] call_ensures(
                    SharedActorState::<E, W, D, T, X, Y>::record_failure,
                    (shared, error),
                    (),
                ) && *shared == states.last() && *final(shared) == ended,
            TerminationReason::Aborted => exists|
                shared: &mut SharedActorState<E, W, D, T, X, Y>,
            |
                #[trigger] call_ensures(
                    SharedActorState::<E, W, D, T, X, Y>::mark_aborted,
                    (shared,),
                    (),
                ) && *shared == states.last() && *final(shared) == ended,
        },
        match path {
            TerminalPath::Async => exists|shared: &mut SharedActorState<E, W, D, T, X, Y>|
                #[trigger] call_ensures(
                    SharedActorState::<E, W, D, T, X, Y>::notify_subscribers,
                    (shared, rtti),
                    deliveries,
                ) && *shared == ended && *final(shared) == notified,
            TerminalPath::Drop => exists|shared: &mut SharedActorState<E, W, D, T, X, Y>|
                #[trigger] call_ensures(
                    SharedActorState::<E, W, D, T, X, Y>::notify_subscribers_now,
                    (shared, rtti),
                    deliveries,
                ) && *shared == ended && *final(shared) == notified,
        },
        0 <= i < tags.len(),
    ensures
        deliveries.len() == tags.len(),
        deliveries@[i].watcher == watchers[i],
        deliveries@[i].dispatcher == dispatchers[i],
        forall|told: u64| #[trigger]
            call_ensures(Terminated::tag, (&deliveries@[i].signal,), told) ==> told == tags[i],
        forall|told: ActorId| #[trigger]
            call_ensures(Terminated::watched, (&deliveries@[i].signal,), told) ==> told
                == unwatched@.id,
        forall|told: ActorRtti| #[trigger]
            call_ensures(Terminated::rtti, (&deliveries@[i].signal,), told) ==> told == rtti,
        forall|told: TerminationKind| #[trigger]
            call_ensures(Terminated::kind, (&deliveries@[i].signal,), told) ==> {
                &&& told is Finished <==> outcome is Finished
                &&& told is Failed <==> outcome is Failed
                &&& told is Aborted <==> outcome is Aborted
            },
        deliveries@[i].mode == DeliveryMode::WaitAsync <==> path == TerminalPath::Async
            && policies[i] != WatchDeliveryPolicy::NoWait,
        deliveries@[i].mode == DeliveryMode::WaitBlocking <==> path == TerminalPath::Drop
            && policies[i] == WatchDeliveryPolicy::Always,
        notified@.subscriptions.len() == 0,
{
    watches_add_up(states, watchers, watcher_ids, dispatchers, tags, policies, subscriptions);
    assert(is_turn(tags.len(), i));
    assert(is_turn(states.len(), i + 1));
    assert(ended@.subscriptions[i] == subscriptions[i]);
    assert(ended@.subscriptions[i].delivers(
        unwatched@.id,
        rtti,
        outcome.spec_kind(),
        path,
        deliveries@[i],
    ));
}

/// The watches of an actor that was not watched before are its subscriptions.
proof fn watches_add_up<E, W, D, T, X, Y>(
    states: Seq<SharedActorState<E, W, D, T, X, Y>>,
    watchers: Seq<W>,
    watcher_ids: Seq<ActorId>,
    dispatchers: Seq<D>,
    tags: Seq<u64>,
    policies: Seq<WatchDeliveryPolicy>,
    subscriptions: Seq<Subscription<W, D>>,
)
    requires
        states.len() == tags.len() + 1,
        states[0]@.subscriptions.len() == 0,
        states[0]@.reason is None,
        forall|k: int, next: int| #[trigger]
            is_turn(tags.len(), k) && next == k + 1 && #[trigger] is_turn(states.len(), next) ==> {
                &&& call_ensures(
                    Subscription::<W, D>::new,
                    (watchers[k], watcher_ids[k], dispatchers[k], tags[k], policies[k]),
                    subscriptions[k],
                )
                &&& exists|shared: &mut SharedActorState<E, W, D, T, X, Y>|
                    #[trigger] call_ensures(
                        SharedActorState::<E, W, D, T, X, Y>::add_subscription,
                        (shared, subscriptions[k]),
                        (),
                    ) && *shared == states[k] && *final(shared) == states[next]
            },
    ensures
        states.last()@.subscriptions.len() == tags.len(),
        forall|k: int|
            0 <= k < tags.len() ==> #[trigger] states.last()@.subscriptions[k] == subscriptions[k],
        states.last()@.reason is None,
        states.last()@.id == states[0]@.id,
    decreases tags.len(),
{
    if tags.len() > 0 {
        let last = tags.len() - 1;
        let fewer = states.drop_last();
        let before = tags.drop_last();
        assert forall|k: int, next: int| #[trigger]
            is_turn(before.len(), k) && next == k + 1 && #[trigger] is_turn(
                fewer.len(),
                next,
            ) implies {
            &&& call_ensures(
                Subscription::<W, D>::new,
                (watchers[k], watcher_ids[k], dispatchers[k], before[k], policies[k]),
                subscriptions[k],
            )
            &&& exists|shared: &mut SharedActorState<E, W, D, T, X, Y>|
                #[trigger] call_ensures(
                    SharedActorState::<E, W, D, T, X, Y>::add_subscription,
                    (shared, subscriptions[k]),
                    (),
                ) && *shared == fewer[k] && *final(shared) == fewer[next]
        } by {
            assert(is_turn(tags.len(), k));
            assert(is_turn(states.len(), next));
        }
        watches_add_up(
            fewer,
            watchers,
            watcher_ids,
            dispatchers,
            before,
            policies,
            subscriptions,
        );
        assert(is_turn(tags.len(), last));
        assert(is_turn(states.len(), last + 1));
        assert(fewer.last() == states[last]);
    }
}

/// Ending a watch goes through the subscriptions one by one: with none there is
/// nothing to end, and one more subscription is one that stays at the end, unless it
/// is the watcher's. Nothing else of the state changes.
pub proof fn ending_a_watch_keeps_the_others_in_order<E, W, D, T, X, Y>(
    state: SharedActorState<E, W, D, T, X, Y>,
    left: SharedActorState<E, W, D, T, X, Y>,
    subscription: Subscription<W, D>,
    longer: SharedActorState<E, W, D, T, X, Y>,
    longer_left: SharedActorState<E, W, D, T, X, Y>,
    watcher: ActorId,
    watcher_number: usize,
    subscriber: ActorId,
    subscriber_number: usize,
)
    requires
        exists|shared: &mut SharedActorState<E, W, D, T, X, Y>|
            #[trigger] call_ensures(
                SharedActorState::<E, W, D, T, X, Y>::remove_subscriptions,
                (shared, watcher),
                (),
            ) && *shared == state && *final(shared) == left,
        exists|shared: &mut SharedActorState<E, W, D, T, X, Y>|
            #[trigger] call_ensures(
                SharedActorState::<E, W, D, T, X, Y>::add_subscription,
                (shared, subscription),
                (),
            ) && *shared == state && *final(shared) == longer,
        exists|shared: &mut SharedActorState<E, W, D, T, X, Y>|
            #[trigger] call_ensures(
                SharedActorState::<E, W, D, T, X, Y>::remove_subscriptions,
                (shared, watcher),
                (),
            ) && *shared == longer && *final(shared) == longer_left,
        call_ensures(ActorId::as_usize, (watcher,), watcher_number),
        call_ensures(Subscription::<W, D>::watcher_id, (&subscription,), subscriber),
        call_ensures(ActorId::as_usize, (subscriber,), subscriber_number),
    ensures
        state@.subscriptions.len() == 0 ==> left@.subscriptions.len() == 0,
        longer@.subscriptions == state@.subscriptions.push(subscription),
        longer_left@.subscriptions == if subscriber_number == watcher_number {
            left@.subscriptions
        } else {
            left@.subscriptions.push(subscription)
        },
        left@ == (ActorStateModel { subscriptions: left@.subscriptions, ..state@ }),
{
    reveal(Seq::filter);
    assert(longer@.subscriptions.drop_last() =~= state@.subscriptions);
}

/// The first outcome that is recorded stays, with its error: recording into a state
/// without one makes the outcome observable, each way of recording its own; into a
/// state with one, it does nothing at all.
pub proof fn the_recorded_outcome_is_the_first<E, W, D, T, X, Y>(
    state: SharedActorState<E, W, D, T, X, Y>,
    outcome: TerminationReason<E>,
    recorded: SharedActorState<E, W, D, T, X, Y>,
    before: Option<&TerminationReason<E>>,
    after: Option<&TerminationReason<E>>,
    error: Option<&E>,
)
    requires
        match outcome {
            TerminationReason::Finished => exists|
                shared: &mut SharedActorState<E, W, D, T, X, Y>,
            |
                #[trigger] call_ensures(
                    SharedActorState::<E, W, D, T, X, Y>::mark_finished,
                    (shared,),
                    (),
                ) && *shared == state && *final(shared) == recorded,
            TerminationReason::Failed(error) => exists|
                shared: &mut SharedActorState<E, W, D, T, X, Y>,
            |
                #[trigger] call_ensures(
                    SharedActorState::<E, W, D, T, X, Y>::record_failure,
                    (shared, error),
                    (),
                ) && *shared == state && *final(shared) == recorded,
            TerminationReason::Aborted => exists|
                shared: &mut SharedActorState<E, W, D, T, X, Y>,
            |
                #[trigger] call_ensures(
                    SharedActorState::<E, W, D, T, X, Y>::mark_aborted,
                    (shared,),
                    (),
                ) && *shared == state && *final(shared) == recorded,
        },
        call_ensures(
            SharedActorState::<E, W, D, T, X, Y>::termination_reason,
            (&state,),
            before,
        ),
        call_ensures(
            SharedActorState::<E, W, D, T, X, Y>::termination_reason,
            (&recorded,),
            after,
        ),
        call_ensures(SharedActorState::<E, W, D, T, X, Y>::failed_error, (&recorded,), error),
    ensures
        before is None ==> (after matches Some(reason) && *reason == outcome),
        before is Some ==> after == before && recorded@ == state@,
        recorded@ == (ActorStateModel { reason: recorded@.reason, ..state@ }),
        error is Some <==> (after matches Some(TerminationReason::Failed(_))),
        error matches Some(error) ==> *(after->0) == TerminationReason::Failed(*error),
        recorded.spec_shared_data() == state.spec_shared_data(),
        recorded.spec_extensions() == state.spec_extensions(),
{
}

/// What an announcement does to the state that observers see: it is `Running` after
/// the one that startup has completed, if it was `Starting`; `Stopping` after the one
/// that the loop stops, if it was `Running`; and `Dead` after the one that the actor
/// is. Nothing else that observers see changes.
pub proof fn announcements_move_forward_only<E, W, D, T, X, Y>(
    state: SharedActorState<E, W, D, T, X, Y>,
    seen: LifecycleState,
)
    requires
        call_ensures(SharedActorState::<E, W, D, T, X, Y>::lifecycle, (&state,), seen),
    ensures
        forall|shared: &mut SharedActorState<E, W, D, T, X, Y>|
            *shared == state && #[trigger] call_ensures(
                SharedActorState::<E, W, D, T, X, Y>::transition_running,
                (shared,),
                (),
            ) ==> {
                &&& final(shared)@ == (ActorStateModel {
                    lifecycle: final(shared)@.lifecycle,
                    waiters: Seq::empty(),
                    ..state@
                })
                &&& final(shared)@.lifecycle is Running <==> seen is Starting || seen is Running
                &&& final(shared)@.lifecycle is Stopping <==> seen is Stopping
                &&& final(shared)@.lifecycle is Dead <==> seen is Dead
            },
        forall|shared: &mut SharedActorState<E, W, D, T, X, Y>|
            *shared == state && #[trigger] call_ensures(
                SharedActorState::<E, W, D, T, X, Y>::transition_stopping,
                (shared,),
                (),
            ) ==> {
                &&& final(shared)@ == (ActorStateModel {
                    lifecycle: final(shared)@.lifecycle,
                    ..state@
                })
                &&& final(shared)@.lifecycle is Starting <==> seen is Starting
                &&& final(shared)@.lifecycle is Stopping <==> seen is Running || seen is Stopping
                &&& final(shared)@.lifecycle is Dead <==> seen is Dead
            },
        forall|shared: &mut SharedActorState<E, W, D, T, X, Y>|
            *shared == state && #[trigger] call_ensures(
                SharedActorState::<E, W, D, T, X, Y>::transition_dead,
                (shared,),
                (),
            ) ==> {
                &&& final(shared)@ == (ActorStateModel {
                    lifecycle: final(shared)@.lifecycle,
                    waiters: Seq::empty(),
                    ..state@
                })
                &&& final(shared)@.lifecycle is Dead
            },
        forall|shared: SharedActorState<E, W, D, T, X, Y>, other: LifecycleState| #[trigger]
            call_ensures(SharedActorState::<E, W, D, T, X, Y>::lifecycle, (&shared,), other)
                && shared@.lifecycle == state@.lifecycle ==> other == seen,
{
}

/// The number of a state stands for it: it reads back as the state, and the states
/// are numbered in the order in which an actor goes through them.
pub proof fn states_are_numbered_in_order(
    state: LifecycleState,
    raw: u8,
    other: LifecycleState,
    other_raw: u8,
    read: LifecycleState,
)
    requires
        call_ensures(LifecycleState::as_raw, (state,), raw),
        call_ensures(LifecycleState::as_raw, (other,), other_raw),
        call_ensures(LifecycleState::from_raw, (raw,), read),
    ensures
        read == state,
        raw <= 3,
        state is Starting && other !is Starting ==> raw < other_raw,
        state is Running && (other is Stopping || other is Dead) ==> raw < other_raw,
        state is Stopping && other is Dead ==> raw < other_raw,
{
}

/// Whoever waited is woken: a task whose wait for the end, or for the start, found
/// that it has to wait, is woken by the announcement that it waits for; and so is
/// every task that had to wait before it and was not woken since.
pub proof fn whoever_has_to_wait_is_woken<E, W, D, T, X, Y>(
    state: SharedActorState<E, W, D, T, X, Y>,
    waker: Waker,
    waiting: SharedActorState<E, W, D, T, X, Y>,
    announced: SharedActorState<E, W, D, T, X, Y>,
    earlier: int,
)
    requires
        ({
            ||| exists|shared: &mut SharedActorState<E, W, D, T, X, Y>|
                #[trigger] call_ensures(
                    SharedActorState::<E, W, D, T, X, Y>::wait_for_terminal,
                    (shared, &waker),
                    false,
                ) && *shared == state && *final(shared) == waiting
            ||| exists|shared: &mut SharedActorState<E, W, D, T, X, Y>|
                #[trigger] call_ensures(
                    SharedActorState::<E, W, D, T, X, Y>::wait_leave_starting,
                    (shared, &waker),
                    None,
                ) && *shared == state && *final(shared) == waiting
        }),
        ({
            ||| exists|shared: &mut SharedActorState<E, W, D, T, X, Y>|
                #[trigger] call_ensures(
                    SharedActorState::<E, W, D, T, X, Y>::transition_dead,
                    (shared,),
                    (),
                ) && *shared == waiting && *final(shared) == announced
            ||| exists|shared: &mut SharedActorState<E, W, D, T, X, Y>|
                #[trigger] call_ensures(
                    SharedActorState::<E, W, D, T, X, Y>::transition_running,
                    (shared,),
                    (),
                ) && *shared == waiting && *final(shared) == announced
        }),
    ensures
        exists|other: Waker| #[trigger] woken(other) && waker_task(other) == waker_task(waker),
        0 <= earlier < state@.waiters.len() ==> woken(state@.waiters[earlier]),
        announced@.waiters.len() == 0,
{
    assert(registers(state@.waiters, waker, waiting@.waiters));
    registered_tasks_are_awaited(state@.waiters, waker, waiting@.waiters);
    registered_tasks_are_woken(waiting@.waiters, waker);
    if 0 <= earlier < state@.waiters.len() {
        if waiting@.waiters != state@.waiters {
            assert(waiting@.waiters.drop_last()[earlier] == waiting@.waiters[earlier]);
        }
        assert(waiting@.waiters[earlier] == state@.waiters[earlier]);
        assert(woken(waiting@.waiters[earlier]));
    }
}

/// A wait is over exactly when what it waits for has come: the wait for the end once
/// the actor is dead, the wait for the start once the actor is not starting any more,
/// and it tells which state that is. A wait that is over registers nobody.
pub proof fn a_wait_is_over_when_its_state_is_reached<E, W, D, T, X, Y>(
    state: SharedActorState<E, W, D, T, X, Y>,
    seen: LifecycleState,
    waker: Waker,
)
    requires
        call_ensures(SharedActorState::<E, W, D, T, X, Y>::lifecycle, (&state,), seen),
    ensures
        forall|shared: &mut SharedActorState<E, W, D, T, X, Y>, ready: bool|
            *shared == state && #[trigger] call_ensures(
                SharedActorState::<E, W, D, T, X, Y>::wait_for_terminal,
                (shared, &waker),
                ready,
            ) ==> {
                &&& ready <==> seen is Dead
                &&& ready ==> final(shared)@ == state@
                &&& final(shared)@ == (ActorStateModel {
                    waiters: final(shared)@.waiters,
                    ..state@
                })
            },
        forall|shared: &mut SharedActorState<E, W, D, T, X, Y>, left_for: Option<LifecycleState>|
            *shared == state && #[trigger] call_ensures(
                SharedActorState::<E, W, D, T, X, Y>::wait_leave_starting,
                (shared, &waker),
                left_for,
            ) ==> {
                &&& left_for is None <==> seen is Starting
                &&& left_for matches Some(left_for) ==> left_for == seen && final(shared)@
                    == state@
                &&& final(shared)@ == (ActorStateModel {
                    waiters: final(shared)@.waiters,
                    ..state@
                })
            },
{
}

/// The event ids that an actor mints are its own and count up from one.
pub proof fn minted_ids_count_up<E, W, D, T, X, Y>(
    fresh: SharedActorState<E, W, D, T, X, Y>,
    states: Seq<SharedActorState<E, W, D, T, X, Y>>,
    ids: Seq<EventId>,
    i: int,
)
    requires
        exists|source: &mut ActorIdSource, data: X, extensions: Y| #[trigger]
            call_ensures(
                SharedActorState::<E, W, D, T, X, Y>::new,
                (source, data, extensions),
                fresh,
            ),
        states.len() == ids.len() + 1,
        states[0] == fresh,
        forall|k: int, next: int| #[trigger]
            is_turn(ids.len(), k) && next == k + 1 && #[trigger] is_turn(states.len(), next)
                ==> exists|shared: &mut SharedActorState<E, W, D, T, X, Y>|
                #[trigger] call_ensures(
                    SharedActorState::<E, W, D, T, X, Y>::next_capture_event_id,
                    (shared,),
                    ids[k],
                ) && *shared == states[k] && *final(shared) == states[next],
        0 <= i < ids.len() < usize::MAX,
    ensures
        ids[i].seq == i + 1,
        forall|id: ActorId| #[trigger]
            call_ensures(SharedActorState::<E, W, D, T, X, Y>::id, (&fresh,), id) ==> ids[i].actor
                == id,
        states[i + 1]@ == (ActorStateModel { capture_seq: (i + 2) as usize, ..fresh@ }),
    decreases i,
{
    assert(is_turn(ids.len(), i));
    assert(is_turn(states.len(), i + 1));
    if i > 0 {
        minted_ids_count_up(fresh, states, ids, i - 1);
    }
}

/// Where an actor comes from is recorded once: the first frame stays, and a root
/// spawn, which has none, is as final as any other.
pub proof fn the_recorded_birth_is_the_first<E, W, D, T, X, Y>(
    fresh: SharedActorState<E, W, D, T, X, Y>,
    first: Option<CaptureFrame>,
    born: SharedActorState<E, W, D, T, X, Y>,
    second: Option<CaptureFrame>,
    again: SharedActorState<E, W, D, T, X, Y>,
)
    requires
        exists|source: &mut ActorIdSource, data: X, extensions: Y| #[trigger]
            call_ensures(
                SharedActorState::<E, W, D, T, X, Y>::new,
                (source, data, extensions),
                fresh,
            ),
        exists|shared: &mut SharedActorState<E, W, D, T, X, Y>|
            #[trigger] call_ensures(
                SharedActorState::<E, W, D, T, X, Y>::set_capture_birth,
                (shared, first),
                (),
            ) && *shared == fresh && *final(shared) == born,
        exists|shared: &mut SharedActorState<E, W, D, T, X, Y>|
            #[trigger] call_ensures(
                SharedActorState::<E, W, D, T, X, Y>::set_capture_birth,
                (shared, second),
                (),
            ) && *shared == born && *final(shared) == again,
    ensures
        forall|frame: Option<CaptureFrame>| #[trigger]
            call_ensures(SharedActorState::<E, W, D, T, X, Y>::capture_birth, (&fresh,), frame)
                ==> frame is None,
        forall|frame: Option<CaptureFrame>| #[trigger]
            call_ensures(SharedActorState::<E, W, D, T, X, Y>::capture_birth, (&born,), frame)
                ==> frame == first,
        forall|frame: Option<CaptureFrame>| #[trigger]
            call_ensures(SharedActorState::<E, W, D, T, X, Y>::capture_birth, (&again,), frame)
                ==> frame == first,
        again@ == born@,
        born@ == (ActorStateModel { capture_birth: born@.capture_birth, ..fresh@ }),
{
}

/// Whoever drains the subscriptions gets all of them, in their order, with how the actor
/// ended, and leaves none; before an outcome is recorded there is nothing to drain, and
/// nothing changes.
pub proof fn draining_takes_every_subscription<E, W, D, T, X, Y>(
    state: SharedActorState<E, W, D, T, X, Y>,
    reason: Option<&TerminationReason<E>>,
    drained: SharedActorState<E, W, D, T, X, Y>,
    taken: Option<(TerminationKind, Vec<Subscription<W, D>>)>,
)
    requires
        call_ensures(
            SharedActorState::<E, W, D, T, X, Y>::termination_reason,
            (&state,),
            reason,
        ),
        exists|shared: &mut SharedActorState<E, W, D, T, X, Y>|
            #[trigger] call_ensures(
                SharedActorState::<E, W, D, T, X, Y>::take_subscriptions,
                (shared,),
                taken,
            ) && *shared == state && *final(shared) == drained,
    ensures
        taken is Some <==> reason is Some,
        taken is None ==> drained@ == state@,
        taken matches Some(taken) ==> {
            &&& taken.1@ == state@.subscriptions
            &&& taken.0 is Finished <==> *(reason->0) is Finished
            &&& taken.0 is Failed <==> *(reason->0) is Failed
            &&& taken.0 is Aborted <==> *(reason->0) is Aborted
            &&& drained@.subscriptions.len() == 0
            &&& drained@ == (ActorStateModel { subscriptions: drained@.subscriptions, ..state@ })
        },
{
}

/// Waking a set calls [`Waker::wake`] on every waker in it, however many there are.
proof fn waking_reaches_every_waker(before: WakerSet, i: int)
    requires
        exists|set: &mut WakerSet| #[trigger]
            call_ensures(WakerSet::wake_all, (set,), ()) && *set == before,
        0 <= i < before@.len(),
    ensures
        call_ensures(wake, (before@[i],), ()),
{
    assert(woken(before@[i]));
}

/// Registering asks [`Waker::will_wake`] of the registered wakers: one that is said to
/// wake the same task makes the new one be left out, and where each is said not to, the
/// new one is added behind them.
proof fn registering_goes_by_what_the_wakers_say(
    before: WakerSet,
    waker: Waker,
    after: WakerSet,
    i: int,
)
    requires
        exists|set: &mut WakerSet|
            #[trigger] call_ensures(WakerSet::register, (set, &waker), ()) && *set == before
                && *final(set) == after,
        0 <= i < before@.len(),
    ensures
        after@.len() == before@.len() || after@.len() == before@.len() + 1,
        after@[i] == before@[i],
        after@.len() == before@.len() ==> exists|known: int|
            0 <= known < before@.len() && #[trigger] call_ensures(
                will_wake,
                (&before@[known], &waker),
                true,
            ),
        after@.len() != before@.len() ==> call_ensures(
            will_wake,
            (&before@[i], &waker),
            false,
        ) && waker_task(after@.last()) == waker_task(waker),
{
    if after@.len() == before@.len() {
        let known = choose|known: int|
            0 <= known < before@.len() && will_wake_said(#[trigger] before@[known], waker, true);
        assert(call_ensures(will_wake, (&before@[known], &waker), true));
    } else {
        assert(after@.drop_last()[i] == after@[i]);
        assert(will_wake_said(before@[i], waker, false));
    }
}

/// An actor has one task: the first handle that is attached is the one that is told, and
/// every later one comes back.
pub proof fn the_first_task_is_the_actors<E, W, D, T, X, Y>(
    state: SharedActorState<E, W, D, T, X, Y>,
    task: T,
    attached: SharedActorState<E, W, D, T, X, Y>,
    result: Result<(), T>,
    other: T,
    again: SharedActorState<E, W, D, T, X, Y>,
    second: Result<(), T>,
)
    requires
        call_ensures(SharedActorState::<E, W, D, T, X, Y>::task, (&state,), None),
        exists|shared: &mut SharedActorState<E, W, D, T, X, Y>|
            #[trigger] call_ensures(
                SharedActorState::<E, W, D, T, X, Y>::attach_task,
                (shared, task),
                result,
            ) && *shared == state && *final(shared) == attached,
        exists|shared: &mut SharedActorState<E, W, D, T, X, Y>|
            #[trigger] call_ensures(
                SharedActorState::<E, W, D, T, X, Y>::attach_task,
                (shared, other),
                second,
            ) && *shared == attached && *final(shared) == again,
    ensures
        result is Ok,
        second == Err::<(), T>(other),
        forall|told: Option<&T>| #[trigger]
            call_ensures(SharedActorState::<E, W, D, T, X, Y>::task, (&attached,), told) ==> (
            told matches Some(told) && *told == task),
        again@ == attached@,
        attached@ == (ActorStateModel { task: attached@.task, ..state@ }),
{
}

} // verus!
