//! The default access-mode vocabulary: [`Exclusive`] and [`Shared`], and the lock
//! that relies on serialized dispatch.
use vstd::prelude::*;
use vstd::std_specs::convert::FromSpecImpl;

verus! {

/// Lock strategy that encapsulates the locking of the actor state.
pub trait LockStrategy<A>: Sized {
    /// Reclaim the actor state by value, once the lock is its sole owner.
    fn into_inner(self) -> A;
}

/// Lock strategy capability: exclusive (mutable) access to the actor state.
///
/// Implementing this plugs the strategy into the [`Exclusive`] access mode. It is
/// implemented for the reference that an acquisition takes of the strategy: a
/// mutable one where only the borrow keeps others out, a shared one where the
/// strategy does that itself.
pub trait ExclusiveLockStrategy<A>: Sized {
    /// What grants mutable access to the actor state: a guard, or what is awaited
    /// to get one.
    type ExclusiveGuard;

    /// Acquire exclusive access to the actor state.
    fn acquire_exclusive(self) -> Self::ExclusiveGuard;
}

/// Lock strategy capability: shared (read-only) access to the actor state.
///
/// Implementing this plugs the strategy into the [`Shared`] access mode. It is
/// implemented for the reference that an acquisition takes of the strategy, as
/// [`ExclusiveLockStrategy`] is.
pub trait SharedLockStrategy<A>: Sized {
    /// What grants shared access to the actor state: a guard, or what is awaited to
    /// get one.
    type SharedGuard;

    /// Acquire shared access to the actor state.
    fn acquire_shared(self) -> Self::SharedGuard;
}

/// Access mode that defines how a lock strategy, through a reference `L` of it, is
/// used to obtain an actor lock.
pub trait AccessMode<A, L> {
    /// The resulting lock type.
    type Guard;

    /// Acquire the actor state.
    fn acquire(lock_strategy: L) -> Self::Guard;
}

/// Access mode for handlers that mutate the actor state.
///
/// Available for every actor whose lock strategy implements
/// [`ExclusiveLockStrategy`].
#[derive(Clone, Copy, Debug)]
pub struct Exclusive;

impl<A, L: ExclusiveLockStrategy<A>> AccessMode<A, L> for Exclusive {
    type Guard = L::ExclusiveGuard;

    fn acquire(lock_strategy: L) -> (guard: L::ExclusiveGuard)
        ensures
            call_ensures(L::acquire_exclusive, (lock_strategy,), guard),
    {
        lock_strategy.acquire_exclusive()
    }
}

/// Access mode for handlers that only read the actor state.
///
/// Available for every actor whose lock strategy implements
/// [`SharedLockStrategy`].
#[derive(Clone, Copy, Debug)]
pub struct Shared;

impl<A, L: SharedLockStrategy<A>> AccessMode<A, L> for Shared {
    type Guard = L::SharedGuard;

    fn acquire(lock_strategy: L) -> (guard: L::SharedGuard)
        ensures
            call_ensures(L::acquire_shared, (lock_strategy,), guard),
    {
        lock_strategy.acquire_shared()
    }
}

/// Lock strategy that elides synchronization, relying on the run loop for
/// exclusivity.
///
/// A guard borrows the lock exclusively for as long as it is live, so that an
/// overlapping acquisition does not compile. However a guard goes, the lock can be
/// acquired again.
#[derive(Debug)]
pub struct UnguardedLock<A> {
    state: A,
}

/// Guard of an [`UnguardedLock`].
#[derive(Debug)]
pub struct UnguardedGuard<'a, A> {
    /// The guarded state.
    pub state: &'a mut A,
}

/// What one acquisition has to do with the state of the lock before and after it:
/// the guard sees the state, and what is in the guard when it goes is what the lock
/// is left with.
pub open spec fn is_acquisition<A>(before: A, seen: A, left: A, after: A) -> bool {
    seen == before && after == left
}

impl<A> UnguardedLock<A> {
    /// The actor state.
    pub closed spec fn state(self) -> A {
        self.state
    }

    /// The lock around a state.
    pub closed spec fn around(state: A) -> Self {
        UnguardedLock { state }
    }

    /// Create the lock strategy around the actor state.
    pub fn new(state: A) -> (lock: Self)
        ensures
            lock == UnguardedLock::around(state),
            lock.state() == state,
    {
        UnguardedLock { state }
    }

    /// Unwrap the actor state.
    pub fn into_inner(self) -> (state: A)
        ensures
            state == self.state(),
    {
        self.state
    }

    /// Access the actor state through an exclusive borrow of the strategy.
    pub fn get_mut(&mut self) -> (state: &mut A)
        ensures
            *state == old(self).state(),
            final(self).state() == *final(state),
    {
        &mut self.state
    }

    /// Acquire the state, which no other guard holds.
    pub fn acquire(&mut self) -> (guard: UnguardedGuard<'_, A>)
        ensures
            is_acquisition(
                old(self).state(),
                *guard.state,
                *final(guard.state),
                final(self).state(),
            ),
    {
        UnguardedGuard { state: &mut self.state }
    }
}

impl<'a, A> UnguardedGuard<'a, A> {
    /// The guarded state.
    pub fn deref(&self) -> (state: &A)
        ensures
            *state == *old(self.state),
    {
        &*self.state
    }

    /// The guarded state, for mutation.
    pub fn deref_mut(&mut self) -> (state: &mut A)
        ensures
            *state == *old(self).state,
            *final(self).state == *final(state),
            *final(final(self).state) == *final(old(self).state),
    {
        &mut *self.state
    }
}

/// Every guard sees what was written through the earlier ones: the first sees the
/// state that the lock was made around, each later one what the one before left,
/// and what the last one left is what the lock is left with.
pub proof fn guards_see_earlier_writes<A>(states: Seq<A>, seen: Seq<A>, left: Seq<A>)
    requires
        states.len() == seen.len() + 1,
        left.len() == seen.len(),
        seen.len() > 0,
        forall|i: int, next: int|
            0 <= i < seen.len() && next == i + 1 ==> is_acquisition(
                #[trigger] states[i],
                seen[i],
                left[i],
                #[trigger] states[next],
            ),
    ensures
        seen[0] == states[0],
        forall|i: int, next: int|
            0 <= i && next == i + 1 && next < seen.len() ==> #[trigger] seen[next]
                == #[trigger] left[i],
        states.last() == left.last(),
{
    assert(is_acquisition(states[0], seen[0], left[0], states[1]));
    let last = seen.len() - 1;
    assert(is_acquisition(states[last], seen[last], left[last], states[last + 1]));
    assert forall|i: int, next: int|
        0 <= i && next == i + 1 && next < seen.len() implies #[trigger] seen[next]
        == #[trigger] left[i] by {
        assert(is_acquisition(states[i], seen[i], left[i], states[next]));
        assert(is_acquisition(states[next], seen[next], left[next], states[next + 1]));
    }
}

impl<A> From<A> for UnguardedLock<A> {
    fn from(state: A) -> (lock: Self) {
        UnguardedLock::new(state)
    }
}

impl<A> FromSpecImpl<A> for UnguardedLock<A> {
    open spec fn obeys_from_spec() -> bool {
        true
    }

    open spec fn from_spec(state: A) -> Self {
        UnguardedLock::around(state)
    }
}

impl<A> LockStrategy<A> for UnguardedLock<A> {
    fn into_inner(self) -> (state: A)
        ensures
            state == self.state(),
    {
        self.state
    }
}

impl<'a, A> ExclusiveLockStrategy<A> for &'a mut UnguardedLock<A> {
    type ExclusiveGuard = UnguardedGuard<'a, A>;

    fn acquire_exclusive(self) -> (guard: UnguardedGuard<'a, A>)
        ensures
            is_acquisition(
                old(self).state(),
                *guard.state,
                *final(guard.state),
                final(self).state(),
            ),
    {
        self.acquire()
    }
}

// Under serialized dispatch shared handlers cannot overlap anyway, so the
// exclusive guard serves double duty.
impl<'a, A> SharedLockStrategy<A> for &'a mut UnguardedLock<A> {
    type SharedGuard = UnguardedGuard<'a, A>;

    fn acquire_shared(self) -> (guard: UnguardedGuard<'a, A>)
        ensures
            is_acquisition(
                old(self).state(),
                *guard.state,
                *final(guard.state),
                final(self).state(),
            ),
    {
        self.acquire()
    }
}

/// The lock hands out the state it was made around, and takes back what a guard leaves:
/// a first guard sees that very state, and who unwraps the lock after the guard is gone
/// gets what was in the guard.
pub proof fn a_guard_sees_and_leaves_the_state<A>(state: A, lock: UnguardedLock<A>)
    requires
        call_ensures(UnguardedLock::<A>::new, (state,), lock) || call_ensures(
            UnguardedLock::<A>::from,
            (state,),
            lock,
        ),
    ensures
        forall|acquired: &mut UnguardedLock<A>, guard: UnguardedGuard<'_, A>|
            *acquired == lock && #[trigger] call_ensures(
                UnguardedLock::<A>::acquire,
                (acquired,),
                guard,
            ) ==> *guard.state == state && final(acquired).state() == *final(guard.state),
        forall|acquired: &mut UnguardedLock<A>, guard: UnguardedGuard<'_, A>|
            *acquired == lock && #[trigger] call_ensures(
                <&mut UnguardedLock<A> as ExclusiveLockStrategy<A>>::acquire_exclusive,
                (acquired,),
                guard,
            ) ==> *guard.state == state && final(acquired).state() == *final(guard.state),
        forall|acquired: &mut UnguardedLock<A>, guard: UnguardedGuard<'_, A>|
            *acquired == lock && #[trigger] call_ensures(
                <&mut UnguardedLock<A> as SharedLockStrategy<A>>::acquire_shared,
                (acquired,),
                guard,
            ) ==> *guard.state == state && final(acquired).state() == *final(guard.state),
        forall|left: UnguardedLock<A>, taken: A| #[trigger]
            call_ensures(UnguardedLock::<A>::into_inner, (left,), taken) ==> taken == left.state(),
        forall|taken: A| #[trigger]
            call_ensures(UnguardedLock::<A>::into_inner, (lock,), taken) ==> taken == state,
{
}

} // verus!
