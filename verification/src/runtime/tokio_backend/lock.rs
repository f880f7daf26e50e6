//! Lock strategies backed by tokio's locks.
use crate::runtime::lock::{ExclusiveLockStrategy, LockStrategy, SharedLockStrategy};
use vstd::prelude::*;
use vstd::std_specs::convert::FromSpecImpl;

verus! {

/// [`tokio::sync::Mutex`].
#[verifier::external_type_specification]
#[verifier::external_body]
#[verifier::reject_recursive_types(T)]
pub struct ExTokioMutex<T: ?Sized>(tokio::sync::Mutex<T>);

/// [`tokio::sync::RwLock`].
#[verifier::external_type_specification]
#[verifier::external_body]
#[verifier::reject_recursive_types(T)]
pub struct ExTokioRwLock<T: ?Sized>(tokio::sync::RwLock<T>);

/// Calls [`tokio::sync::Mutex::new`], which holds the value. Whoever shares the
/// mutex can change it, so what it holds is nothing that can be told from it.
#[verifier::external_body]
fn mutex_new<A>(value: A) -> (mutex: tokio::sync::Mutex<A>) {
    tokio::sync::Mutex::new(value)
}

/// Whether the mutex is what [`tokio::sync::Mutex::new`] made around `value`.
pub closed spec fn mutex_made_around<A>(value: A, mutex: tokio::sync::Mutex<A>) -> bool {
    call_ensures(mutex_new::<A>, (value,), mutex)
}

/// Calls [`tokio::sync::Mutex::into_inner`]: the value held, as whoever shared
/// the mutex left it.
#[verifier::external_body]
fn mutex_into_inner<A>(mutex: tokio::sync::Mutex<A>) -> (value: A) {
    mutex.into_inner()
}

/// Whether `value` is what [`tokio::sync::Mutex::into_inner`] took out of the
/// mutex.
pub closed spec fn taken_out_of_mutex<A>(mutex: tokio::sync::Mutex<A>, value: A) -> bool {
    call_ensures(mutex_into_inner::<A>, (mutex,), value)
}

/// Calls [`tokio::sync::RwLock::new`], which holds the value. Whoever shares the
/// lock can change it, so what it holds is nothing that can be told from it.
#[verifier::external_body]
fn rwlock_new<A>(value: A) -> (lock: tokio::sync::RwLock<A>) {
    tokio::sync::RwLock::new(value)
}

/// Whether the lock is what [`tokio::sync::RwLock::new`] made around `value`.
pub closed spec fn rwlock_made_around<A>(value: A, lock: tokio::sync::RwLock<A>) -> bool {
    call_ensures(rwlock_new::<A>, (value,), lock)
}

/// Calls [`tokio::sync::RwLock::into_inner`]: the value held, as whoever shared
/// the lock left it.
#[verifier::external_body]
fn rwlock_into_inner<A>(lock: tokio::sync::RwLock<A>) -> (value: A) {
    lock.into_inner()
}

/// Whether `value` is what [`tokio::sync::RwLock::into_inner`] took out of the
/// lock.
pub closed spec fn taken_out_of_rwlock<A>(lock: tokio::sync::RwLock<A>, value: A) -> bool {
    call_ensures(rwlock_into_inner::<A>, (lock,), value)
}

/// Lock strategy guarding the actor state with a [`tokio::sync::Mutex`].
///
/// Supports the [`Exclusive`](crate::runtime::lock::Exclusive) access mode. For
/// actors that also want concurrent read-only handlers, there is [`TokioRwLock`].
#[verifier::reject_recursive_types(A)]
#[derive(Debug)]
pub struct TokioMutexLock<A> {
    mutex: tokio::sync::Mutex<A>,
}

/// Lock strategy guarding the actor state with a [`tokio::sync::RwLock`].
///
/// Supports the [`Exclusive`](crate::runtime::lock::Exclusive) access mode through
/// write locking and the [`Shared`](crate::runtime::lock::Shared) access mode
/// through read locking, so that read-only handlers can run concurrently.
#[verifier::reject_recursive_types(A)]
#[derive(Debug)]
pub struct TokioRwLock<A> {
    lock: tokio::sync::RwLock<A>,
}

/// An exclusive acquisition that is to be awaited: of the mutex itself, or of the
/// lock for writing.
#[derive(Debug)]
pub struct ExclusiveAcquisition<'a, K> {
    pub lock: &'a K,
}

/// A shared acquisition that is to be awaited: of the lock for reading.
#[derive(Debug)]
pub struct SharedAcquisition<'a, K> {
    pub lock: &'a K,
}

impl<A> TokioMutexLock<A> {
    /// The mutex.
    pub closed spec fn spec_mutex(self) -> tokio::sync::Mutex<A> {
        self.mutex
    }

    /// Create the lock strategy around the actor state.
    pub fn new(actor: A) -> (lock: Self)
        ensures
            mutex_made_around(actor, lock.spec_mutex()),
    {
        TokioMutexLock { mutex: mutex_new(actor) }
    }

    /// Unwrap the actor state, as the lock's guards left it.
    pub fn into_inner(self) -> (actor: A)
        ensures
            taken_out_of_mutex(self.spec_mutex(), actor),
    {
        mutex_into_inner(self.mutex)
    }

    /// The mutex, to acquire the actor state with.
    pub fn mutex(&self) -> (mutex: &tokio::sync::Mutex<A>)
        ensures
            *mutex == self.spec_mutex(),
    {
        &self.mutex
    }
}

impl<A> TokioRwLock<A> {
    /// The lock.
    pub closed spec fn spec_lock(self) -> tokio::sync::RwLock<A> {
        self.lock
    }

    /// Create the lock strategy around the actor state.
    pub fn new(actor: A) -> (lock: Self)
        ensures
            rwlock_made_around(actor, lock.spec_lock()),
    {
        TokioRwLock { lock: rwlock_new(actor) }
    }

    /// Unwrap the actor state, as the lock's guards left it.
    pub fn into_inner(self) -> (actor: A)
        ensures
            taken_out_of_rwlock(self.spec_lock(), actor),
    {
        rwlock_into_inner(self.lock)
    }

    /// The lock, to acquire the actor state with.
    pub fn lock(&self) -> (lock: &tokio::sync::RwLock<A>)
        ensures
            *lock == self.spec_lock(),
    {
        &self.lock
    }
}

impl<A> From<A> for TokioMutexLock<A> {
    fn from(actor: A) -> (lock: Self)
        ensures
            mutex_made_around(actor, lock.spec_mutex()),
    {
        TokioMutexLock::new(actor)
    }
}

impl<A> FromSpecImpl<A> for TokioMutexLock<A> {
    open spec fn obeys_from_spec() -> bool {
        false
    }

    open spec fn from_spec(actor: A) -> Self {
        arbitrary()
    }
}

impl<A> From<A> for TokioRwLock<A> {
    fn from(actor: A) -> (lock: Self)
        ensures
            rwlock_made_around(actor, lock.spec_lock()),
    {
        TokioRwLock::new(actor)
    }
}

impl<A> FromSpecImpl<A> for TokioRwLock<A> {
    open spec fn obeys_from_spec() -> bool {
        false
    }

    open spec fn from_spec(actor: A) -> Self {
        arbitrary()
    }
}

impl<A> LockStrategy<A> for TokioMutexLock<A> {
    fn into_inner(self) -> (actor: A)
        ensures
            taken_out_of_mutex(self.spec_mutex(), actor),
    {
        mutex_into_inner(self.mutex)
    }
}

impl<A> LockStrategy<A> for TokioRwLock<A> {
    fn into_inner(self) -> (actor: A)
        ensures
            taken_out_of_rwlock(self.spec_lock(), actor),
    {
        rwlock_into_inner(self.lock)
    }
}

impl<'a, A> ExclusiveLockStrategy<A> for &'a TokioMutexLock<A> {
    type ExclusiveGuard = ExclusiveAcquisition<'a, tokio::sync::Mutex<A>>;

    fn acquire_exclusive(self) -> (acquisition: ExclusiveAcquisition<'a, tokio::sync::Mutex<A>>)
        ensures
            *acquisition.lock == self.spec_mutex(),
    {
        ExclusiveAcquisition { lock: &self.mutex }
    }
}

impl<'a, A> ExclusiveLockStrategy<A> for &'a TokioRwLock<A> {
    type ExclusiveGuard = ExclusiveAcquisition<'a, tokio::sync::RwLock<A>>;

    fn acquire_exclusive(self) -> (acquisition: ExclusiveAcquisition<'a, tokio::sync::RwLock<A>>)
        ensures
            *acquisition.lock == self.spec_lock(),
    {
        ExclusiveAcquisition { lock: &self.lock }
    }
}

impl<'a, A> SharedLockStrategy<A> for &'a TokioRwLock<A> {
    type SharedGuard = SharedAcquisition<'a, tokio::sync::RwLock<A>>;

    fn acquire_shared(self) -> (acquisition: SharedAcquisition<'a, tokio::sync::RwLock<A>>)
        ensures
            *acquisition.lock == self.spec_lock(),
    {
        SharedAcquisition { lock: &self.lock }
    }
}

/// The locks are tokio's, around the very actor, and what is unwrapped is what tokio
/// took out of them.
proof fn actors_are_held_by_tokio<A>(
    actor: A,
    mutex: TokioMutexLock<A>,
    from_mutex: A,
    lock: TokioRwLock<A>,
    from_lock: A,
)
    requires
        call_ensures(TokioMutexLock::<A>::new, (actor,), mutex),
        call_ensures(TokioMutexLock::<A>::into_inner, (mutex,), from_mutex),
        call_ensures(TokioRwLock::<A>::new, (actor,), lock),
        call_ensures(TokioRwLock::<A>::into_inner, (lock,), from_lock),
    ensures
        call_ensures(mutex_new::<A>, (actor,), mutex.spec_mutex()),
        call_ensures(mutex_into_inner::<A>, (mutex.spec_mutex(),), from_mutex),
        call_ensures(rwlock_new::<A>, (actor,), lock.spec_lock()),
        call_ensures(rwlock_into_inner::<A>, (lock.spec_lock(),), from_lock),
{
}

} // verus!
