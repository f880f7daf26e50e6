//! The handle of an actor's task.
use vstd::prelude::*;

verus! {

/// What a runtime's task handle can do.
pub trait ActorTaskHandleVTable {
    /// Attempt to abort the task: mark it for cancellation, without waiting for
    /// it to terminate.
    fn abort(&self);

    /// What waiting for the task to terminate is.
    type Wait;

    /// Wait for the task to terminate, however it does.
    fn wait_for_termination(&self) -> Self::Wait;
}

impl<T: ActorTaskHandleVTable> ActorTaskHandleVTable for Box<T> {
    fn abort(&self)
        ensures
            call_ensures(T::abort, (&**self,), ()),
    {
        (**self).abort();
    }

    type Wait = T::Wait;

    fn wait_for_termination(&self) -> (wait: T::Wait)
        ensures
            call_ensures(T::wait_for_termination, (&**self,), wait),
    {
        (**self).wait_for_termination()
    }
}

/// Abstraction over the runtime task handle: a handle that fits a pointer is
/// stored in place, a larger one is boxed.
#[derive(Debug)]
pub enum ActorTaskHandle<T> {
    Inline(T),
    Boxed(Box<T>),
}

impl<T> ActorTaskHandle<T> {
    /// The runtime's task handle.
    pub open spec fn task(self) -> T {
        match self {
            ActorTaskHandle::Inline(task) => task,
            ActorTaskHandle::Boxed(task) => *task,
        }
    }

    /// Whether handles of this type are stored in place: they are no larger than
    /// a pointer and need no stricter alignment.
    pub open spec fn fits_pointer() -> bool {
        vstd::layout::size_of::<T>() <= vstd::layout::size_of::<usize>()
            && vstd::layout::align_of::<T>() <= vstd::layout::align_of::<usize>()
    }
}

impl<T: ActorTaskHandleVTable> ActorTaskHandle<T> {
    /// Create a task handle from the runtime's.
    pub fn from_vtable(value: T) -> (handle: Self)
        ensures
            handle.task() == value,
            handle is Inline <==> Self::fits_pointer(),
    {
        if core::mem::size_of::<T>() <= core::mem::size_of::<usize>() && core::mem::align_of::<T>()
            <= core::mem::align_of::<usize>() {
            ActorTaskHandle::Inline(value)
        } else {
            ActorTaskHandle::Boxed(Box::new(value))
        }
    }

    /// Abort the running task, best-effort. This does not wait for the task to
    /// finish, and calling it again has no effect.
    pub fn abort(&self)
        ensures
            call_ensures(T::abort, (&self.task(),), ()),
    {
        self.get().abort();
    }

    /// Wait for the task to terminate. This does not abort it.
    pub fn wait_for_termination(&self) -> (wait: T::Wait)
        ensures
            call_ensures(T::wait_for_termination, (&self.task(),), wait),
    {
        self.get().wait_for_termination()
    }

    /// The runtime's task handle.
    pub fn get(&self) -> (task: &T)
        ensures
            *task == self.task(),
    {
        match self {
            ActorTaskHandle::Inline(task) => task,
            ActorTaskHandle::Boxed(task) => &**task,
        }
    }

    /// Give up the handle: the task is aborted first, then the runtime's handle
    /// is handed out to be dropped.
    pub fn close(self) -> (task: T)
        ensures
            task == self.task(),
            call_ensures(T::abort, (&self.task(),), ()),
    {
        self.abort();
        match self {
            ActorTaskHandle::Inline(task) => task,
            ActorTaskHandle::Boxed(task) => *task,
        }
    }
}

/// A task handle acts on the runtime's handle that it was made from, whether that
/// is stored in place or boxed: aborting it aborts that task, waiting for it waits
/// for that task, and giving it up aborts that task and hands out that very handle.
pub proof fn a_handle_acts_on_its_task<T: ActorTaskHandleVTable>(
    value: T,
    handle: ActorTaskHandle<T>,
    wait: T::Wait,
    task: T,
)
    requires
        call_ensures(ActorTaskHandle::<T>::from_vtable, (value,), handle),
    ensures
        handle.task() == value,
        call_ensures(ActorTaskHandle::<T>::abort, (&handle,), ()) ==> call_ensures(
            T::abort,
            (&value,),
            (),
        ),
        call_ensures(ActorTaskHandle::<T>::wait_for_termination, (&handle,), wait) ==> call_ensures(
            T::wait_for_termination,
            (&value,),
            wait,
        ),
        call_ensures(ActorTaskHandle::<T>::close, (handle,), task) ==> task == value
            && call_ensures(T::abort, (&value,), ()),
{
}

/// A handle is stored in place exactly where it is no larger than a pointer and needs no
/// stricter alignment; stored either way, it is the handle that was given.
pub proof fn small_handles_are_stored_in_place<T: ActorTaskHandleVTable>(
    value: T,
    handle: ActorTaskHandle<T>,
)
    requires
        call_ensures(ActorTaskHandle::<T>::from_vtable, (value,), handle),
    ensures
        match handle {
            ActorTaskHandle::Inline(task) => task == value && vstd::layout::size_of::<T>()
                <= vstd::layout::size_of::<usize>() && vstd::layout::align_of::<T>()
                <= vstd::layout::align_of::<usize>(),
            ActorTaskHandle::Boxed(task) => *task == value && (vstd::layout::size_of::<T>()
                > vstd::layout::size_of::<usize>() || vstd::layout::align_of::<T>()
                > vstd::layout::align_of::<usize>()),
        },
        forall|task: &T| #[trigger]
            call_ensures(ActorTaskHandle::<T>::get, (&handle,), task) ==> *task == value,
{
}

} // verus!
