//! Task spawner backed by a tokio runtime.
use vstd::prelude::*;

verus! {

/// [`tokio::runtime::Handle`].
#[verifier::external_type_specification]
#[verifier::external_body]
pub struct ExTokioHandle(tokio::runtime::Handle);

/// Calls [`tokio::runtime::Handle::try_current`]: the handle of the runtime the
/// caller runs in, if it runs in one, which nothing here can tell.
#[verifier::external_body]
fn handle_try_current() -> (handle: Option<tokio::runtime::Handle>) {
    tokio::runtime::Handle::try_current().ok()
}

/// Whether `handle` is what [`tokio::runtime::Handle::try_current`] found.
pub closed spec fn found_current(handle: Option<tokio::runtime::Handle>) -> bool {
    call_ensures(handle_try_current, (), handle)
}

/// Task spawner backed by a tokio runtime.
#[derive(Debug)]
pub struct TokioTaskSpawner {
    handle: tokio::runtime::Handle,
}

impl TokioTaskSpawner {
    /// The runtime handle.
    pub closed spec fn spec_handle(self) -> tokio::runtime::Handle {
        self.handle
    }

    /// Create a spawner for the given runtime handle.
    pub fn new(handle: tokio::runtime::Handle) -> (spawner: Self)
        ensures
            spawner.spec_handle() == handle,
    {
        TokioTaskSpawner { handle }
    }

    /// The spawner for the runtime that `found` is the handle of, if any.
    pub fn of_current(found: Option<tokio::runtime::Handle>) -> (spawner: Option<Self>)
        ensures
            spawner is Some <==> found is Some,
            spawner matches Some(spawner) ==> Some(spawner.spec_handle()) == found,
    {
        match found {
            Some(handle) => Some(TokioTaskSpawner::new(handle)),
            None => None,
        }
    }

    /// Create a spawner for the current runtime, `None` outside a tokio runtime
    /// context.
    pub fn current() -> (spawner: Option<Self>)
        ensures
            exists|found: Option<tokio::runtime::Handle>| #[trigger]
                found_current(found) && (spawner is Some <==> found is Some) && (
                spawner matches Some(spawner) ==> Some(spawner.spec_handle()) == found),
    {
        let found = handle_try_current();
        assert(found_current(found));
        Self::of_current(found)
    }

    /// The runtime handle.
    pub fn handle(&self) -> (handle: &tokio::runtime::Handle)
        ensures
            *handle == self.spec_handle(),
    {
        &self.handle
    }
}

/// The spawner for the current runtime holds the very handle that
/// [`tokio::runtime::Handle::try_current`] found, and there is none where it found none.
proof fn spawners_hold_the_current_handle(spawner: Option<TokioTaskSpawner>)
    requires
        call_ensures(TokioTaskSpawner::current, (), spawner),
    ensures
        spawner matches Some(spawner) ==> call_ensures(
            handle_try_current,
            (),
            Some(spawner.spec_handle()),
        ),
        spawner is None ==> call_ensures(handle_try_current, (), None),
{
    let found = choose|found: Option<tokio::runtime::Handle>| #[trigger]
        found_current(found) && (spawner is Some <==> found is Some) && (
        spawner matches Some(spawner) ==> Some(spawner.spec_handle()) == found);
    assert(found_current(found));
}

} // verus!
