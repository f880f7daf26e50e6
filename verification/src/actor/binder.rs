//! Binders: how a message finds its handler when the actor's type is not known.
use crate::message::rtti::MessageRtti;
use crate::runtime::registry::RegistryBinder;
use vstd::prelude::*;

verus! {

/// Binds handlers to messages.
///
/// Binding happens on the caller side, so it has no access to the actor's state.
/// Whether an envelope may cross threads is not the binder's concern: channels
/// verify that at the boundary.
pub trait ActorRuntimeBinder<D> {
    /// Bind the handler for the given message.
    fn bind(&self, message: &MessageRtti) -> Option<D>;
}

/// Runtime binder that never binds: the actor only supports statically
/// dispatched messages.
#[derive(Clone, Copy, Debug)]
pub struct StaticOnlyBinder;

impl Default for StaticOnlyBinder {
    fn default() -> (binder: Self)
        ensures
            binder == StaticOnlyBinder,
    {
        StaticOnlyBinder
    }
}

impl<D> ActorRuntimeBinder<D> for StaticOnlyBinder {
    fn bind(&self, message: &MessageRtti) -> Option<D>
        returns
            None::<D>,
    {
        None
    }
}

impl<'r, D: Copy> ActorRuntimeBinder<D> for RegistryBinder<'r, D> {
    fn bind(&self, message: &MessageRtti) -> (dispatcher: Option<D>)
        ensures
            dispatcher == self.binds(message.dispatch_slot()),
    {
        RegistryBinder::bind(self, message)
    }
}

} // verus!
