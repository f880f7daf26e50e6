//! The verified core of an actor runtime: message envelopes, dispatch
//! registries, actor lifecycle and supervision state, run loops and mailboxes.
pub mod actor;
pub mod capture;
pub mod message;
pub mod runtime;
