//! Messages: their runtime type information and the envelopes carrying them.
pub mod channel;
pub mod envelope;
pub mod rtti;
