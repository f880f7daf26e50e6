//! Components backed by kanal.
pub mod channel;
