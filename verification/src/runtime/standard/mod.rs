//! The plain run loop without failure handling, and its channels.
pub mod channel;
pub mod run_loop;
