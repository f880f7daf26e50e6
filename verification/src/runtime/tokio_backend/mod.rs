//! Components backed by tokio.
pub mod channel;
pub mod lock;
pub mod spawner;
