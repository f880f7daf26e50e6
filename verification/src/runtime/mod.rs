//! The runtime around actors: dispatch registry, run loops, locks, mailboxes.
pub mod concurrent_loop;
pub mod defaults;
pub mod init;
pub mod kanal_backend;
pub mod lock;
pub mod loop_support;
pub mod registry;
pub mod result;
pub mod routing;
pub mod sequential_loop;
pub mod standard;
pub mod tokio_backend;
