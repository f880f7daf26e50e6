//! Actors: their runtime type information, lifecycle, supervision and handles.
pub mod binder;
pub mod channel;
pub mod context;
pub mod dispatch;
pub mod event;
pub mod handle;
pub mod lifecycle;
pub mod protocol;
pub mod rtti;
pub mod run_loop;
pub mod state;
pub mod supervision;
pub mod task;
pub mod weak;
pub mod work;
