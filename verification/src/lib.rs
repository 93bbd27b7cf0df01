//! A shared directory stack: several shell invocations push and pop paths on
//! one stack per session, kept by a single local daemon.

pub mod client;
pub mod codec;
pub mod command;
pub mod dispatch;
pub mod lifecycle;
pub mod signals;
pub mod store;
pub mod text;
