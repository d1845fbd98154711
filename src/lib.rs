//! A bridge between a single-threaded, callback-driven host and a concurrently
//! running engine: command dispatch buffers, bounded-wait event polling and a
//! shutdown signal.

pub mod channel;
pub mod dispatch;
pub mod emitter;
pub mod error;
pub mod model;
pub mod poll;
