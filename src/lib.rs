//! A bridge between an event-loop caller and a blocking Redis stream consumer:
//! connection preparation, the per-handle fail-fast state, the record codec and
//! the translation of every failure into one reportable error.

pub mod redis_api;
pub mod error;
pub mod codec;
pub mod connect;
pub mod handle;
