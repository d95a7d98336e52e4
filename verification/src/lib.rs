//! The event-dispatch and graceful-shutdown core of a minimal chat-bot
//! client: prefix and interaction command routing over decoded inbound
//! events, and the per-shard receive loop's shutdown-race handling. The
//! remote transport and HTTP client stay with the caller; this crate
//! decides, over plain values, what each pulled item leads to.

pub mod dispatch;
pub mod model;
pub mod registry;
pub mod shard;
pub mod text;
