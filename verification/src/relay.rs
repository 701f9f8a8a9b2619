//! Relays: each owns one actor and drives it from start to shutdown.

pub mod lifecycle;
pub mod mailbox;
pub mod processor_relay;
pub mod shutdown;
pub mod worker_relay;
