//! Verified core of a routable messaging runtime.
//!
//! Actors live at addresses on a node and talk through mailboxes. A relay
//! drives each actor from `initialize` to `shutdown` and acknowledges its
//! end exactly once; the router delivers messages hop by hop; admission
//! control decides what a connection from outside may reach; a registry
//! keeps the live secure channels. Around that core stand the lease
//! protocol and what the command line decides.
//!
//! Nothing here performs I/O or waits. Each piece is a value with
//! operations whose contracts are proved; whoever embeds the library runs
//! the actors, moves the bytes and keeps the time. The one thing taken on
//! trust is tokio's one-shot channel, over which a request to stop and its
//! acknowledgment travel.

pub mod address;
pub mod command;
pub mod flow_control;
pub mod lease;
pub mod message;
pub mod node;
pub mod nodes;
pub mod relay;
pub mod router;
pub mod table;

pub use address::{Address, Route};
pub use flow_control::{FlowControls, SpawnerFlowControlPolicy};
pub use lease::json_proto::{
    LeaseProtocolOption, LeaseProtocolPermissions, LeaseProtocolRequest, LeaseProtocolResponse,
};
pub use lease::{Lease, TTL};
pub use message::{FlowControlId, RelayMessage};
pub use node::Node;
pub use relay::processor_relay::ProcessorRelay;
pub use relay::shutdown::{ShutdownHandle, ShutdownListener};
pub use relay::worker_relay::WorkerRelay;
pub use router::{RouteOutcome, Router, RouterError};
