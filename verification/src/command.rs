//! What the command line decides before it touches the outside world.

pub mod node;
pub mod tcp_outlet;
