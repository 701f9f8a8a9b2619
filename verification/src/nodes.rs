//! What a node keeps track of beside its actors.

pub mod registry;
