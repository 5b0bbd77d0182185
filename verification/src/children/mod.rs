//! The child objects that the operator keeps in the cluster for each
//! custom resource.
pub mod gateway;
pub mod shard;
pub mod root;
