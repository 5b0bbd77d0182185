//! The scalable form of the custom resource: a replica count, with the
//! finalizer that guards its deletion.
use vstd::prelude::*;

verus! {

/// The finalizer that the operator sets on the resources it manages.
pub const FINALIZER: &'static str = "mcrouter.example.com";

/// The observed state: the names of the pods.
#[derive(Debug, PartialEq, Eq)]
pub struct McrouterStatus {
    pub pods: Vec<String>,
}

impl Default for McrouterStatus {
    /// A status with no pods.
    fn default() -> (s: McrouterStatus)
        ensures
            s.pods@.len() == 0,
    {
        McrouterStatus { pods: Vec::new() }
    }
}

/// The desired state: the number of replicas.
#[derive(Debug, PartialEq, Eq)]
pub struct McrouterSpec {
    pub replicas: usize,
}

}
