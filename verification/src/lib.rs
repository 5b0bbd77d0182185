//! Desired-state builders for a memcached cluster fronted by mcrouter.
use vstd::prelude::*;

pub mod children;
pub mod controller;
pub mod crd;
pub mod k8s;
pub mod operator;
pub mod scale_crd;
pub mod text;

verus! {

/// The port on which every memcached container listens.
pub const MEMCACHED_PORT: usize = 11211;

}
