//! The custom resource that describes a memcached cluster: its spec, with
//! the default that applies to each field left out, and its status.
use crate::k8s::{owned, ObjectMeta, ObjectMetaView};
use vstd::prelude::*;

verus! {

/// The desired state of a memcached cluster.
#[derive(Debug, PartialEq, Eq)]
pub struct McrouterSpec {
    pub mcrouter_image: String,
    pub memcached_image: String,
    pub mcrouter_port: usize,
    pub memcached_port: usize,
    pub mcrouter_pool_size: usize,
    pub num_shards: usize,
    pub num_replicas: usize,
}

pub struct McrouterSpecView {
    pub mcrouter_image: Seq<char>,
    pub memcached_image: Seq<char>,
    pub mcrouter_port: usize,
    pub memcached_port: usize,
    pub mcrouter_pool_size: usize,
    pub num_shards: usize,
    pub num_replicas: usize,
}

impl View for McrouterSpec {
    type V = McrouterSpecView;

    open spec fn view(&self) -> McrouterSpecView {
        McrouterSpecView {
            mcrouter_image: self.mcrouter_image@,
            memcached_image: self.memcached_image@,
            mcrouter_port: self.mcrouter_port,
            memcached_port: self.memcached_port,
            mcrouter_pool_size: self.mcrouter_pool_size,
            num_shards: self.num_shards,
            num_replicas: self.num_replicas,
        }
    }
}

/// The observed state of a memcached cluster: the names of its pods.
#[derive(Debug, PartialEq, Eq)]
pub struct McrouterStatus {
    pub pods: Vec<String>,
}

impl Default for McrouterStatus {
    /// A status with no pods.
    fn default() -> (s: McrouterStatus)
        ensures
            s.pods@.len() == 0,
    {
        McrouterStatus { pods: Vec::new() }
    }
}

/// The custom resource: metadata, spec and status.
#[derive(Debug, PartialEq, Eq)]
pub struct Mcrouter {
    pub metadata: ObjectMeta,
    pub spec: McrouterSpec,
    pub status: Option<McrouterStatus>,
}

/// How the servers of a pool are arranged.
#[derive(Debug, PartialEq, Eq)]
pub enum PoolSetup {
    Replicated,
    Sharded,
}

impl Default for PoolSetup {
    /// Pools are replicated unless said otherwise.
    fn default() -> (p: PoolSetup)
        ensures
            p == PoolSetup::Replicated,
    {
        PoolSetup::Replicated
    }
}

/// The mcrouter image used when the spec names none.
pub open spec fn spec_default_mcrouter_image() -> Seq<char> {
    "mcrouter/mcrouter"@
}

/// The memcached image used when the spec names none.
pub open spec fn spec_default_memcached_image() -> Seq<char> {
    "memcached:1.6-alpine"@
}

/// The default mcrouter image.
pub fn default_mcrouter_image() -> (s: String)
    ensures
        s@ == spec_default_mcrouter_image(),
{
    owned("mcrouter/mcrouter")
}

/// The default memcached image.
pub fn default_memcached_image() -> (s: String)
    ensures
        s@ == spec_default_memcached_image(),
{
    owned("memcached:1.6-alpine")
}

/// The default port of mcrouter.
pub fn default_mcrouter_port() -> (p: usize)
    ensures
        p == 5000,
{
    5000
}

/// The default port of memcached.
pub fn default_memcached_port() -> (p: usize)
    ensures
        p == 11211,
{
    11211
}

/// The default number of gateway mcrouter pods.
pub fn default_mcrouter_pool_size() -> (n: usize)
    ensures
        n == 2,
{
    2
}

/// The default number of shards.
pub fn default_num_shards() -> (n: usize)
    ensures
        n == 3,
{
    3
}

/// The default number of replicas per shard.
pub fn default_num_replicas() -> (n: usize)
    ensures
        n == 2,
{
    2
}

}
