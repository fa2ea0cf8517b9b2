//! The metadata of an elastic pool, as the dashboard reads it.
//!
//! The transport deserializes the upstream JSON and hands the library plain
//! values: the upstream creation date-time becomes unix seconds.  The
//! fractional per-database capacity settings of the upstream shape are pure
//! display data that no rule of the library reads, so they stay with the
//! transport.  The aggregation reads one field of this type: the pool-level
//! size ceiling `max_size_bytes`.

use vstd::prelude::*;

verus! {

/// An elastic pool's SKU.
#[derive(Debug)]
pub struct ElasticPoolSku {
    /// The SKU name, e.g. "StandardPool".
    pub name: String,
    /// The SKU tier, e.g. "Standard".
    pub tier: String,
    /// The tier capacity.
    pub capacity: i16,
}

/// An elastic pool's properties.
#[derive(Debug)]
pub struct ElasticPoolProperties {
    /// The pool state, e.g. "Ready".
    pub state: String,
    /// The instant the pool was created, in unix seconds.
    pub creation_date: i64,
    /// The pool maximum size in bytes — the `max` of a pool usage rollup.
    pub max_size_bytes: u64,
    /// Whether the pool is zone-redundant.
    pub zone_redundant: bool,
}

/// An elastic pool: a grouping of member databases sharing a capacity
/// ceiling.
#[derive(Debug)]
pub struct ElasticPool {
    /// The pool's SKU.
    pub sku: Option<ElasticPoolSku>,
    /// The pool kind, e.g. "pool".
    pub kind: String,
    /// The pool properties.
    pub properties: ElasticPoolProperties,
    /// The pool location, e.g. "westus2".
    pub location: String,
    /// The pool ID.
    pub id: String,
    /// The pool name.
    pub name: String,
    /// The pool type, e.g. "Microsoft.Sql/servers/elasticPools".
    pub pool_type: String,
}

impl ElasticPool {
    /// The pool-level size ceiling, in bytes.  A pool usage rollup takes
    /// its `max` from here alone; member ceilings are never summed.
    pub fn max_size_bytes(&self) -> (r: u64)
        ensures
            r == self.properties.max_size_bytes,
    {
        self.properties.max_size_bytes
    }
}

} // verus!
