//! The list of databases belonging to an elastic pool.
//!
//! Member entries serve the aggregation only as fetch keys — the engine
//! issues one usage fetch per member name and discards the entry
//! afterwards — so the library models a member by its identifying fields as
//! plain values and leaves the rest of the upstream shape (fractional
//! sizes, date-times, replication details) with the transport.

use vstd::prelude::*;

verus! {

/// A database's SKU.
#[derive(Debug)]
pub struct DatabaseSku {
    /// The SKU name, e.g. "ElasticPool" if in an elastic pool.
    pub name: String,
    /// The SKU tier, e.g. "Standard".
    pub tier: String,
    /// The SKU capacity.
    pub capacity: i64,
}

/// A database belonging to an elastic pool.
#[derive(Debug)]
pub struct Database {
    /// The database's SKU.
    pub sku: Option<DatabaseSku>,
    /// The database kind, e.g. "v12".
    pub kind: String,
    /// The database location, e.g. "westus2".
    pub location: String,
    /// The database ID.
    pub id: String,
    /// The database name — the key under which its usage is fetched.
    pub name: String,
    /// The database type.
    pub database_type: String,
}

/// The response sent by the server when requesting the list of databases.
#[derive(Debug)]
pub struct DatabaseListResponse {
    /// The response "value", which is a list of databases.
    pub values: Vec<Database>,
}

impl DatabaseListResponse {
    /// The databases listed.
    pub fn values(&self) -> (r: &Vec<Database>)
        ensures
            r == &self.values,
    {
        &self.values
    }
}

} // verus!
