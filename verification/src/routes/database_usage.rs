//! The usage view of a single database: the three sizes the dashboard
//! displays, read off the database's usage listing.

use vstd::prelude::*;
use crate::azure_apis::get_database_usage::DatabaseUsageResponse;

verus! {

/// The sizes displayed for a single database.
#[derive(Debug)]
pub struct DatabaseUsageViewModel {
    /// The amount of data used, in bytes.
    pub database_size_used: u64,
    /// The amount of data allocated, in bytes.
    pub database_size_allocated: u64,
    /// The maximum size of the database, in bytes.
    pub database_size_max: u64,
}

/// Builds the usage view of a single database from its usage listing: each
/// size comes from its named gauge and is zero when that gauge is absent.
pub fn database_usage_view(response: &DatabaseUsageResponse) -> (r: DatabaseUsageViewModel)
    ensures
        r.database_size_used == response.spec_used_size(),
        r.database_size_allocated == response.spec_allocated_size(),
        r.database_size_max == response.spec_max_size(),
{
    let (database_size_used, database_size_allocated, database_size_max) = response.get_sizes();
    DatabaseUsageViewModel { database_size_used, database_size_allocated, database_size_max }
}

} // verus!
