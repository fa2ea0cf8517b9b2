//! The usage listing of a single database: a list of named gauges, scanned
//! for the two sizes the dashboard displays.
//!
//! A usage response arrives as JSON of the shape
//! `{"value": [{"properties": {...}, "name": "database_size"}, ...]}`; the
//! transport deserializes it and rounds each fractional byte count to the
//! nearest integer byte before it reaches the library, so every value here
//! is a plain integer.  Rounding member values before they are summed keeps
//! a pool rollup equal to what an auditor would compute by adding the
//! displayed per-member values by hand.

use vstd::prelude::*;
use crate::text::str_eq;

verus! {

/// The properties within a usage value: a named gauge with a capacity
/// ceiling.
#[derive(Debug)]
pub struct DatabaseUsageProperties {
    /// The display name of the value, e.g. "Database Size".
    pub display_name: String,
    /// The current value of the gauge — for a size, the used bytes, rounded
    /// to the nearest integer byte by the transport.
    pub current_value: u64,
    /// The ceiling of the gauge — for a size, the maximum bytes, rounded
    /// likewise.
    pub limit: u64,
    /// The data unit, e.g. "Bytes".
    pub unit: String,
}

/// A usage value.
#[derive(Debug)]
pub struct DatabaseUsage {
    /// The value properties.
    pub properties: DatabaseUsageProperties,
    /// The value name, e.g. "database_size".
    pub name: String,
}

impl DatabaseUsage {
    /// Returns true if the usage has the given name.
    pub fn has_name(&self, name: &str) -> (r: bool)
        ensures
            r == (self.name@ == name@),
    {
        str_eq(self.name.as_str(), name)
    }
}

/// The first usage in `values` carrying `name`, if any.
pub open spec fn spec_find_value(values: Seq<DatabaseUsage>, name: Seq<char>) -> Option<
    DatabaseUsage,
>
    decreases values.len(),
{
    if values.len() == 0 {
        None
    } else if values[0].name@ == name {
        Some(values[0])
    } else {
        spec_find_value(values.skip(1), name)
    }
}

/// The response sent by the server when requesting database usages.
#[derive(Debug)]
pub struct DatabaseUsageResponse {
    /// The response "value", which is a list of usage values.
    pub values: Vec<DatabaseUsage>,
}

impl DatabaseUsageResponse {
    /// The used size: the current value of the first "database_size" gauge,
    /// zero when the metric is absent.
    pub open spec fn spec_used_size(&self) -> u64 {
        match spec_find_value(self.values@, "database_size"@) {
            Some(v) => v.properties.current_value,
            None => 0,
        }
    }

    /// The allocated size: the current value of the first
    /// "database_allocated_size" gauge, zero when the metric is absent.
    pub open spec fn spec_allocated_size(&self) -> u64 {
        match spec_find_value(self.values@, "database_allocated_size"@) {
            Some(v) => v.properties.current_value,
            None => 0,
        }
    }

    /// The maximum size: the ceiling of the first "database_size" gauge,
    /// zero when the metric is absent.
    pub open spec fn spec_max_size(&self) -> u64 {
        match spec_find_value(self.values@, "database_size"@) {
            Some(v) => v.properties.limit,
            None => 0,
        }
    }

    /// Finds the first usage with the given name.
    pub fn find_value_by_name(&self, name: &str) -> (r: Option<&DatabaseUsage>)
        ensures
            match r {
                Some(u) => spec_find_value(self.values@, name@) == Some(*u),
                None => spec_find_value(self.values@, name@) is None,
            },
    {
        let n = self.values.len();
        let mut i: usize = 0;
        proof {
            assert(self.values@.skip(0) =~= self.values@);
        }
        while i < n
            invariant
                i <= n,
                n == self.values@.len(),
                spec_find_value(self.values@, name@) == spec_find_value(
                    self.values@.skip(i as int),
                    name@,
                ),
            decreases n - i,
        {
            if self.values[i].has_name(name) {
                proof {
                    assert(self.values@.skip(i as int)[0] == self.values@[i as int]);
                }
                return Some(&self.values[i]);
            }
            proof {
                assert(self.values@.skip(i as int).skip(1) =~= self.values@.skip(i + 1));
                assert(self.values@.skip(i as int)[0] == self.values@[i as int]);
            }
            i = i + 1;
        }
        None
    }

    /// Gets the sizes — used, allocated, and max — from the usage listing.
    /// Each comes from its named gauge and defaults to zero when that gauge
    /// is absent: a missing metric is tolerated per member, unlike a failed
    /// request.
    pub fn get_sizes(&self) -> (r: (u64, u64, u64))
        ensures
            r.0 == self.spec_used_size(),
            r.1 == self.spec_allocated_size(),
            r.2 == self.spec_max_size(),
    {
        let mut database_size_used: u64 = 0;
        let mut database_size_max: u64 = 0;
        let mut database_size_allocated: u64 = 0;
        if let Some(value) = self.find_value_by_name("database_size") {
            database_size_used = value.properties.current_value;
            database_size_max = value.properties.limit;
        }
        if let Some(value) = self.find_value_by_name("database_allocated_size") {
            database_size_allocated = value.properties.current_value;
        }
        (database_size_used, database_size_allocated, database_size_max)
    }
}

} // verus!
