//! The computations behind the dashboard's request handlers.
//!
//! The HTTP layer itself — routing, path parsing, JSON rendering — lives
//! outside the library; these modules hold what each handler decides once
//! the transport has fetched its inputs.

pub mod database_usage;
pub mod elastic_pool_usage;
