//! Credential cache and aggregation core of a dashboard backend that collects
//! resource-usage metrics from a cloud management API.
//!
//! The library owns the logic that is worth reasoning about: a per-subscription
//! access-token cache with an expiry-aware fast path, a registry routing token
//! requests by subscription ID, classification of management-API responses, and
//! the fan-in reduction that folds per-database usage reports into a pool-level
//! rollup with all-or-nothing failure semantics.  Network transport, JSON
//! (de)serialization and the HTTP routing layer live outside the library and
//! hand it plain values.

pub mod azure_apis;
pub mod azure_token_cache;
pub mod decimal;
pub mod errors;
pub mod routes;
pub mod settings;
pub mod text;
