//! The management-API surface the dashboard consumes, modeled as plain
//! values.
//!
//! The transport performs each authenticated GET outside the library and
//! hands back the status, the body text and — where the body could be read
//! as the upstream error shape `{error: {code, message}}` — the parsed code
//! and message.  [`classify_response`] turns those observations into the
//! library's uniform error classification.

use vstd::prelude::*;
use vstd::string::StringExecFns;
use crate::decimal::{spec_decimal_string, u64_to_string};
use crate::errors::AzureDashboardError;

pub mod get_database_usage;
pub mod get_elastic_pool;
pub mod list_databases_in_elastic_pool;

verus! {

/// The error reported by the management API inside a non-success response.
#[derive(Debug)]
pub struct AzureError {
    /// The error code, e.g. "InvalidAuthenticationTokenTenant".
    pub code: String,
    /// The error message.
    pub message: String,
}

/// The text of the `AzureApiError` raised for a non-success response:
/// `<code>: <message>` when the upstream error body was readable, and the
/// raw status and body text otherwise.
pub open spec fn spec_api_error_text(status: u16, error: Option<AzureError>, body: Seq<char>) -> Seq<
    char,
> {
    match error {
        Some(e) => e.code@ + ": "@ + e.message@,
        None => "HTTP "@ + spec_decimal_string(status as int) + ": "@ + body,
    }
}

/// Classifies a management-API response from the plain values the transport
/// observed: HTTP 200 is success (the body is then deserialized by the
/// transport; a mismatch there is its own fatal error), and any other
/// status is an `AzureApiError` whose text quotes the upstream code and
/// message when they were readable, or the raw status and body when not.
/// Nothing is retried: every failure propagates to the caller.
pub fn classify_response(status: u16, error: Option<AzureError>, body: String) -> (r: Result<
    (),
    AzureDashboardError,
>)
    ensures
        r is Ok <==> status == 200,
        status != 200 ==> (r matches Err(e) && e matches AzureDashboardError::AzureApiError(text)
            && text@ == spec_api_error_text(status, error, body@)),
{
    if status == 200 {
        Ok(())
    } else {
        match error {
            Some(e) => {
                let text = e.code.concat(": ").concat(e.message.as_str());
                Err(AzureDashboardError::AzureApiError(text))
            },
            None => {
                let text = String::from_str("HTTP ").concat(
                    u64_to_string(status as u64).as_str(),
                ).concat(": ").concat(body.as_str());
                Err(AzureDashboardError::AzureApiError(text))
            },
        }
    }
}

} // verus!
