//! Error taxonomy of the dashboard core.
//!
//! `TokenCacheError` covers failures to obtain a token: a subscription that was
//! never configured (a startup-time bug, never retried) and a rejected
//! client-credentials exchange.  `AzureDashboardError` is the surface handed to
//! the HTTP layer.  No error is ever downgraded to a default value; every
//! failure carries text for operator diagnosis.

use vstd::prelude::*;
use vstd::string::StringExecFns;

verus! {

/// The error surface of the dashboard core, handed to the HTTP layer.
#[derive(Debug)]
pub enum AzureDashboardError {
    /// A token could not be fetched for the named subscription.
    CouldNotGetAccessToken(String),
    /// The management API call failed; the payload carries the upstream
    /// code and message, or the raw status and body when unparseable.
    AzureApiError(String),
    /// An internal failure with no upstream cause.
    InternalError,
}

impl AzureDashboardError {
    /// A diagnostic message, rendered without a formatter.
    pub fn message(&self) -> (r: String)
        ensures
            r@ == self.spec_message(),
    {
        match self {
            AzureDashboardError::CouldNotGetAccessToken(subscription_id) => String::from_str(
                "Could not fetch access token for subscription '",
            ).concat(subscription_id.as_str()).concat("'"),
            AzureDashboardError::AzureApiError(text) => String::from_str(
                "There was an error calling the Azure API: ",
            ).concat(text.as_str()),
            AzureDashboardError::InternalError => String::from_str("Internal error"),
        }
    }

    /// What `message` returns, as a sequence of characters.
    pub open spec fn spec_message(&self) -> Seq<char> {
        match self {
            AzureDashboardError::CouldNotGetAccessToken(subscription_id) => {
                "Could not fetch access token for subscription '"@ + subscription_id@ + "'"@
            },
            AzureDashboardError::AzureApiError(text) => {
                "There was an error calling the Azure API: "@ + text@
            },
            AzureDashboardError::InternalError => "Internal error"@,
        }
    }
}

impl Clone for AzureDashboardError {
    fn clone(&self) -> (r: Self)
        ensures
            r == *self,
    {
        match self {
            AzureDashboardError::CouldNotGetAccessToken(subscription_id) => {
                AzureDashboardError::CouldNotGetAccessToken(subscription_id.clone())
            },
            AzureDashboardError::AzureApiError(text) => {
                AzureDashboardError::AzureApiError(text.clone())
            },
            AzureDashboardError::InternalError => AzureDashboardError::InternalError,
        }
    }
}

impl PartialEq for AzureDashboardError {
    fn eq(&self, other: &Self) -> (r: bool) {
        match (self, other) {
            (
                AzureDashboardError::CouldNotGetAccessToken(a),
                AzureDashboardError::CouldNotGetAccessToken(b),
            ) => *a == *b,
            (AzureDashboardError::AzureApiError(a), AzureDashboardError::AzureApiError(b)) => *a
                == *b,
            (AzureDashboardError::InternalError, AzureDashboardError::InternalError) => true,
            _ => false,
        }
    }
}

impl vstd::std_specs::cmp::PartialEqSpecImpl for AzureDashboardError {
    open spec fn obeys_eq_spec() -> bool {
        true
    }

    open spec fn eq_spec(&self, other: &Self) -> bool {
        match (self, other) {
            (
                AzureDashboardError::CouldNotGetAccessToken(a),
                AzureDashboardError::CouldNotGetAccessToken(b),
            ) => a@ == b@,
            (AzureDashboardError::AzureApiError(a), AzureDashboardError::AzureApiError(b)) => a@
                == b@,
            (AzureDashboardError::InternalError, AzureDashboardError::InternalError) => true,
            _ => false,
        }
    }
}

/// A failure to obtain an access token.
#[derive(Debug)]
pub enum TokenCacheError {
    /// The named subscription has no configured credential.  A
    /// configuration-time invariant violation, surfaced immediately and
    /// never retried.
    UnknownSubscription(String),
    /// The token endpoint answered with a non-success status; carries the
    /// status and the raw error body for diagnostic propagation.
    AuthError { status: u16, body: String },
}

impl PartialEq for TokenCacheError {
    fn eq(&self, other: &Self) -> (r: bool) {
        match (self, other) {
            (
                TokenCacheError::UnknownSubscription(a),
                TokenCacheError::UnknownSubscription(b),
            ) => *a == *b,
            (
                TokenCacheError::AuthError { status: sa, body: ba },
                TokenCacheError::AuthError { status: sb, body: bb },
            ) => *sa == *sb && *ba == *bb,
            _ => false,
        }
    }
}

impl vstd::std_specs::cmp::PartialEqSpecImpl for TokenCacheError {
    open spec fn obeys_eq_spec() -> bool {
        true
    }

    open spec fn eq_spec(&self, other: &Self) -> bool {
        match (self, other) {
            (
                TokenCacheError::UnknownSubscription(a),
                TokenCacheError::UnknownSubscription(b),
            ) => a@ == b@,
            (
                TokenCacheError::AuthError { status: sa, body: ba },
                TokenCacheError::AuthError { status: sb, body: bb },
            ) => sa == sb && ba@ == bb@,
            _ => false,
        }
    }
}

} // verus!
