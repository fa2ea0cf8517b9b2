use azure_dashboard_server::azure_token_cache::{
    token_from_exchange, token_request_params, AccessToken, AccessTokenCache, AccessTokenCacheMap,
    TokenResponse,
};
use azure_dashboard_server::errors::TokenCacheError;
use azure_dashboard_server::settings::SubscriptionSettings;

fn subscription(id: &str, client_id: &str) -> SubscriptionSettings {
    SubscriptionSettings {
        client_id: client_id.to_string(),
        client_secret: "SECRET-REDACTED".to_string(),
        display_name: format!("subscription {id}"),
        resource: "https://management.azure.com".to_string(),
        subscription_id: id.to_string(),
        tenant_id: "tenant-a".to_string(),
        token_url: "https://login.example.com/tenant-a/oauth2/token".to_string(),
        databases: Vec::new(),
        elastic_pools: Vec::new(),
    }
}

fn bearer_response(token: &str, expires_in: &str) -> TokenResponse {
    TokenResponse {
        token_type: "Bearer".to_string(),
        expires_in: expires_in.to_string(),
        expires_on: "0".to_string(),
        access_token: token.to_string(),
    }
}

#[test]
fn token_response_getters_return_the_fields() {
    let resp = bearer_response("tok-1", "3600");
    assert_eq!(resp.token_type(), "Bearer");
    assert_eq!(resp.expires_in(), "3600");
    assert_eq!(resp.expires_on(), "0");
    assert_eq!(resp.access_token(), "tok-1");
}

#[test]
fn access_token_getters_and_expiry() {
    let token = AccessToken::new("tok-1".to_string(), 100);
    assert_eq!(token.access_token(), "tok-1");
    assert_eq!(token.expiry_date(), 100);
    // Valid only while the expiry lies strictly in the future.
    assert!(!token.is_expired(99));
    assert!(token.is_expired(100));
    assert!(token.is_expired(101));
}

#[test]
fn builds_token_from_response_with_relative_expiry() {
    let resp = bearer_response("tok-1", "3600");
    let token = AccessToken::from_response(&resp, 1_000).unwrap();
    assert_eq!(token.access_token(), "tok-1");
    assert_eq!(token.expiry_date(), 4_600);
}

#[test]
fn rejects_unreadable_or_overflowing_expiry() {
    assert!(AccessToken::from_response(&bearer_response("t", "abc"), 0).is_none());
    assert!(AccessToken::from_response(&bearer_response("t", ""), 0).is_none());
    assert!(AccessToken::from_response(&bearer_response("t", "1"), i64::MAX).is_none());
}

#[test]
fn exchange_adopts_token_on_success() {
    let outcome = token_from_exchange(200, Some(bearer_response("tok-1", "60")), String::new(), 40);
    let token = outcome.unwrap();
    assert_eq!(token.access_token(), "tok-1");
    assert_eq!(token.expiry_date(), 100);
}

#[test]
fn exchange_fails_on_error_status_with_status_and_body() {
    let outcome = token_from_exchange(401, None, "bad credentials".to_string(), 40);
    assert_eq!(
        outcome.unwrap_err(),
        TokenCacheError::AuthError { status: 401, body: "bad credentials".to_string() }
    );
}

#[test]
fn exchange_fails_on_unreadable_success_body() {
    let outcome = token_from_exchange(200, None, "not json".to_string(), 40);
    assert_eq!(
        outcome.unwrap_err(),
        TokenCacheError::AuthError { status: 200, body: "not json".to_string() }
    );
    let outcome = token_from_exchange(
        200,
        Some(bearer_response("tok-1", "soon")),
        "{}".to_string(),
        40,
    );
    assert_eq!(
        outcome.unwrap_err(),
        TokenCacheError::AuthError { status: 200, body: "{}".to_string() }
    );
}

#[test]
fn cache_starts_empty_and_misses() {
    let cache = AccessTokenCache::new(subscription("sub-a", "client-a"));
    assert_eq!(cache.subscription_settings().subscription_id(), "sub-a");
    assert!(cache.cached_access_token(0).is_none());
}

#[test]
fn cache_serves_installed_token_until_expiry() {
    let mut cache = AccessTokenCache::new(subscription("sub-a", "client-a"));
    let installed = cache.install_token(AccessToken::new("tok-1".to_string(), 500));
    assert_eq!(installed, "tok-1");
    // Single source of truth: every call before expiry returns the same
    // value, and nothing needed to be installed again.
    assert_eq!(cache.cached_access_token(100).unwrap(), "tok-1");
    assert_eq!(cache.cached_access_token(499).unwrap(), "tok-1");
    // Token freshness: once the clock reaches the expiry instant, the
    // cache stops serving the token and a refresh is owed.
    assert!(cache.cached_access_token(500).is_none());
    assert!(cache.cached_access_token(501).is_none());
}

#[test]
fn cache_replaces_token_wholesale_on_refresh() {
    let mut cache = AccessTokenCache::new(subscription("sub-a", "client-a"));
    cache.install_token(AccessToken::new("tok-1".to_string(), 500));
    cache.install_token(AccessToken::new("tok-2".to_string(), 900));
    assert_eq!(cache.cached_access_token(600).unwrap(), "tok-2");
}

#[test]
fn request_params_carry_the_grant_and_credentials() {
    let params = token_request_params(&subscription("sub-a", "client-a"));
    assert_eq!(params.len(), 4);
    assert_eq!(params[0], ("grant_type".to_string(), "client_credentials".to_string()));
    assert_eq!(params[1], ("client_id".to_string(), "client-a".to_string()));
    assert_eq!(params[2], ("client_secret".to_string(), "SECRET-REDACTED".to_string()));
    assert_eq!(params[3], ("resource".to_string(), "https://management.azure.com".to_string()));
}

#[test]
fn registry_rejects_unknown_subscription_without_any_exchange() {
    let map = AccessTokenCacheMap::new(&vec![
        subscription("sub-a", "client-a"),
        subscription("sub-b", "client-b"),
    ]);
    let err = map.cached_access_token(&"nonexistent".to_string(), 0).unwrap_err();
    assert_eq!(err, TokenCacheError::UnknownSubscription("nonexistent".to_string()));
    let mut map = map;
    let err = map
        .install_token(&"nonexistent".to_string(), AccessToken::new("t".to_string(), 10))
        .unwrap_err();
    assert_eq!(err, TokenCacheError::UnknownSubscription("nonexistent".to_string()));
    assert!(map.settings_for(&"nonexistent".to_string()).is_none());
}

#[test]
fn registry_routes_by_subscription_id() {
    let mut map = AccessTokenCacheMap::new(&vec![
        subscription("sub-a", "client-a"),
        subscription("sub-b", "client-b"),
    ]);
    // Both caches start empty: a refresh is owed.
    assert_eq!(map.cached_access_token(&"sub-a".to_string(), 0).unwrap(), None);
    assert_eq!(map.cached_access_token(&"sub-b".to_string(), 0).unwrap(), None);
    // Install a token for one subscription only.
    let value = map
        .install_token(&"sub-a".to_string(), AccessToken::new("tok-a".to_string(), 500))
        .unwrap();
    assert_eq!(value, "tok-a");
    assert_eq!(map.cached_access_token(&"sub-a".to_string(), 100).unwrap(), Some("tok-a".to_string()));
    assert_eq!(map.cached_access_token(&"sub-b".to_string(), 100).unwrap(), None);
    // The settings are served by ID for the transport to run exchanges.
    assert_eq!(map.settings_for(&"sub-b".to_string()).unwrap().client_id(), "client-b");
}

#[test]
fn registry_lets_a_later_duplicate_win() {
    let map = AccessTokenCacheMap::new(&vec![
        subscription("sub-a", "client-old"),
        subscription("sub-b", "client-b"),
        subscription("sub-a", "client-new"),
    ]);
    assert_eq!(map.settings_for(&"sub-a".to_string()).unwrap().client_id(), "client-new");
    assert_eq!(map.settings_for(&"sub-b".to_string()).unwrap().client_id(), "client-b");
}

#[test]
fn live_clock_fast_path_still_routes_by_id() {
    let mut map = AccessTokenCacheMap::new(&vec![subscription("sub-a", "client-a")]);
    let err = map.cached_access_token_now(&"nonexistent".to_string()).unwrap_err();
    assert_eq!(err, TokenCacheError::UnknownSubscription("nonexistent".to_string()));
    // A token that never expires within the representable clock is served
    // whatever the present reading is.
    map.install_token(&"sub-a".to_string(), AccessToken::new("tok-a".to_string(), i64::MAX))
        .unwrap();
    assert_eq!(
        map.cached_access_token_now(&"sub-a".to_string()).unwrap(),
        Some("tok-a".to_string())
    );
}
