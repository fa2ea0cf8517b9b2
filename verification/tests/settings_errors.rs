use azure_dashboard_server::errors::{AzureDashboardError, TokenCacheError};
use azure_dashboard_server::settings::{
    DashboardSettings, DatabaseSettings, ElasticPoolSettings, SubscriptionSettings,
};

fn sample_settings() -> DashboardSettings {
    DashboardSettings {
        host: "localhost".to_string(),
        port: 8080,
        subscriptions: vec![SubscriptionSettings {
            client_id: "client-a".to_string(),
            client_secret: "SECRET-REDACTED".to_string(),
            display_name: "Production".to_string(),
            resource: "https://management.azure.com".to_string(),
            subscription_id: "sub-a".to_string(),
            tenant_id: "tenant-a".to_string(),
            token_url: "https://login.example.com/tenant-a/oauth2/token".to_string(),
            databases: vec![DatabaseSettings {
                server_name: "server-1".to_string(),
                database_name: "db-1".to_string(),
            }],
            elastic_pools: vec![ElasticPoolSettings {
                server_name: "server-1".to_string(),
                elastic_pool_name: "pool-1".to_string(),
            }],
        }],
    }
}

#[test]
fn dashboard_settings_getters_return_the_fields() {
    let settings = sample_settings();
    assert_eq!(settings.host(), "localhost");
    assert_eq!(settings.port(), 8080);
    assert_eq!(settings.subscriptions().len(), 1);
}

#[test]
fn subscription_settings_getters_return_the_fields() {
    let settings = sample_settings();
    let sub = &settings.subscriptions()[0];
    assert_eq!(sub.client_id(), "client-a");
    assert_eq!(sub.client_secret(), "SECRET-REDACTED");
    assert_eq!(sub.display_name(), "Production");
    assert_eq!(sub.resource(), "https://management.azure.com");
    assert_eq!(sub.subscription_id(), "sub-a");
    assert_eq!(sub.tenant_id(), "tenant-a");
    assert_eq!(sub.token_url(), "https://login.example.com/tenant-a/oauth2/token");
    assert_eq!(sub.databases().len(), 1);
    assert_eq!(sub.elastic_pools().len(), 1);
}

#[test]
fn resource_settings_getters_return_the_fields() {
    let settings = sample_settings();
    let sub = &settings.subscriptions()[0];
    assert_eq!(sub.databases()[0].server_name(), "server-1");
    assert_eq!(sub.databases()[0].database_name(), "db-1");
    assert_eq!(sub.elastic_pools()[0].server_name(), "server-1");
    assert_eq!(sub.elastic_pools()[0].elastic_pool_name(), "pool-1");
}

#[test]
fn subscription_settings_clone_preserves_every_field() {
    let settings = sample_settings();
    let original = &settings.subscriptions()[0];
    let copy = original.clone();
    assert_eq!(copy.client_id(), original.client_id());
    assert_eq!(copy.client_secret(), original.client_secret());
    assert_eq!(copy.subscription_id(), original.subscription_id());
    assert_eq!(copy.token_url(), original.token_url());
    assert_eq!(copy.databases().len(), original.databases().len());
    assert_eq!(copy.elastic_pools().len(), original.elastic_pools().len());
}

#[test]
fn dashboard_errors_render_their_messages() {
    assert_eq!(
        AzureDashboardError::CouldNotGetAccessToken("sub-a".to_string()).message(),
        "Could not fetch access token for subscription 'sub-a'"
    );
    assert_eq!(
        AzureDashboardError::AzureApiError("code: details".to_string()).message(),
        "There was an error calling the Azure API: code: details"
    );
    assert_eq!(AzureDashboardError::InternalError.message(), "Internal error");
}

#[test]
fn errors_compare_by_variant_and_payload() {
    assert_eq!(
        AzureDashboardError::AzureApiError("a".to_string()),
        AzureDashboardError::AzureApiError("a".to_string())
    );
    assert_ne!(
        AzureDashboardError::AzureApiError("a".to_string()),
        AzureDashboardError::AzureApiError("b".to_string())
    );
    assert_ne!(
        AzureDashboardError::AzureApiError("a".to_string()),
        AzureDashboardError::InternalError
    );
    assert_eq!(
        TokenCacheError::UnknownSubscription("s".to_string()),
        TokenCacheError::UnknownSubscription("s".to_string())
    );
    assert_ne!(
        TokenCacheError::UnknownSubscription("s".to_string()),
        TokenCacheError::AuthError { status: 401, body: "s".to_string() }
    );
    assert_ne!(
        TokenCacheError::AuthError { status: 401, body: "x".to_string() },
        TokenCacheError::AuthError { status: 403, body: "x".to_string() }
    );
}
