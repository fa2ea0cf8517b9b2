//! Static configuration: which subscriptions the dashboard knows, the
//! credentials of each, and the databases and elastic pools it displays.
//!
//! Configuration is loaded once at process start by the surrounding
//! application and handed to the library as plain values; nothing here is
//! mutated afterwards.

use vstd::prelude::*;

verus! {

/// Settings for a database to be displayed in the dashboard.
#[derive(Debug)]
pub struct DatabaseSettings {
    /// The server name.
    pub server_name: String,
    /// The database name.
    pub database_name: String,
}

impl DatabaseSettings {
    pub fn database_name(&self) -> (r: String)
        ensures
            r == self.database_name,
    {
        self.database_name.clone()
    }

    pub fn server_name(&self) -> (r: String)
        ensures
            r == self.server_name,
    {
        self.server_name.clone()
    }
}

impl Clone for DatabaseSettings {
    fn clone(&self) -> (r: Self)
        ensures
            r == *self,
    {
        DatabaseSettings {
            server_name: self.server_name.clone(),
            database_name: self.database_name.clone(),
        }
    }
}

/// Settings for an elastic pool to be displayed in the dashboard.
#[derive(Debug)]
pub struct ElasticPoolSettings {
    /// The server name.
    pub server_name: String,
    /// The elastic pool name.
    pub elastic_pool_name: String,
}

impl ElasticPoolSettings {
    pub fn elastic_pool_name(&self) -> (r: String)
        ensures
            r == self.elastic_pool_name,
    {
        self.elastic_pool_name.clone()
    }

    pub fn server_name(&self) -> (r: String)
        ensures
            r == self.server_name,
    {
        self.server_name.clone()
    }
}

impl Clone for ElasticPoolSettings {
    fn clone(&self) -> (r: Self)
        ensures
            r == *self,
    {
        ElasticPoolSettings {
            server_name: self.server_name.clone(),
            elastic_pool_name: self.elastic_pool_name.clone(),
        }
    }
}

/// The settings relating to a single subscription: its identity, the
/// credentials used for the client-credentials grant, and the resources it
/// displays.  One credential set per subscription, immutable after startup.
#[derive(Debug)]
pub struct SubscriptionSettings {
    /// The app registration client ID.
    pub client_id: String,
    /// The app registration secret value.  Never logged in cleartext.
    pub client_secret: String,
    /// The display name for this subscription.
    pub display_name: String,
    /// The OAuth2 resource scope, e.g. a management endpoint URL.
    pub resource: String,
    /// The subscription ID.
    pub subscription_id: String,
    /// The tenant ID.
    pub tenant_id: String,
    /// The OAuth2 token endpoint URL.
    pub token_url: String,
    /// The databases to be displayed in the dashboard.
    pub databases: Vec<DatabaseSettings>,
    /// The elastic pools to be displayed in the dashboard.
    pub elastic_pools: Vec<ElasticPoolSettings>,
}

impl SubscriptionSettings {
    pub fn client_id(&self) -> (r: String)
        ensures
            r == self.client_id,
    {
        self.client_id.clone()
    }

    pub fn client_secret(&self) -> (r: String)
        ensures
            r == self.client_secret,
    {
        self.client_secret.clone()
    }

    pub fn display_name(&self) -> (r: String)
        ensures
            r == self.display_name,
    {
        self.display_name.clone()
    }

    pub fn subscription_id(&self) -> (r: String)
        ensures
            r == self.subscription_id,
    {
        self.subscription_id.clone()
    }

    pub fn resource(&self) -> (r: String)
        ensures
            r == self.resource,
    {
        self.resource.clone()
    }

    pub fn tenant_id(&self) -> (r: String)
        ensures
            r == self.tenant_id,
    {
        self.tenant_id.clone()
    }

    pub fn token_url(&self) -> (r: String)
        ensures
            r == self.token_url,
    {
        self.token_url.clone()
    }

    pub fn databases(&self) -> (r: &Vec<DatabaseSettings>)
        ensures
            r == &self.databases,
    {
        &self.databases
    }

    pub fn elastic_pools(&self) -> (r: &Vec<ElasticPoolSettings>)
        ensures
            r == &self.elastic_pools,
    {
        &self.elastic_pools
    }
}

/// Whether two subscription settings hold the same data.  `Vec` fields are
/// compared by their contents, so this is the equality that a clone preserves.
pub open spec fn same_subscription_settings(a: SubscriptionSettings, b: SubscriptionSettings) -> bool {
    &&& a.client_id == b.client_id
    &&& a.client_secret == b.client_secret
    &&& a.display_name == b.display_name
    &&& a.resource == b.resource
    &&& a.subscription_id == b.subscription_id
    &&& a.tenant_id == b.tenant_id
    &&& a.token_url == b.token_url
    &&& a.databases@ == b.databases@
    &&& a.elastic_pools@ == b.elastic_pools@
}

impl Clone for SubscriptionSettings {
    fn clone(&self) -> (r: Self)
        ensures
            same_subscription_settings(r, *self),
    {
        let databases = self.databases.clone();
        let elastic_pools = self.elastic_pools.clone();
        proof {
            assert forall|i: int| 0 <= i < databases@.len() implies databases@[i]
                == self.databases@[i] by {
                assert(cloned::<DatabaseSettings>(self.databases@[i], databases@[i]));
            }
            assert(databases@ =~= self.databases@);
            assert forall|i: int| 0 <= i < elastic_pools@.len() implies elastic_pools@[i]
                == self.elastic_pools@[i] by {
                assert(cloned::<ElasticPoolSettings>(self.elastic_pools@[i], elastic_pools@[i]));
            }
            assert(elastic_pools@ =~= self.elastic_pools@);
        }
        SubscriptionSettings {
            client_id: self.client_id.clone(),
            client_secret: self.client_secret.clone(),
            display_name: self.display_name.clone(),
            resource: self.resource.clone(),
            subscription_id: self.subscription_id.clone(),
            tenant_id: self.tenant_id.clone(),
            token_url: self.token_url.clone(),
            databases,
            elastic_pools,
        }
    }
}

/// The application configuration: the address to serve on and the
/// subscriptions to display.
#[derive(Debug)]
pub struct DashboardSettings {
    /// The host to run on, e.g. a loopback name.
    pub host: String,
    /// The port to run on.
    pub port: u16,
    /// The subscriptions.
    pub subscriptions: Vec<SubscriptionSettings>,
}

impl DashboardSettings {
    /// The configured host.
    pub fn host(&self) -> (r: String)
        ensures
            r == self.host,
    {
        self.host.clone()
    }

    /// The configured port.
    pub fn port(&self) -> (r: u16)
        ensures
            r == self.port,
    {
        self.port
    }

    /// The subscriptions.
    pub fn subscriptions(&self) -> (r: &Vec<SubscriptionSettings>)
        ensures
            r == &self.subscriptions,
    {
        &self.subscriptions
    }
}

} // verus!
