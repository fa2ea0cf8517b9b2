//! The per-subscription access-token cache and its registry.
//!
//! A token is fetched through a client-credentials exchange, cached together
//! with its expiry instant, and handed out again until that instant passes.
//! Time enters every contract as a plain unix-seconds value, so the whole
//! cache discipline — the expiry-aware fast path, the wholesale replacement
//! on refresh, and the routing by subscription ID — is stated and proved
//! exactly.  The network transport performs the exchange outside the library
//! and hands back plain values; [`token_from_exchange`] decides what they
//! mean.

use vstd::prelude::*;
use crate::decimal::{parse_i64, spec_parse_i64};
use crate::errors::TokenCacheError;
use crate::settings::{same_subscription_settings, SubscriptionSettings};

verus! {

/// The response from an access token request.
#[derive(Debug)]
pub struct TokenResponse {
    /// The token type (should be "Bearer").
    pub token_type: String,
    /// The number of seconds in which the token expires, as decimal text.
    pub expires_in: String,
    /// The date/time, in unix seconds since the epoch, on which the token
    /// expires, as decimal text.  The relative `expires_in` field is
    /// preferred over this one, which is vulnerable to clock skew.
    pub expires_on: String,
    /// The access token.
    pub access_token: String,
}

impl TokenResponse {
    pub fn token_type(&self) -> (r: String)
        ensures
            r == self.token_type,
    {
        self.token_type.clone()
    }

    pub fn expires_in(&self) -> (r: String)
        ensures
            r == self.expires_in,
    {
        self.expires_in.clone()
    }

    pub fn expires_on(&self) -> (r: String)
        ensures
            r == self.expires_on,
    {
        self.expires_on.clone()
    }

    pub fn access_token(&self) -> (r: String)
        ensures
            r == self.access_token,
    {
        self.access_token.clone()
    }
}

/// An access token together with the instant, in unix seconds, at which it
/// stops being valid.  Superseded wholesale on refresh, never mutated.
#[derive(Debug)]
pub struct AccessToken {
    /// The bearer value presented to the management API.
    pub access_token: String,
    /// The instant, in unix seconds, at which the token expires.
    pub expiry_date: i64,
}

impl AccessToken {
    /// Creates a new access token.
    pub fn new(access_token: String, expiry_date: i64) -> (t: Self)
        ensures
            t.access_token == access_token,
            t.expiry_date == expiry_date,
    {
        AccessToken { access_token, expiry_date }
    }

    /// The access token.
    pub fn access_token(&self) -> (r: String)
        ensures
            r == self.access_token,
    {
        self.access_token.clone()
    }

    /// The expiry instant, in unix seconds.
    pub fn expiry_date(&self) -> (r: i64)
        ensures
            r == self.expiry_date,
    {
        self.expiry_date
    }

    /// Whether the token is expired at `now`: a token is valid only while
    /// its expiry instant lies strictly in the future.
    pub open spec fn spec_is_expired(&self, now: i64) -> bool {
        self.expiry_date <= now
    }

    /// Whether the token has expired at `now` (unix seconds).
    pub fn is_expired(&self, now: i64) -> (r: bool)
        ensures
            r == self.spec_is_expired(now),
    {
        self.expiry_date <= now
    }

    /// Builds an access token from a token response received at `now`:
    /// the validity window is the relative `expires_in` duration added to
    /// `now`.  `None` when `expires_in` is not a decimal numeral or the
    /// expiry instant would not fit in an `i64`.
    pub fn from_response(response: &TokenResponse, now: i64) -> (r: Option<AccessToken>)
        ensures
            match spec_parse_i64(response.expires_in@) {
                Some(d) => if i64::MIN <= now + d <= i64::MAX {
                    r matches Some(t) && t.access_token == response.access_token
                        && t.expiry_date == now + d
                } else {
                    r is None
                },
                None => r is None,
            },
    {
        match parse_i64(self_expires_in_str(response)) {
            Some(d) => match now.checked_add(d) {
                Some(expiry_date) => Some(AccessToken::new(response.access_token(), expiry_date)),
                None => None,
            },
            None => None,
        }
    }
}

impl Clone for AccessToken {
    fn clone(&self) -> (r: Self)
        ensures
            r == *self,
    {
        AccessToken { access_token: self.access_token.clone(), expiry_date: self.expiry_date }
    }
}

/// The `expires_in` field of `response` as a borrowed slice.
fn self_expires_in_str(response: &TokenResponse) -> (r: &str)
    ensures
        r@ == response.expires_in@,
{
    response.expires_in.as_str()
}

/// The token adopted by a client-credentials exchange, decided from the
/// plain values the transport observed: the HTTP status and the parsed
/// response when the body could be read as one.  `None` means the exchange
/// failed and an `AuthError` is owed instead.
pub open spec fn spec_token_from_exchange(
    status: u16,
    response: Option<TokenResponse>,
    now: i64,
) -> Option<AccessToken> {
    if status == 200 {
        match response {
            Some(resp) => match spec_parse_i64(resp.expires_in@) {
                Some(d) => if i64::MIN <= now + d <= i64::MAX {
                    Some(
                        AccessToken {
                            access_token: resp.access_token,
                            expiry_date: (now + d) as i64,
                        },
                    )
                } else {
                    None
                },
                None => None,
            },
            None => None,
        }
    } else {
        None
    }
}

/// Decides a client-credentials exchange: on HTTP 200 with a readable
/// response whose `expires_in` parses, the token is adopted with
/// `expiry_date == now + expires_in`; any other outcome is an `AuthError`
/// carrying the status and the raw body.  A single attempt, never retried
/// here — the caller decides what to do with a failure.
pub fn token_from_exchange(
    status: u16,
    response: Option<TokenResponse>,
    body: String,
    now: i64,
) -> (r: Result<AccessToken, TokenCacheError>)
    ensures
        match spec_token_from_exchange(status, response, now) {
            Some(t) => r matches Ok(u) && u.access_token == t.access_token && u.expiry_date
                == t.expiry_date,
            None => r matches Err(f) && f matches TokenCacheError::AuthError {
                status: s,
                body: b,
            } && s == status && b@ == body@,
        },
{
    if status == 200 {
        if let Some(resp) = response {
            match AccessToken::from_response(&resp, now) {
                Some(token) => Ok(token),
                None => Err(TokenCacheError::AuthError { status, body }),
            }
        } else {
            Err(TokenCacheError::AuthError { status, body })
        }
    } else {
        Err(TokenCacheError::AuthError { status, body })
    }
}

/// An access token cache for a particular subscription.  When asked for a
/// token:
/// - if no token has been fetched, or the fetched token has expired, the
///   caller must run an exchange and install its outcome;
/// - if a token has been fetched and is still valid, it is returned with no
///   exchange at all.
///
/// The surrounding application keeps one of these per subscription behind a
/// reader/writer lock: the fast path takes a read lock, and a refresh
/// replaces the cached token wholesale under a write lock, so a concurrent
/// reader sees either the fully-old or the fully-new token, never a mix.
#[derive(Debug)]
pub struct AccessTokenCache {
    /// The subscription this cache authenticates for.
    pub subscription_settings: SubscriptionSettings,
    /// The cached access token, absent until the first successful exchange.
    pub cached_token: Option<AccessToken>,
}

impl AccessTokenCache {
    /// Creates a new, empty token cache for the given subscription.
    pub fn new(subscription_settings: SubscriptionSettings) -> (c: Self)
        ensures
            c.subscription_settings == subscription_settings,
            c.cached_token is None,
    {
        AccessTokenCache { subscription_settings, cached_token: None }
    }

    /// The subscription this cache authenticates for.
    pub fn subscription_settings(&self) -> (r: &SubscriptionSettings)
        ensures
            r == &self.subscription_settings,
    {
        &self.subscription_settings
    }

    /// What the fast path yields at `now`: the cached token's value when one
    /// is present and its expiry lies strictly in the future, nothing
    /// otherwise.
    pub open spec fn spec_cached_access_token(&self, now: i64) -> Option<Seq<char>> {
        match self.cached_token {
            Some(t) => if !t.spec_is_expired(now) {
                Some(t.access_token@)
            } else {
                None
            },
            None => None,
        }
    }

    /// The fast path of a token request at `now` (unix seconds): returns the
    /// cached token's value exactly when the cache holds an unexpired token,
    /// and `None` when a refresh is owed.
    pub fn cached_access_token(&self, now: i64) -> (r: Option<String>)
        ensures
            match r {
                Some(v) => self.spec_cached_access_token(now) == Some(v@),
                None => self.spec_cached_access_token(now) is None,
            },
    {
        match &self.cached_token {
            Some(token) => if !token.is_expired(now) {
                Some(token.access_token())
            } else {
                None
            },
            None => None,
        }
    }

    /// The slow path of a token request: installs the token a successful
    /// exchange produced, replacing whatever was cached, and returns its
    /// value.  The subscription settings are untouched.
    pub fn install_token(&mut self, token: AccessToken) -> (r: String)
        ensures
            final(self).subscription_settings == old(self).subscription_settings,
            final(self).cached_token == Some(token),
            r == token.access_token,
    {
        let value = token.access_token();
        self.cached_token = Some(token);
        value
    }
}

/// Token freshness: whenever the fast path yields a token value, the cache
/// holds a token whose expiry lies strictly after `now` and the value is
/// exactly that token's — an expired or absent token is never handed out.
pub proof fn lemma_token_freshness(cache: AccessTokenCache, now: i64)
    requires
        cache.spec_cached_access_token(now) is Some,
    ensures
        cache.cached_token matches Some(t) && t.expiry_date > now
            && cache.spec_cached_access_token(now) == Some(t.access_token@),
{
}

/// A refresh hands back a fresh token: a token adopted from an exchange at
/// `now` whose `expires_in` duration is positive expires strictly after
/// `now`, so the slow path, too, never returns an expired token.
pub proof fn lemma_refresh_token_freshness(
    status: u16,
    response: Option<TokenResponse>,
    now: i64,
    d: int,
)
    requires
        response matches Some(resp) && spec_parse_i64(resp.expires_in@) == Some(d),
        d > 0,
        spec_token_from_exchange(status, response, now) is Some,
    ensures
        spec_token_from_exchange(status, response, now) matches Some(t) && t.expiry_date > now,
{
}

/// Single source of truth: once a refresh installs a token, every request
/// strictly before its expiry is answered from the cache with exactly that
/// token's value, so no further exchange is started until it expires.
pub proof fn lemma_cache_hit_after_install(cache: AccessTokenCache, token: AccessToken, later: i64)
    requires
        later < token.expiry_date,
    ensures
        (AccessTokenCache {
            subscription_settings: cache.subscription_settings,
            cached_token: Some(token),
        }).spec_cached_access_token(later) == Some(token.access_token@),
{
}

/// Expiry forces a refresh: once the clock reaches the installed token's
/// expiry instant, the fast path yields nothing, so the next request must
/// run an exchange again.
pub proof fn lemma_expiry_forces_refresh(cache: AccessTokenCache, now: i64)
    requires
        cache.cached_token matches Some(t) && t.expiry_date <= now,
    ensures
        cache.spec_cached_access_token(now) is None,
{
}

/// Reads the system clock.  Relies on chrono's `Utc::now`, which reads the
/// operating system clock (and panics only if that clock is set before the
/// unix epoch), and on `DateTime::timestamp`, which renders the reading as
/// unix seconds.  The result depends on the environment, so nothing is
/// assumed about it; every function that reasons about time takes the
/// reading as a plain argument.
#[verifier::external_body]
fn now_unix_seconds() -> i64 {
    chrono::Utc::now().timestamp()
}

/// The form parameters of a client-credentials exchange for `settings`:
/// the grant type and the subscription's client ID, client secret and
/// resource scope, in that order, ready to be form-encoded by a transport.
pub fn token_request_params(settings: &SubscriptionSettings) -> (r: Vec<(String, String)>)
    ensures
        r@.len() == 4,
        r@[0].0@ == "grant_type"@ && r@[0].1@ == "client_credentials"@,
        r@[1].0@ == "client_id"@ && r@[1].1 == settings.client_id,
        r@[2].0@ == "client_secret"@ && r@[2].1 == settings.client_secret,
        r@[3].0@ == "resource"@ && r@[3].1 == settings.resource,
{
    let mut params: Vec<(String, String)> = Vec::new();
    params.push((String::from_str("grant_type"), String::from_str("client_credentials")));
    params.push((String::from_str("client_id"), settings.client_id()));
    params.push((String::from_str("client_secret"), settings.client_secret()));
    params.push((String::from_str("resource"), settings.resource()));
    params
}

/// Whether no two caches in `caches` serve the same subscription ID.
pub open spec fn caches_wf(caches: Seq<AccessTokenCache>) -> bool {
    forall|i: int, j: int|
        0 <= i < j < caches.len()
            ==> (#[trigger] caches[i]).subscription_settings.subscription_id@ != (
            #[trigger] caches[j]).subscription_settings.subscription_id@
}

/// Whether some cache in `caches` serves `subscription_id`.
pub open spec fn caches_contain(caches: Seq<AccessTokenCache>, subscription_id: Seq<char>) -> bool {
    exists|k: int|
        0 <= k < caches.len() && (#[trigger] caches[k]).subscription_settings.subscription_id@
            == subscription_id
}

/// Whether some element of `subs` carries `subscription_id`.
pub open spec fn spec_has_subscription(
    subs: Seq<SubscriptionSettings>,
    subscription_id: Seq<char>,
) -> bool {
    exists|i: int| 0 <= i < subs.len() && (#[trigger] subs[i]).subscription_id@ == subscription_id
}

/// The last element among the first `n` of `subs` that carries
/// `subscription_id`, if any: when an ID is configured twice, the later
/// entry wins, as in a map built by inserting each entry in turn.
pub open spec fn spec_last_settings_upto(
    subs: Seq<SubscriptionSettings>,
    n: int,
    subscription_id: Seq<char>,
) -> Option<SubscriptionSettings>
    decreases n,
{
    if n <= 0 {
        None
    } else if subs[n - 1].subscription_id@ == subscription_id {
        Some(subs[n - 1])
    } else {
        spec_last_settings_upto(subs, n - 1, subscription_id)
    }
}

/// The settings that a registry built from `subs` serves for
/// `subscription_id`.
pub open spec fn spec_settings_for(
    subs: Seq<SubscriptionSettings>,
    subscription_id: Seq<char>,
) -> Option<SubscriptionSettings> {
    spec_last_settings_upto(subs, subs.len() as int, subscription_id)
}

/// A map of access token caches by subscription ID.  The key set is fixed
/// when the map is built from the configuration at startup; afterwards only
/// the cached tokens change.
#[derive(Debug)]
pub struct AccessTokenCacheMap {
    /// The access token caches, at most one per subscription ID.
    pub access_token_caches: Vec<AccessTokenCache>,
}

impl AccessTokenCacheMap {
    /// Well-formed: no two caches serve the same subscription ID.
    pub open spec fn wf(&self) -> bool {
        caches_wf(self.access_token_caches@)
    }

    /// Whether a cache for `subscription_id` is configured.
    pub open spec fn spec_contains(&self, subscription_id: Seq<char>) -> bool {
        caches_contain(self.access_token_caches@, subscription_id)
    }

    /// Creates a new cache map from the list of subscriptions: one empty
    /// cache per distinct subscription ID, the later entry winning when an
    /// ID is configured twice.
    pub fn new(subscriptions: &Vec<SubscriptionSettings>) -> (m: Self)
        ensures
            m.wf(),
            forall|id: Seq<char>| #[trigger]
                m.spec_contains(id) <==> spec_has_subscription(subscriptions@, id),
            forall|k: int|
                0 <= k < m.access_token_caches@.len() ==> {
                    let cache = #[trigger] m.access_token_caches@[k];
                    &&& cache.cached_token is None
                    &&& spec_settings_for(
                        subscriptions@,
                        cache.subscription_settings.subscription_id@,
                    ) matches Some(s) && same_subscription_settings(cache.subscription_settings, s)
                },
    {
        let mut caches: Vec<AccessTokenCache> = Vec::new();
        let n = subscriptions.len();
        let mut idx: usize = 0;
        while idx < n
            invariant
                idx <= n,
                n == subscriptions@.len(),
                caches_wf(caches@),
                forall|id: Seq<char>| #[trigger]
                    caches_contain(caches@, id) <==> spec_has_subscription(
                        subscriptions@.take(idx as int),
                        id,
                    ),
                forall|k: int|
                    0 <= k < caches@.len() ==> {
                        let cache = #[trigger] caches@[k];
                        &&& cache.cached_token is None
                        &&& spec_last_settings_upto(
                            subscriptions@,
                            idx as int,
                            cache.subscription_settings.subscription_id@,
                        ) matches Some(s) && same_subscription_settings(
                            cache.subscription_settings,
                            s,
                        )
                    },
            decreases n - idx,
        {
            let new_cache = AccessTokenCache::new(subscriptions[idx].clone());
            let ghost old_caches = caches@;
            let mut j: usize = 0;
            let len = caches.len();
            let mut found: Option<usize> = None;
            while j < len
                invariant
                    j <= len,
                    len == caches@.len(),
                    caches@ == old_caches,
                    new_cache.subscription_settings.subscription_id@
                        == subscriptions@[idx as int].subscription_id@,
                    idx < n,
                    n == subscriptions@.len(),
                    match found {
                        Some(f) => f < len
                            && caches@[f as int].subscription_settings.subscription_id@
                            == subscriptions@[idx as int].subscription_id@,
                        None => forall|l: int|
                            0 <= l < j
                                ==> (#[trigger] caches@[l]).subscription_settings.subscription_id@
                                != subscriptions@[idx as int].subscription_id@,
                    },
                decreases len - j,
            {
                if found.is_none() && caches[j].subscription_settings.subscription_id
                    == subscriptions[idx].subscription_id {
                    found = Some(j);
                }
                j = j + 1;
            }
            match found {
                Some(k) => {
                    caches.remove(k);
                    caches.insert(k, new_cache);
                    proof {
                        assert(caches@ =~= old_caches.update(k as int, new_cache));
                    }
                },
                None => {
                    caches.push(new_cache);
                },
            }
            proof {
                assert forall|id: Seq<char>| #[trigger]
                    caches_contain(caches@, id) <==> spec_has_subscription(
                        subscriptions@.take(idx + 1),
                        id,
                    ) by {
                    lemma_has_subscription_snoc(subscriptions@, idx as int, id);
                    if caches_contain(caches@, id) {
                        let w = choose|w: int|
                            0 <= w < caches@.len() && (
                            #[trigger] caches@[w]).subscription_settings.subscription_id@ == id;
                        if w < old_caches.len() && caches@[w] == old_caches[w] {
                            assert(caches_contain(old_caches, id));
                        }
                    }
                    if spec_has_subscription(subscriptions@.take(idx + 1), id) {
                        if id != subscriptions@[idx as int].subscription_id@ {
                            assert(caches_contain(old_caches, id));
                            let w = choose|w: int|
                                0 <= w < old_caches.len() && (
                                #[trigger] old_caches[w]).subscription_settings.subscription_id@
                                    == id;
                            assert(caches@[w].subscription_settings.subscription_id@ == id);
                        } else {
                            match found {
                                Some(k) => {
                                    assert(caches@[k as int].subscription_settings.subscription_id@
                                        == id);
                                },
                                None => {
                                    assert(caches@[old_caches.len() as int]
                                        .subscription_settings.subscription_id@ == id);
                                },
                            }
                        }
                    }
                }
            }
            idx = idx + 1;
        }
        proof {
            assert(subscriptions@.take(n as int) =~= subscriptions@);
        }
        AccessTokenCacheMap { access_token_caches: caches }
    }
}

/// On a sequence extended by one element, an ID occurs exactly when it
/// occurs in the prefix or is carried by the new element.
proof fn lemma_has_subscription_snoc(subs: Seq<SubscriptionSettings>, idx: int, id: Seq<char>)
    requires
        0 <= idx < subs.len(),
    ensures
        spec_has_subscription(subs.take(idx + 1), id) <==> (spec_has_subscription(
            subs.take(idx),
            id,
        ) || subs[idx].subscription_id@ == id),
{
    if spec_has_subscription(subs.take(idx + 1), id) {
        let w = choose|w: int|
            0 <= w < subs.take(idx + 1).len() && (
            #[trigger] subs.take(idx + 1)[w]).subscription_id@ == id;
        if w < idx {
            assert(subs.take(idx)[w].subscription_id@ == id);
        }
    }
    if spec_has_subscription(subs.take(idx), id) {
        let w = choose|w: int|
            0 <= w < subs.take(idx).len() && (#[trigger] subs.take(idx)[w]).subscription_id@ == id;
        assert(subs.take(idx + 1)[w].subscription_id@ == id);
    }
    if subs[idx].subscription_id@ == id {
        assert(subs.take(idx + 1)[idx].subscription_id@ == id);
    }
}

impl AccessTokenCacheMap {
    /// The position of the cache serving `subscription_id`, if one is
    /// configured.
    fn find_cache_index(&self, subscription_id: &String) -> (r: Option<usize>)
        ensures
            match r {
                Some(k) => k < self.access_token_caches@.len()
                    && self.access_token_caches@[k as int].subscription_settings.subscription_id@
                    == subscription_id@,
                None => !self.spec_contains(subscription_id@),
            },
    {
        let mut j: usize = 0;
        let n = self.access_token_caches.len();
        while j < n
            invariant
                j <= n,
                n == self.access_token_caches@.len(),
                forall|l: int|
                    0 <= l < j
                        ==> (#[trigger] self.access_token_caches@[l])
                        .subscription_settings.subscription_id@ != subscription_id@,
            decreases n - j,
        {
            if self.access_token_caches[j].subscription_settings.subscription_id
                == *subscription_id {
                return Some(j);
            }
            j = j + 1;
        }
        None
    }

    /// The fast path of a token request routed by subscription ID at `now`
    /// (unix seconds).  An unconfigured subscription is rejected with
    /// `UnknownSubscription` before anything else could happen — in
    /// particular, no exchange is ever run for it.  For a configured one,
    /// the outcome is exactly its cache's fast path: the cached token's
    /// value when it is unexpired, or `None` when a refresh is owed.
    pub fn cached_access_token(&self, subscription_id: &String, now: i64) -> (r: Result<
        Option<String>,
        TokenCacheError,
    >)
        ensures
            match r {
                Ok(hit) => exists|k: int|
                    {
                        &&& 0 <= k < self.access_token_caches@.len()
                        &&& (#[trigger] self.access_token_caches@[k])
                            .subscription_settings.subscription_id@ == subscription_id@
                        &&& match hit {
                            Some(v) => self.access_token_caches@[k].spec_cached_access_token(now)
                                == Some(v@),
                            None => self.access_token_caches@[k].spec_cached_access_token(now)
                                is None,
                        }
                    },
                Err(e) => !self.spec_contains(subscription_id@) && (e
                    matches TokenCacheError::UnknownSubscription(x) && x@ == subscription_id@),
            },
    {
        match self.find_cache_index(subscription_id) {
            Some(k) => Ok(self.access_token_caches[k].cached_access_token(now)),
            None => Err(TokenCacheError::UnknownSubscription(subscription_id.clone())),
        }
    }

    /// The fast path against the live system clock.  Whether a cached token
    /// counts as expired depends on the clock reading, so this promises
    /// only what holds for every reading: an unconfigured subscription is
    /// always rejected with `UnknownSubscription`, and a returned value is
    /// always the stored token's own.  The clock-explicit contract lives on
    /// [`Self::cached_access_token`], which this function merely applies to
    /// the reading.
    pub fn cached_access_token_now(&self, subscription_id: &String) -> (r: Result<
        Option<String>,
        TokenCacheError,
    >)
        ensures
            match r {
                Ok(hit) => self.spec_contains(subscription_id@) && match hit {
                    Some(v) => exists|k: int|
                        {
                            &&& 0 <= k < self.access_token_caches@.len()
                            &&& (#[trigger] self.access_token_caches@[k])
                                .subscription_settings.subscription_id@ == subscription_id@
                            &&& self.access_token_caches@[k].cached_token matches Some(t)
                                && t.access_token@ == v@
                        },
                    None => true,
                },
                Err(e) => !self.spec_contains(subscription_id@) && (e
                    matches TokenCacheError::UnknownSubscription(x) && x@ == subscription_id@),
            },
    {
        let now = now_unix_seconds();
        self.cached_access_token(subscription_id, now)
    }

    /// Installs the token a successful exchange produced into the cache
    /// serving `subscription_id`, replacing whatever was cached there, and
    /// returns its value.  Every other cache, and the settings of the
    /// touched one, are untouched.  An unconfigured subscription is
    /// rejected with `UnknownSubscription` and nothing changes.
    pub fn install_token(&mut self, subscription_id: &String, token: AccessToken) -> (r: Result<
        String,
        TokenCacheError,
    >)
        requires
            old(self).wf(),
        ensures
            final(self).wf(),
            match r {
                Ok(v) => v == token.access_token && exists|k: int|
                    {
                        &&& 0 <= k < old(self).access_token_caches@.len()
                        &&& (#[trigger] old(self).access_token_caches@[k])
                            .subscription_settings.subscription_id@ == subscription_id@
                        &&& final(self).access_token_caches@ == old(
                            self,
                        ).access_token_caches@.update(
                            k,
                            AccessTokenCache {
                                subscription_settings: old(
                                    self,
                                ).access_token_caches@[k].subscription_settings,
                                cached_token: Some(token),
                            },
                        )
                    },
                Err(e) => !old(self).spec_contains(subscription_id@) && (e
                    matches TokenCacheError::UnknownSubscription(x) && x@ == subscription_id@)
                    && *final(self) == *old(self),
            },
    {
        let ghost old_caches = self.access_token_caches@;
        match self.find_cache_index(subscription_id) {
            Some(k) => {
                let mut cache = self.access_token_caches.remove(k);
                let value = cache.install_token(token);
                self.access_token_caches.insert(k, cache);
                proof {
                    assert(self.access_token_caches@ =~= old_caches.update(
                        k as int,
                        AccessTokenCache {
                            subscription_settings: old_caches[k as int].subscription_settings,
                            cached_token: Some(token),
                        },
                    ));
                    assert forall|i: int, j: int|
                        0 <= i < j < self.access_token_caches@.len() implies (
                    #[trigger] self.access_token_caches@[i]).subscription_settings.subscription_id@
                        != (#[trigger] self.access_token_caches@[j])
                        .subscription_settings.subscription_id@ by {
                        assert(old_caches[i].subscription_settings.subscription_id@
                            != old_caches[j].subscription_settings.subscription_id@);
                    }
                }
                Ok(value)
            },
            None => Err(TokenCacheError::UnknownSubscription(subscription_id.clone())),
        }
    }

    /// The settings of the subscription a cache is configured for, by ID;
    /// `None` when the subscription is unknown.  The transport reads the
    /// token endpoint and credentials from here to run an exchange.
    pub fn settings_for(&self, subscription_id: &String) -> (r: Option<&SubscriptionSettings>)
        ensures
            match r {
                Some(s) => exists|k: int|
                    {
                        &&& 0 <= k < self.access_token_caches@.len()
                        &&& (#[trigger] self.access_token_caches@[k])
                            .subscription_settings.subscription_id@ == subscription_id@
                        &&& *s == self.access_token_caches@[k].subscription_settings
                    },
                None => !self.spec_contains(subscription_id@),
            },
    {
        match self.find_cache_index(subscription_id) {
            Some(k) => Some(self.access_token_caches[k].subscription_settings()),
            None => None,
        }
    }
}

/// Unknown subscription: an ID that no configured entry carries is absent
/// from the registry that construction builds, so a token request for it
/// answers `UnknownSubscription` — by the contracts of
/// [`AccessTokenCacheMap::cached_access_token`] and
/// [`AccessTokenCacheMap::install_token`] — and no exchange is ever run on
/// its behalf.
pub proof fn lemma_unknown_subscription(
    m: AccessTokenCacheMap,
    subscriptions: Seq<SubscriptionSettings>,
    id: Seq<char>,
)
    requires
        forall|sid: Seq<char>| #[trigger]
            m.spec_contains(sid) <==> spec_has_subscription(subscriptions, sid),
        !spec_has_subscription(subscriptions, id),
    ensures
        !m.spec_contains(id),
{
}

/// Single source of truth at the registry: once a refresh installs a token
/// for a subscription — the update that
/// [`AccessTokenCacheMap::install_token`] promises — every request for that
/// subscription strictly before the token's expiry is answered from the
/// cache with exactly that token's value, so no further exchange is started
/// until it expires.
pub proof fn lemma_registry_hit_after_install(
    before: AccessTokenCacheMap,
    after: AccessTokenCacheMap,
    subscription_id: Seq<char>,
    token: AccessToken,
    k: int,
    later: i64,
)
    requires
        before.wf(),
        0 <= k < before.access_token_caches@.len(),
        before.access_token_caches@[k].subscription_settings.subscription_id@ == subscription_id,
        after.access_token_caches@ == before.access_token_caches@.update(
            k,
            AccessTokenCache {
                subscription_settings: before.access_token_caches@[k].subscription_settings,
                cached_token: Some(token),
            },
        ),
        later < token.expiry_date,
    ensures
        forall|j: int|
            0 <= j < after.access_token_caches@.len() && (
            #[trigger] after.access_token_caches@[j]).subscription_settings.subscription_id@
                == subscription_id ==> after.access_token_caches@[j].spec_cached_access_token(
                later,
            ) == Some(token.access_token@),
{
    assert forall|j: int|
        0 <= j < after.access_token_caches@.len() && (
        #[trigger] after.access_token_caches@[j]).subscription_settings.subscription_id@
            == subscription_id implies after.access_token_caches@[j].spec_cached_access_token(
        later,
    ) == Some(token.access_token@) by {
        if j != k {
            assert(after.access_token_caches@[j] == before.access_token_caches@[j]);
            assert(before.access_token_caches@[j].subscription_settings.subscription_id@
                != before.access_token_caches@[k].subscription_settings.subscription_id@);
        }
    }
}

} // verus!
