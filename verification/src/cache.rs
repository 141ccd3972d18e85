//! The cache handle: the connection pool's lifecycle, and the start of every
//! operation.

use vstd::prelude::*;

use crate::keys::{plain_key, scoped_key};
use crate::pool::{create_pool, endpoint_accepted, PoolHandle};
use crate::protocol::{settle, OperationView, Step};
use crate::stats::Stats;

verus! {

/// The time to live of plain entries, in seconds: twelve hours.
pub const DEFAULT_TTL: usize = 43200;

/// The cache handle: a connection pool, if the cache is enabled, and the time
/// to live of plain entries. The cache is disabled exactly when it holds no
/// pool.
pub struct Cache {
    pool: Option<PoolHandle>,
    ttl: usize,
}

impl Cache {
    /// Whether the cache holds a pool.
    pub closed spec fn enabled(&self) -> bool {
        self.pool is Some
    }

    /// The time to live of plain entries, in seconds.
    pub closed spec fn time_to_live(&self) -> nat {
        self.ttl as nat
    }

    /// A disabled cache with the default time to live.
    pub fn default() -> (cache: Cache)
        ensures
            !cache.enabled(),
            cache.time_to_live() == DEFAULT_TTL,
    {
        Cache { pool: None, ttl: DEFAULT_TTL }
    }

    /// A cache for the configured endpoint. Without an endpoint, or with one
    /// that is not accepted, the cache is disabled: this is no error.
    pub fn new(redis_url: Option<&str>) -> (cache: Cache)
        ensures
            cache.time_to_live() == DEFAULT_TTL,
            cache.enabled() <==> (redis_url matches Some(url) && endpoint_accepted(url@)),
    {
        let mut cache = Cache::default();
        let url = match redis_url {
            Some(url) => url,
            None => {
                return cache;
            },
        };
        match create_pool(url) {
            Ok(pool) => {
                cache.pool = Some(pool);
            },
            Err(_) => {},
        }
        cache
    }

    /// Whether the cache holds a pool.
    pub fn is_enabled(&self) -> (enabled: bool)
        ensures
            enabled == self.enabled(),
    {
        self.pool.is_some()
    }

    /// The time to live of plain entries, in seconds.
    pub fn ttl(&self) -> (ttl: usize)
        ensures
            ttl == self.time_to_live(),
    {
        self.ttl
    }

    /// The pool to take connections from, if the cache is enabled.
    pub fn pool(&self) -> (pool: Option<&PoolHandle>)
        ensures
            pool is Some <==> self.enabled(),
    {
        self.pool.as_ref()
    }

    /// Drops the pool: the cache is disabled from now on.
    pub fn disable_cache(&mut self)
        ensures
            !final(self).enabled(),
            final(self).time_to_live() == old(self).time_to_live(),
    {
        self.pool = None;
    }

    /// Replaces the handle by a new one for the configured endpoint.
    pub fn enable_cache(&mut self, redis_url: Option<&str>)
        ensures
            final(self).time_to_live() == DEFAULT_TTL,
            final(self).enabled() <==> (redis_url matches Some(url) && endpoint_accepted(url@)),
    {
        *self = Cache::new(redis_url);
    }

    /// Starts a typed read of the plain entry of this type and id.
    pub fn get(&self, type_id: &str, id: &str, stats: &mut Stats) -> (next: Step)
        ensures
            next@ == (OperationView::Get { type_id: type_id@, id: id@ }).begin(
                self.enabled(),
                self.time_to_live(),
            ),
            final(stats)@ == settle(old(stats)@, true, next@),
    {
        Step::start_typed_read(self.pool.is_some(), plain_key(type_id, id), stats)
    }

    /// Starts a write of the plain entry of this type and id, to expire after
    /// the cache's time to live.
    pub fn setex(&self, type_id: &str, id: &str) -> (next: Step)
        ensures
            next@ == (OperationView::SetEx { type_id: type_id@, id: id@ }).begin(
                self.enabled(),
                self.time_to_live(),
            ),
    {
        Step::start_write(self.pool.is_some(), plain_key(type_id, id), Some(self.ttl))
    }

    /// Starts a write of the scoped entry of this scope and type, without
    /// expiry.
    pub fn set_scoped(&self, scope: &str, type_id: &str) -> (next: Step)
        ensures
            next@ == (OperationView::SetScoped { scope: scope@, type_id: type_id@ }).begin(
                self.enabled(),
                self.time_to_live(),
            ),
    {
        Step::start_write(self.pool.is_some(), scoped_key(scope, type_id), None)
    }

    /// Starts a read of the scoped entry of this scope and type. The
    /// statistics do not count it.
    pub fn get_scoped(&self, scope: &str, type_id: &str) -> (next: Step)
        ensures
            next@ == (OperationView::GetScoped { scope: scope@, type_id: type_id@ }).begin(
                self.enabled(),
                self.time_to_live(),
            ),
    {
        Step::start_scoped_read(self.pool.is_some(), scoped_key(scope, type_id))
    }

    /// Starts the removal of the entry at this key.
    pub fn delete(&self, cache_key: String) -> (next: Step)
        ensures
            next@ == (OperationView::Delete { key: cache_key@ }).begin(
                self.enabled(),
                self.time_to_live(),
            ),
    {
        Step::start_delete(self.pool.is_some(), cache_key)
    }

    /// Starts a status check.
    pub fn status(&self) -> (next: Step)
        ensures
            next@ == OperationView::Status.begin(self.enabled(), self.time_to_live()),
    {
        Step::start_probe(self.pool.is_some())
    }
}

} // verus!
