//! The health of the cache, as a status check reports it.

use vstd::prelude::*;

verus! {

/// A status, as two truth values.
pub struct CacheStatusView {
    pub enabled: bool,
    pub healthy: bool,
}

/// A snapshot of the cache's health, taken by a status check.
///
/// * `enabled`: a connection pool exists, that is, an endpoint is configured
///   and was accepted;
/// * `healthy`: the cache is enabled and the pool gave a connection when the
///   check was made.
///
/// A status is never healthy without being enabled.
#[derive(Clone, Copy, Debug, PartialEq, Eq)]
pub struct CacheStatus {
    enabled: bool,
    healthy: bool,
}

impl View for CacheStatus {
    type V = CacheStatusView;

    closed spec fn view(&self) -> CacheStatusView {
        CacheStatusView { enabled: self.enabled, healthy: self.healthy }
    }
}

impl CacheStatus {
    #[verifier::type_invariant]
    spec fn well_formed(self) -> bool {
        self.healthy ==> self.enabled
    }

    /// The status of a cache that is enabled or not, and on which a
    /// connection was acquired or not. A disabled cache is never healthy,
    /// whatever `acquired` says.
    pub fn new(enabled: bool, acquired: bool) -> (status: CacheStatus)
        ensures
            status@ == (CacheStatusView { enabled, healthy: enabled && acquired }),
    {
        CacheStatus { enabled, healthy: enabled && acquired }
    }

    /// Whether a connection pool exists.
    pub fn is_enabled(&self) -> (enabled: bool)
        ensures
            enabled == self@.enabled,
    {
        self.enabled
    }

    /// Whether the cache is enabled and gave a connection.
    pub fn is_healthy(&self) -> (healthy: bool)
        ensures
            healthy == self@.healthy,
            healthy ==> self@.enabled,
    {
        proof {
            use_type_invariant(self);
        }
        self.healthy
    }
}

/// The text that the health command answers with.
pub open spec fn health_text(healthy: bool) -> Seq<char> {
    if healthy {
        "Cache: healthy"@
    } else {
        "Cache: unhealthy"@
    }
}

/// The answer of the health command to this status: `Cache: healthy` for a
/// healthy cache, `Cache: unhealthy` for any other.
pub fn health_message(status: &CacheStatus) -> (text: &'static str)
    ensures
        text@ == health_text(status@.healthy),
{
    if status.is_healthy() {
        "Cache: healthy"
    } else {
        "Cache: unhealthy"
    }
}

} // verus!
