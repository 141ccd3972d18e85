//! The connection pool of the key-value store.
//!
//! A pool is made from an endpoint URL without any network traffic;
//! connections are opened later, by whoever drives an operation.

use vstd::prelude::*;

verus! {

/// A connection pool of the `deadpool_redis` crate. Opaque to the verifier:
/// the library only carries it from where it is made to where connections are
/// taken from it, which is why the field is public.
#[verifier::external_body]
pub struct PoolHandle {
    pub pool: deadpool_redis::Pool,
}

/// `deadpool_redis::CreatePoolError`, why no pool was made. Opaque.
#[verifier::external_type_specification]
#[verifier::external_body]
pub struct ExCreatePoolError(deadpool_redis::CreatePoolError);

/// Whether `deadpool_redis` makes a pool for this endpoint URL: whether the
/// URL parses as one of the `redis` crate's connection URLs.
pub uninterp spec fn endpoint_accepted(url: Seq<char>) -> bool;

/// `deadpool_redis::Config::create_pool`, on a configuration that holds this
/// URL and nothing else. Trusted: whether a pool is made depends on the URL
/// alone.
#[verifier::external_body]
pub(crate) fn create_pool(url: &str) -> (made: Result<PoolHandle, deadpool_redis::CreatePoolError>)
    ensures
        made is Ok <==> endpoint_accepted(url@),
{
    let mut cfg = deadpool_redis::Config::default();
    cfg.url = Some(url.to_owned());
    cfg.connection = None;
    cfg.create_pool().map(|pool| PoolHandle { pool })
}

} // verus!
