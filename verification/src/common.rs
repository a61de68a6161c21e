//! The error taxonomy, the fixed configuration constants, the cache
//! operations on the concrete production connection, the pooled
//! provider construction, and the decision half of the timeout guard.

use vstd::prelude::*;
use vstd::string::StringExecFns;

use crate::connection::{ConnectionLike, SharedConnection, spec_get, spec_set};
use crate::protocol::{Command, SetOptions, decode_u64, decode_unit};

verus! {

/// The pooled connection provider.  The one field holds
/// `deadpool_redis::Pool`, the bounded pool of connections to the
/// store; its generic parameters are bounded by traits of that crate,
/// so the type cannot be declared to Verus and the whole struct is
/// opaque (trusted).  This layer only carries the handle through;
/// leasing a connection from it is asynchronous and happens in the
/// unverified caller, which reads the field directly.
#[verifier::external_body]
pub struct RedisPool {
    pub pool: deadpool_redis::Pool,
}

/// Every write uses this expiry, in seconds; it is not configurable per call.
pub const DEFAULT_TTL_5_MINUTES: u16 = 300;

/// Deadline for a single cache operation, in seconds.
pub const DEFAULT_TIMEOUT_30_SECONDS: u8 = 30;

/// Capacity of the pooled connection provider.
pub const POOL_SIZE: u8 = 3;

/// The closed set of failure kinds surfaced to callers.  Each internal
/// failure is mapped to one of these and returned; none carries a payload
/// beyond its kind.
#[derive(Debug, Copy, Clone, PartialEq, Eq, Structural)]
pub enum CacheError {
    /// The connection string was syntactically invalid.
    InvalidUrl,
    /// A connection could not be established or leased.
    ConnectionFailed,
    /// A command failed, in transport or in decoding its response.
    FailedQuery,
    /// The deadline elapsed before the operation completed.
    Timeout,
}

impl CacheError {
    /// A human-readable description of the failure kind.
    pub fn message(&self) -> (r: String)
        ensures
            *self is InvalidUrl ==> r@ == "Redis URL was invalid"@,
            *self is ConnectionFailed ==> r@ == "Redis connection was failed"@,
            *self is FailedQuery ==> r@ == "The query is failed"@,
            *self is Timeout ==> r@ == "The query is timeout"@,
    {
        match self {
            CacheError::InvalidUrl => String::from_str("Redis URL was invalid"),
            CacheError::ConnectionFailed => String::from_str("Redis connection was failed"),
            CacheError::FailedQuery => String::from_str("The query is failed"),
            CacheError::Timeout => String::from_str("The query is timeout"),
        }
    }

    pub fn is_invalid_url(&self) -> (r: bool)
        ensures
            r == (*self is InvalidUrl),
    {
        matches!(self, CacheError::InvalidUrl)
    }

    pub fn is_connection_failed(&self) -> (r: bool)
        ensures
            r == (*self is ConnectionFailed),
    {
        matches!(self, CacheError::ConnectionFailed)
    }

    pub fn is_failed_query(&self) -> (r: bool)
        ensures
            r == (*self is FailedQuery),
    {
        matches!(self, CacheError::FailedQuery)
    }

    pub fn is_timeout(&self) -> (r: bool)
        ensures
            r == (*self is Timeout),
    {
        matches!(self, CacheError::Timeout)
    }
}

/// The options attached to every write: the fixed default expiry.
pub fn set_default_ttl() -> (r: SetOptions)
    ensures
        r.expiry_seconds == DEFAULT_TTL_5_MINUTES as u64,
{
    SetOptions { expiry_seconds: DEFAULT_TTL_5_MINUTES as u64 }
}

/// Reads `key` over the concrete production connection.
pub fn common_get_value(conn: &mut SharedConnection, key: &str) -> (r: Result<u64, CacheError>)
    ensures
        final(conn).pending() == spec_get(old(conn).pending(), key@).0,
        r == spec_get(old(conn).pending(), key@).1,
{
    let cmd = Command::Get { key: String::from_str(key) };
    let resp = conn.req_command(&cmd);
    decode_u64(resp)
}

/// Writes `value` under `key` over the concrete production connection,
/// with the fixed default expiry.
pub fn common_set_value(conn: &mut SharedConnection, key: &str, value: &u64) -> (r: Result<
    (),
    CacheError,
>)
    ensures
        final(conn).pending() == spec_set(
            old(conn).pending(),
            key@,
            *value,
            DEFAULT_TTL_5_MINUTES as u64,
        ).0,
        r == spec_set(old(conn).pending(), key@, *value, DEFAULT_TTL_5_MINUTES as u64).1,
{
    let cmd = Command::SetEx {
        key: String::from_str(key),
        value: *value,
        options: set_default_ttl(),
    };
    let resp = conn.req_command(&cmd);
    decode_unit(resp)
}

/// Whether the backing store's client accepts a connection string as
/// syntactically valid; a function of the string alone.
pub uninterp spec fn url_accepted(url: Seq<char>) -> bool;

/// Relies on `redis::Client::open`, which checks the connection string
/// and performs no I/O; whether it accepts depends on the string alone.
#[verifier::external_body]
fn client_open_check(url: &str) -> (r: bool)
    ensures
        r == url_accepted(url@),
{
    deadpool_redis::redis::Client::open(url).is_ok()
}

/// Relies on `deadpool_redis::Config::from_url` and
/// `Config::create_pool`: builds a bounded pool over the given URL with
/// the tokio runtime, creating no connection yet; its source performs
/// no I/O and returns the pool or a construction error.
#[verifier::external_body]
fn build_pool(url: &str, max_size: usize) -> (r: Result<RedisPool, ()>)
{
    let config = deadpool_redis::Config {
        pool: Some(deadpool_redis::PoolConfig::new(max_size)),
        ..deadpool_redis::Config::from_url(url)
    };
    match config.create_pool(Some(deadpool_redis::Runtime::Tokio1)) {
        Ok(pool) => Ok(RedisPool { pool }),
        Err(_) => Err(()),
    }
}

/// Builds the pooled connection provider over `redis_url`, with the
/// fixed pool capacity.  A syntactically invalid connection string
/// fails with `InvalidUrl` before any I/O is attempted; with a valid
/// one, the provider is returned, or `ConnectionFailed` if the pool
/// could not be constructed.
pub fn create_pool(redis_url: &str) -> (r: Result<RedisPool, CacheError>)
    ensures
        (r == Err::<RedisPool, CacheError>(CacheError::InvalidUrl)) <==> !url_accepted(
            redis_url@,
        ),
        url_accepted(redis_url@) ==> r is Ok || r == Err::<RedisPool, CacheError>(
            CacheError::ConnectionFailed,
        ),
{
    if !client_open_check(redis_url) {
        return Err(CacheError::InvalidUrl);
    }
    match build_pool(redis_url, POOL_SIZE as usize) {
        Ok(pool) => Ok(pool),
        Err(_) => Err(CacheError::ConnectionFailed),
    }
}

/// Decision half of the timeout guard: the caller races an operation
/// against the fixed deadline and reports what it observed.  `None` means
/// the deadline elapsed with no outcome; the guard then yields `Timeout`
/// and no result.  `Some(outcome)` is passed through unchanged.
pub fn query_outcome<T>(outcome: Option<Result<T, CacheError>>) -> (r: Result<T, CacheError>)
    ensures
        outcome is None ==> r == Err::<T, CacheError>(CacheError::Timeout),
        outcome is Some ==> r == outcome->0,
{
    match outcome {
        None => Err(CacheError::Timeout),
        Some(result) => result,
    }
}

} // verus!
