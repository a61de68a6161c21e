//! Generic (compile-time) dispatch: the operations are parameterized
//! over the connection capability, so backend choice is resolved at the
//! call site with no runtime branching.

use vstd::prelude::*;
use vstd::string::StringExecFns;

use crate::common::{CacheError, DEFAULT_TTL_5_MINUTES, set_default_ttl};
use crate::connection::{ConnectionLike, spec_get, spec_set};
use crate::protocol::{Command, decode_u64, decode_unit};

pub mod method_code;
pub mod repository_pattern;
pub mod repository_pattern_without_impl;

verus! {

/// Reads `key` over any connection-like backend.
pub fn static_dispatch_get_value<C: ConnectionLike>(conn: &mut C, key: &str) -> (r: Result<
    u64,
    CacheError,
>)
    ensures
        final(conn).pending() == spec_get(old(conn).pending(), key@).0,
        r == spec_get(old(conn).pending(), key@).1,
{
    let cmd = Command::Get { key: String::from_str(key) };
    let resp = conn.req_command(&cmd);
    decode_u64(resp)
}

/// Writes `value` under `key` over any connection-like backend, with
/// the fixed default expiry.
pub fn static_dispatch_set_value<C: ConnectionLike>(conn: &mut C, key: &str, value: &u64) -> (r:
    Result<(), CacheError>)
    ensures
        final(conn).pending() == spec_set(
            old(conn).pending(),
            key@,
            *value,
            DEFAULT_TTL_5_MINUTES as u64,
        ).0,
        r == spec_set(old(conn).pending(), key@, *value, DEFAULT_TTL_5_MINUTES as u64).1,
{
    let cmd = Command::SetEx {
        key: String::from_str(key),
        value: *value,
        options: set_default_ttl(),
    };
    let resp = conn.req_command(&cmd);
    decode_unit(resp)
}

} // verus!
