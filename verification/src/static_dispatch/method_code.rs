//! The generic capability held as a field: a cache handle owns its
//! connection and offers the operation pair as methods.

use vstd::prelude::*;
use vstd::string::StringExecFns;

use crate::common::{CacheError, DEFAULT_TTL_5_MINUTES, set_default_ttl};
use crate::connection::{ConnectionLike, spec_get, spec_set};
use crate::protocol::{Command, decode_u64, decode_unit};

verus! {

/// A cache handle over any connection-like backend.  The underlying
/// handle is clone-cheap and shares one session, so the methods mutate
/// that session in place.
pub struct CacheConnection<C: ConnectionLike> {
    pub conn: C,
}

impl<C: ConnectionLike> CacheConnection<C> {
    /// Reads `key` over the owned connection.
    pub fn get_value(&mut self, key: &str) -> (r: Result<u64, CacheError>)
        ensures
            final(self).conn.pending() == spec_get(old(self).conn.pending(), key@).0,
            r == spec_get(old(self).conn.pending(), key@).1,
    {
        let cmd = Command::Get { key: String::from_str(key) };
        let resp = self.conn.req_command(&cmd);
        decode_u64(resp)
    }

    /// Writes `value` under `key` over the owned connection, with the
    /// fixed default expiry.
    pub fn set_value(&mut self, key: &str, value: &u64) -> (r: Result<(), CacheError>)
        ensures
            final(self).conn.pending() == spec_set(
                old(self).conn.pending(),
                key@,
                *value,
                DEFAULT_TTL_5_MINUTES as u64,
            ).0,
            r == spec_set(
                old(self).conn.pending(),
                key@,
                *value,
                DEFAULT_TTL_5_MINUTES as u64,
            ).1,
    {
        let cmd = Command::SetEx {
            key: String::from_str(key),
            value: *value,
            options: set_default_ttl(),
        };
        let resp = self.conn.req_command(&cmd);
        decode_unit(resp)
    }
}

} // verus!
