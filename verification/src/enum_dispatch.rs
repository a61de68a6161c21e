//! Tagged-union (run-time) dispatch: a closed variant type -- the
//! production connection or a test mock -- is matched at call time.

use vstd::prelude::*;
use vstd::string::StringExecFns;

use crate::common::{CacheError, DEFAULT_TTL_5_MINUTES, set_default_ttl};
use crate::connection::{ConnectionLike, MockConnection, Script, SharedConnection, spec_get,
    spec_set};
use crate::protocol::{Command, decode_u64, decode_unit};

verus! {

/// The closed set of connection backends a call may be dispatched to.
pub enum ConnectionType {
    /// The production connection to the remote store.
    Connection(SharedConnection),
    /// A test-mock connection.
    MockConnection(MockConnection),
}

/// The session behind whichever backend the tag selects.
pub open spec fn connection_type_pending(c: ConnectionType) -> Script {
    match c {
        ConnectionType::Connection(conn) => conn.pending(),
        ConnectionType::MockConnection(conn) => conn.pending(),
    }
}

/// Reads `key` over the backend the tag selects.
pub fn enum_get_value(conn_type: &mut ConnectionType, key: &str) -> (r: Result<u64, CacheError>)
    ensures
        connection_type_pending(*final(conn_type)) == spec_get(
            connection_type_pending(*old(conn_type)),
            key@,
        ).0,
        r == spec_get(connection_type_pending(*old(conn_type)), key@).1,
{
    match conn_type {
        ConnectionType::Connection(connection) => {
            let cmd = Command::Get { key: String::from_str(key) };
            let resp = connection.req_command(&cmd);
            decode_u64(resp)
        },
        ConnectionType::MockConnection(connection) => {
            let cmd = Command::Get { key: String::from_str(key) };
            let resp = connection.req_command(&cmd);
            decode_u64(resp)
        },
    }
}

/// Writes `value` under `key` over the backend the tag selects, with
/// the fixed default expiry.
pub fn enum_set_value(conn_type: &mut ConnectionType, key: &str, value: &u64) -> (r: Result<
    (),
    CacheError,
>)
    ensures
        connection_type_pending(*final(conn_type)) == spec_set(
            connection_type_pending(*old(conn_type)),
            key@,
            *value,
            DEFAULT_TTL_5_MINUTES as u64,
        ).0,
        r == spec_set(
            connection_type_pending(*old(conn_type)),
            key@,
            *value,
            DEFAULT_TTL_5_MINUTES as u64,
        ).1,
{
    match conn_type {
        ConnectionType::Connection(connection) => {
            let cmd = Command::SetEx {
                key: String::from_str(key),
                value: *value,
                options: set_default_ttl(),
            };
            let resp = connection.req_command(&cmd);
            decode_unit(resp)
        },
        ConnectionType::MockConnection(connection) => {
            let cmd = Command::SetEx {
                key: String::from_str(key),
                value: *value,
                options: set_default_ttl(),
            };
            let resp = connection.req_command(&cmd);
            decode_unit(resp)
        },
    }
}

} // verus!
