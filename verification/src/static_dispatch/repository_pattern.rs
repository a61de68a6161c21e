//! Capability-object (repository) dispatch: a connection-supplying
//! capability is itself the abstraction, stored alongside whatever
//! state a concrete repository needs.

use vstd::prelude::*;
use vstd::string::StringExecFns;

use crate::common::{CacheError, DEFAULT_TTL_5_MINUTES, set_default_ttl};
use crate::connection::{ConnectionLike, MockConnection, Script, SharedConnection, spec_get,
    spec_set};
use crate::protocol::{Command, decode_u64, decode_unit};

verus! {

/// A capability that supplies the connection a call runs over.  The
/// supplied handle shares the repository's session, so what a caller
/// does with it is what happens to the repository's session.
pub trait ConnectionRpository<C: ConnectionLike> {
    /// The session behind the supplied connection.
    spec fn repo_pending(&self) -> Script;

    /// Supplies the connection for one call.
    fn get_conn(&mut self) -> (conn: &mut C)
        ensures
            conn.pending() == old(self).repo_pending(),
            final(self).repo_pending() == final(conn).pending(),
    ;
}

/// The production repository, holding the connection to the store.
pub struct CacheRepository {
    pub conn: SharedConnection,
}

impl ConnectionRpository<SharedConnection> for CacheRepository {
    open spec fn repo_pending(&self) -> Script {
        self.conn.pending()
    }

    fn get_conn(&mut self) -> (conn: &mut SharedConnection) {
        &mut self.conn
    }
}

/// A repository over a test-mock connection.
pub struct MockCacheRepository {
    pub conn: MockConnection,
}

impl ConnectionRpository<MockConnection> for MockCacheRepository {
    open spec fn repo_pending(&self) -> Script {
        self.conn.pending()
    }

    fn get_conn(&mut self) -> (conn: &mut MockConnection) {
        &mut self.conn
    }
}

/// Reads `key` over whatever connection the repository supplies.
pub fn get_value<C: ConnectionLike>(
    conn_repo: &mut impl ConnectionRpository<C>,
    key: &str,
) -> (r: Result<u64, CacheError>)
    ensures
        final(conn_repo).repo_pending() == spec_get(old(conn_repo).repo_pending(), key@).0,
        r == spec_get(old(conn_repo).repo_pending(), key@).1,
{
    let conn = conn_repo.get_conn();
    let cmd = Command::Get { key: String::from_str(key) };
    let resp = conn.req_command(&cmd);
    decode_u64(resp)
}

/// Writes `value` under `key` over whatever connection the repository
/// supplies, with the fixed default expiry.
pub fn set_value<C: ConnectionLike>(
    conn_repo: &mut impl ConnectionRpository<C>,
    key: &str,
    value: &u64,
) -> (r: Result<(), CacheError>)
    ensures
        final(conn_repo).repo_pending() == spec_set(
            old(conn_repo).repo_pending(),
            key@,
            *value,
            DEFAULT_TTL_5_MINUTES as u64,
        ).0,
        r == spec_set(
            old(conn_repo).repo_pending(),
            key@,
            *value,
            DEFAULT_TTL_5_MINUTES as u64,
        ).1,
{
    let conn = conn_repo.get_conn();
    let cmd = Command::SetEx {
        key: String::from_str(key),
        value: *value,
        options: set_default_ttl(),
    };
    let resp = conn.req_command(&cmd);
    decode_unit(resp)
}

} // verus!
