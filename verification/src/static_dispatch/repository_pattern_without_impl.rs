//! The repository pattern again, with the capability bound written as
//! an explicit type parameter rather than `impl` sugar: the trait here
//! is structurally identical to its sibling, to show the two shapes
//! are behaviorally indistinguishable.

use vstd::prelude::*;
use vstd::string::StringExecFns;

use crate::common::{CacheError, DEFAULT_TTL_5_MINUTES, set_default_ttl};
use crate::connection::{ConnectionLike, MockConnection, Script, SharedConnection, spec_get,
    spec_set};
use crate::protocol::{Command, decode_u64, decode_unit};

verus! {

/// A capability that supplies the connection a call runs over.  The
/// supplied handle shares the repository's session, so what a caller
/// does with it is what happens to the repository's session.
pub trait ConnectionRepository<C: ConnectionLike> {
    /// The session behind the supplied connection.
    spec fn repo_pending(&self) -> Script;

    /// Supplies the connection for one call.
    fn get_conn(&mut self) -> (conn: &mut C)
        ensures
            conn.pending() == old(self).repo_pending(),
            final(self).repo_pending() == final(conn).pending(),
    ;
}

/// The production repository, holding the connection to the store.
pub struct CacheRepository {
    pub conn: SharedConnection,
}

impl ConnectionRepository<SharedConnection> for CacheRepository {
    open spec fn repo_pending(&self) -> Script {
        self.conn.pending()
    }

    fn get_conn(&mut self) -> (conn: &mut SharedConnection) {
        &mut self.conn
    }
}

/// A repository over a test-mock connection.
pub struct MockCacheRepository {
    pub conn: MockConnection,
}

impl ConnectionRepository<MockConnection> for MockCacheRepository {
    open spec fn repo_pending(&self) -> Script {
        self.conn.pending()
    }

    fn get_conn(&mut self) -> (conn: &mut MockConnection) {
        &mut self.conn
    }
}

/// Reads `key` over whatever connection the repository supplies.
pub fn get_value<C, R>(conn_repo: &mut R, key: &str) -> (r: Result<u64, CacheError>) where
    C: ConnectionLike,
    R: ConnectionRepository<C>,

    ensures
        final(conn_repo).repo_pending() == spec_get(old(conn_repo).repo_pending(), key@).0,
        r == spec_get(old(conn_repo).repo_pending(), key@).1,
{
    let conn = conn_repo.get_conn();
    let cmd = Command::Get { key: String::from_str(key) };
    let resp = conn.req_command(&cmd);
    decode_u64(resp)
}

/// Writes `value` under `key` over whatever connection the repository
/// supplies, with the fixed default expiry.
pub fn set_value<C, R>(conn_repo: &mut R, key: &str, value: &u64) -> (r: Result<
    (),
    CacheError,
>) where C: ConnectionLike, R: ConnectionRepository<C>
    ensures
        final(conn_repo).repo_pending() == spec_set(
            old(conn_repo).repo_pending(),
            key@,
            *value,
            DEFAULT_TTL_5_MINUTES as u64,
        ).0,
        r == spec_set(
            old(conn_repo).repo_pending(),
            key@,
            *value,
            DEFAULT_TTL_5_MINUTES as u64,
        ).1,
{
    let conn = conn_repo.get_conn();
    let cmd = Command::SetEx {
        key: String::from_str(key),
        value: *value,
        options: set_default_ttl(),
    };
    let resp = conn.req_command(&cmd);
    decode_unit(resp)
}

} // verus!
