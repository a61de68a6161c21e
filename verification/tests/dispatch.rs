//! The operation pair through each dispatch strategy, against a
//! scripted mock backend: key "foo", value 1.

use rust_dispatch::common::{query_outcome, set_default_ttl, CacheError};
use rust_dispatch::connection::MockConnection;
use rust_dispatch::enum_dispatch::{enum_get_value, enum_set_value, ConnectionType};
use rust_dispatch::protocol::{Command, Value};
use rust_dispatch::static_dispatch::method_code::CacheConnection;
use rust_dispatch::static_dispatch::repository_pattern;
use rust_dispatch::static_dispatch::repository_pattern_without_impl;
use rust_dispatch::static_dispatch::{static_dispatch_get_value, static_dispatch_set_value};

fn get_script(key: &str, value: u64) -> Vec<(Command, Value)> {
    vec![(Command::Get { key: key.to_string() }, Value::Int(value as i64))]
}

fn set_script(key: &str, value: u64) -> Vec<(Command, Value)> {
    vec![(
        Command::SetEx { key: key.to_string(), value, options: set_default_ttl() },
        Value::Okay,
    )]
}

#[test]
fn enum_dispatch_it_return_succeed_when_get_is_called() {
    let key: &str = "foo";
    let value: u64 = 1;

    let conn = MockConnection::new(get_script(key, value));
    let mut conn_type = ConnectionType::MockConnection(conn);
    let result = query_outcome(Some(enum_get_value(&mut conn_type, key)));

    assert!(result.is_ok());
    assert!(result.is_ok_and(|v| v == 1))
}

#[test]
fn enum_dispatch_it_return_succeed_when_set_is_called() {
    let key: &str = "foo";
    let value: u64 = 1;

    let conn = MockConnection::new(set_script(key, value));
    let mut conn_type = ConnectionType::MockConnection(conn);
    let result = query_outcome(Some(enum_set_value(&mut conn_type, key, &value)));

    assert!(result.is_ok());
}

#[test]
fn static_dispatch_it_return_succeed_when_get_is_called() {
    let key: &str = "foo";
    let value: u64 = 1;

    let mut conn = MockConnection::new(get_script(key, value));
    let result = query_outcome(Some(static_dispatch_get_value(&mut conn, key)));

    assert!(result.is_ok());
    assert!(result.is_ok_and(|v| v == 1))
}

#[test]
fn static_dispatch_it_return_succeed_when_set_is_called() {
    let key: &str = "foo";
    let value: u64 = 1;

    let mut conn = MockConnection::new(set_script(key, value));
    let result = query_outcome(Some(static_dispatch_set_value(&mut conn, key, &value)));

    assert!(result.is_ok());
}

#[test]
fn method_code_it_return_succeed_when_get_is_called() {
    let key: &str = "foo";
    let value: u64 = 1;

    let conn = MockConnection::new(get_script(key, value));
    let mut cache = CacheConnection { conn };
    let result = query_outcome(Some(cache.get_value(key)));

    assert!(result.is_ok());
    assert!(result.is_ok_and(|v| v == 1))
}

#[test]
fn method_code_it_return_succeed_when_set_is_called() {
    let key: &str = "foo";
    let value: u64 = 1;

    let conn = MockConnection::new(set_script(key, value));
    let mut cache = CacheConnection { conn };
    let result = query_outcome(Some(cache.set_value(key, &value)));

    assert!(result.is_ok());
}

#[test]
fn repository_pattern_it_return_succeed_when_get_is_called() {
    let key: &str = "foo";
    let value: u64 = 1;

    let conn = MockConnection::new(get_script(key, value));
    let mut cache_repo = repository_pattern::MockCacheRepository { conn };
    let result = query_outcome(Some(repository_pattern::get_value(&mut cache_repo, key)));

    assert!(result.is_ok());
    assert!(result.is_ok_and(|v| v == 1))
}

#[test]
fn repository_pattern_it_return_succeed_when_set_is_called() {
    let key: &str = "foo";
    let value: u64 = 1;

    let conn = MockConnection::new(set_script(key, value));
    let mut cache_repo = repository_pattern::MockCacheRepository { conn };
    let result = query_outcome(Some(repository_pattern::set_value(&mut cache_repo, key, &value)));

    assert!(result.is_ok());
}

#[test]
fn repository_pattern_without_impl_it_return_succeed_when_get_is_called() {
    let key: &str = "foo";
    let value: u64 = 1;

    let conn = MockConnection::new(get_script(key, value));
    let mut cache_repo = repository_pattern_without_impl::MockCacheRepository { conn };
    let result =
        query_outcome(Some(repository_pattern_without_impl::get_value(&mut cache_repo, key)));

    assert!(result.is_ok());
    assert!(result.is_ok_and(|v| v == 1))
}

#[test]
fn repository_pattern_without_impl_it_return_succeed_when_set_is_called() {
    let key: &str = "foo";
    let value: u64 = 1;

    let conn = MockConnection::new(set_script(key, value));
    let mut cache_repo = repository_pattern_without_impl::MockCacheRepository { conn };
    let result = query_outcome(Some(repository_pattern_without_impl::set_value(
        &mut cache_repo,
        key,
        &value,
    )));

    assert!(result.is_ok());
}

#[test]
fn set_then_get_returns_written_value_through_every_strategy() {
    let key = "foo";
    let value: u64 = 1;
    let script = || {
        vec![
            (
                Command::SetEx { key: key.to_string(), value, options: set_default_ttl() },
                Value::Okay,
            ),
            (Command::Get { key: key.to_string() }, Value::Data(vec![b'1'])),
        ]
    };

    let mut conn = MockConnection::new(script());
    assert_eq!(static_dispatch_set_value(&mut conn, key, &value), Ok(()));
    assert_eq!(static_dispatch_get_value(&mut conn, key), Ok(value));

    let mut conn_type = ConnectionType::MockConnection(MockConnection::new(script()));
    assert_eq!(enum_set_value(&mut conn_type, key, &value), Ok(()));
    assert_eq!(enum_get_value(&mut conn_type, key), Ok(value));

    let mut cache = CacheConnection { conn: MockConnection::new(script()) };
    assert_eq!(cache.set_value(key, &value), Ok(()));
    assert_eq!(cache.get_value(key), Ok(value));

    let mut repo = repository_pattern::MockCacheRepository { conn: MockConnection::new(script()) };
    assert_eq!(repository_pattern::set_value(&mut repo, key, &value), Ok(()));
    assert_eq!(repository_pattern::get_value(&mut repo, key), Ok(value));

    let mut repo2 =
        repository_pattern_without_impl::MockCacheRepository { conn: MockConnection::new(script()) };
    assert_eq!(repository_pattern_without_impl::set_value(&mut repo2, key, &value), Ok(()));
    assert_eq!(repository_pattern_without_impl::get_value(&mut repo2, key), Ok(value));
}

#[test]
fn malformed_response_surfaces_failed_query() {
    let key = "foo";
    let value: u64 = 1;

    // A read answered with a bare success instead of a payload.
    let mut conn = MockConnection::new(vec![(Command::Get { key: key.to_string() }, Value::Okay)]);
    assert_eq!(static_dispatch_get_value(&mut conn, key), Err(CacheError::FailedQuery));

    // A read answered with a negative integer.
    let mut conn =
        MockConnection::new(vec![(Command::Get { key: key.to_string() }, Value::Int(-5))]);
    assert_eq!(static_dispatch_get_value(&mut conn, key), Err(CacheError::FailedQuery));

    // A read answered with bytes that are not a decimal rendering.
    let mut conn = MockConnection::new(vec![(
        Command::Get { key: key.to_string() },
        Value::Data(vec![b'1', b'2', b'x']),
    )]);
    assert_eq!(static_dispatch_get_value(&mut conn, key), Err(CacheError::FailedQuery));

    // A transport-level error.
    let mut conn =
        MockConnection::new(vec![(Command::Get { key: key.to_string() }, Value::ServerError)]);
    assert_eq!(static_dispatch_get_value(&mut conn, key), Err(CacheError::FailedQuery));

    // A write answered with anything but a bare success.
    let mut conn = MockConnection::new(vec![(
        Command::SetEx { key: key.to_string(), value, options: set_default_ttl() },
        Value::Int(1),
    )]);
    assert_eq!(static_dispatch_set_value(&mut conn, key, &value), Err(CacheError::FailedQuery));

    // A backend that expected a different command.
    let mut conn =
        MockConnection::new(vec![(Command::Get { key: "bar".to_string() }, Value::Int(1))]);
    assert_eq!(static_dispatch_get_value(&mut conn, key), Err(CacheError::FailedQuery));

    // An exhausted session.
    let mut conn = MockConnection::new(vec![]);
    assert_eq!(static_dispatch_get_value(&mut conn, key), Err(CacheError::FailedQuery));
}
