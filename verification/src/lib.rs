//! A timeout-guarded, pluggable-backend cache access layer.
//!
//! The same pair of operations -- `get(key)` and `set(key, value, ttl)` --
//! is offered through three interchangeable dispatch strategies: a tagged
//! union matched at run time (`enum_dispatch`), compile-time generics
//! (`static_dispatch`), and a connection-supplying capability object
//! (`static_dispatch::repository_pattern`).  All three are specified
//! against one session model, so dispatch cannot change observable
//! results.

pub mod common;
pub mod connection;
pub mod enum_dispatch;
pub mod pool;
pub mod protocol;
pub mod static_dispatch;

pub use common::CacheError;
pub use common::RedisPool;
pub use common::common_get_value;
pub use common::common_set_value;
pub use common::create_pool;
pub use common::query_outcome;
pub use common::set_default_ttl;
