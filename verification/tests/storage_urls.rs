//! Opening the stores: what the Redis and SQLite URLs are read as.

use synapse::storage::sqlite::sqlite_connect_options;
use synapse::storage::{RedisError, RedisPool};

#[test]
fn redis_urls_open_a_client_without_connecting() {
    assert!(RedisPool::open_client("redis://127.0.0.1:6379/0").is_ok());
    assert!(matches!(RedisPool::open_client("not a url"), Err(RedisError::Client(_))));
    assert!(matches!(RedisPool::open_client("http://localhost"), Err(RedisError::Client(_))));
}

#[test]
fn sqlite_urls_give_options_that_create_the_file() {
    let memory = sqlite_connect_options("sqlite::memory:").expect("in-memory url");
    assert!(memory.create_if_missing());
    let file = sqlite_connect_options("sqlite:///tmp/synapse-audit.db").expect("file url");
    assert!(file.create_if_missing());
    assert!(sqlite_connect_options("sqlite://db.sqlite?mode=sideways").is_err());
    assert!(sqlite_connect_options("sqlite://%FF").is_err());
}
