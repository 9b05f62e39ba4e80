//! Storage for the Synapse system: the Redis pool handle and its errors, and
//! the rows of the SQLite audit log.
//!
//! Reading and writing Redis or SQLite is network or disk I/O; the runtime
//! around this library performs it on the handles held here.

pub mod sqlite;

use redis::aio::ConnectionManager;
use redis::RedisError as RedisClientError;
use vstd::prelude::*;

verus! {

#[verifier::external_type_specification]
#[verifier::external_body]
pub struct ExRedisConnection(ConnectionManager);

#[verifier::external_type_specification]
#[verifier::external_body]
pub struct ExRedisFailure(RedisClientError);

#[verifier::external_type_specification]
#[verifier::external_body]
pub struct ExRedisClient(redis::Client);

/// Whether `redis::Client::open` accepts `url`: a `redis://`, `rediss://`,
/// `valkey://`, `valkeys://` or `unix://` URL that parses, with valid
/// settings. Opening a client only parses the URL; it connects to nothing.
pub uninterp spec fn redis_url_accepted(url: Seq<char>) -> bool;

/// Opens a Redis client for `url` with `redis::Client::open`, which parses
/// the URL into connection settings without connecting. It succeeds exactly
/// when the URL is accepted.
#[verifier::external_body]
fn open_redis_client(url: &str) -> (client: Result<redis::Client, RedisClientError>)
    ensures
        client is Ok <==> redis_url_accepted(url@),
{
    redis::Client::open(url)
}

/// Errors that can occur when using the Redis pool.
#[derive(Debug)]
pub enum RedisError {
    /// The `REDIS_URL` environment variable is missing.
    MissingUrl,
    /// An error returned by the underlying redis client.
    Client(RedisClientError),
}

/// The human-readable message of a [`RedisError`], given `source`, the text
/// the `redis` crate displays for the client error it carries (unused for
/// the other variant).
pub open spec fn redis_error_message(e: RedisError, source: Seq<char>) -> Seq<char> {
    match e {
        RedisError::MissingUrl => "REDIS_URL environment variable not set"@,
        RedisError::Client(_) => "redis error: "@ + source,
    }
}

impl RedisError {
    /// Returns the human-readable message of this error; `source` is the
    /// displayed text of the client error it carries.
    pub fn message(&self, source: &str) -> (text: String)
        ensures
            text@ == redis_error_message(*self, source@),
    {
        match self {
            RedisError::MissingUrl => String::from_str("REDIS_URL environment variable not set"),
            RedisError::Client(_) => {
                let mut text = String::from_str("redis error: ");
                text.append(source);
                text
            },
        }
    }
}

/// Specifies `<redis::aio::ConnectionManager as Clone>::clone`: the
/// `redis` crate implements it by cloning the `Arc` that holds the managed
/// connection, so the clone is a handle on the same connection.
pub assume_specification[ <ConnectionManager as std::clone::Clone>::clone ](
    manager: &ConnectionManager,
) -> (copy: ConnectionManager)
    ensures
        copy == *manager,
;

/// A cheap-to-clone async Redis connection pool.
///
/// Internally backed by [`ConnectionManager`], which multiplexes
/// commands over a single managed connection and automatically reconnects on
/// failure.
#[derive(Debug)]
pub struct RedisPool {
    manager: ConnectionManager,
}

impl Clone for RedisPool {
    /// Returns a handle on the same managed connection.
    fn clone(&self) -> (copy: Self)
        ensures
            copy == *self,
    {
        RedisPool { manager: self.manager.clone() }
    }
}

impl RedisPool {
    /// The managed connection this pool issues its commands on.
    pub closed spec fn connection(self) -> ConnectionManager {
        self.manager
    }

    /// The first step of connecting to Redis at `url`: the client for the
    /// URL, or [`RedisError::Client`] when the `redis` crate does not accept
    /// the URL. The connection itself is then established on the client.
    pub fn open_client(url: &str) -> (client: Result<redis::Client, RedisError>)
        ensures
            client is Ok <==> redis_url_accepted(url@),
            client matches Err(e) ==> e is Client,
    {
        match open_redis_client(url) {
            Ok(client) => Ok(client),
            Err(e) => Err(RedisError::Client(e)),
        }
    }

    /// Wraps an established connection manager.
    pub fn from_manager(manager: ConnectionManager) -> (pool: Self)
        ensures
            pool.connection() == manager,
    {
        RedisPool { manager }
    }

    /// Returns the managed connection.
    pub fn manager(&self) -> (manager: &ConnectionManager)
        ensures
            *manager == self.connection(),
    {
        &self.manager
    }
}

/// A row from the `audit_log` table.
#[derive(Debug, Clone)]
pub struct AuditLogRow {
    /// Primary key.
    pub id: i64,
    /// Short label for the event category.
    pub event_type: String,
    /// JSON payload string.
    pub payload: String,
    /// ISO-8601 timestamp (UTC) set by the database at insert time.
    pub created_at: String,
}

} // verus!
