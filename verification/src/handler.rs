//! The MCP request handler's state: the Redis pool and task store that the
//! tools use.
//!
//! Routing tool calls and answering the MCP handshake are done by the MCP
//! runtime around the library, on this state.

use std::sync::Arc;

use vstd::prelude::*;

use crate::nats::NatsClient;
use crate::storage::RedisPool;
use crate::tools::tasks::TaskStore;

verus! {

/// MCP request handler for the Synapse server.
///
/// Carries shared state (Redis pool, optional NATS client, task store) that
/// tool implementations use.
#[derive(Clone, Debug)]
pub struct SynapseMcpHandler {
    /// Optional Redis connection pool. `None` when no Redis URL is configured
    /// (e.g. in pure unit tests that do not need storage).
    redis: Option<RedisPool>,
    /// Optional task store backed by Redis (and optionally NATS for event
    /// publishing). `None` when Redis is not configured.
    task_store: Option<TaskStore>,
}

impl SynapseMcpHandler {
    /// The Redis pool the context tools use, if one was configured.
    pub closed spec fn redis_pool(self) -> Option<RedisPool> {
        self.redis
    }

    /// The task store the task tools use, if one was configured.
    pub closed spec fn store(self) -> Option<TaskStore> {
        self.task_store
    }

    /// Creates a new handler instance without a Redis connection.
    pub fn new() -> (handler: Self)
        ensures
            handler.redis_pool() is None,
            handler.store() is None,
    {
        SynapseMcpHandler { redis: None, task_store: None }
    }

    /// Creates a new handler backed by the given Redis pool.
    ///
    /// The task store is initialised with no NATS client, so status-change
    /// events will not be published.
    pub fn with_redis(pool: RedisPool) -> (handler: Self)
        ensures
            handler.redis_pool() == Some(pool),
            handler.store() matches Some(store) && store.redis_pool() == pool
                && store.nats_client() is None,
    {
        let task_store = TaskStore::new(pool.clone(), None);
        SynapseMcpHandler { redis: Some(pool), task_store: Some(task_store) }
    }

    /// Creates a new handler backed by Redis and NATS.
    ///
    /// Status-change events for tasks will be published to NATS.
    pub fn with_redis_and_nats(pool: RedisPool, nats: Arc<NatsClient>) -> (handler: Self)
        ensures
            handler.redis_pool() == Some(pool),
            handler.store() matches Some(store) && store.redis_pool() == pool
                && store.nats_client() == Some(nats),
    {
        let task_store = TaskStore::new(pool.clone(), Some(nats));
        SynapseMcpHandler { redis: Some(pool), task_store: Some(task_store) }
    }

    /// Returns a reference to the Redis pool, if one was configured.
    pub fn redis(&self) -> (redis: Option<&RedisPool>)
        ensures
            match (redis, self.redis_pool()) {
                (Some(r), Some(p)) => *r == p,
                (None, None) => true,
                _ => false,
            },
    {
        self.redis.as_ref()
    }

    /// Returns a reference to the [`TaskStore`], if one was configured.
    pub fn task_store(&self) -> (store: Option<&TaskStore>)
        ensures
            match (store, self.store()) {
                (Some(s), Some(t)) => *s == t,
                (None, None) => true,
                _ => false,
            },
    {
        self.task_store.as_ref()
    }

    /// The instructions the server announces to MCP clients.
    pub fn instructions() -> (text: &'static str)
        ensures
            text@ == "Synapse MCP server -- multi-agent development orchestration."@,
    {
        "Synapse MCP server -- multi-agent development orchestration."
    }
}

impl Default for SynapseMcpHandler {
    fn default() -> (handler: Self)
        ensures
            handler.redis_pool() is None,
            handler.store() is None,
    {
        SynapseMcpHandler::new()
    }
}

} // verus!
