//! The `SynapseUI` gRPC service's state.
//!
//! The service holds handles to Redis and NATS for the RPCs that will query
//! tasks and agents and publish user actions.

use std::sync::Arc;

use vstd::prelude::*;

use crate::nats::NatsClient;
use crate::storage::RedisPool;

verus! {

/// State of the `SynapseUI` gRPC service.
///
/// Holds handles to Redis and NATS so that the RPCs can use them without
/// changing the constructor signature.
#[derive(Clone)]
pub struct SynapseUiService {
    /// Redis connection pool for task and agent state queries.
    redis: RedisPool,
    /// Optional NATS client for publishing checkpoint/agent events.
    nats: Option<Arc<NatsClient>>,
}

impl SynapseUiService {
    /// The Redis pool the service queries.
    pub closed spec fn redis_pool(self) -> RedisPool {
        self.redis
    }

    /// The NATS client the service publishes on, if any.
    pub closed spec fn nats_client(self) -> Option<Arc<NatsClient>> {
        self.nats
    }

    /// Creates a new [`SynapseUiService`] with the given Redis pool and
    /// optional NATS client.
    pub fn new(redis: RedisPool, nats: Option<Arc<NatsClient>>) -> (service: Self)
        ensures
            service.redis_pool() == redis,
            service.nats_client() == nats,
    {
        Self { redis, nats }
    }
}

} // verus!
