//! Synapse: the task state machine, task store rules, context tools and agent
//! registry of a multi-agent development orchestrator.

pub mod agent;
pub mod config;
pub mod gemini;
pub mod grpc;
pub mod handler;
pub mod nats;
pub mod numerals;
pub mod storage;
pub mod task;
pub mod tools;
