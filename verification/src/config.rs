//! Server configuration: the ports the MCP and gRPC servers listen on.
//!
//! Each port comes from an environment variable (`MCP_PORT`, `GRPC_PORT`)
//! that the runtime reads; the library decides what a value of it means,
//! falling back to the default port when the variable is absent or not a
//! valid `u16`.

use vstd::prelude::*;

use crate::gemini::{lemma_decimal_numerals_read_back, nat_text};
use crate::numerals::{numeral_value, parse_u16};

verus! {

/// The port given by a configured value: the value read as a decimal `u16`,
/// or `default` when there is no value or it is not a valid `u16`.
pub open spec fn configured_port(value: Option<Seq<char>>, default: u16) -> u16 {
    match value {
        Some(text) => match numeral_value(text) {
            Some(v) => if v <= u16::MAX {
                v as u16
            } else {
                default
            },
            None => default,
        },
        None => default,
    }
}

/// The configured value as text.
pub open spec fn setting_text(value: Option<&str>) -> Option<Seq<char>> {
    match value {
        Some(text) => Some(text@),
        None => None,
    }
}

/// Reads a port from an optional configured value, with a fallback.
fn port_from(value: Option<&str>, default: u16) -> (port: u16)
    ensures
        port == configured_port(setting_text(value), default),
{
    match value {
        Some(text) => match parse_u16(text) {
            Some(port) => port,
            None => default,
        },
        None => default,
    }
}

/// Default port the MCP server listens on.
pub open spec fn mcp_default_port() -> u16 {
    3000
}

/// Configuration for the MCP HTTP server.
#[derive(Debug, Clone)]
pub struct McpServerConfig {
    /// TCP port to listen on (overridden by `MCP_PORT` env var).
    pub port: u16,
}

impl Default for McpServerConfig {
    fn default() -> (config: Self)
        ensures
            config.port == mcp_default_port(),
    {
        Self { port: 3000 }
    }
}

impl McpServerConfig {
    /// Creates a config from the value of the `MCP_PORT` environment
    /// variable, falling back to the default port (3000) when the variable is
    /// absent or not a valid `u16`.
    pub fn from_port_value(value: Option<&str>) -> (config: Self)
        ensures
            config.port == configured_port(setting_text(value), mcp_default_port()),
    {
        Self { port: port_from(value, 3000) }
    }
}

/// Default port the gRPC server listens on.
pub open spec fn grpc_default_port() -> u16 {
    3001
}

/// Configuration for the gRPC server.
#[derive(Debug, Clone)]
pub struct GrpcServerConfig {
    /// TCP port to listen on (overridden by `GRPC_PORT` env var).
    pub port: u16,
}

impl Default for GrpcServerConfig {
    fn default() -> (config: Self)
        ensures
            config.port == grpc_default_port(),
    {
        Self { port: 3001 }
    }
}

impl GrpcServerConfig {
    /// Creates a config from the value of the `GRPC_PORT` environment
    /// variable, falling back to the default port (3001) when the variable is
    /// absent or not a valid `u16`.
    pub fn from_port_value(value: Option<&str>) -> (config: Self)
        ensures
            config.port == configured_port(setting_text(value), grpc_default_port()),
    {
        Self { port: port_from(value, 3001) }
    }
}

/// A configured port is the number the value writes whenever that number
/// fits in a `u16`, whatever the default; the default is used only when
/// there is no value, or the value writes no number, or one above
/// `u16::MAX`. In particular the decimal numeral of any port from 0 to
/// 65535 configures exactly that port.
pub proof fn lemma_configured_port_is_the_written_number(
    text: Seq<char>,
    default: u16,
    other_default: u16,
    port: nat,
)
    ensures
        numeral_value(text) matches Some(v) ==> (v <= u16::MAX ==> (configured_port(
            Some(text),
            default,
        ) == v && configured_port(Some(text), default) == configured_port(
            Some(text),
            other_default,
        ))),
        !(numeral_value(text) matches Some(v) && v <= u16::MAX) ==> configured_port(
            Some(text),
            default,
        ) == default,
        configured_port(None, default) == default,
        port <= u16::MAX ==> configured_port(Some(nat_text(port)), default) == port,
{
    lemma_decimal_numerals_read_back(port);
}

} // verus!
