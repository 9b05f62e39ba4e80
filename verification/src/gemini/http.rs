//! The HTTP client an agent reaches the MCP server with, kept together with
//! the request timeout it was built with.

use vstd::prelude::*;

verus! {

#[verifier::external_type_specification]
#[verifier::external_body]
pub struct ExHttpClient(reqwest::Client);

/// An HTTP client and the number of seconds after which its requests time
/// out. Only [`http_client`] builds one, so the two always agree.
pub struct TimedClient {
    client: reqwest::Client,
    timeout_secs: u64,
}

impl TimedClient {
    /// Seconds after which a request made with the client times out.
    pub closed spec fn spec_timeout_secs(self) -> u64 {
        self.timeout_secs
    }

    /// The client.
    pub closed spec fn spec_client(self) -> reqwest::Client {
        self.client
    }

    /// Returns the number of seconds after which a request times out.
    pub fn timeout_secs(&self) -> (secs: u64)
        ensures
            secs == self.spec_timeout_secs(),
    {
        self.timeout_secs
    }

    /// Returns the client.
    pub fn client(&self) -> (client: &reqwest::Client)
        ensures
            *client == self.spec_client(),
    {
        &self.client
    }
}

/// Builds an HTTP client with `reqwest::ClientBuilder`
/// (`reqwest::Client::builder().timeout(..).build()`), whose requests time
/// out after `timeout_secs` seconds, and records that timeout beside it.
/// When the builder fails, `Client::default()` (no timeout) is used instead;
/// with the features this crate enables there is no TLS backend whose setup
/// could make it fail. Nothing else is stated about the client.
#[verifier::external_body]
pub fn http_client(timeout_secs: u64) -> (client: TimedClient)
    ensures
        client.spec_timeout_secs() == timeout_secs,
{
    TimedClient {
        client: reqwest::Client::builder()
            .timeout(std::time::Duration::from_secs(timeout_secs))
            .build()
            .unwrap_or_default(),
        timeout_secs,
    }
}

} // verus!
