//! NATS messaging for the Synapse system: the subject schema, the client
//! handle and its errors.
//!
//! Connecting, publishing and subscribing are network I/O; the runtime around
//! this library performs them on the handle held here.

pub mod subjects;

use vstd::prelude::*;

verus! {

#[verifier::external_type_specification]
#[verifier::external_body]
pub struct ExNatsConnection(async_nats::Client);

#[verifier::external_type_specification]
#[verifier::external_body]
#[verifier::reject_recursive_types(Kind)]
pub struct ExNatsFailure<Kind: Clone + std::fmt::Debug + std::fmt::Display + PartialEq>(
    async_nats::error::Error<Kind>,
);

#[verifier::external_type_specification]
#[verifier::external_body]
pub struct ExNatsConnectKind(async_nats::ConnectErrorKind);

#[verifier::external_type_specification]
#[verifier::external_body]
pub struct ExNatsPublishKind(async_nats::client::PublishErrorKind);

#[verifier::external_type_specification]
#[verifier::external_body]
pub struct ExNatsSubscribeKind(async_nats::client::SubscribeErrorKind);

/// Errors that can occur when using the NATS client.
#[derive(Debug)]
pub enum NatsError {
    /// The `NATS_URL` environment variable is missing.
    MissingUrl,
    /// The underlying `async-nats` client returned an error during connect.
    Connect(async_nats::ConnectError),
    /// A publish operation failed.
    Publish(async_nats::PublishError),
    /// A subscribe operation failed.
    Subscribe(async_nats::SubscribeError),
}

/// The human-readable message of a [`NatsError`], given `source`, the text
/// `async_nats` displays for the error it carries (unused for `MissingUrl`).
pub open spec fn nats_error_message(e: NatsError, source: Seq<char>) -> Seq<char> {
    match e {
        NatsError::MissingUrl => "NATS_URL environment variable not set"@,
        NatsError::Connect(_) => "nats connection error: "@ + source,
        NatsError::Publish(_) => "nats publish error: "@ + source,
        NatsError::Subscribe(_) => "nats subscribe error: "@ + source,
    }
}

impl NatsError {
    /// Returns the human-readable message of this error; `source` is the
    /// displayed text of the `async_nats` error it carries.
    pub fn message(&self, source: &str) -> (text: String)
        ensures
            text@ == nats_error_message(*self, source@),
    {
        let prefix = match self {
            NatsError::MissingUrl => {
                return String::from_str("NATS_URL environment variable not set");
            },
            NatsError::Connect(_) => "nats connection error: ",
            NatsError::Publish(_) => "nats publish error: ",
            NatsError::Subscribe(_) => "nats subscribe error: ",
        };
        let mut text = String::from_str(prefix);
        text.append(source);
        text
    }
}

/// Gives `<async_nats::Client as Clone>::clone` to the verifier, with no
/// claim about the copy: `async_nats` derives it field by field, and the copy
/// of its pollable sender starts afresh rather than in the original's state.
pub assume_specification[ <async_nats::Client as std::clone::Clone>::clone ](
    client: &async_nats::Client,
) -> async_nats::Client;

/// Cheap-to-clone async NATS client.
///
/// Internally backed by [`async_nats::Client`], which is already `Clone` and
/// multiplexes all commands over a single managed connection.
#[derive(Clone, Debug)]
pub struct NatsClient {
    inner: async_nats::Client,
}

impl NatsClient {
    /// The connection this client publishes and subscribes on.
    pub closed spec fn connection(self) -> async_nats::Client {
        self.inner
    }

    /// Wraps an established `async_nats` connection.
    pub fn from_connection(inner: async_nats::Client) -> (client: Self)
        ensures
            client.connection() == inner,
    {
        NatsClient { inner }
    }

    /// Returns the underlying `async_nats` connection.
    pub fn inner(&self) -> (inner: &async_nats::Client)
        ensures
            *inner == self.connection(),
    {
        &self.inner
    }
}

} // verus!
