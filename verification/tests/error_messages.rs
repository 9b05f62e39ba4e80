//! Messages of the storage and messaging errors, which embed the text the
//! outside crates give their own errors.

use synapse::nats::NatsError;
use synapse::storage::RedisError;
use synapse::tools::tasks::TaskToolError;

#[test]
fn redis_client_errors_embed_the_redis_text() {
    let inner = redis::RedisError::from((redis::ErrorKind::InvalidClientConfig, "bad url"));
    let text = inner.to_string();
    assert!(!text.is_empty());
    let error = RedisError::Client(inner);
    assert_eq!(error.message(&text), format!("redis error: {text}"));
    assert_eq!(
        TaskToolError::Redis(error).message(&text),
        format!("redis error: redis error: {text}")
    );
    assert_eq!(RedisError::MissingUrl.message(""), "REDIS_URL environment variable not set");
}

#[test]
fn nats_errors_embed_the_nats_text() {
    let connect = async_nats::ConnectError::new(async_nats::ConnectErrorKind::TimedOut);
    let text = connect.to_string();
    assert!(!text.is_empty());
    assert_eq!(NatsError::Connect(connect).message(&text), format!("nats connection error: {text}"));

    let publish =
        async_nats::PublishError::new(async_nats::client::PublishErrorKind::MaxPayloadExceeded);
    let text = publish.to_string();
    assert_eq!(NatsError::Publish(publish).message(&text), format!("nats publish error: {text}"));

    let subscribe =
        async_nats::SubscribeError::new(async_nats::client::SubscribeErrorKind::InvalidSubject);
    let text = subscribe.to_string();
    assert_eq!(
        TaskToolError::Nats(NatsError::Subscribe(subscribe)).message(&text),
        format!("nats error: nats subscribe error: {text}")
    );
}
