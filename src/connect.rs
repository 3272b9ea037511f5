//! The computing steps of `connect`: validating the connection string and
//! taking ownership of the consumer configuration.

use vstd::prelude::*;
use crate::error::{consumer_setup_error, setup_failure_text, StreamError};
use crate::redis_api::{error_description, open_client, redis_url_accepted};

verus! {

/// The stream key, consumer group and consumer-name prefix that a handle's
/// consumer is bound to, owned by the handle.
pub struct ConsumerConfig {
    pub stream_key: String,
    pub consumer_group: String,
    pub consumer_prefix: String,
}

/// The failure reported when opening a connection fails; `description`
/// describes the cause and becomes the message.
pub fn connection_error(description: String) -> (r: StreamError)
    ensures
        r == StreamError::Connection(description),
{
    StreamError::Connection(description)
}

/// The failure reported when consumer-group setup for `config` fails; `cause`
/// describes the underlying failure.
pub fn setup_error(config: &ConsumerConfig, cause: &str) -> (r: StreamError)
    ensures
        r is ConsumerSetup,
        r.message_view() == setup_failure_text(
            cause@,
            config.stream_key@,
            config.consumer_group@,
            config.consumer_prefix@,
        ),
{
    consumer_setup_error(
        cause,
        config.stream_key.as_str(),
        config.consumer_group.as_str(),
        config.consumer_prefix.as_str(),
    )
}

/// First step of `connect`: parses the connection string into a client (no
/// network traffic yet) and bundles the consumer configuration that the new
/// handle will own.  Fails with `Connection` exactly when the string is not a
/// usable redis URL.
pub fn prepare_connect(
    connection_string: &str,
    stream_key: String,
    consumer_group: String,
    consumer_prefix: String,
) -> (r: Result<(redis::Client, ConsumerConfig), StreamError>)
    ensures
        r is Ok <==> redis_url_accepted(connection_string@),
        r is Ok ==> r->Ok_0.1 == (ConsumerConfig { stream_key, consumer_group, consumer_prefix }),
        r is Err ==> r->Err_0 is Connection,
{
    match open_client(connection_string) {
        Ok(client) => Ok((client, ConsumerConfig { stream_key, consumer_group, consumer_prefix })),
        Err(e) => Err(connection_error(error_description(&e))),
    }
}

} // verus!
