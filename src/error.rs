//! One reportable failure shape for every failure source.

use vstd::prelude::*;
use vstd::string::StringExecFns;

verus! {

/// A failure surfaced to the caller; each variant carries (or implies) the
/// human-readable message that the caller sees.
pub enum StreamError {
    /// The connection string is invalid or the store is unreachable.
    Connection(String),
    /// Consumer-group or consumer initialization failed.
    ConsumerSetup(String),
    /// The handle was disabled by a catastrophic failure of an earlier operation.
    LockUnavailable,
    /// The backing-store call itself failed.
    Operation(String),
    /// A field value of a record could not be read as a string.
    Decode(String),
}

/// The message reported for a disabled handle.
pub open spec fn lock_unavailable_text() -> Seq<char> {
    "Lock unavailable: an earlier operation failed while holding the handle's lock"@
}

/// The message of a consumer-setup failure: its cause and the stream key,
/// group and prefix that were used.
pub open spec fn setup_failure_text(
    cause: Seq<char>,
    key: Seq<char>,
    group: Seq<char>,
    prefix: Seq<char>,
) -> Seq<char> {
    "Failed to connect to redis stream client: "@ + cause + ". Key:"@ + key + " group:"@ + group
        + ", prefix:"@ + prefix
}

impl StreamError {
    /// The text that the caller sees for this failure.
    pub open spec fn message_view(&self) -> Seq<char> {
        match self {
            StreamError::Connection(m) => m@,
            StreamError::ConsumerSetup(m) => m@,
            StreamError::LockUnavailable => lock_unavailable_text(),
            StreamError::Operation(m) => m@,
            StreamError::Decode(m) => m@,
        }
    }

    /// The human-readable message of this failure.
    pub fn message(&self) -> (r: String)
        ensures
            r@ == self.message_view(),
    {
        match self {
            StreamError::Connection(m) => m.clone(),
            StreamError::ConsumerSetup(m) => m.clone(),
            StreamError::LockUnavailable => String::from_str(
                "Lock unavailable: an earlier operation failed while holding the handle's lock",
            ),
            StreamError::Operation(m) => m.clone(),
            StreamError::Decode(m) => m.clone(),
        }
    }
}

/// The failure reported when consumer-group setup fails with `cause`.
pub fn consumer_setup_error(cause: &str, key: &str, group: &str, prefix: &str) -> (r: StreamError)
    ensures
        r is ConsumerSetup,
        r.message_view() == setup_failure_text(cause@, key@, group@, prefix@),
{
    let text = String::from_str("Failed to connect to redis stream client: ").concat(cause).concat(
        ". Key:",
    ).concat(key).concat(" group:").concat(group).concat(", prefix:").concat(prefix);
    StreamError::ConsumerSetup(text)
}

} // verus!
