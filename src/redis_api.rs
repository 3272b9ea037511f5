//! The parts of the `redis` crate that the library relies on.

use vstd::prelude::*;

verus! {

#[verifier::external_type_specification]
#[verifier::external_body]
pub struct ExClient(redis::Client);

#[verifier::external_type_specification]
#[verifier::external_body]
pub struct ExRedisError(redis::RedisError);

#[verifier::external_type_specification]
#[verifier::external_body]
pub struct ExValue(redis::Value);

/// Whether `redis::Client::open` accepts a connection string; parsing depends
/// on the text alone.
pub uninterp spec fn redis_url_accepted(s: Seq<char>) -> bool;

/// Relies on `redis::Client::open`: it parses the connection string without
/// touching the network, and fails exactly when the string is not a usable
/// redis URL.
#[verifier::external_body]
pub(crate) fn open_client(connection_string: &str) -> (r: Result<redis::Client, redis::RedisError>)
    ensures
        r is Ok <==> redis_url_accepted(connection_string@),
{
    redis::Client::open(connection_string)
}

/// The text that `redis::FromRedisValue` for `String` reads from a reply
/// value, or `None` where it fails; the outcome depends on the value alone.
pub uninterp spec fn redis_value_text(v: redis::Value) -> Option<Seq<char>>;

/// Relies on the `Debug` formatting of `redis::RedisError`, used as the
/// human-readable description of a failure.
#[verifier::external_body]
pub(crate) fn error_description(e: &redis::RedisError) -> (r: String)
{
    format!("{:?}", e)
}

/// Relies on `redis::FromRedisValue` for `String`: reads one reply value as
/// text (bulk strings must be UTF-8), or fails for values that are not
/// string-compatible.
#[verifier::external_body]
pub(crate) fn value_text(v: &redis::Value) -> (r: Result<String, redis::RedisError>)
    ensures
        r is Ok <==> redis_value_text(*v) is Some,
        r is Ok ==> redis_value_text(*v) == Some(r->Ok_0@),
{
    <String as redis::FromRedisValue>::from_redis_value(v)
}

} // verus!
