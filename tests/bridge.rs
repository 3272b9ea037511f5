use redis::{ErrorKind, RedisError, Value};
use stream_bridge::codec::{assemble_payload, decode_record, Payload, StreamRecord};
use stream_bridge::connect::{connection_error, prepare_connect, setup_error, ConsumerConfig};
use stream_bridge::error::{consumer_setup_error, StreamError};
use stream_bridge::handle::RedisStreamWrapper;

fn config(key: &str, group: &str, prefix: &str) -> ConsumerConfig {
    ConsumerConfig {
        stream_key: key.to_string(),
        consumer_group: group.to_string(),
        consumer_prefix: prefix.to_string(),
    }
}

fn bulk(text: &str) -> Value {
    Value::BulkString(text.as_bytes().to_vec())
}

fn record(id: &str, fields: Vec<(&str, Value)>) -> StreamRecord {
    StreamRecord {
        id: id.to_string(),
        fields: fields.into_iter().map(|(k, v)| (k.to_string(), v)).collect(),
    }
}

fn pair(k: &str, v: &str) -> (String, String) {
    (k.to_string(), v.to_string())
}

#[test]
fn orders_scenario_read_empty_then_record_then_ack() {
    let (_client, cfg) = prepare_connect(
        "redis://127.0.0.1:6379",
        "orders".to_string(),
        "workers".to_string(),
        "consumer-".to_string(),
    )
    .ok()
    .expect("a redis URL is accepted");
    let handle = RedisStreamWrapper::new(cfg);
    assert_eq!(handle.config().stream_key, "orders");

    handle.admit_read().ok().expect("usable handle");
    let first = handle.read_result(Ok(None)).ok().expect("empty stream is not an error");
    assert!(first.is_empty());

    handle.admit_read().ok().expect("usable handle");
    let rec = record("1700000000000-0", vec![("sku", bulk("A1")), ("qty", bulk("3"))]);
    let second = handle.read_result(Ok(Some(rec))).ok().expect("record decodes");
    assert!(!second.is_empty());
    assert_eq!(second.id, Some("1700000000000-0".to_string()));
    assert_eq!(second.fields, vec![pair("sku", "A1"), pair("qty", "3")]);

    let id = second.id.clone().unwrap();
    let forwarded = handle.admit_ack(id.clone()).ok().expect("usable handle");
    assert_eq!(forwarded, id);
    assert!(handle.ack_result(Ok(())).is_ok());
}

#[test]
fn fresh_handle_reads_empty_payload() {
    let handle = RedisStreamWrapper::new(config("s", "g", "p"));
    assert!(!handle.is_disabled());
    let p = handle.read_result(Ok(None)).ok().expect("no error");
    assert_eq!(p.id, None);
    assert!(p.fields.is_empty());
}

#[test]
fn malformed_connection_string_is_connection_error() {
    let r = prepare_connect("not a url", "s".to_string(), "g".to_string(), "p".to_string());
    assert!(matches!(r, Err(StreamError::Connection(_))));
    let r = prepare_connect("http://localhost", "s".to_string(), "g".to_string(), "p".to_string());
    match r {
        Err(StreamError::Connection(m)) => assert!(m.contains("Redis URL did not parse")),
        _ => panic!("expected a connection error"),
    }
}

#[test]
fn accepted_connection_string_keeps_configuration() {
    let (_client, cfg) = prepare_connect(
        "redis://localhost:6379/0",
        "k".to_string(),
        "grp".to_string(),
        "c-".to_string(),
    )
    .ok()
    .expect("accepted");
    assert_eq!(cfg.stream_key, "k");
    assert_eq!(cfg.consumer_group, "grp");
    assert_eq!(cfg.consumer_prefix, "c-");
}

#[test]
fn unreachable_store_is_connection_error() {
    let cause = RedisError::from((ErrorKind::IoError, "connection refused"));
    let r = connection_error(format!("{:?}", cause));
    match &r {
        StreamError::Connection(m) => assert!(m.contains("connection refused")),
        _ => panic!("expected a connection error"),
    }
    assert_eq!(connection_error("refused".to_string()).message(), "refused");
}

#[test]
fn setup_failure_message_names_key_group_prefix() {
    let e = setup_error(&config("orders", "workers", "consumer-"), "BUSYGROUP");
    assert!(matches!(e, StreamError::ConsumerSetup(_)));
    assert_eq!(
        e.message(),
        "Failed to connect to redis stream client: BUSYGROUP. Key:orders group:workers, prefix:consumer-"
    );
    let e2 = consumer_setup_error("x", "a", "b", "c");
    assert_eq!(e2.message(), "Failed to connect to redis stream client: x. Key:a group:b, prefix:c");
}

#[test]
fn ack_of_captured_identifier_succeeds() {
    let handle = RedisStreamWrapper::new(config("s", "g", "p"));
    let p = handle
        .read_result(Ok(Some(record("5-1", vec![("a", bulk("b"))]))))
        .ok()
        .expect("decodes");
    let id = p.id.unwrap();
    assert_eq!(handle.admit_ack(id).ok(), Some("5-1".to_string()));
    assert!(handle.ack_result(Ok(())).is_ok());
}

#[test]
fn ack_of_unknown_identifier_passes_through_and_reports_rejection() {
    let handle = RedisStreamWrapper::new(config("s", "g", "p"));
    let forwarded = handle.admit_ack("no-such-id".to_string()).ok().expect("not validated here");
    assert_eq!(forwarded, "no-such-id");
    match handle.ack_result(Err("unknown id".to_string())) {
        Err(StreamError::Operation(m)) => assert_eq!(m, "unknown id"),
        _ => panic!("expected an operation error"),
    }
    assert!(handle.admit_read().is_ok());
}

#[test]
fn backing_store_read_failure_is_operation_error_and_handle_stays_usable() {
    let handle = RedisStreamWrapper::new(config("s", "g", "p"));
    match handle.read_result(Err("broken pipe".to_string())) {
        Err(StreamError::Operation(m)) => assert_eq!(m, "broken pipe"),
        _ => panic!("expected an operation error"),
    }
    assert!(handle.admit_read().is_ok());
    assert!(handle.read_result(Ok(None)).is_ok());
}

#[test]
fn disabled_handle_fails_every_operation_with_lock_unavailable() {
    let mut handle = RedisStreamWrapper::new(config("s", "g", "p"));
    handle.disable();
    assert!(handle.is_disabled());
    assert!(matches!(handle.admit_read(), Err(StreamError::LockUnavailable)));
    assert!(matches!(handle.admit_ack("1-0".to_string()), Err(StreamError::LockUnavailable)));
    assert!(matches!(handle.read_result(Ok(None)), Err(StreamError::LockUnavailable)));
    let rec = record("1-0", vec![("a", bulk("b"))]);
    assert!(matches!(handle.read_result(Ok(Some(rec))), Err(StreamError::LockUnavailable)));
    assert!(matches!(handle.ack_result(Ok(())), Err(StreamError::LockUnavailable)));
    handle.disable();
    assert!(matches!(handle.admit_read(), Err(StreamError::LockUnavailable)));
    assert_eq!(
        StreamError::LockUnavailable.message(),
        "Lock unavailable: an earlier operation failed while holding the handle's lock"
    );
}

#[test]
fn non_text_value_is_decode_error_naming_the_field() {
    let rec = record("2-0", vec![("ok", bulk("x")), ("bad", Value::Nil), ("later", Value::Nil)]);
    match decode_record(Some(rec)) {
        Err(StreamError::Decode(m)) => assert!(m.starts_with("Field bad could not be read as a string: ")),
        _ => panic!("expected a decode error"),
    }
}

#[test]
fn invalid_utf8_bulk_string_is_decode_error() {
    let rec = record("3-0", vec![("blob", Value::BulkString(vec![0xff, 0xfe]))]);
    assert!(matches!(decode_record(Some(rec)), Err(StreamError::Decode(_))));
}

#[test]
fn integer_and_simple_values_read_as_text() {
    let rec = record(
        "4-0",
        vec![("n", Value::Int(42)), ("s", Value::SimpleString("hi".to_string())), ("o", Value::Okay)],
    );
    let p = decode_record(Some(rec)).ok().expect("all are text");
    assert_eq!(p.fields, vec![pair("n", "42"), pair("s", "hi"), pair("o", "OK")]);
}

#[test]
fn field_named_like_identifier_does_not_shadow_it() {
    let rec = record("9-9", vec![("key", bulk("other")), ("id", bulk("x"))]);
    let p = decode_record(Some(rec)).ok().expect("decodes");
    assert_eq!(p.id, Some("9-9".to_string()));
    assert_eq!(p.fields, vec![pair("key", "other"), pair("id", "x")]);
}

#[test]
fn absent_record_decodes_to_empty_payload() {
    let p = decode_record(None).ok().expect("not an error");
    assert!(p.is_empty());
    assert!(Payload::empty().is_empty());
}

#[test]
fn record_without_fields_is_not_empty() {
    let p = decode_record(Some(record("7-0", vec![]))).ok().expect("decodes");
    assert!(!p.is_empty());
    assert_eq!(p.id, Some("7-0".to_string()));
}

#[test]
fn assemble_reports_first_failed_field() {
    let outcomes = vec![
        ("a".to_string(), Ok("1".to_string())),
        ("b".to_string(), Err("first".to_string())),
        ("c".to_string(), Err("second".to_string())),
    ];
    match assemble_payload("1-1".to_string(), &outcomes) {
        Err(StreamError::Decode(m)) => assert_eq!(m, "Field b could not be read as a string: first"),
        _ => panic!("expected a decode error"),
    }
    let good = vec![("a".to_string(), Ok("1".to_string())), ("b".to_string(), Ok("2".to_string()))];
    let p = assemble_payload("1-2".to_string(), &good).ok().expect("all text");
    assert_eq!(p.id, Some("1-2".to_string()));
    assert_eq!(p.fields, vec![pair("a", "1"), pair("b", "2")]);
}
