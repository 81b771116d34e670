use kv_gateway::model::{
    Body, Fault, FaultClass, Reply, StoreCall, StoreFailure, StructuredValue,
};
use kv_gateway::unstructured::put;
use kv_gateway::structured::{
    structured_get, structured_get_reply, structured_put, structured_put_reply,
};

fn sample() -> StructuredValue {
    StructuredValue { foo: "hello".to_string(), bar: -2147483648 }
}

fn fault_text(status: u16, text: &str) -> Reply {
    Reply { status, content_type: None, body: Body::Text(text.to_string()) }
}

#[test]
fn structured_put_without_ttl_writes_without_expiration() {
    assert_eq!(
        structured_put("k", Some(sample()), None),
        Ok(StoreCall::PutSerialized { key: "k".to_string(), value: sample(), ttl: None })
    );
}

#[test]
fn structured_put_with_ttl_attaches_the_expiration() {
    assert_eq!(
        structured_put("k", Some(sample()), Some("3600")),
        Ok(StoreCall::PutSerialized { key: "k".to_string(), value: sample(), ttl: Some(3600) })
    );
}

#[test]
fn structured_put_rejects_a_body_outside_the_schema() {
    assert_eq!(structured_put("k", None, None), Err(Fault::InvalidBody));
    assert_eq!(structured_put("k", None, Some("60")), Err(Fault::InvalidBody));
    assert_eq!(Fault::InvalidBody.reply(), fault_text(400, "invalid body"));
}

#[test]
fn structured_put_checks_the_body_before_the_ttl() {
    assert_eq!(structured_put("k", None, Some("abc")), Err(Fault::InvalidBody));
}

#[test]
fn structured_put_rejects_a_ttl_of_zero() {
    assert_eq!(structured_put("k", Some(sample()), Some("0")), Err(Fault::InvalidTtl));
}

#[test]
fn structured_put_rejects_a_negative_ttl() {
    assert_eq!(structured_put("k", Some(sample()), Some("-5")), Err(Fault::InvalidTtl));
}

#[test]
fn structured_put_rejects_a_ttl_that_is_no_number() {
    assert_eq!(structured_put("k", Some(sample()), Some("abc")), Err(Fault::InvalidTtl));
    assert_eq!(Fault::InvalidTtl.reply(), fault_text(400, "invalid ttl"));
}

#[test]
fn structured_put_reply_acknowledges_or_reports_the_store() {
    assert_eq!(structured_put_reply(Ok(())), fault_text(200, "inserted"));
    assert_eq!(
        structured_put_reply(Err(StoreFailure::Other)),
        fault_text(500, "internal server error")
    );
    assert_eq!(
        structured_put_reply(Err(StoreFailure::Serialization)),
        fault_text(500, "internal server error")
    );
}

#[test]
fn structured_get_asks_for_the_decoded_entry() {
    assert_eq!(structured_get("k"), StoreCall::GetDeserialized { key: "k".to_string() });
}

#[test]
fn structured_get_returns_the_value() {
    assert_eq!(
        structured_get_reply(Ok(Some(sample()))),
        Reply { status: 200, content_type: None, body: Body::Structured(sample()) }
    );
}

#[test]
fn structured_get_of_an_absent_key_is_not_found() {
    assert_eq!(structured_get_reply(Ok(None)), fault_text(404, "key not found"));
}

#[test]
fn structured_get_of_an_entry_outside_the_schema_is_not_found() {
    assert_eq!(
        structured_get_reply(Err(StoreFailure::Serialization)),
        fault_text(404, "key not found")
    );
}

#[test]
fn structured_get_reports_a_failing_store() {
    assert_eq!(
        structured_get_reply(Err(StoreFailure::Other)),
        fault_text(500, "internal server error")
    );
}

#[test]
fn structured_put_then_get_returns_the_value_unchanged() {
    let value = StructuredValue { foo: "caf\u{e9}".to_string(), bar: 2147483647 };
    let stored = match structured_put("k", Some(value.clone()), Some("120")) {
        Ok(StoreCall::PutSerialized { value, .. }) => value,
        other => panic!("no write was asked for: {:?}", other),
    };
    assert_eq!(
        structured_get_reply(Ok(Some(stored))),
        Reply { status: 200, content_type: None, body: Body::Structured(value) }
    );
}

#[test]
fn rejected_structured_put_leaves_the_key_not_found() {
    assert!(structured_put("fresh", None, None).is_err());
    assert_eq!(structured_get_reply(Ok(None)), fault_text(404, "key not found"));
}

#[test]
fn both_rejections_are_validation_errors_with_their_own_message() {
    assert_eq!(Fault::InvalidBody.class(), FaultClass::ValidationError);
    assert_eq!(Fault::InvalidTtl.class(), FaultClass::ValidationError);
    assert_eq!(Fault::InvalidBody.status(), Fault::InvalidTtl.status());
    assert_ne!(Fault::InvalidBody.message(), Fault::InvalidTtl.message());
}

#[test]
fn structured_get_of_bytes_put_unstructured_is_not_found() {
    let written = put("k", vec![0xff, 0x00, 0x7b], None);
    assert!(matches!(written, StoreCall::PutBytes { .. }));
    assert_eq!(
        structured_get_reply(Err(StoreFailure::Serialization)),
        fault_text(404, "key not found")
    );
}
