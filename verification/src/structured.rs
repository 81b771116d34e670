//! The endpoints for values of the fixed schema, which may be written with an
//! expiration.

use vstd::prelude::*;
use crate::model::{
    fault_reply, Body, BodyModel, Fault, Reply, ReplyModel, StoreCall, StoreCallModel,
    StoreFailure, StructuredModel, StructuredValue,
};
use crate::query::{parse_ttl, text_of, ttl_of};

verus! {

/// The model of an optional structured value.
pub open spec fn structured_of(v: Option<StructuredValue>) -> Option<StructuredModel> {
    match v {
        Some(s) => Some(s@),
        None => None,
    }
}

/// What a structured put leads to: a rejection for a body outside the schema,
/// then a rejection for a `ttl` that is no positive integer, else the write
/// with the expiration asked for.
pub open spec fn structured_put_call(
    key: Seq<char>,
    body: Option<StructuredModel>,
    ttl: Option<Seq<char>>,
) -> Result<StoreCallModel, Fault> {
    match body {
        None => Err(Fault::InvalidBody),
        Some(value) => match ttl_of(ttl) {
            Err(fault) => Err(fault),
            Ok(seconds) => Ok(StoreCallModel::PutSerialized { key, value, ttl: seconds }),
        },
    }
}

/// How a structured read is classified: a value that decoded is returned; a
/// missing key and an entry that does not decode are both a missing key; any
/// other failure is the store's.
pub open spec fn structured_get_outcome_of(
    answer: Result<Option<StructuredModel>, StoreFailure>,
) -> Result<StructuredModel, Fault> {
    match answer {
        Ok(Some(value)) => Ok(value),
        Ok(None) => Err(Fault::NotFound),
        Err(StoreFailure::Serialization) => Err(Fault::NotFound),
        Err(StoreFailure::Other) => Err(Fault::StoreError),
    }
}

/// The reply to a structured get, from what the store answered.
pub open spec fn structured_get_reply_of(
    answer: Result<Option<StructuredModel>, StoreFailure>,
) -> ReplyModel {
    match structured_get_outcome_of(answer) {
        Ok(value) => ReplyModel {
            status: 200,
            content_type: None,
            body: BodyModel::Structured(value),
        },
        Err(fault) => fault_reply(fault),
    }
}

/// The model of what a structured read answered.
pub open spec fn structured_answer_of(
    answer: Result<Option<StructuredValue>, StoreFailure>,
) -> Result<Option<StructuredModel>, StoreFailure> {
    match answer {
        Ok(v) => Ok(structured_of(v)),
        Err(e) => Err(e),
    }
}

/// Structured put: `body` is the request's body read against the schema, `None`
/// where it does not follow it. Decides between a rejection, which leaves the
/// store untouched, and the one write to make.
pub fn structured_put(key: &str, body: Option<StructuredValue>, ttl: Option<&str>) -> (step:
    Result<StoreCall, Fault>)
    ensures
        match structured_put_call(key@, structured_of(body), text_of(ttl)) {
            Ok(call) => step is Ok && step->Ok_0@ == call,
            Err(fault) => step == Err::<StoreCall, Fault>(fault),
        },
{
    match body {
        None => Err(Fault::InvalidBody),
        Some(value) => match parse_ttl(ttl) {
            Err(fault) => Err(fault),
            Ok(seconds) => Ok(StoreCall::PutSerialized { key: key.to_owned(), value, ttl: seconds }),
        },
    }
}

/// Structured put: the reply to a request that was decided by
/// [`structured_put`], given what the store answered where a write was made.
pub fn structured_put_reply(answer: Result<(), StoreFailure>) -> (reply: Reply)
    ensures
        reply@ == crate::unstructured::write_reply_of(answer, "inserted"@),
{
    match answer {
        Ok(_) => Reply::ack("inserted"),
        Err(_) => Fault::StoreError.reply(),
    }
}

/// Structured get: asks the store for the entry under the key, decoded
/// against the schema.
pub fn structured_get(key: &str) -> (call: StoreCall)
    ensures
        call@ == (StoreCallModel::GetDeserialized { key: key@ }),
{
    StoreCall::GetDeserialized { key: key.to_owned() }
}

/// Structured get: the reply to what the store answered.
pub fn structured_get_reply(answer: Result<Option<StructuredValue>, StoreFailure>) -> (reply:
    Reply)
    ensures
        reply@ == structured_get_reply_of(structured_answer_of(answer)),
{
    match answer {
        Ok(Some(value)) => Reply { status: 200, content_type: None, body: Body::Structured(value) },
        Ok(None) => Fault::NotFound.reply(),
        Err(StoreFailure::Serialization) => Fault::NotFound.reply(),
        Err(StoreFailure::Other) => Fault::StoreError.reply(),
    }
}

} // verus!
