//! The endpoints for arbitrary bytes, stored with the content type that their
//! writer named.

use vstd::prelude::*;
use crate::model::{
    ack_reply, fault_reply, Body, BodyModel, Fault, Listing, ListingModel, Metadata,
    MetadataModel, MetadataRead, MetadataReadModel, Reply, ReplyModel, StoreCall, StoreCallModel,
    StoreFailure,
};
use crate::query::{limit_of, list_limit, text_of};

verus! {

/// The content type recorded for a value whose writer named none.
pub open spec fn default_content_type() -> Seq<char> {
    "data/binary"@
}

/// The model of an optional owned text.
pub open spec fn owned_text_of(t: Option<String>) -> Option<Seq<char>> {
    match t {
        Some(s) => Some(s@),
        None => None,
    }
}

/// The enumeration that a listing request asks for.
pub open spec fn list_call(limit: Option<Seq<char>>, prefix: Option<Seq<char>>) -> StoreCallModel {
    StoreCallModel::Enumerate {
        limit: limit_of(limit),
        prefix: match prefix {
            Some(p) => p,
            None => Seq::empty(),
        },
    }
}

/// The write that an unstructured put asks for.
pub open spec fn put_call(
    key: Seq<char>,
    body: Seq<u8>,
    content_type: Option<Seq<char>>,
) -> StoreCallModel {
    StoreCallModel::PutBytes {
        key,
        bytes: body,
        metadata: MetadataModel {
            content_type: match content_type {
                Some(c) => c,
                None => default_content_type(),
            },
        },
    }
}

/// The reply to a listing, from what the store answered.
pub open spec fn list_reply_of(answer: Result<ListingModel, StoreFailure>) -> ReplyModel {
    match answer {
        Ok(listing) => ReplyModel {
            status: 200,
            content_type: None,
            body: BodyModel::Listing(listing),
        },
        Err(_) => fault_reply(Fault::StoreError),
    }
}

/// The reply to a write or a removal, from what the store answered.
pub open spec fn write_reply_of(answer: Result<(), StoreFailure>, word: Seq<char>) -> ReplyModel {
    match answer {
        Ok(_) => ack_reply(word),
        Err(_) => fault_reply(Fault::StoreError),
    }
}

/// How a combined read is classified: by whether a value is there first, by
/// its metadata second.
pub open spec fn get_outcome_of(
    value: Option<Seq<u8>>,
    metadata: MetadataReadModel,
) -> Result<(Seq<u8>, MetadataModel), Fault> {
    match value {
        None => Err(Fault::NotFound),
        Some(bytes) => match metadata {
            MetadataReadModel::Present(m) => Ok((bytes, m)),
            MetadataReadModel::Absent => Err(Fault::IntegrityFault),
            MetadataReadModel::Malformed => Err(Fault::IntegrityFault),
        },
    }
}

/// The reply to an unstructured get, from what the store answered.
pub open spec fn get_reply_of(
    answer: Result<(Option<Seq<u8>>, MetadataReadModel), StoreFailure>,
) -> ReplyModel {
    match answer {
        Err(_) => fault_reply(Fault::StoreError),
        Ok((value, metadata)) => match get_outcome_of(value, metadata) {
            Ok((bytes, m)) => ReplyModel {
                status: 200,
                content_type: Some(m.content_type),
                body: BodyModel::Bytes(bytes),
            },
            Err(fault) => fault_reply(fault),
        },
    }
}

/// The model of what a combined read answered.
pub open spec fn read_answer_of(
    answer: Result<(Option<Vec<u8>>, MetadataRead), StoreFailure>,
) -> Result<(Option<Seq<u8>>, MetadataReadModel), StoreFailure> {
    match answer {
        Ok((value, metadata)) => Ok(
            (
                match value {
                    Some(v) => Some(v@),
                    None => None,
                },
                metadata@,
            ),
        ),
        Err(e) => Err(e),
    }
}

/// The model of what an enumeration answered.
pub open spec fn listing_answer_of(answer: Result<Listing, StoreFailure>) -> Result<
    ListingModel,
    StoreFailure,
> {
    match answer {
        Ok(listing) => Ok(listing@),
        Err(e) => Err(e),
    }
}

/// Listing: asks the store for the keys under `prefix` (every key where none
/// is given), at most `limit` of them (100 where none is given or what is
/// given is no positive integer).
pub fn list(limit: Option<&str>, prefix: Option<&str>) -> (call: StoreCall)
    ensures
        call@ == list_call(text_of(limit), text_of(prefix)),
{
    let prefix = match prefix {
        Some(p) => p.to_owned(),
        None => String::new(),
    };
    StoreCall::Enumerate { limit: list_limit(limit), prefix }
}

/// Listing: hands on what the store enumerated as it came.
pub fn list_reply(answer: Result<Listing, StoreFailure>) -> (reply: Reply)
    ensures
        reply@ == list_reply_of(listing_answer_of(answer)),
{
    match answer {
        Ok(listing) => Reply { status: 200, content_type: None, body: Body::Listing(listing) },
        Err(_) => Fault::StoreError.reply(),
    }
}

/// Put: asks the store to write the body under the key together with its
/// content type, the default one where the request named none.
pub fn put(key: &str, body: Vec<u8>, content_type: Option<String>) -> (call: StoreCall)
    ensures
        call@ == put_call(key@, body@, owned_text_of(content_type)),
{
    let content_type = match content_type {
        Some(c) => c,
        None => "data/binary".to_owned(),
    };
    StoreCall::PutBytes { key: key.to_owned(), bytes: body, metadata: Metadata { content_type } }
}

/// Put: acknowledges the write, or reports that the store failed.
pub fn put_reply(answer: Result<(), StoreFailure>) -> (reply: Reply)
    ensures
        reply@ == write_reply_of(answer, "inserted"@),
{
    match answer {
        Ok(_) => Reply::ack("inserted"),
        Err(_) => Fault::StoreError.reply(),
    }
}

/// Get: asks the store for the value under the key and its metadata in one
/// read.
pub fn get(key: &str) -> (call: StoreCall)
    ensures
        call@ == (StoreCallModel::GetBytesWithMetadata { key: key@ }),
{
    StoreCall::GetBytesWithMetadata { key: key.to_owned() }
}

/// Get: classifies what the combined read found. A value with its metadata is
/// returned under the recorded content type; a value without usable metadata
/// is an integrity fault; no value is a missing key, whatever the metadata.
pub fn get_outcome(value: Option<Vec<u8>>, metadata: MetadataRead) -> (outcome: Result<
    (Vec<u8>, Metadata),
    Fault,
>)
    ensures
        match get_outcome_of(
            match value {
                Some(v) => Some(v@),
                None => None,
            },
            metadata@,
        ) {
            Ok((bytes, m)) => outcome is Ok && outcome->Ok_0.0@ == bytes && outcome->Ok_0.1@ == m,
            Err(fault) => outcome == Err::<(Vec<u8>, Metadata), Fault>(fault),
        },
{
    match value {
        None => Err(Fault::NotFound),
        Some(bytes) => match metadata {
            MetadataRead::Present(m) => Ok((bytes, m)),
            MetadataRead::Absent => Err(Fault::IntegrityFault),
            MetadataRead::Malformed => Err(Fault::IntegrityFault),
        },
    }
}

/// Get: the reply to what the store answered.
pub fn get_reply(answer: Result<(Option<Vec<u8>>, MetadataRead), StoreFailure>) -> (reply: Reply)
    ensures
        reply@ == get_reply_of(read_answer_of(answer)),
{
    match answer {
        Err(_) => Fault::StoreError.reply(),
        Ok((value, metadata)) => match get_outcome(value, metadata) {
            Ok((bytes, m)) => Reply {
                status: 200,
                content_type: Some(m.content_type),
                body: Body::Bytes(bytes),
            },
            Err(fault) => fault.reply(),
        },
    }
}

/// Delete: asks the store to remove the key, whether or not it holds anything.
pub fn delete(key: &str) -> (call: StoreCall)
    ensures
        call@ == (StoreCallModel::Delete { key: key@ }),
{
    StoreCall::Delete { key: key.to_owned() }
}

/// Delete: acknowledges the removal, or reports that the store failed.
pub fn delete_reply(answer: Result<(), StoreFailure>) -> (reply: Reply)
    ensures
        reply@ == write_reply_of(answer, "deleted"@),
{
    match answer {
        Ok(_) => Reply::ack("deleted"),
        Err(_) => Fault::StoreError.reply(),
    }
}

} // verus!
