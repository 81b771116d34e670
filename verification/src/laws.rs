//! What a client observes over one or several requests, when the store keeps
//! its promises.

use vstd::prelude::*;
use crate::model::{
    ack_reply, fault_class, fault_reply, BodyModel, Fault, FaultClass, ListingModel,
    MetadataReadModel, ReplyModel, StoreCallModel, StructuredModel,
};
use crate::query::{
    digits_value, is_digit, limit_of, positive_of, ttl_of, unsigned_part, DEFAULT_LIMIT,
};
use crate::store::{starts_with, Codec, StoreModel};
use crate::structured::{structured_get_reply_of, structured_put_call};
use crate::unstructured::{
    default_content_type, get_reply_of, list_call, list_reply_of, put_call, write_reply_of,
};

verus! {

/// A key that the store does not hold is reported as not found by both get
/// endpoints.
pub proof fn lemma_absent_key_not_found(store: StoreModel, codec: Codec, key: Seq<char>)
    requires
        !store.holds(key),
    ensures
        get_reply_of(store.read_with_metadata(key)) == fault_reply(Fault::NotFound),
        structured_get_reply_of(store.read_structured(codec, key)) == fault_reply(Fault::NotFound),
{
}

/// What was put with a content type comes back from a get with the same bytes
/// under the same content type, whatever the key held before.
pub proof fn lemma_put_then_get(
    store: StoreModel,
    codec: Codec,
    key: Seq<char>,
    body: Seq<u8>,
    content_type: Seq<char>,
)
    ensures
        get_reply_of(
            store.after(codec, put_call(key, body, Some(content_type))).read_with_metadata(key),
        ) == (ReplyModel {
            status: 200,
            content_type: Some(content_type),
            body: BodyModel::Bytes(body),
        }),
{
}

/// What was put without a content type comes back under the default one.
pub proof fn lemma_put_without_content_type_then_get(
    store: StoreModel,
    codec: Codec,
    key: Seq<char>,
    body: Seq<u8>,
)
    ensures
        get_reply_of(store.after(codec, put_call(key, body, None)).read_with_metadata(key)) == (
        ReplyModel {
            status: 200,
            content_type: Some(default_content_type()),
            body: BodyModel::Bytes(body),
        }),
{
}

/// A value that the store returns without metadata is reported as an
/// integrity fault, which no client can take for a missing key.
pub proof fn lemma_value_without_metadata_is_integrity_fault(bytes: Seq<u8>)
    ensures
        get_reply_of(Ok((Some(bytes), MetadataReadModel::Absent))) == fault_reply(
            Fault::IntegrityFault,
        ),
        fault_reply(Fault::IntegrityFault) != fault_reply(Fault::NotFound),
        fault_reply(Fault::IntegrityFault).status != fault_reply(Fault::NotFound).status,
{
}

/// A structured value that was put, with no `ttl` or with one that denotes a
/// positive integer, comes back unchanged from a structured get, provided the
/// store's format reads back what it writes.
pub proof fn lemma_structured_put_then_get(
    store: StoreModel,
    codec: Codec,
    key: Seq<char>,
    value: StructuredModel,
    ttl: Option<Seq<char>>,
)
    requires
        codec.faithful(),
        ttl_of(ttl) is Ok,
    ensures
        structured_put_call(key, Some(value), ttl) == Ok::<StoreCallModel, Fault>(
            StoreCallModel::PutSerialized { key, value, ttl: ttl_of(ttl)->Ok_0 },
        ),
        structured_get_reply_of(
            store.after(codec, structured_put_call(key, Some(value), ttl)->Ok_0).read_structured(
                codec,
                key,
            ),
        ) == (ReplyModel {
            status: 200,
            content_type: None,
            body: BodyModel::Structured(value),
        }),
{
    let call = structured_put_call(key, Some(value), ttl)->Ok_0;
    let stored = store.after(codec, call);
    assert(stored.holds(key));
    assert(stored.entries[key].bytes == (codec.encode)(value));
}

/// A structured put whose body does not follow the schema is rejected before
/// any call on the store, whatever its `ttl`; a key that was absent is then
/// still reported as not found.
pub proof fn lemma_invalid_body_writes_nothing(
    store: StoreModel,
    codec: Codec,
    key: Seq<char>,
    ttl: Option<Seq<char>>,
)
    ensures
        structured_put_call(key, None, ttl) == Err::<StoreCallModel, Fault>(Fault::InvalidBody),
        fault_class(Fault::InvalidBody) == FaultClass::ValidationError,
        fault_reply(Fault::InvalidBody).status == 400,
        !store.holds(key) ==> structured_get_reply_of(store.read_structured(codec, key))
            == fault_reply(Fault::NotFound),
        !store.holds(key) ==> get_reply_of(store.read_with_metadata(key)) == fault_reply(
            Fault::NotFound,
        ),
{
}

/// A structured put with a valid body is rejected, before any call on the
/// store, exactly when its `ttl` is present and denotes no positive integer.
pub proof fn lemma_invalid_ttl_writes_nothing(
    key: Seq<char>,
    value: StructuredModel,
    ttl: Option<Seq<char>>,
)
    ensures
        structured_put_call(key, Some(value), ttl) is Err <==> (ttl is Some && positive_of(
            ttl->Some_0,
        ) is None),
        structured_put_call(key, Some(value), ttl) is Err ==> structured_put_call(
            key,
            Some(value),
            ttl,
        ) == Err::<StoreCallModel, Fault>(Fault::InvalidTtl),
        fault_class(Fault::InvalidTtl) == FaultClass::ValidationError,
        fault_reply(Fault::InvalidTtl).status == 400,
        fault_reply(Fault::InvalidTtl) != fault_reply(Fault::InvalidBody),
{
    reveal_strlit("invalid ttl");
    reveal_strlit("invalid body");
    assert(fault_reply(Fault::InvalidTtl).body->Text_0.len() == 11);
    assert(fault_reply(Fault::InvalidBody).body->Text_0.len() == 12);
}

/// No positive integer is denoted by the empty text, by a text that begins
/// with anything but a digit or a plus sign, or by a text whose digits make
/// zero.
pub proof fn lemma_not_positive(s: Seq<char>)
    ensures
        s.len() == 0 ==> positive_of(s) is None,
        s.len() > 0 && s[0] != '+' && !is_digit(s[0]) ==> positive_of(s) is None,
        digits_value(unsigned_part(s)) == 0 ==> positive_of(s) is None,
{
}

/// A structured get on a key that was written through the unstructured put,
/// with bytes that do not decode against the schema, reports the key as not
/// found.
pub proof fn lemma_unstructured_entry_is_absent_to_structured_get(
    store: StoreModel,
    codec: Codec,
    key: Seq<char>,
    body: Seq<u8>,
    content_type: Option<Seq<char>>,
)
    requires
        (codec.decode)(body) is None,
    ensures
        structured_get_reply_of(
            store.after(codec, put_call(key, body, content_type)).read_structured(codec, key),
        ) == fault_reply(Fault::NotFound),
{
}

/// A key that was written through the structured put holds a value without
/// metadata, which the unstructured get reports as an integrity fault.
pub proof fn lemma_structured_entry_is_integrity_fault_to_get(
    store: StoreModel,
    codec: Codec,
    key: Seq<char>,
    value: StructuredModel,
    ttl: Option<u64>,
)
    ensures
        get_reply_of(
            store.after(
                codec,
                StoreCallModel::PutSerialized { key, value, ttl },
            ).read_with_metadata(key),
        ) == fault_reply(Fault::IntegrityFault),
{
}

/// A put replaces what the key held as a whole: a get after two puts returns
/// the bytes and the content type of the second.
pub proof fn lemma_put_overwrites(
    store: StoreModel,
    codec: Codec,
    key: Seq<char>,
    first: Seq<u8>,
    first_type: Option<Seq<char>>,
    second: Seq<u8>,
    second_type: Option<Seq<char>>,
)
    ensures
        store.after(codec, put_call(key, first, first_type)).after(
            codec,
            put_call(key, second, second_type),
        ).entries =~= store.after(codec, put_call(key, second, second_type)).entries,
        get_reply_of(
            store.after(codec, put_call(key, first, first_type)).after(
                codec,
                put_call(key, second, second_type),
            ).read_with_metadata(key),
        ) == get_reply_of(
            store.after(codec, put_call(key, second, second_type)).read_with_metadata(key),
        ),
{
}

/// A listing asks for at most 100 keys where it names no limit, and for the
/// limit it names otherwise; whatever the store may answer to it is handed on
/// as it came, so the reply holds no more keys than the limit, and only keys
/// that begin with the prefix asked for.
pub proof fn lemma_listing_is_bounded_and_filtered(
    store: StoreModel,
    limit: Option<Seq<char>>,
    prefix: Option<Seq<char>>,
    listing: ListingModel,
)
    requires
        list_call(limit, prefix) matches StoreCallModel::Enumerate { limit: n, prefix: p }
            && store.may_enumerate(n, p, listing),
    ensures
        limit is None ==> limit_of(limit) == DEFAULT_LIMIT == 100,
        limit is Some && positive_of(limit->Some_0) is Some ==> limit_of(limit) == positive_of(
            limit->Some_0,
        )->Some_0,
        list_reply_of(Ok(listing)).status == 200,
        list_reply_of(Ok(listing)).body == BodyModel::Listing(listing),
        listing.keys.len() <= limit_of(limit),
        forall|i: int|
            0 <= i < listing.keys.len() ==> prefix is Some ==> starts_with(
                #[trigger] listing.keys[i].name,
                prefix->Some_0,
            ),
{
    assert forall|i: int| 0 <= i < listing.keys.len() && prefix is Some implies starts_with(
        #[trigger] listing.keys[i].name,
        prefix->Some_0,
    ) by {
        assert(store.holds(listing.keys[i].name));
    }
}

/// Removing a key that the store does not hold is acknowledged like any other
/// removal, and leaves the store as it was.
pub proof fn lemma_delete_absent_key_succeeds(store: StoreModel, codec: Codec, key: Seq<char>)
    requires
        !store.holds(key),
    ensures
        write_reply_of(store.acknowledges(StoreCallModel::Delete { key }), "deleted"@)
            == ack_reply("deleted"@),
        ack_reply("deleted"@).status == 200,
        store.after(codec, StoreCallModel::Delete { key }).entries =~= store.entries,
{
}

/// After a removal both get endpoints report the key as not found.
pub proof fn lemma_delete_then_get(store: StoreModel, codec: Codec, key: Seq<char>)
    ensures
        get_reply_of(
            store.after(codec, StoreCallModel::Delete { key }).read_with_metadata(key),
        ) == fault_reply(Fault::NotFound),
        structured_get_reply_of(
            store.after(codec, StoreCallModel::Delete { key }).read_structured(codec, key),
        ) == fault_reply(Fault::NotFound),
{
}

} // verus!
