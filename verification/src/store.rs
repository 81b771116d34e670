//! A mathematical model of the store that the gateway stands in front of.
//!
//! The gateway never sees the store itself, only its answers. This model says
//! what a store that keeps its promises holds after each call and answers to
//! each read, so that what a client observes over several requests can be
//! stated and proved. Nothing here is executable.

use vstd::prelude::*;
use crate::model::{
    ListingModel, MetadataModel, MetadataReadModel, StoreCallModel, StoreFailure, StructuredModel,
};

verus! {

/// What the store keeps under one key.
pub struct EntryModel {
    pub bytes: Seq<u8>,
    pub metadata: Option<MetadataModel>,
    pub ttl: Option<u64>,
}

/// The contents of a store: its entries by key.
pub struct StoreModel {
    pub entries: Map<Seq<char>, EntryModel>,
}

/// The format in which the store keeps structured values.
pub struct Codec {
    pub encode: spec_fn(StructuredModel) -> Seq<u8>,
    pub decode: spec_fn(Seq<u8>) -> Option<StructuredModel>,
}

impl Codec {
    /// Whether every value is read back from its own encoding.
    pub open spec fn faithful(self) -> bool {
        forall|v: StructuredModel| (self.decode)(#[trigger] (self.encode)(v)) == Some(v)
    }
}

/// Whether `s` begins with `prefix`.
pub open spec fn starts_with(s: Seq<char>, prefix: Seq<char>) -> bool {
    prefix.len() <= s.len() && s.subrange(0, prefix.len() as int) == prefix
}

impl StoreModel {
    /// Whether the store holds an entry under `key`.
    pub open spec fn holds(self, key: Seq<char>) -> bool {
        self.entries.dom().contains(key)
    }

    /// The store after a call. A write replaces the entry under its key as a
    /// whole, value, metadata and expiration together; a removal leaves no
    /// entry there; a read changes nothing.
    pub open spec fn after(self, codec: Codec, call: StoreCallModel) -> StoreModel {
        match call {
            StoreCallModel::PutBytes { key, bytes, metadata } => StoreModel {
                entries: self.entries.insert(
                    key,
                    EntryModel { bytes, metadata: Some(metadata), ttl: None },
                ),
            },
            StoreCallModel::PutSerialized { key, value, ttl } => StoreModel {
                entries: self.entries.insert(
                    key,
                    EntryModel { bytes: (codec.encode)(value), metadata: None, ttl },
                ),
            },
            StoreCallModel::Delete { key } => StoreModel { entries: self.entries.remove(key) },
            _ => self,
        }
    }

    /// What the store answers to a write or a removal: it acknowledges, also
    /// where a removal finds nothing under the key.
    pub open spec fn acknowledges(self, call: StoreCallModel) -> Result<(), StoreFailure> {
        Ok(())
    }

    /// What the store answers to a combined read of value and metadata.
    pub open spec fn read_with_metadata(self, key: Seq<char>) -> Result<
        (Option<Seq<u8>>, MetadataReadModel),
        StoreFailure,
    > {
        if self.holds(key) {
            Ok(
                (
                    Some(self.entries[key].bytes),
                    match self.entries[key].metadata {
                        Some(m) => MetadataReadModel::Present(m),
                        None => MetadataReadModel::Absent,
                    },
                ),
            )
        } else {
            Ok((None, MetadataReadModel::Absent))
        }
    }

    /// What the store answers to a read against the schema.
    pub open spec fn read_structured(self, codec: Codec, key: Seq<char>) -> Result<
        Option<StructuredModel>,
        StoreFailure,
    > {
        if self.holds(key) {
            match (codec.decode)(self.entries[key].bytes) {
                Some(value) => Ok(Some(value)),
                None => Err(StoreFailure::Serialization),
            }
        } else {
            Ok(None)
        }
    }

    /// Whether `listing` is an answer that the store may give to an
    /// enumeration: at most `limit` keys, each of them held by the store and
    /// beginning with `prefix`, none of them twice.
    pub open spec fn may_enumerate(
        self,
        limit: u64,
        prefix: Seq<char>,
        listing: ListingModel,
    ) -> bool {
        &&& listing.keys.len() <= limit
        &&& forall|i: int|
            0 <= i < listing.keys.len() ==> {
                &&& self.holds(#[trigger] listing.keys[i].name)
                &&& starts_with(listing.keys[i].name, prefix)
            }
        &&& forall|i: int, j: int|
            0 <= i < j < listing.keys.len() ==> listing.keys[i].name != listing.keys[j].name
    }
}

} // verus!
