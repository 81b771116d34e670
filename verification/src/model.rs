//! The values that requests, store calls and replies are made of, each with the
//! mathematical model that the contracts speak of.

use vstd::prelude::*;

verus! {

/// The metadata record kept beside an unstructured value.
#[derive(Debug, Clone, PartialEq, Eq)]
pub struct Metadata {
    /// The content type the writer named, or the default marker.
    pub content_type: String,
}

/// Model of [`Metadata`].
pub struct MetadataModel {
    pub content_type: Seq<char>,
}

impl View for Metadata {
    type V = MetadataModel;

    open spec fn view(&self) -> MetadataModel {
        MetadataModel { content_type: self.content_type@ }
    }
}

/// A value of the fixed schema of the structured endpoints.
#[derive(Debug, Clone, PartialEq, Eq)]
pub struct StructuredValue {
    pub foo: String,
    pub bar: i32,
}

/// Model of [`StructuredValue`].
pub struct StructuredModel {
    pub foo: Seq<char>,
    pub bar: i32,
}

impl View for StructuredValue {
    type V = StructuredModel;

    open spec fn view(&self) -> StructuredModel {
        StructuredModel { foo: self.foo@, bar: self.bar }
    }
}

/// One key of a listing, with what the store reports beside its name.
#[derive(Debug, Clone, PartialEq, Eq)]
pub struct ListedKey {
    pub name: String,
    /// When the entry expires, in seconds since the epoch.
    pub expiration: Option<u64>,
    /// The entry's metadata as the store reports it, in JSON text.
    pub metadata: Option<String>,
}

/// Model of [`ListedKey`].
pub struct ListedKeyModel {
    pub name: Seq<char>,
    pub expiration: Option<u64>,
    pub metadata: Option<Seq<char>>,
}

impl View for ListedKey {
    type V = ListedKeyModel;

    open spec fn view(&self) -> ListedKeyModel {
        ListedKeyModel {
            name: self.name@,
            expiration: self.expiration,
            metadata: match self.metadata {
                Some(m) => Some(m@),
                None => None,
            },
        }
    }
}

/// What the store answers to an enumeration.
#[derive(Debug, Clone, PartialEq, Eq)]
pub struct Listing {
    pub keys: Vec<ListedKey>,
    pub list_complete: bool,
    pub cursor: Option<String>,
}

/// Model of [`Listing`].
pub struct ListingModel {
    pub keys: Seq<ListedKeyModel>,
    pub list_complete: bool,
    pub cursor: Option<Seq<char>>,
}

impl View for Listing {
    type V = ListingModel;

    open spec fn view(&self) -> ListingModel {
        ListingModel {
            keys: Seq::new(self.keys@.len(), |i: int| self.keys@[i]@),
            list_complete: self.list_complete,
            cursor: match self.cursor {
                Some(c) => Some(c@),
                None => None,
            },
        }
    }
}

/// The ways a request can fail.
#[derive(Debug, Clone, Copy, PartialEq, Eq, Structural)]
pub enum Fault {
    /// The key is absent, or holds nothing that the endpoint can return.
    NotFound,
    /// A value is stored without usable metadata.
    IntegrityFault,
    /// The body of a structured write does not follow the schema.
    InvalidBody,
    /// The `ttl` parameter of a structured write is no positive integer.
    InvalidTtl,
    /// The store failed in a way that has no class of its own.
    StoreError,
}

/// The classes that faults fall into. The two rejections of a structured write
/// share a class and differ in their message.
#[derive(Debug, Clone, Copy, PartialEq, Eq, Structural)]
pub enum FaultClass {
    NotFound,
    IntegrityFault,
    ValidationError,
    StoreError,
}

/// How a call on the store can fail.
#[derive(Debug, Clone, Copy, PartialEq, Eq, Structural)]
pub enum StoreFailure {
    /// What is stored could not be decoded into the type asked for.
    Serialization,
    /// Any other failure.
    Other,
}

/// What a combined read found of an entry's metadata.
#[derive(Debug, Clone, PartialEq, Eq)]
pub enum MetadataRead {
    Present(Metadata),
    Absent,
    Malformed,
}

/// Model of [`MetadataRead`].
pub enum MetadataReadModel {
    Present(MetadataModel),
    Absent,
    Malformed,
}

impl View for MetadataRead {
    type V = MetadataReadModel;

    open spec fn view(&self) -> MetadataReadModel {
        match self {
            MetadataRead::Present(m) => MetadataReadModel::Present(m@),
            MetadataRead::Absent => MetadataReadModel::Absent,
            MetadataRead::Malformed => MetadataReadModel::Malformed,
        }
    }
}

/// The single call that a request asks of the store.
#[derive(Debug, Clone, PartialEq, Eq)]
pub enum StoreCall {
    Enumerate { limit: u64, prefix: String },
    PutBytes { key: String, bytes: Vec<u8>, metadata: Metadata },
    PutSerialized { key: String, value: StructuredValue, ttl: Option<u64> },
    GetBytesWithMetadata { key: String },
    GetDeserialized { key: String },
    Delete { key: String },
}

/// Model of [`StoreCall`].
pub enum StoreCallModel {
    Enumerate { limit: u64, prefix: Seq<char> },
    PutBytes { key: Seq<char>, bytes: Seq<u8>, metadata: MetadataModel },
    PutSerialized { key: Seq<char>, value: StructuredModel, ttl: Option<u64> },
    GetBytesWithMetadata { key: Seq<char> },
    GetDeserialized { key: Seq<char> },
    Delete { key: Seq<char> },
}

impl View for StoreCall {
    type V = StoreCallModel;

    open spec fn view(&self) -> StoreCallModel {
        match self {
            StoreCall::Enumerate { limit, prefix } => StoreCallModel::Enumerate {
                limit: *limit,
                prefix: prefix@,
            },
            StoreCall::PutBytes { key, bytes, metadata } => StoreCallModel::PutBytes {
                key: key@,
                bytes: bytes@,
                metadata: metadata@,
            },
            StoreCall::PutSerialized { key, value, ttl } => StoreCallModel::PutSerialized {
                key: key@,
                value: value@,
                ttl: *ttl,
            },
            StoreCall::GetBytesWithMetadata { key } => StoreCallModel::GetBytesWithMetadata {
                key: key@,
            },
            StoreCall::GetDeserialized { key } => StoreCallModel::GetDeserialized { key: key@ },
            StoreCall::Delete { key } => StoreCallModel::Delete { key: key@ },
        }
    }
}

/// The payload of a reply.
#[derive(Debug, Clone, PartialEq, Eq)]
pub enum Body {
    Text(String),
    Bytes(Vec<u8>),
    Listing(Listing),
    Structured(StructuredValue),
}

/// Model of [`Body`].
pub enum BodyModel {
    Text(Seq<char>),
    Bytes(Seq<u8>),
    Listing(ListingModel),
    Structured(StructuredModel),
}

impl View for Body {
    type V = BodyModel;

    open spec fn view(&self) -> BodyModel {
        match self {
            Body::Text(t) => BodyModel::Text(t@),
            Body::Bytes(b) => BodyModel::Bytes(b@),
            Body::Listing(l) => BodyModel::Listing(l@),
            Body::Structured(v) => BodyModel::Structured(v@),
        }
    }
}

/// What goes back to the client: a status, a payload, and for stored bytes the
/// content type they were written with.
#[derive(Debug, Clone, PartialEq, Eq)]
pub struct Reply {
    pub status: u16,
    pub content_type: Option<String>,
    pub body: Body,
}

/// Model of [`Reply`].
pub struct ReplyModel {
    pub status: u16,
    pub content_type: Option<Seq<char>>,
    pub body: BodyModel,
}

impl View for Reply {
    type V = ReplyModel;

    open spec fn view(&self) -> ReplyModel {
        ReplyModel {
            status: self.status,
            content_type: match self.content_type {
                Some(c) => Some(c@),
                None => None,
            },
            body: self.body@,
        }
    }
}

/// The class of a fault.
pub open spec fn fault_class(fault: Fault) -> FaultClass {
    match fault {
        Fault::NotFound => FaultClass::NotFound,
        Fault::IntegrityFault => FaultClass::IntegrityFault,
        Fault::InvalidBody => FaultClass::ValidationError,
        Fault::InvalidTtl => FaultClass::ValidationError,
        Fault::StoreError => FaultClass::StoreError,
    }
}

/// The status that stands for a fault; it goes by the fault's class.
pub open spec fn fault_status(fault: Fault) -> u16 {
    match fault_class(fault) {
        FaultClass::NotFound => 404,
        FaultClass::IntegrityFault => 500,
        FaultClass::ValidationError => 400,
        FaultClass::StoreError => 500,
    }
}

/// The short message that names a fault to the client.
pub open spec fn fault_message(fault: Fault) -> Seq<char> {
    match fault {
        Fault::NotFound => "key not found"@,
        Fault::IntegrityFault => "no metadata found"@,
        Fault::InvalidBody => "invalid body"@,
        Fault::InvalidTtl => "invalid ttl"@,
        Fault::StoreError => "internal server error"@,
    }
}

/// The reply that reports a fault.
pub open spec fn fault_reply(fault: Fault) -> ReplyModel {
    ReplyModel {
        status: fault_status(fault),
        content_type: None,
        body: BodyModel::Text(fault_message(fault)),
    }
}

/// The reply that acknowledges a write or a removal with a word.
pub open spec fn ack_reply(word: Seq<char>) -> ReplyModel {
    ReplyModel { status: 200, content_type: None, body: BodyModel::Text(word) }
}

impl Fault {
    /// The class of this fault.
    pub fn class(&self) -> (class: FaultClass)
        ensures
            class == fault_class(*self),
    {
        match self {
            Fault::NotFound => FaultClass::NotFound,
            Fault::IntegrityFault => FaultClass::IntegrityFault,
            Fault::InvalidBody => FaultClass::ValidationError,
            Fault::InvalidTtl => FaultClass::ValidationError,
            Fault::StoreError => FaultClass::StoreError,
        }
    }

    /// The status code of this fault.
    pub fn status(&self) -> (code: u16)
        ensures
            code == fault_status(*self),
    {
        match self.class() {
            FaultClass::NotFound => 404,
            FaultClass::IntegrityFault => 500,
            FaultClass::ValidationError => 400,
            FaultClass::StoreError => 500,
        }
    }

    /// The message of this fault.
    pub fn message(&self) -> (text: String)
        ensures
            text@ == fault_message(*self),
    {
        match self {
            Fault::NotFound => "key not found".to_owned(),
            Fault::IntegrityFault => "no metadata found".to_owned(),
            Fault::InvalidBody => "invalid body".to_owned(),
            Fault::InvalidTtl => "invalid ttl".to_owned(),
            Fault::StoreError => "internal server error".to_owned(),
        }
    }

    /// The reply that reports this fault.
    pub fn reply(&self) -> (reply: Reply)
        ensures
            reply@ == fault_reply(*self),
    {
        Reply { status: self.status(), content_type: None, body: Body::Text(self.message()) }
    }
}

impl Reply {
    /// A reply with status 200 and a word as its body.
    pub fn ack(word: &str) -> (reply: Reply)
        ensures
            reply@ == ack_reply(word@),
    {
        Reply { status: 200, content_type: None, body: Body::Text(word.to_owned()) }
    }
}

} // verus!
