//! Request and response rules of a small gateway in front of a key-value store.
//!
//! The gateway itself holds no state. For each request it decides which single
//! call to make on the store, and for each answer of the store which reply to
//! give. Both decisions are functions of plain values, stated and proved here;
//! talking to the store and to the network is left to the caller.

pub mod model;
pub mod query;
pub mod unstructured;
pub mod structured;
pub mod store;
pub mod laws;
