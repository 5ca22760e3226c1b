//! Tracks balances and last-activity times for a configured set of
//! cryptocurrency addresses: a registry of coins and addresses, provider
//! adapters that normalize heterogeneous explorer responses, refresh
//! application that only ever overwrites a field with a successfully parsed
//! value, and derivation of the human-readable view fields.

pub mod adapter;
pub mod json;
pub mod laws;
pub mod numtext;
pub mod refresh;
pub mod render;
pub mod store;
