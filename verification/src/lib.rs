//! Core of a cross-chain relay engine: message batching, update-client
//! decisions, dispatch composition, and packet-relay routing, with the
//! chain-specific query/build/submit surface consumed through capability
//! traits.

pub mod batch;
pub mod chain;
pub mod channel;
pub mod client;
pub mod connection;
pub mod dispatch;
pub mod errors;
pub mod message;
pub mod mock;
pub mod node;
pub mod relay;
pub mod runtime;
pub mod snapshot;
pub mod txsearch;
pub mod update_client;
