//! Client-side driver for a transaction lifecycle confirmation protocol
//! spoken over JSON-RPC.
//!
//! The crate builds the request envelopes for the four protocol operations
//! (`tx_submit`, `account_info`, `ethop_info`, `tx_info`), decodes the
//! response envelopes, and derives the two-phase `(executed, verified)`
//! confirmation status of a transaction or settlement operation. It also
//! defines the durable row shapes for observed block lifecycle events.
//!
//! All decoding works on [`json::JsonVal`], a plain tree representation of a
//! JSON document; turning raw bytes into that tree (and performing the HTTP
//! round trip) is left to the caller.

pub mod client;
pub mod codec;
pub mod confirm;
pub mod error;
pub mod json;
pub mod laws;
pub mod records;
pub mod types;

pub use error::RpcError;
pub use json::JsonVal;
