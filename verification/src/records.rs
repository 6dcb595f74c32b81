//! Durable row shapes for observed block lifecycle events and for serialized
//! state checkpoints.
//!
//! The `New*` shapes are write-only projections without an identity field —
//! the store assigns `id` on insert; the `Stored*` shapes are what is read
//! back. Rows are append-only: nothing here updates or deletes them. A block
//! event's type is one of exactly two lifecycle transitions, `Committed` and
//! `Verified`.

use vstd::prelude::*;

verus! {

/// Whether `s` is one of the two block lifecycle transition names.
pub open spec fn valid_block_type(s: Seq<char>) -> bool {
    s == "Committed"@ || s == "Verified"@
}

/// A serialized-state checkpoint to be written; the store assigns its id.
#[derive(Debug, PartialEq, Eq)]
pub struct NewStorageState {
    /// The serialized opaque checkpoint text.
    pub storage_state: String,
}

/// A serialized-state checkpoint as read back, with its store-assigned id.
#[derive(Debug, Clone, PartialEq, Eq)]
pub struct StoredStorageState {
    /// The store-assigned row identity.
    pub id: i32,
    /// The serialized opaque checkpoint text.
    pub storage_state: String,
}

/// An observed block lifecycle event to be written; the store assigns its id.
#[derive(Debug, PartialEq, Eq)]
pub struct NewBlockEvent {
    /// The lifecycle transition: `Committed` or `Verified`.
    pub block_type: String,
    /// The hash of the settlement-layer transaction that caused the event.
    pub transaction_hash: Vec<u8>,
    /// The number of the block the event is about.
    pub block_num: i64,
}

/// An observed block lifecycle event as read back, with its store-assigned id.
#[derive(Debug, Clone, PartialEq, Eq)]
pub struct StoredBlockEvent {
    /// The store-assigned row identity.
    pub id: i32,
    /// The lifecycle transition: `Committed` or `Verified`.
    pub block_type: String,
    /// The hash of the settlement-layer transaction that caused the event.
    pub transaction_hash: Vec<u8>,
    /// The number of the block the event is about.
    pub block_num: i64,
}

impl NewBlockEvent {
    /// The row names one of the two lifecycle transitions.
    pub open spec fn wf(self) -> bool {
        valid_block_type(self.block_type@)
    }

    /// Builds a `Committed` event row.
    pub fn committed(transaction_hash: Vec<u8>, block_num: i64) -> (r: Self)
        ensures
            r.wf(),
            r.block_type@ == "Committed"@,
            r.transaction_hash == transaction_hash,
            r.block_num == block_num,
    {
        NewBlockEvent { block_type: "Committed".to_owned(), transaction_hash, block_num }
    }

    /// Builds a `Verified` event row.
    pub fn verified(transaction_hash: Vec<u8>, block_num: i64) -> (r: Self)
        ensures
            r.wf(),
            r.block_type@ == "Verified"@,
            r.transaction_hash == transaction_hash,
            r.block_num == block_num,
    {
        NewBlockEvent { block_type: "Verified".to_owned(), transaction_hash, block_num }
    }
}

impl StoredBlockEvent {
    /// The row names one of the two lifecycle transitions.
    pub open spec fn wf(self) -> bool {
        valid_block_type(self.block_type@)
    }
}

} // verus!
