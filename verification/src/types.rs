//! The values the protocol operations exchange.
//!
//! A signed transaction is opaque to this crate: it arrives already carrying
//! its content-derived identifier and its transport-neutral serialized form,
//! and the crate never recomputes or inspects either.

use vstd::prelude::*;

use crate::json::JsonVal;

verus! {

/// A transaction's content-derived identifier, in its canonical text form.
/// Computed by the transaction's producer; this crate only carries it.
#[derive(Debug, Clone, PartialEq, Eq)]
pub struct TxHash {
    /// The canonical text of the hash.
    pub text: String,
}

/// A signed transaction, opaque but for its identifier and its serialized form.
#[derive(Debug, PartialEq, Eq)]
pub struct SignedTx {
    /// The transaction's content-derived identifier.
    pub hash: TxHash,
    /// The transaction's transport-neutral serialized form.
    pub payload: JsonVal,
}

/// An optional companion authorization signature, also opaque but for its
/// serialized form.
#[derive(Debug, PartialEq, Eq)]
pub struct EthSignature {
    /// The signature's transport-neutral serialized form.
    pub payload: JsonVal,
}

/// An account address, in its canonical text form.
#[derive(Debug, Clone, PartialEq, Eq)]
pub struct Address {
    /// The canonical text of the address.
    pub text: String,
}

impl SignedTx {
    /// The transaction's identifier. It is fixed at construction and is what
    /// every later status query is keyed by.
    pub fn hash(&self) -> (h: &TxHash)
        ensures
            *h == self.hash,
    {
        &self.hash
    }
}

} // verus!
