//! The two-phase confirmation status decode.
//!
//! A status result value has the shape `{executed: bool, block?: {verified:
//! bool, ...}}`. When `executed` is false the nested `block` may be
//! structurally absent and is never looked at; when `executed` is true the
//! nested `verified` flag must be present and boolean, and a present but
//! malformed `block` is a decode failure, never an assumption.

use vstd::prelude::*;

use crate::error::{outcome_of, Fault, RpcError};
use crate::json::{field_of, get_field, JsonVal};

verus! {

/// The decoded status of the block holding a transaction or operation.
#[derive(Debug, PartialEq, Eq, Clone, Copy)]
pub struct BlockStatus {
    /// Whether the block has been finalized/proven on the settlement layer.
    pub verified: bool,
}

/// The decoded two-phase status of a transaction or operation: whether it
/// has been included in a block, and that block's status once it has.
#[derive(Debug, PartialEq, Eq, Clone, Copy)]
pub struct TxReceipt {
    /// Whether the transaction or operation has been included in a block.
    pub executed: bool,
    /// The holding block's status; only meaningful (and only decoded) once
    /// `executed` is true.
    pub block: Option<BlockStatus>,
}

impl TxReceipt {
    /// A decoded receipt carries a block status exactly when it is executed.
    pub open spec fn wf(self) -> bool {
        self.executed <==> self.block is Some
    }

    /// The `(executed, verified)` pair of this receipt: `verified` can only
    /// hold together with `executed`.
    pub open spec fn spec_status_pair(self) -> (bool, bool) {
        (
            self.executed,
            self.executed && match self.block {
                Some(b) => b.verified,
                None => false,
            },
        )
    }

    /// The `(executed, verified)` pair of this receipt.
    pub fn status_pair(&self) -> (p: (bool, bool))
        ensures
            p == self.spec_status_pair(),
            p.1 ==> p.0,
    {
        let verified: bool = match &self.block {
            Some(b) => self.executed && b.verified,
            None => false,
        };
        (self.executed, verified)
    }
}

/// What decoding a status result value yields. `executed` must be present
/// and boolean. When it is false the decode short-circuits without looking
/// for `block`; when it is true, `block.verified` must be present and
/// boolean, else the value is malformed.
pub open spec fn spec_decode_receipt(v: JsonVal) -> Result<TxReceipt, Fault> {
    match field_of(v, "executed"@) {
        Some(JsonVal::Bool(executed)) => if !executed {
            Ok(TxReceipt { executed: false, block: None })
        } else {
            match field_of(v, "block"@) {
                Some(block) => match field_of(block, "verified"@) {
                    Some(JsonVal::Bool(verified)) => Ok(
                        TxReceipt { executed: true, block: Some(BlockStatus { verified }) },
                    ),
                    _ => Err(Fault::Decode),
                },
                None => Err(Fault::Decode),
            }
        },
        _ => Err(Fault::Decode),
    }
}

/// Decodes a status result value into a receipt.
pub fn decode_receipt(v: &JsonVal) -> (r: Result<TxReceipt, RpcError>)
    ensures
        outcome_of(r) == spec_decode_receipt(*v),
        r matches Ok(rec) ==> rec.wf(),
{
    let executed: bool = match get_field(v, "executed") {
        Some(JsonVal::Bool(b)) => *b,
        _ => {
            return Err(RpcError::Decode);
        },
    };
    if !executed {
        return Ok(TxReceipt { executed: false, block: None });
    }
    let block = match get_field(v, "block") {
        Some(b) => b,
        None => {
            return Err(RpcError::Decode);
        },
    };
    match get_field(block, "verified") {
        Some(JsonVal::Bool(verified)) => Ok(
            TxReceipt { executed: true, block: Some(BlockStatus { verified: *verified }) },
        ),
        _ => Err(RpcError::Decode),
    }
}

} // verus!
