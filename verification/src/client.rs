//! The outcome of each of the four protocol operations.
//!
//! Each operation is one HTTP round trip performed by the caller; the
//! functions here decide everything else. Each takes the transport status
//! and, where the operation reads a body, the body as a decoded JSON tree
//! (`None` when the body was not valid JSON), and yields either the
//! operation's typed result or one error from the shared set. A non-OK
//! transport status yields the transport error whatever the body holds, so
//! the body of a failed exchange need never be parsed at all.

use vstd::prelude::*;

use crate::codec::{decode_envelope, spec_decode_envelope};
use crate::confirm::{decode_receipt, spec_decode_receipt, TxReceipt};
use crate::error::{outcome_of, Fault, RpcError};
use crate::json::JsonVal;
use crate::types::TxHash;

verus! {

/// The one transport status that lets an operation proceed.
pub const OK_STATUS: u16 = 200;

/// The body of an exchange as the caller hands it over, with the borrow
/// dropped: present when the transport delivered a valid JSON document.
pub open spec fn body_view(body: Option<&JsonVal>) -> Option<JsonVal> {
    match body {
        Some(v) => Some(*v),
        None => None,
    }
}

/// Checks the transport status of an exchange: anything but OK is the
/// transport error carrying the status code.
pub fn check_status(status: u16) -> (r: Result<(), RpcError>)
    ensures
        status == OK_STATUS ==> r is Ok,
        status != OK_STATUS ==> r == Err::<(), RpcError>(RpcError::Transport(status)),
{
    if status == OK_STATUS {
        Ok(())
    } else {
        Err(RpcError::Transport(status))
    }
}

/// What `submit` yields: the transaction's own identifier on an OK status,
/// the transport error otherwise. The response body is never interpreted.
pub open spec fn spec_submit_outcome(hash: TxHash, status: u16) -> Result<TxHash, Fault> {
    if status == OK_STATUS {
        Ok(hash)
    } else {
        Err(Fault::Transport(status))
    }
}

/// Decides the result of a `tx_submit` exchange: the identifier the
/// transaction arrived with, returned on success exactly as it was computed
/// before the request went out. The server's result value is discarded, so
/// no body is taken.
pub fn submit_outcome(tx_hash: TxHash, status: u16) -> (r: Result<TxHash, RpcError>)
    ensures
        outcome_of(r) == spec_submit_outcome(tx_hash, status),
{
    if status == OK_STATUS {
        Ok(tx_hash)
    } else {
        Err(RpcError::Transport(status))
    }
}

/// What unwrapping an exchange down to the envelope's result value yields:
/// the transport error on a non-OK status whatever the body holds, a decode
/// fault when the body was not a JSON document, and the decoded envelope
/// otherwise.
pub open spec fn spec_unwrap_exchange(status: u16, body: Option<JsonVal>) -> Result<
    JsonVal,
    Fault,
> {
    if status != OK_STATUS {
        Err(Fault::Transport(status))
    } else {
        match body {
            Some(v) => spec_decode_envelope(v),
            None => Err(Fault::Decode),
        }
    }
}

/// Unwraps an exchange down to the envelope's result value.
pub fn unwrap_exchange<'a>(status: u16, body: Option<&'a JsonVal>) -> (r: Result<
    &'a JsonVal,
    RpcError,
>)
    ensures
        match r {
            Ok(res) => spec_unwrap_exchange(status, body_view(body)) == Ok::<JsonVal, Fault>(*res),
            Err(e) => spec_unwrap_exchange(status, body_view(body)) == Err::<JsonVal, Fault>(e@),
        },
{
    check_status(status)?;
    match body {
        Some(v) => decode_envelope(v),
        None => Err(RpcError::Decode),
    }
}

/// What `queryAccount` yields: the envelope's result value, verbatim.
pub open spec fn spec_account_outcome(status: u16, body: Option<JsonVal>) -> Result<
    JsonVal,
    Fault,
> {
    spec_unwrap_exchange(status, body)
}

/// Decides the result of an `account_info` exchange: the account state as
/// the remote sent it, with no interpretation of its fields.
pub fn account_state_outcome<'a>(status: u16, body: Option<&'a JsonVal>) -> (r: Result<
    &'a JsonVal,
    RpcError,
>)
    ensures
        match r {
            Ok(res) => spec_account_outcome(status, body_view(body)) == Ok::<JsonVal, Fault>(*res),
            Err(e) => spec_account_outcome(status, body_view(body)) == Err::<JsonVal, Fault>(e@),
        },
{
    unwrap_exchange(status, body)
}

/// What `queryBySerial` yields: the `(executed, verified)` pair of the
/// operation's decoded receipt.
pub open spec fn spec_ethop_outcome(status: u16, body: Option<JsonVal>) -> Result<
    (bool, bool),
    Fault,
> {
    match spec_unwrap_exchange(status, body) {
        Ok(result) => match spec_decode_receipt(result) {
            Ok(rec) => Ok(rec.spec_status_pair()),
            Err(f) => Err(f),
        },
        Err(f) => Err(f),
    }
}

/// Decides the result of an `ethop_info` exchange: the `(executed,
/// verified)` pair for the queried operation serial number. `verified` is
/// never reported without `executed`.
pub fn ethop_info_outcome(status: u16, body: Option<&JsonVal>) -> (r: Result<
    (bool, bool),
    RpcError,
>)
    ensures
        outcome_of(r) == spec_ethop_outcome(status, body_view(body)),
        r matches Ok(p) ==> (p.1 ==> p.0),
{
    let result = unwrap_exchange(status, body)?;
    let receipt: TxReceipt = decode_receipt(result)?;
    Ok(receipt.status_pair())
}

/// What `queryByTransactionHash` yields: only the `verified` flag of the
/// transaction's decoded receipt.
pub open spec fn spec_tx_info_outcome(status: u16, body: Option<JsonVal>) -> Result<bool, Fault> {
    match spec_ethop_outcome(status, body) {
        Ok(p) => Ok(p.1),
        Err(f) => Err(f),
    }
}

/// Decides the result of a `tx_info` exchange: whether the transaction is
/// verified. A transaction that is not yet executed is reported as not
/// verified, without any nested lookup.
pub fn tx_info_outcome(status: u16, body: Option<&JsonVal>) -> (r: Result<bool, RpcError>)
    ensures
        outcome_of(r) == spec_tx_info_outcome(status, body_view(body)),
{
    let result = unwrap_exchange(status, body)?;
    let receipt: TxReceipt = decode_receipt(result)?;
    let pair = receipt.status_pair();
    Ok(pair.1)
}

} // verus!
