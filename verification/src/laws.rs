//! The protocol-wide laws, each proved over the specification functions the
//! operations' own contracts are stated with.

use vstd::prelude::*;

use crate::client::{
    spec_account_outcome, spec_ethop_outcome, spec_submit_outcome, spec_tx_info_outcome, OK_STATUS,
};
use crate::codec::spec_decode_envelope;
use crate::confirm::spec_decode_receipt;
use crate::error::Fault;
use crate::json::{has_field, JsonVal};
use crate::types::TxHash;

verus! {

/// Whenever `submit` succeeds it returns exactly the identifier the
/// transaction arrived with — the identifier independently derivable from
/// the transaction's canonical content — and it succeeds precisely on an OK
/// transport status.
pub proof fn lemma_submit_returns_own_hash(hash: TxHash, status: u16)
    ensures
        spec_submit_outcome(hash, status) matches Ok(h) ==> h == hash,
        status == OK_STATUS <==> spec_submit_outcome(hash, status) is Ok,
{
}

/// No decoded receipt, and hence no query outcome, ever reports `verified`
/// without `executed`: the pair `(false, true)` is unreachable for every
/// transport status and every body.
pub proof fn lemma_verified_implies_executed(status: u16, body: Option<JsonVal>)
    ensures
        spec_ethop_outcome(status, body) matches Ok(p) ==> (p.1 ==> p.0),
        spec_ethop_outcome(status, body) != Ok::<(bool, bool), Fault>((false, true)),
{
}

/// A receipt decoded from any result value carries a block status exactly
/// when it is executed, and its status pair obeys the two-phase invariant.
pub proof fn lemma_receipt_wf(v: JsonVal)
    ensures
        spec_decode_receipt(v) matches Ok(rec) ==> rec.wf(),
        spec_decode_receipt(v) matches Ok(rec) ==> (rec.spec_status_pair().1
            ==> rec.spec_status_pair().0),
{
}

/// The hash-keyed query agrees with the serial-keyed decode: it reports
/// `verified` exactly when the full pair would, and fails exactly when the
/// full pair would.
pub proof fn lemma_tx_info_agrees_with_pair(status: u16, body: Option<JsonVal>)
    ensures
        spec_ethop_outcome(status, body) matches Ok(p) ==> spec_tx_info_outcome(status, body)
            == Ok::<bool, Fault>(p.1),
        spec_ethop_outcome(status, body) matches Err(f) ==> spec_tx_info_outcome(status, body)
            == Err::<bool, Fault>(f),
{
}

/// A non-OK transport status yields the transport error carrying that
/// status, for every one of the four operations, whatever the body holds.
pub proof fn lemma_transport_error(status: u16, body: Option<JsonVal>, hash: TxHash)
    requires
        status != OK_STATUS,
    ensures
        spec_submit_outcome(hash, status) == Err::<TxHash, Fault>(Fault::Transport(status)),
        spec_account_outcome(status, body) == Err::<JsonVal, Fault>(Fault::Transport(status)),
        spec_ethop_outcome(status, body) == Err::<(bool, bool), Fault>(Fault::Transport(status)),
        spec_tx_info_outcome(status, body) == Err::<bool, Fault>(Fault::Transport(status)),
{
}

/// Any envelope carrying an `error` member decodes to a recoverable
/// protocol failure — malformed error envelopes included — never to a
/// success and never to anything that would abort.
pub proof fn lemma_error_envelope_is_protocol_failure(v: JsonVal)
    requires
        has_field(v, "error"@),
    ensures
        spec_decode_envelope(v) matches Err(f) && f is Protocol,
{
}

} // verus!
