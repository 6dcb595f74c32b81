//! Fixture-driven tests of the confirmation protocol: each fixture is the
//! JSON text a node would answer with, parsed with serde_json and handed to
//! the library as its plain tree.

use txconfirm::client::{
    account_state_outcome, check_status, ethop_info_outcome, submit_outcome, tx_info_outcome,
};
use txconfirm::codec::decode_envelope;
use txconfirm::confirm::{decode_receipt, BlockStatus, TxReceipt};
use txconfirm::error::RpcError;
use txconfirm::json::{get_field, JsonVal};
use txconfirm::types::TxHash;

fn to_tree(v: &serde_json::Value) -> JsonVal {
    match v {
        serde_json::Value::Null => JsonVal::Null,
        serde_json::Value::Bool(b) => JsonVal::Bool(*b),
        serde_json::Value::Number(n) => match n.as_u64() {
            Some(u) => JsonVal::Uint(u),
            None => JsonVal::NumText(n.to_string()),
        },
        serde_json::Value::String(s) => JsonVal::Text(s.clone()),
        serde_json::Value::Array(items) => JsonVal::Arr(items.iter().map(to_tree).collect()),
        serde_json::Value::Object(members) => {
            JsonVal::Obj(members.iter().map(|(k, v)| (k.clone(), to_tree(v))).collect())
        }
    }
}

fn parse(text: &str) -> JsonVal {
    to_tree(&serde_json::from_str(text).expect("fixture must be valid JSON"))
}

#[test]
fn not_executed_yields_false_false() {
    let body = parse(r#"{"jsonrpc":"2.0","id":"3","result":{"executed":false}}"#);
    assert_eq!(ethop_info_outcome(200, Some(&body)), Ok((false, false)));
    assert_eq!(tx_info_outcome(200, Some(&body)), Ok(false));
}

#[test]
fn executed_and_verified_yields_true_true() {
    let body = parse(r#"{"result":{"executed":true,"block":{"verified":true,"committed":true}}}"#);
    assert_eq!(ethop_info_outcome(200, Some(&body)), Ok((true, true)));
    assert_eq!(tx_info_outcome(200, Some(&body)), Ok(true));
}

#[test]
fn executed_but_unverified_yields_true_false() {
    let body = parse(r#"{"result":{"executed":true,"block":{"verified":false}}}"#);
    assert_eq!(ethop_info_outcome(200, Some(&body)), Ok((true, false)));
    assert_eq!(tx_info_outcome(200, Some(&body)), Ok(false));
}

#[test]
fn non_ok_status_is_transport_error_for_all_operations() {
    let body = parse(r#"{"result":{"executed":true,"block":{"verified":true}}}"#);
    let hash = TxHash { text: "0xabc".to_owned() };
    assert_eq!(submit_outcome(hash, 500), Err(RpcError::Transport(500)));
    assert_eq!(account_state_outcome(500, Some(&body)), Err(RpcError::Transport(500)));
    assert_eq!(ethop_info_outcome(500, Some(&body)), Err(RpcError::Transport(500)));
    assert_eq!(tx_info_outcome(500, Some(&body)), Err(RpcError::Transport(500)));
    // The status alone decides: a body an operation never read changes nothing.
    assert_eq!(ethop_info_outcome(502, None), Err(RpcError::Transport(502)));
    assert_eq!(check_status(404), Err(RpcError::Transport(404)));
    assert!(check_status(200).is_ok());
}

#[test]
fn error_envelope_is_recoverable_protocol_failure() {
    let body = parse(r#"{"jsonrpc":"2.0","id":"3","error":{"code":-32000,"message":"op not found"}}"#);
    assert_eq!(
        ethop_info_outcome(200, Some(&body)),
        Err(RpcError::Protocol("op not found".to_owned()))
    );
    assert_eq!(
        tx_info_outcome(200, Some(&body)),
        Err(RpcError::Protocol("op not found".to_owned()))
    );
    assert_eq!(
        account_state_outcome(200, Some(&body)),
        Err(RpcError::Protocol("op not found".to_owned()))
    );
}

#[test]
fn malformed_error_envelope_is_still_protocol_failure() {
    // The error member is not even an object: still a typed failure, not an abort.
    let body = parse(r#"{"jsonrpc":"2.0","id":1,"error":42}"#);
    assert_eq!(ethop_info_outcome(200, Some(&body)), Err(RpcError::Protocol(String::new())));
    // An error object without a message text behaves the same.
    let body = parse(r#"{"error":{"code":-32600,"message":17}}"#);
    assert_eq!(decode_envelope(&body), Err(RpcError::Protocol(String::new())));
}

#[test]
fn bodies_without_result_or_error_fail_to_decode() {
    let body = parse(r#"{"jsonrpc":"2.0","id":"3"}"#);
    assert_eq!(ethop_info_outcome(200, Some(&body)), Err(RpcError::Decode));
    let body = parse(r#"[1,2,3]"#);
    assert_eq!(account_state_outcome(200, Some(&body)), Err(RpcError::Decode));
    // A body that was not valid JSON at all arrives as None.
    assert_eq!(ethop_info_outcome(200, None), Err(RpcError::Decode));
}

#[test]
fn malformed_receipts_fail_to_decode() {
    // executed missing
    assert_eq!(decode_receipt(&parse(r#"{"some":"thing"}"#)), Err(RpcError::Decode));
    // executed of the wrong type
    assert_eq!(decode_receipt(&parse(r#"{"executed":"yes"}"#)), Err(RpcError::Decode));
    // executed true but block absent
    assert_eq!(decode_receipt(&parse(r#"{"executed":true}"#)), Err(RpcError::Decode));
    // block present but not an object
    assert_eq!(decode_receipt(&parse(r#"{"executed":true,"block":7}"#)), Err(RpcError::Decode));
    // block object without a boolean verified flag
    assert_eq!(
        decode_receipt(&parse(r#"{"executed":true,"block":{"verified":"soon"}}"#)),
        Err(RpcError::Decode)
    );
    // the result value is not an object at all
    assert_eq!(decode_receipt(&parse(r#"true"#)), Err(RpcError::Decode));
}

#[test]
fn block_is_ignored_when_not_executed() {
    // Even a malformed block does not matter once executed is false.
    let receipt = decode_receipt(&parse(r#"{"executed":false,"block":42}"#)).unwrap();
    assert_eq!(receipt, TxReceipt { executed: false, block: None });
    assert_eq!(receipt.status_pair(), (false, false));
}

#[test]
fn status_pair_never_reports_verified_without_executed() {
    let executed = TxReceipt { executed: true, block: Some(BlockStatus { verified: true }) };
    assert_eq!(executed.status_pair(), (true, true));
    let pending = TxReceipt { executed: false, block: None };
    assert_eq!(pending.status_pair(), (false, false));
}

#[test]
fn account_state_comes_back_verbatim() {
    let body = parse(r#"{"id":2,"result":{"address":"0x1b","balance":"10.5","nonce":7}}"#);
    let state = account_state_outcome(200, Some(&body)).unwrap();
    let balance = get_field(state, "balance").unwrap();
    assert_eq!(*balance, JsonVal::Text("10.5".to_owned()));
    let nonce = get_field(state, "nonce").unwrap();
    assert_eq!(*nonce, JsonVal::Uint(7));
}

#[test]
fn submit_scenario_round_trip() {
    // Submit a transaction whose hash is 0xabc...; the endpoint acknowledges
    // with a null result and status 200: submit yields the hash unchanged.
    let hash = TxHash { text: "0xabc".to_owned() };
    let ack = parse(r#"{"jsonrpc":"2.0","id":"1","result":null}"#);
    // The acknowledgement body is discarded; only the status decides.
    assert_eq!(decode_envelope(&ack), Ok(&JsonVal::Null));
    let submitted = submit_outcome(hash.clone(), 200).unwrap();
    assert_eq!(submitted, hash);

    // First poll: included but not finalized.
    let poll = parse(r#"{"result":{"executed":true,"block":{"verified":false}}}"#);
    assert_eq!(tx_info_outcome(200, Some(&poll)), Ok(false));

    // Later poll: finalized.
    let poll = parse(r#"{"result":{"executed":true,"block":{"verified":true}}}"#);
    assert_eq!(tx_info_outcome(200, Some(&poll)), Ok(true));
}
