//! The JSON-RPC envelope codec.
//!
//! Requests are built as fixed-shape objects `{id, method, jsonrpc: "2.0",
//! params}`; a response envelope is decoded into either its `result` value
//! or a protocol failure carrying the error's message text. Exactly one
//! protocol version string, `"2.0"`, is used throughout; there is no
//! batching and no id-less notification support.

use vstd::prelude::*;

use crate::error::{Fault, RpcError};
use crate::json::{field_of, get_field, has_field, JsonVal};
use crate::types::{Address, EthSignature, SignedTx, TxHash};

verus! {

/// Whether `r` is the request envelope `{id, method, jsonrpc: "2.0", params}`
/// with exactly those four members, in that order.
pub open spec fn is_request_envelope(
    r: JsonVal,
    id: JsonVal,
    method: Seq<char>,
    params: Seq<JsonVal>,
) -> bool {
    match r {
        JsonVal::Obj(fields) => {
            &&& fields@.len() == 4
            &&& fields@[0].0@ == "id"@
            &&& fields@[0].1 == id
            &&& fields@[1].0@ == "method"@
            &&& (fields@[1].1 matches JsonVal::Text(m) && m@ == method)
            &&& fields@[2].0@ == "jsonrpc"@
            &&& (fields@[2].1 matches JsonVal::Text(j) && j@ == "2.0"@)
            &&& fields@[3].0@ == "params"@
            &&& (fields@[3].1 matches JsonVal::Arr(p) && p@ == params)
        },
        _ => false,
    }
}

/// Builds the request envelope object from its four members.
fn request_envelope(id: JsonVal, method: &str, params: Vec<JsonVal>) -> (r: JsonVal)
    ensures
        is_request_envelope(r, id, method@, params@),
{
    let method_owned: String = method.to_owned();
    JsonVal::Obj(vec![
        ("id".to_owned(), id),
        ("method".to_owned(), JsonVal::Text(method_owned)),
        ("jsonrpc".to_owned(), JsonVal::Text("2.0".to_owned())),
        ("params".to_owned(), JsonVal::Arr(params)),
    ])
}

/// The `tx_submit` request message: the serialized transaction, with the
/// authorization signature as a second parameter only when one is present.
#[derive(Debug, PartialEq, Eq)]
pub struct SubmitTxMsg {
    /// The request id.
    pub id: String,
    /// The method name, `tx_submit`.
    pub method: String,
    /// The protocol version, `2.0`.
    pub jsonrpc: String,
    /// The serialized transaction, then the serialized signature if present.
    pub params: Vec<JsonVal>,
}

impl SubmitTxMsg {
    /// Builds the `tx_submit` message. The signature contributes a second
    /// parameter exactly when it is present; it is never sent as a null.
    pub fn new(tx: SignedTx, eth_signature: Option<EthSignature>) -> (msg: Self)
        ensures
            msg.id@ == "1"@,
            msg.method@ == "tx_submit"@,
            msg.jsonrpc@ == "2.0"@,
            match eth_signature {
                Some(sig) => msg.params@ == seq![tx.payload, sig.payload],
                None => msg.params@ == seq![tx.payload],
            },
    {
        let SignedTx { hash: _, payload } = tx;
        let mut params: Vec<JsonVal> = Vec::new();
        params.push(payload);
        if let Some(sig) = eth_signature {
            params.push(sig.payload);
            proof {
                assert(params@ =~= seq![tx.payload, sig.payload]);
            }
        } else {
            proof {
                assert(params@ =~= seq![tx.payload]);
            }
        }
        SubmitTxMsg {
            id: "1".to_owned(),
            method: "tx_submit".to_owned(),
            jsonrpc: "2.0".to_owned(),
            params,
        }
    }

    /// The message as the request envelope object it is sent as.
    pub fn into_json(self) -> (r: JsonVal)
        ensures
            is_request_envelope(r, JsonVal::Text(self.id), self.method@, self.params@),
    {
        request_envelope(JsonVal::Text(self.id), self.method.as_str(), self.params)
    }
}

/// The `account_info` request message.
#[derive(Debug, PartialEq, Eq)]
pub struct AccountStateReq {
    /// The request id.
    pub id: u32,
    /// The method name, `account_info`.
    pub method: String,
    /// The protocol version, `2.0`.
    pub jsonrpc: String,
    /// The single queried address.
    pub params: Vec<Address>,
}

impl AccountStateReq {
    /// Builds the `account_info` message for one address.
    pub fn new(address: Address) -> (msg: Self)
        ensures
            msg.id == 1u32,
            msg.method@ == "account_info"@,
            msg.jsonrpc@ == "2.0"@,
            msg.params@ == seq![address],
    {
        let params: Vec<Address> = vec![address];
        AccountStateReq {
            id: 1,
            method: "account_info".to_owned(),
            jsonrpc: "2.0".to_owned(),
            params,
        }
    }

    /// The message as the request envelope object it is sent as; each
    /// address parameter is sent as its canonical text.
    pub fn into_json(self) -> (r: JsonVal)
        ensures
            is_request_envelope(
                r,
                JsonVal::Uint(self.id as u64),
                self.method@,
                self.params@.map_values(|a: Address| JsonVal::Text(a.text)),
            ),
    {
        let n = self.params.len();
        let mut params: Vec<JsonVal> = Vec::new();
        for i in 0..n
            invariant
                n == self.params.len(),
                params@.len() == i,
                forall|j: int| 0 <= j < i ==> params@[j] == JsonVal::Text(self.params@[j].text),
        {
            params.push(JsonVal::Text(self.params[i].text.clone()));
        }
        proof {
            assert(params@ =~= self.params@.map_values(|a: Address| JsonVal::Text(a.text)));
        }
        request_envelope(JsonVal::Uint(self.id as u64), self.method.as_str(), params)
    }
}

/// The `ethop_info` request message, keyed by a settlement-side operation
/// serial number.
#[derive(Debug, PartialEq, Eq)]
pub struct EthopInfo {
    /// The request id.
    pub id: String,
    /// The method name, `ethop_info`.
    pub method: String,
    /// The protocol version, `2.0`.
    pub jsonrpc: String,
    /// The single queried operation serial number.
    pub params: Vec<u64>,
}

impl EthopInfo {
    /// Builds the `ethop_info` message for one operation serial number.
    pub fn new(serial_id: u64) -> (msg: Self)
        ensures
            msg.id@ == "3"@,
            msg.method@ == "ethop_info"@,
            msg.jsonrpc@ == "2.0"@,
            msg.params@ == seq![serial_id],
    {
        let params: Vec<u64> = vec![serial_id];
        EthopInfo {
            id: "3".to_owned(),
            method: "ethop_info".to_owned(),
            jsonrpc: "2.0".to_owned(),
            params,
        }
    }

    /// The message as the request envelope object it is sent as.
    pub fn into_json(self) -> (r: JsonVal)
        ensures
            is_request_envelope(
                r,
                JsonVal::Text(self.id),
                self.method@,
                self.params@.map_values(|x: u64| JsonVal::Uint(x)),
            ),
    {
        let n = self.params.len();
        let mut params: Vec<JsonVal> = Vec::new();
        for i in 0..n
            invariant
                n == self.params.len(),
                params@.len() == i,
                forall|j: int| 0 <= j < i ==> params@[j] == JsonVal::Uint(self.params@[j]),
        {
            params.push(JsonVal::Uint(self.params[i]));
        }
        proof {
            assert(params@ =~= self.params@.map_values(|x: u64| JsonVal::Uint(x)));
        }
        request_envelope(JsonVal::Text(self.id), self.method.as_str(), params)
    }
}

/// The `tx_info` request message, keyed by a transaction identifier.
#[derive(Debug, PartialEq, Eq)]
pub struct TxInfo {
    /// The request id.
    pub id: String,
    /// The method name, `tx_info`.
    pub method: String,
    /// The protocol version, `2.0`.
    pub jsonrpc: String,
    /// The single queried transaction identifier.
    pub params: Vec<TxHash>,
}

impl TxInfo {
    /// Builds the `tx_info` message for one transaction identifier.
    pub fn new(h: TxHash) -> (msg: Self)
        ensures
            msg.id@ == "4"@,
            msg.method@ == "tx_info"@,
            msg.jsonrpc@ == "2.0"@,
            msg.params@ == seq![h],
    {
        let params: Vec<TxHash> = vec![h];
        TxInfo {
            id: "4".to_owned(),
            method: "tx_info".to_owned(),
            jsonrpc: "2.0".to_owned(),
            params,
        }
    }

    /// The message as the request envelope object it is sent as; each
    /// identifier parameter is sent as its canonical text.
    pub fn into_json(self) -> (r: JsonVal)
        ensures
            is_request_envelope(
                r,
                JsonVal::Text(self.id),
                self.method@,
                self.params@.map_values(|h: TxHash| JsonVal::Text(h.text)),
            ),
    {
        let n = self.params.len();
        let mut params: Vec<JsonVal> = Vec::new();
        for i in 0..n
            invariant
                n == self.params.len(),
                params@.len() == i,
                forall|j: int| 0 <= j < i ==> params@[j] == JsonVal::Text(self.params@[j].text),
        {
            params.push(JsonVal::Text(self.params[i].text.clone()));
        }
        proof {
            assert(params@ =~= self.params@.map_values(|h: TxHash| JsonVal::Text(h.text)));
        }
        request_envelope(JsonVal::Text(self.id), self.method.as_str(), params)
    }
}

/// The message text of a JSON-RPC error value: its `message` member when
/// that is a string, and empty otherwise.
pub open spec fn protocol_message(err: JsonVal) -> Seq<char> {
    match field_of(err, "message"@) {
        Some(JsonVal::Text(m)) => m@,
        _ => Seq::empty(),
    }
}

/// What decoding a response envelope yields: the `result` value of a success
/// envelope; a protocol fault for any envelope carrying an `error` member,
/// however malformed that member is; and a decode fault for anything else.
pub open spec fn spec_decode_envelope(v: JsonVal) -> Result<JsonVal, Fault> {
    if has_field(v, "error"@) {
        Err(Fault::Protocol(protocol_message(field_of(v, "error"@).unwrap())))
    } else {
        match field_of(v, "result"@) {
            Some(r) => Ok(r),
            None => Err(Fault::Decode),
        }
    }
}

/// Decodes a response envelope: an `error` member, even a malformed one,
/// yields a recoverable protocol failure; otherwise the `result` member is
/// the success value and its absence is a decode failure.
pub fn decode_envelope<'a>(v: &'a JsonVal) -> (r: Result<&'a JsonVal, RpcError>)
    ensures
        match r {
            Ok(res) => spec_decode_envelope(*v) == Ok::<JsonVal, Fault>(*res),
            Err(e) => spec_decode_envelope(*v) == Err::<JsonVal, Fault>(e@),
        },
{
    match get_field(v, "error") {
        Some(err) => {
            let msg: String = match get_field(err, "message") {
                Some(JsonVal::Text(m)) => m.clone(),
                _ => String::new(),
            };
            Err(RpcError::Protocol(msg))
        },
        None => match get_field(v, "result") {
            Some(res) => Ok(res),
            None => Err(RpcError::Decode),
        },
    }
}

} // verus!
