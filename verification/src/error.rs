//! The single error surface shared by all four protocol operations.

use vstd::prelude::*;

verus! {

/// Why a protocol operation failed. Every operation returns the same set:
/// a non-OK transport status, a JSON-RPC error envelope, or a response
/// whose shape could not be decoded.
#[derive(Debug, PartialEq, Eq)]
pub enum RpcError {
    /// The transport answered with a status other than OK; carries the status code.
    Transport(u16),
    /// The remote answered with a JSON-RPC error envelope; carries the
    /// error's message text (empty when the envelope gave none).
    Protocol(String),
    /// The response body was not a valid envelope, or the result value did
    /// not have the expected shape.
    Decode,
}

/// The mathematical image of an [`RpcError`].
pub enum Fault {
    /// Image of [`RpcError::Transport`].
    Transport(u16),
    /// Image of [`RpcError::Protocol`], with the message as a character sequence.
    Protocol(Seq<char>),
    /// Image of [`RpcError::Decode`].
    Decode,
}

impl View for RpcError {
    type V = Fault;

    open spec fn view(&self) -> Fault {
        match self {
            RpcError::Transport(code) => Fault::Transport(*code),
            RpcError::Protocol(msg) => Fault::Protocol(msg@),
            RpcError::Decode => Fault::Decode,
        }
    }
}

/// The image of an operation's whole result: the success value is kept as
/// it is, the error is taken to its [`Fault`] image.
pub open spec fn outcome_of<T>(r: Result<T, RpcError>) -> Result<T, Fault> {
    match r {
        Ok(t) => Ok(t),
        Err(e) => Err(e@),
    }
}

} // verus!
