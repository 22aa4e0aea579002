//! The error taxonomy shared by both request channels.
//!
//! Four kinds are kept apart so that callers, and the retry classifier, can
//! tell a transient connection failure from a decided outcome:
//! transport errors (connection-level), protocol errors (a malformed or
//! mismatched response), verification errors (a proof that failed to chain
//! from the stored trust), and application errors (a rejection the service
//! itself reported).

use vstd::prelude::*;
use crate::json::JsonValue;

verus! {

/// The status classification of a failed transport call, as the transport
/// reports it. Only `Unavailable` and `Unknown` mean "the connection could
/// not be established or its state is unknown"; every other condition is
/// folded into `Other`.
#[derive(Clone, Copy, Debug, PartialEq, Eq, Structural)]
pub enum TransportCode {
    /// The service could not be reached.
    Unavailable,
    /// The connection state is unknown: the request may or may not have
    /// been delivered.
    Unknown,
    /// Any other transport-level condition (including timeouts reported as
    /// such and definite rejections below the application layer).
    Other,
}

/// A transport-level failure: the call did not yield a response.
#[derive(Debug)]
pub struct TransportError {
    pub code: TransportCode,
    pub message: String,
}

/// A response arrived but did not have the shape the protocol promises.
/// These conditions indicate a logic or compatibility bug, never transience,
/// and are surfaced immediately without retry.
#[derive(Clone, Copy, Debug, PartialEq, Eq, Structural)]
pub enum ProtocolViolation {
    /// The HTTP status of a JSON-RPC exchange did not indicate success.
    ServerStatus(u16),
    /// The body of a JSON-RPC exchange did not parse as JSON.
    MalformedBody,
    /// The `jsonrpc` field was absent or not the literal `"2.0"`.
    ProtocolMismatch,
    /// The echoed `id` differed from the id that was sent.
    IdMismatch,
    /// Neither an `error` nor a `result` field was present.
    MissingResult,
    /// The response item list was empty where one item was requested.
    MissingResponseItem,
    /// The response item was of a different kind than the request item.
    WrongResponseVariant,
    /// A transaction list came with an event list of a different length.
    EventCountMismatch,
    /// An account blob was present but no account resource could be read
    /// from it.
    UndecodableAccountResource,
}

/// The proof accompanying a response failed to validate against the stored
/// trust, or the response was stale or paired with the wrong request.
/// Reported by the verification engine; never retried.
#[derive(Debug)]
pub struct VerificationError {
    pub message: String,
}

/// Everything a client operation can fail with.
#[derive(Debug)]
pub enum ClientError {
    /// The request never produced a response.
    Transport(TransportError),
    /// A response arrived but broke the protocol.
    Protocol(ProtocolViolation),
    /// A response arrived but its proof did not check out.
    Verification(VerificationError),
    /// The service decided against the request: the payload of a JSON-RPC
    /// `error` field, or an unexpected non-null submission result.
    Application(JsonValue),
}

/// How many times a failed request is retried beyond its first attempt, on
/// either channel.
pub const MAX_RETRY_COUNT: u64 = 2;

/// A failure is worth retrying only when the connection could not be
/// established or its state is unknown: anything else is already decided,
/// and resending could act twice on a request that was accepted once.
pub open spec fn is_retryable(e: ClientError) -> bool {
    match e {
        ClientError::Transport(t) => t.code == TransportCode::Unavailable
            || t.code == TransportCode::Unknown,
        _ => false,
    }
}

} // verus!
