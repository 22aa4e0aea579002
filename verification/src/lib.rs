//! A verifying client for a replicated ledger service.
//!
//! The client issues read and write requests to a remote node, ratchets a
//! local view of chain state so that every response is checked against
//! previously-established trust, and applies a bounded, failure-classified
//! retry policy so that write requests are never silently duplicated.
//!
//! The cryptographic proof-verification algorithm and the two transports
//! (a legacy binary RPC channel and a JSON-RPC channel) are external
//! collaborators, injected as capabilities; everything the client decides —
//! trust ratcheting, retry classification, JSON-RPC envelope validation,
//! response-shape checking — is verified here.

pub mod client;
pub mod errors;
pub mod json;
pub mod json_rpc;
pub mod requests;
pub mod types;
