//! The JSON-RPC 2.0 channel.
//!
//! The client builds the request envelope, hands it to an injected transport
//! (the HTTP POST itself is the caller's wiring), resends on any send
//! failure up to a fixed cap, and validates the reply envelope in a fixed
//! order: HTTP status, body shape, protocol tag, echoed id, error field,
//! result field. Each check failing is a distinct error; only then is the
//! result payload handed out.

use vstd::prelude::*;
use crate::errors::{ClientError, ProtocolViolation, TransportError, MAX_RETRY_COUNT};
use crate::json::JsonValue;

verus! {

/// The protocol tag every envelope must carry.
pub open spec fn protocol_tag() -> Seq<char> {
    "2.0"@
}

/// An outgoing JSON-RPC request envelope.
#[derive(Debug)]
pub struct JsonRpcRequest {
    pub jsonrpc: String,
    pub method: String,
    pub params: Vec<String>,
    pub id: u64,
}

impl JsonRpcRequest {
    pub fn new(method: String, params: Vec<String>, id: u64) -> (r: Self)
        ensures
            r.jsonrpc@ == protocol_tag(),
            r.method == method,
            r.params == params,
            r.id == id,
    {
        JsonRpcRequest { jsonrpc: "2.0".to_owned(), method, params, id }
    }
}

/// An incoming JSON-RPC response envelope, each field as the wire had it:
/// absent, or absent-in-kind (a tag that is not a string, an id that is not
/// an unsigned number), is `None`.
#[derive(Debug)]
pub struct JsonRpcEnvelope {
    pub jsonrpc: Option<String>,
    pub id: Option<u64>,
    pub error: Option<JsonValue>,
    pub result: Option<JsonValue>,
}

/// What one HTTP exchange brought back: the status, and the body if it
/// parsed as a JSON object (`None` otherwise).
#[derive(Debug)]
pub struct HttpReply {
    pub status: u16,
    pub body: Option<JsonRpcEnvelope>,
}

/// The injected HTTP transport: one blocking POST of one request envelope.
/// `Err` means the send itself failed (connection refused, timeout); any
/// reply that arrived, whatever its status, is `Ok`.
pub trait JsonRpcTransport {
    fn send(&mut self, request: &JsonRpcRequest) -> (r: Result<HttpReply, TransportError>);
}

/// The envelope checks, in order, each with its own failure: HTTP status,
/// body shape, protocol tag, echoed id, service-reported error, and finally
/// the result payload, whose absence (with no error either) is itself a
/// protocol violation.
pub open spec fn validate_reply_spec(reply: HttpReply, id: u64) -> Result<JsonValue, ClientError> {
    if reply.status < 200 || reply.status >= 300 {
        Err(ClientError::Protocol(ProtocolViolation::ServerStatus(reply.status)))
    } else {
        match reply.body {
            None => Err(ClientError::Protocol(ProtocolViolation::MalformedBody)),
            Some(env) => {
                if !(env.jsonrpc matches Some(tag) && tag@ == protocol_tag()) {
                    Err(ClientError::Protocol(ProtocolViolation::ProtocolMismatch))
                } else if !(env.id matches Some(i) && i == id) {
                    Err(ClientError::Protocol(ProtocolViolation::IdMismatch))
                } else {
                    match env.error {
                        Some(e) => Err(ClientError::Application(e)),
                        None => match env.result {
                            Some(v) => Ok(v),
                            None => Err(
                                ClientError::Protocol(ProtocolViolation::MissingResult),
                            ),
                        },
                    }
                }
            },
        }
    }
}

/// Run the envelope checks on one reply.
pub fn validate_reply(reply: HttpReply, id: u64) -> (r: Result<JsonValue, ClientError>)
    ensures
        r == validate_reply_spec(reply, id),
{
    if reply.status < 200 || reply.status >= 300 {
        return Err(ClientError::Protocol(ProtocolViolation::ServerStatus(reply.status)));
    }
    match reply.body {
        None => Err(ClientError::Protocol(ProtocolViolation::MalformedBody)),
        Some(env) => {
            let JsonRpcEnvelope { jsonrpc, id: response_id, error, result } = env;
            let tag_ok = match &jsonrpc {
                Some(tag) => {
                    let expected = "2.0".to_owned();
                    *tag == expected
                },
                None => false,
            };
            if !tag_ok {
                return Err(ClientError::Protocol(ProtocolViolation::ProtocolMismatch));
            }
            let id_ok = match response_id {
                Some(i) => i == id,
                None => false,
            };
            if !id_ok {
                return Err(ClientError::Protocol(ProtocolViolation::IdMismatch));
            }
            match error {
                Some(e) => Err(ClientError::Application(e)),
                None => match result {
                    Some(v) => Ok(v),
                    None => Err(ClientError::Protocol(ProtocolViolation::MissingResult)),
                },
            }
        },
    }
}

/// Id integrity: a reply whose envelope does not echo the request's id never
/// validates, however well-formed its result and however absent its error
/// field.
pub proof fn lemma_id_integrity(reply: HttpReply, id: u64)
    requires
        reply.body matches Some(env) ==> !(env.id matches Some(i) && i == id),
    ensures
        validate_reply_spec(reply, id) is Err,
{
}

/// Relies on rand::random: a fresh pseudo-random 64-bit request id. Nothing
/// is promised of the value.
#[verifier::external_body]
fn fresh_request_id() -> u64 {
    rand::random()
}

/// One transport send, as the ghost log records it: the exact request that
/// was handed to the transport, and what came back.
pub struct SendAttempt {
    pub request: JsonRpcRequest,
    pub outcome: Result<HttpReply, TransportError>,
}

/// The JSON-RPC channel: an injected transport plus the envelope and retry
/// discipline. The ghost fields record, for the contracts, each send with
/// the request it carried, and the last request and reply that crossed the
/// channel.
pub struct JsonRpcClient<J: JsonRpcTransport> {
    pub transport: J,
    /// One entry per transport send: the request it carried and its outcome.
    pub send_log: Ghost<Seq<SendAttempt>>,
    /// The request most recently handed to the transport.
    pub last_request: Ghost<Option<JsonRpcRequest>>,
    /// The outcome of the most recent completed send-with-retry.
    pub last_reply: Ghost<Option<Result<HttpReply, TransportError>>>,
}

impl<J: JsonRpcTransport> JsonRpcClient<J> {
    pub fn new(transport: J) -> (r: Self)
        ensures
            r.send_log@ == Seq::<SendAttempt>::empty(),
            r.last_request@ is None,
            r.last_reply@ is None,
    {
        JsonRpcClient {
            transport,
            send_log: Ghost(Seq::empty()),
            last_request: Ghost(None),
            last_reply: Ghost(None),
        }
    }

    /// One transport send, recorded in the log with the request it carried.
    fn send(&mut self, request: &JsonRpcRequest) -> (r: Result<HttpReply, TransportError>)
        ensures
            final(self).send_log@ == old(self).send_log@.push(
                (SendAttempt { request: *request, outcome: r }),
            ),
            final(self).last_request == old(self).last_request,
            final(self).last_reply == old(self).last_reply,
    {
        let r = self.transport.send(request);
        self.send_log = Ghost(self.send_log@.push(SendAttempt { request: *request, outcome: r }));
        r
    }

    /// Send, and on a send failure resend the identical request — same body,
    /// same id, no backoff — up to the retry cap: three attempts in all,
    /// unconditionally, since a write may have been delivered even when its
    /// send failed. A reply — whatever it holds — ends the retrying, and the
    /// surfaced outcome is the last send's.
    pub fn send_with_retry(&mut self, request: &JsonRpcRequest) -> (r: Result<
        HttpReply,
        TransportError,
    >)
        ensures
            old(self).send_log@.is_prefix_of(final(self).send_log@),
            old(self).send_log@.len() < final(self).send_log@.len() <= old(self).send_log@.len()
                + (MAX_RETRY_COUNT + 1),
            forall|i: int|
                old(self).send_log@.len() <= i < final(self).send_log@.len() ==> (
                #[trigger] final(self).send_log@[i]).request == *request,
            forall|i: int|
                old(self).send_log@.len() <= i < final(self).send_log@.len() - 1 ==> (
                #[trigger] final(self).send_log@[i]).outcome is Err,
            final(self).send_log@.last().outcome == r,
            r is Err ==> final(self).send_log@.len() == old(self).send_log@.len() + (
            MAX_RETRY_COUNT + 1),
            final(self).last_request == old(self).last_request,
            final(self).last_reply@ == Some(r),
    {
        let ghost log0 = self.send_log@;
        let ghost last_request0 = self.last_request;
        let mut response = self.send(request);
        let mut try_cnt: u64 = 0;
        while try_cnt < MAX_RETRY_COUNT && response.is_err()
            invariant
                try_cnt <= MAX_RETRY_COUNT,
                self.send_log@.len() == log0.len() + try_cnt + 1,
                log0.is_prefix_of(self.send_log@),
                forall|i: int|
                    log0.len() <= i < self.send_log@.len() ==> (
                    #[trigger] self.send_log@[i]).request == *request,
                forall|i: int|
                    log0.len() <= i < self.send_log@.len() - 1 ==> (
                    #[trigger] self.send_log@[i]).outcome is Err,
                self.send_log@.last().outcome == response,
                self.last_request == last_request0,
            decreases MAX_RETRY_COUNT - try_cnt,
        {
            response = self.send(request);
            try_cnt = try_cnt + 1;
        }
        self.last_reply = Ghost(Some(response));
        response
    }

    /// Send one JSON-RPC request and return the payload under its `result`
    /// key. A fresh random id is drawn per call; the reply must echo it.
    pub fn send_libra_request(&mut self, method: String, params: Vec<String>) -> (r: Result<
        JsonValue,
        ClientError,
    >)
        ensures
            ({
                &&& final(self).last_request@ matches Some(q)
                &&& q.method == method
                &&& q.params == params
                &&& q.jsonrpc@ == protocol_tag()
                &&& final(self).last_reply@ matches Some(t)
                &&& (t matches Err(te) ==> r == Err::<JsonValue, ClientError>(
                    ClientError::Transport(te),
                ))
                &&& (t matches Ok(reply) ==> r == validate_reply_spec(reply, q.id))
                &&& (forall|i: int|
                    old(self).send_log@.len() <= i < final(self).send_log@.len() ==> (
                    #[trigger] final(self).send_log@[i]).request == q)
            }),
            old(self).send_log@.is_prefix_of(final(self).send_log@),
            old(self).send_log@.len() < final(self).send_log@.len() <= old(self).send_log@.len()
                + (MAX_RETRY_COUNT + 1),
            forall|i: int|
                old(self).send_log@.len() <= i < final(self).send_log@.len() - 1 ==> (
                #[trigger] final(self).send_log@[i]).outcome is Err,
            final(self).last_reply@ matches Some(t2) && final(self).send_log@.last().outcome == t2,
            (r matches Err(e) && e is Transport) ==> final(self).send_log@.len() == old(
                self,
            ).send_log@.len() + (MAX_RETRY_COUNT + 1),
    {
        let id = fresh_request_id();
        let request = JsonRpcRequest::new(method, params, id);
        self.last_request = Ghost(Some(request));
        let sent = self.send_with_retry(&request);
        match sent {
            Err(te) => Err(ClientError::Transport(te)),
            Ok(reply) => validate_reply(reply, id),
        }
    }
}

} // verus!
