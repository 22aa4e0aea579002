//! Behavior of the JSON-RPC channel: envelope validation, the echoed-id
//! check, and the unconditional bounded resend on send failures.

use ledger_client::errors::{ClientError, ProtocolViolation, TransportCode, TransportError};
use ledger_client::json::JsonValue;
use ledger_client::json_rpc::{
    validate_reply, HttpReply, JsonRpcClient, JsonRpcEnvelope, JsonRpcRequest, JsonRpcTransport,
};

/// How the fake transport answers each send.
enum Behavior {
    AckNull,
    AckValue,
    AppError,
    WrongId,
    WrongTag,
    MissingTag,
    MissingBoth,
    BadStatus,
    NoBody,
    SendFail,
    FailTwiceThenAck,
}

struct FakeTransport {
    behavior: Behavior,
    calls: usize,
    last_method: String,
    last_params: Vec<String>,
}

impl FakeTransport {
    fn new(behavior: Behavior) -> Self {
        FakeTransport { behavior, calls: 0, last_method: String::new(), last_params: Vec::new() }
    }
}

fn envelope(tag: Option<&str>, id: Option<u64>, error: Option<JsonValue>, result: Option<JsonValue>) -> JsonRpcEnvelope {
    JsonRpcEnvelope { jsonrpc: tag.map(|t| t.to_string()), id, error, result }
}

fn reply(status: u16, body: Option<JsonRpcEnvelope>) -> HttpReply {
    HttpReply { status, body }
}

fn unavailable() -> TransportError {
    TransportError { code: TransportCode::Unavailable, message: "connection refused".to_string() }
}

impl JsonRpcTransport for FakeTransport {
    fn send(&mut self, request: &JsonRpcRequest) -> Result<HttpReply, TransportError> {
        self.calls += 1;
        self.last_method = request.method.clone();
        self.last_params = request.params.clone();
        match self.behavior {
            Behavior::AckNull => Ok(reply(
                200,
                Some(envelope(Some("2.0"), Some(request.id), None, Some(JsonValue::Null))),
            )),
            Behavior::AckValue => Ok(reply(
                200,
                Some(envelope(Some("2.0"), Some(request.id), None, Some(JsonValue::UInt(7)))),
            )),
            Behavior::AppError => Ok(reply(
                200,
                Some(envelope(
                    Some("2.0"),
                    Some(request.id),
                    Some(JsonValue::Text("transaction rejected".to_string())),
                    Some(JsonValue::Null),
                )),
            )),
            Behavior::WrongId => Ok(reply(
                200,
                Some(envelope(
                    Some("2.0"),
                    Some(request.id.wrapping_add(1)),
                    None,
                    Some(JsonValue::Null),
                )),
            )),
            Behavior::WrongTag => Ok(reply(
                200,
                Some(envelope(Some("1.0"), Some(request.id), None, Some(JsonValue::Null))),
            )),
            Behavior::MissingTag => Ok(reply(
                200,
                Some(envelope(None, Some(request.id), None, Some(JsonValue::Null))),
            )),
            Behavior::MissingBoth => Ok(reply(
                200,
                Some(envelope(Some("2.0"), Some(request.id), None, None)),
            )),
            Behavior::BadStatus => Ok(reply(500, None)),
            Behavior::NoBody => Ok(reply(200, None)),
            Behavior::SendFail => Err(unavailable()),
            Behavior::FailTwiceThenAck => {
                if self.calls <= 2 {
                    Err(unavailable())
                } else {
                    Ok(reply(
                        200,
                        Some(envelope(Some("2.0"), Some(request.id), None, Some(JsonValue::Null))),
                    ))
                }
            },
        }
    }
}

fn request_of(client: &mut JsonRpcClient<FakeTransport>) -> Result<JsonValue, ClientError> {
    client.send_libra_request("submit".to_string(), vec!["00".to_string()])
}

#[test]
fn result_payload_is_returned() {
    let mut client = JsonRpcClient::new(FakeTransport::new(Behavior::AckValue));
    let r = request_of(&mut client);
    assert!(matches!(r, Ok(JsonValue::UInt(7))));
    assert_eq!(client.transport.calls, 1);
    assert_eq!(client.transport.last_method, "submit");
    assert_eq!(client.transport.last_params, vec!["00".to_string()]);
}

#[test]
fn null_result_is_returned() {
    let mut client = JsonRpcClient::new(FakeTransport::new(Behavior::AckNull));
    let r = request_of(&mut client);
    assert!(matches!(r, Ok(JsonValue::Null)));
}

#[test]
fn error_field_fails_even_with_result_present() {
    let mut client = JsonRpcClient::new(FakeTransport::new(Behavior::AppError));
    let r = request_of(&mut client);
    match r {
        Err(ClientError::Application(JsonValue::Text(t))) => {
            assert_eq!(t, "transaction rejected");
        },
        other => panic!("expected an application error, got {:?}", other),
    }
}

#[test]
fn mismatched_id_fails_despite_wellformed_result() {
    let mut client = JsonRpcClient::new(FakeTransport::new(Behavior::WrongId));
    let r = request_of(&mut client);
    assert!(matches!(r, Err(ClientError::Protocol(ProtocolViolation::IdMismatch))));
    // No retry: the reply arrived, only its content was wrong.
    assert_eq!(client.transport.calls, 1);
}

#[test]
fn wrong_protocol_tag_fails() {
    let mut client = JsonRpcClient::new(FakeTransport::new(Behavior::WrongTag));
    let r = request_of(&mut client);
    assert!(matches!(r, Err(ClientError::Protocol(ProtocolViolation::ProtocolMismatch))));
}

#[test]
fn absent_protocol_tag_fails() {
    let mut client = JsonRpcClient::new(FakeTransport::new(Behavior::MissingTag));
    let r = request_of(&mut client);
    assert!(matches!(r, Err(ClientError::Protocol(ProtocolViolation::ProtocolMismatch))));
}

#[test]
fn absent_error_and_result_fails() {
    let mut client = JsonRpcClient::new(FakeTransport::new(Behavior::MissingBoth));
    let r = request_of(&mut client);
    assert!(matches!(r, Err(ClientError::Protocol(ProtocolViolation::MissingResult))));
}

#[test]
fn non_success_status_fails_with_it() {
    let mut client = JsonRpcClient::new(FakeTransport::new(Behavior::BadStatus));
    let r = request_of(&mut client);
    assert!(matches!(r, Err(ClientError::Protocol(ProtocolViolation::ServerStatus(500)))));
}

#[test]
fn unparsable_body_fails() {
    let mut client = JsonRpcClient::new(FakeTransport::new(Behavior::NoBody));
    let r = request_of(&mut client);
    assert!(matches!(r, Err(ClientError::Protocol(ProtocolViolation::MalformedBody))));
}

#[test]
fn failing_send_is_retried_exactly_twice_more() {
    let mut client = JsonRpcClient::new(FakeTransport::new(Behavior::SendFail));
    let r = request_of(&mut client);
    assert!(matches!(r, Err(ClientError::Transport(_))));
    assert_eq!(client.transport.calls, 3);
}

#[test]
fn send_recovering_within_the_cap_succeeds() {
    let mut client = JsonRpcClient::new(FakeTransport::new(Behavior::FailTwiceThenAck));
    let r = request_of(&mut client);
    assert!(matches!(r, Ok(JsonValue::Null)));
    assert_eq!(client.transport.calls, 3);
}

#[test]
fn validate_checks_run_in_order() {
    // A reply that is wrong in several ways at once reports the earliest
    // check that fails: the status, before anything inside the body.
    let r = validate_reply(reply(404, Some(envelope(Some("1.0"), Some(9), None, None))), 3);
    assert!(matches!(r, Err(ClientError::Protocol(ProtocolViolation::ServerStatus(404)))));
    // With a good status, the tag is judged before the id.
    let r = validate_reply(reply(200, Some(envelope(Some("1.0"), Some(9), None, None))), 3);
    assert!(matches!(r, Err(ClientError::Protocol(ProtocolViolation::ProtocolMismatch))));
    // With a good tag, the id is judged before the error field.
    let r = validate_reply(
        reply(200, Some(envelope(Some("2.0"), Some(9), Some(JsonValue::Null), None))),
        3,
    );
    assert!(matches!(r, Err(ClientError::Protocol(ProtocolViolation::IdMismatch))));
}
