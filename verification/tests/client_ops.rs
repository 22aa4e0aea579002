//! Behavior of the verified ledger client: trust ratcheting, the read-path
//! retry classifier, the response-shape checks of each operation, and the
//! exactly-once sequence-number bump on submission.

use ledger_client::client::{
    LedgerTransport, LibraClient, TrustedStateChange, VerificationEngine,
};
use ledger_client::errors::{
    ClientError, ProtocolViolation, TransportCode, TransportError, VerificationError,
};
use ledger_client::json::JsonValue;
use ledger_client::json_rpc::{
    HttpReply, JsonRpcClient, JsonRpcEnvelope, JsonRpcRequest, JsonRpcTransport,
};
use ledger_client::requests::{
    RequestItem, ResponseItem, UpdateToLatestLedgerRequest, UpdateToLatestLedgerResponse,
};
use ledger_client::types::{
    AccountAddress, AccountData, AccountResource, AccountStateBlob, AccountStateWithProof,
    ContractEvent, LedgerInfo, LedgerInfoWithSignatures, SignedTransaction, Transaction,
    TransactionListWithProof, TransactionWithProof, TrustedState, Waypoint,
};

// ---- fakes ----------------------------------------------------------------

struct ScriptedLedger {
    script: Vec<Result<UpdateToLatestLedgerResponse, TransportError>>,
    calls: usize,
    last_known_version: Option<u64>,
}

impl ScriptedLedger {
    fn new(script: Vec<Result<UpdateToLatestLedgerResponse, TransportError>>) -> Self {
        ScriptedLedger { script, calls: 0, last_known_version: None }
    }
}

impl LedgerTransport for ScriptedLedger {
    fn update_to_latest_ledger(
        &mut self,
        request: &UpdateToLatestLedgerRequest,
    ) -> Result<UpdateToLatestLedgerResponse, TransportError> {
        self.calls += 1;
        self.last_known_version = Some(request.client_known_version);
        self.script.remove(0)
    }
}

/// An engine that ratchets as the verification contract promises: it rejects
/// anything stale and classifies the advance by the epoch. It deliberately
/// skips the response-shape half of the contract, so the tests can hand the
/// client mismatched and empty item lists and reach its own fail-fast
/// protocol errors.
struct RatchetEngine;

impl VerificationEngine for RatchetEngine {
    fn verify(
        &self,
        trusted_state: &TrustedState,
        _request: &UpdateToLatestLedgerRequest,
        response: &UpdateToLatestLedgerResponse,
    ) -> Result<TrustedStateChange, VerificationError> {
        let li = &response.ledger_info_with_sigs;
        if li.ledger_info.version < trusted_state.version
            || li.ledger_info.epoch < trusted_state.epoch
        {
            return Err(VerificationError { message: "stale response".to_string() });
        }
        let new_state = TrustedState {
            version: li.ledger_info.version,
            epoch: li.ledger_info.epoch,
            validator_set_commitment: trusted_state.validator_set_commitment.clone(),
        };
        if li.ledger_info.epoch > trusted_state.epoch {
            Ok(TrustedStateChange::Epoch {
                new_state,
                latest_epoch_change_li: li.clone(),
                latest_validator_set: "fresh validator set".to_string(),
            })
        } else {
            Ok(TrustedStateChange::Version { new_state })
        }
    }
}

/// An engine that rejects everything, for the non-retryable failure path.
struct RejectingEngine;

impl VerificationEngine for RejectingEngine {
    fn verify(
        &self,
        _trusted_state: &TrustedState,
        _request: &UpdateToLatestLedgerRequest,
        _response: &UpdateToLatestLedgerResponse,
    ) -> Result<TrustedStateChange, VerificationError> {
        Err(VerificationError { message: "proof did not validate".to_string() })
    }
}

enum JsonBehavior {
    AckNull,
    AckValue,
    AppError,
    SendFail,
}

struct FakeJson {
    behavior: JsonBehavior,
    calls: usize,
    last_method: String,
    last_params: Vec<String>,
}

impl FakeJson {
    fn new(behavior: JsonBehavior) -> Self {
        FakeJson { behavior, calls: 0, last_method: String::new(), last_params: Vec::new() }
    }
}

impl JsonRpcTransport for FakeJson {
    fn send(&mut self, request: &JsonRpcRequest) -> Result<HttpReply, TransportError> {
        self.calls += 1;
        self.last_method = request.method.clone();
        self.last_params = request.params.clone();
        let body = |error: Option<JsonValue>, result: Option<JsonValue>| JsonRpcEnvelope {
            jsonrpc: Some("2.0".to_string()),
            id: Some(request.id),
            error,
            result,
        };
        match self.behavior {
            JsonBehavior::AckNull => Ok(HttpReply {
                status: 200,
                body: Some(body(None, Some(JsonValue::Null))),
            }),
            JsonBehavior::AckValue => Ok(HttpReply {
                status: 200,
                body: Some(body(None, Some(JsonValue::Text("unexpected".to_string())))),
            }),
            JsonBehavior::AppError => Ok(HttpReply {
                status: 200,
                body: Some(body(Some(JsonValue::Text("rejected".to_string())), None)),
            }),
            JsonBehavior::SendFail => Err(TransportError {
                code: TransportCode::Unknown,
                message: "broken pipe".to_string(),
            }),
        }
    }
}

// ---- helpers ---------------------------------------------------------------

type TestClient = LibraClient<ScriptedLedger, RatchetEngine, FakeJson>;

fn li(version: u64, epoch: u64) -> LedgerInfoWithSignatures {
    LedgerInfoWithSignatures { ledger_info: LedgerInfo { version, epoch }, signatures: vec![] }
}

fn response(
    items: Vec<ResponseItem>,
    version: u64,
    epoch: u64,
) -> Result<UpdateToLatestLedgerResponse, TransportError> {
    Ok(UpdateToLatestLedgerResponse {
        response_items: items,
        ledger_info_with_sigs: li(version, epoch),
    })
}

fn unavailable() -> Result<UpdateToLatestLedgerResponse, TransportError> {
    Err(TransportError { code: TransportCode::Unavailable, message: "down".to_string() })
}

fn address() -> AccountAddress {
    AccountAddress { bytes: vec![1u8; 16] }
}

fn account_item(blob: Option<AccountStateBlob>, version: u64) -> ResponseItem {
    ResponseItem::GetAccountState {
        account_state_with_proof: AccountStateWithProof { version, blob, proof_bytes: vec![] },
    }
}

fn txn(n: u8) -> Transaction {
    Transaction { bytes: vec![n] }
}

fn event(n: u64) -> ContractEvent {
    ContractEvent { sequence_number: n, data: vec![n as u8] }
}

fn waypoint_at(version: u64) -> Option<Waypoint> {
    Some(Waypoint { version, value_hash: vec![7u8; 32] })
}

fn client_with(
    script: Vec<Result<UpdateToLatestLedgerResponse, TransportError>>,
    waypoint: Option<Waypoint>,
) -> TestClient {
    LibraClient::new(
        ScriptedLedger::new(script),
        RatchetEngine,
        JsonRpcClient::new(FakeJson::new(JsonBehavior::AckNull)),
        waypoint,
    )
    .unwrap()
}

// ---- construction ----------------------------------------------------------

#[test]
fn waypoint_anchors_initial_trust() {
    let client = client_with(vec![], waypoint_at(25));
    assert_eq!(client.trusted_state.version, 25);
    assert_eq!(client.trusted_state.validator_set_commitment, vec![7u8; 32]);
    assert!(client.latest_epoch_change_li().is_none());
}

#[test]
fn absent_waypoint_means_trust_any_genesis() {
    let client = client_with(vec![], None);
    assert_eq!(client.trusted_state.version, 0);
    assert_eq!(client.trusted_state.epoch, 0);
}

// ---- trust ratcheting ------------------------------------------------------

#[test]
fn successful_reads_never_move_trust_backward() {
    let mut client = client_with(
        vec![
            response(vec![account_item(None, 30)], 30, 0),
            response(vec![account_item(None, 12)], 12, 0),
            response(vec![account_item(None, 31)], 31, 0),
        ],
        waypoint_at(25),
    );
    assert!(client.get_account_blob(address()).is_ok());
    assert_eq!(client.trusted_state.version, 30);

    // A response claiming version 12 < 30 fails verification and leaves
    // stored trust untouched.
    let stale = client.get_account_blob(address());
    assert!(matches!(stale, Err(ClientError::Verification(_))));
    assert_eq!(client.trusted_state.version, 30);

    assert!(client.get_account_blob(address()).is_ok());
    assert_eq!(client.trusted_state.version, 31);
}

#[test]
fn epoch_change_stores_certificate_and_version_change_keeps_it() {
    let mut client = client_with(
        vec![
            response(vec![account_item(None, 40)], 40, 1),
            response(vec![account_item(None, 50)], 50, 1),
        ],
        waypoint_at(25),
    );
    assert!(client.get_account_blob(address()).is_ok());
    assert_eq!(client.trusted_state.epoch, 1);
    assert_eq!(client.latest_epoch_change_li(), Some(&li(40, 1)));
    assert_eq!(client.latest_epoch_change_li().unwrap().ledger_info().epoch(), 1);

    // A same-epoch advance must not touch the stored certificate.
    assert!(client.get_account_blob(address()).is_ok());
    assert_eq!(client.trusted_state.version, 50);
    assert_eq!(client.latest_epoch_change_li(), Some(&li(40, 1)));
}

#[test]
fn requests_carry_the_trusted_version_as_freshness_floor() {
    let mut client = client_with(
        vec![response(vec![account_item(None, 30)], 30, 0)],
        waypoint_at(25),
    );
    assert!(client.get_account_blob(address()).is_ok());
    assert_eq!(client.client.last_known_version, Some(25));
}

// ---- retry classification --------------------------------------------------

#[test]
fn retryable_transport_failure_makes_exactly_three_attempts() {
    let mut client = client_with(
        vec![unavailable(), unavailable(), unavailable()],
        waypoint_at(0),
    );
    let r = client.get_account_blob(address());
    match r {
        Err(ClientError::Transport(t)) => assert_eq!(t.code, TransportCode::Unavailable),
        other => panic!("expected a transport error, got {:?}", other),
    }
    assert_eq!(client.client.calls, 3);
    assert_eq!(client.trusted_state.version, 0);
}

#[test]
fn transport_recovering_within_the_cap_succeeds() {
    let mut client = client_with(
        vec![unavailable(), response(vec![account_item(None, 9)], 9, 0)],
        waypoint_at(0),
    );
    assert!(client.get_account_blob(address()).is_ok());
    assert_eq!(client.client.calls, 2);
    assert_eq!(client.trusted_state.version, 9);
}

#[test]
fn non_retryable_transport_failure_makes_one_attempt() {
    let mut client = client_with(
        vec![Err(TransportError {
            code: TransportCode::Other,
            message: "definite rejection".to_string(),
        })],
        waypoint_at(0),
    );
    let r = client.get_account_blob(address());
    assert!(matches!(r, Err(ClientError::Transport(_))));
    assert_eq!(client.client.calls, 1);
}

#[test]
fn verification_failure_makes_one_attempt() {
    let mut client = LibraClient::new(
        ScriptedLedger::new(vec![response(vec![account_item(None, 5)], 5, 0)]),
        RejectingEngine,
        JsonRpcClient::new(FakeJson::new(JsonBehavior::AckNull)),
        waypoint_at(0),
    )
    .unwrap();
    let r = client.get_account_blob(address());
    assert!(matches!(r, Err(ClientError::Verification(_))));
    assert_eq!(client.client.calls, 1);
    assert_eq!(client.trusted_state.version, 0);
}

// ---- read operations -------------------------------------------------------

#[test]
fn absent_account_blob_means_sequence_number_zero() {
    let mut client = client_with(
        vec![response(vec![account_item(None, 4)], 4, 0)],
        waypoint_at(0),
    );
    assert_eq!(client.get_sequence_number(address()).unwrap(), 0);
}

#[test]
fn sequence_number_comes_from_the_account_resource() {
    let blob = AccountStateBlob { resource: Some(AccountResource { sequence_number: 42 }) };
    let mut client = client_with(
        vec![response(vec![account_item(Some(blob), 4)], 4, 0)],
        waypoint_at(0),
    );
    assert_eq!(client.get_sequence_number(address()).unwrap(), 42);
}

#[test]
fn undecodable_blob_is_a_protocol_error() {
    let blob = AccountStateBlob { resource: None };
    let mut client = client_with(
        vec![response(vec![account_item(Some(blob), 4)], 4, 0)],
        waypoint_at(0),
    );
    let r = client.get_sequence_number(address());
    assert!(matches!(
        r,
        Err(ClientError::Protocol(ProtocolViolation::UndecodableAccountResource))
    ));
}

#[test]
fn account_blob_comes_with_the_proven_version() {
    let blob = AccountStateBlob { resource: Some(AccountResource { sequence_number: 3 }) };
    let mut client = client_with(
        vec![response(vec![account_item(Some(blob.clone()), 4)], 77, 0)],
        waypoint_at(0),
    );
    let (got, version) = client.get_account_blob(address()).unwrap();
    assert_eq!(got, Some(blob));
    assert_eq!(version, 77);
}

#[test]
fn txn_by_acc_seq_returns_transaction_and_events() {
    let item = ResponseItem::GetAccountTransactionBySequenceNumber {
        transaction_with_proof: Some(TransactionWithProof {
            version: 9,
            transaction: txn(5),
            events: Some(vec![event(0)]),
            proof_bytes: vec![],
        }),
        proof_of_current_sequence_number: None,
    };
    let mut client = client_with(vec![response(vec![item], 9, 0)], waypoint_at(0));
    let got = client.get_txn_by_acc_seq(address(), 4, true).unwrap();
    assert_eq!(got, Some((txn(5), Some(vec![event(0)]))));
}

#[test]
fn txn_by_acc_seq_reports_absence_as_none() {
    let item = ResponseItem::GetAccountTransactionBySequenceNumber {
        transaction_with_proof: None,
        proof_of_current_sequence_number: None,
    };
    let mut client = client_with(vec![response(vec![item], 9, 0)], waypoint_at(0));
    assert_eq!(client.get_txn_by_acc_seq(address(), 4, false).unwrap(), None);
}

#[test]
fn wrong_response_variant_fails_fast() {
    let item = ResponseItem::GetAccountTransactionBySequenceNumber {
        transaction_with_proof: None,
        proof_of_current_sequence_number: None,
    };
    let mut client = client_with(vec![response(vec![item], 9, 0)], waypoint_at(0));
    let r = client.get_account_blob(address());
    assert!(matches!(
        r,
        Err(ClientError::Protocol(ProtocolViolation::WrongResponseVariant))
    ));
}

#[test]
fn empty_response_item_list_fails_fast() {
    let mut client = client_with(vec![response(vec![], 9, 0)], waypoint_at(0));
    let r = client.get_account_blob(address());
    assert!(matches!(
        r,
        Err(ClientError::Protocol(ProtocolViolation::MissingResponseItem))
    ));
}

fn txn_list_item(
    transactions: Vec<Transaction>,
    events: Option<Vec<Vec<ContractEvent>>>,
) -> ResponseItem {
    ResponseItem::GetTransactions {
        txn_list_with_proof: TransactionListWithProof {
            transactions,
            events,
            proof_bytes: vec![],
        },
    }
}

#[test]
fn txn_range_pairs_transactions_with_events_by_position() {
    let item = txn_list_item(
        vec![txn(10), txn(11), txn(12)],
        Some(vec![vec![event(0)], vec![], vec![event(1), event(2)]]),
    );
    let mut client = client_with(vec![response(vec![item], 12, 0)], waypoint_at(0));
    let got = client.get_txn_by_range(10, 3, true).unwrap();
    assert_eq!(
        got,
        vec![
            (txn(10), Some(vec![event(0)])),
            (txn(11), Some(vec![])),
            (txn(12), Some(vec![event(1), event(2)])),
        ]
    );
}

#[test]
fn txn_range_with_omitted_events_pairs_absent_markers() {
    let item = txn_list_item(vec![txn(10), txn(11), txn(12)], None);
    let mut client = client_with(vec![response(vec![item], 12, 0)], waypoint_at(0));
    let got = client.get_txn_by_range(10, 3, true).unwrap();
    assert_eq!(got, vec![(txn(10), None), (txn(11), None), (txn(12), None)]);
}

#[test]
fn txn_range_with_mismatched_event_count_fails_fast() {
    let item = txn_list_item(vec![txn(10), txn(11)], Some(vec![vec![event(0)]]));
    let mut client = client_with(vec![response(vec![item], 11, 0)], waypoint_at(0));
    let r = client.get_txn_by_range(10, 2, true);
    assert!(matches!(
        r,
        Err(ClientError::Protocol(ProtocolViolation::EventCountMismatch))
    ));
}

#[test]
fn events_by_access_path_returns_events_and_latest_state_proof() {
    let events = vec![ledger_client::types::EventWithProof {
        transaction_version: 3,
        event_index: 0,
        event: event(0),
        proof_bytes: vec![],
    }];
    let latest = AccountStateWithProof { version: 6, blob: None, proof_bytes: vec![] };
    let item = ResponseItem::GetEventsByEventAccessPath {
        events_with_proof: events.clone(),
        proof_of_latest_event: latest.clone(),
    };
    let mut client = client_with(vec![response(vec![item], 6, 0)], waypoint_at(0));
    let path = ledger_client::types::AccessPath { address: address(), path: vec![2u8] };
    let (got_events, got_latest) = client.get_events_by_access_path(path, 0, true, 10).unwrap();
    assert_eq!(got_events, events);
    assert_eq!(got_latest, latest);
}

// ---- submission ------------------------------------------------------------

fn submit_client(behavior: JsonBehavior) -> TestClient {
    LibraClient::new(
        ScriptedLedger::new(vec![]),
        RatchetEngine,
        JsonRpcClient::new(FakeJson::new(behavior)),
        waypoint_at(0),
    )
    .unwrap()
}

fn sender_at(sequence_number: u64) -> Option<AccountData> {
    Some(AccountData { address: address(), sequence_number })
}

fn signed_txn() -> SignedTransaction {
    SignedTransaction { canonical_bytes: vec![0xde, 0xad, 0xbe, 0xef] }
}

#[test]
fn successful_submit_bumps_the_sequence_number_once() {
    let mut client = submit_client(JsonBehavior::AckNull);
    let mut sender = sender_at(5);
    assert!(client.submit_transaction(&mut sender, signed_txn()).is_ok());
    assert_eq!(sender.unwrap().sequence_number, 6);
}

#[test]
fn submit_sends_the_canonical_bytes_hex_encoded() {
    let mut client = submit_client(JsonBehavior::AckNull);
    let mut sender = None;
    assert!(client.submit_transaction(&mut sender, signed_txn()).is_ok());
    assert_eq!(client.json_rpc_client.transport.last_method, "submit");
    assert_eq!(
        client.json_rpc_client.transport.last_params,
        vec!["deadbeef".to_string()]
    );
    assert_eq!(sender, None);
}

#[test]
fn rejected_submit_leaves_the_sequence_number_alone() {
    let mut client = submit_client(JsonBehavior::AppError);
    let mut sender = sender_at(5);
    let r = client.submit_transaction(&mut sender, signed_txn());
    assert!(matches!(r, Err(ClientError::Application(_))));
    assert_eq!(sender.unwrap().sequence_number, 5);
}

#[test]
fn non_null_submit_result_is_an_application_error() {
    let mut client = submit_client(JsonBehavior::AckValue);
    let mut sender = sender_at(5);
    let r = client.submit_transaction(&mut sender, signed_txn());
    assert!(matches!(r, Err(ClientError::Application(JsonValue::Text(_)))));
    assert_eq!(sender.unwrap().sequence_number, 5);
}

#[test]
fn failing_submit_send_makes_three_attempts_and_no_bump() {
    let mut client = submit_client(JsonBehavior::SendFail);
    let mut sender = sender_at(5);
    let r = client.submit_transaction(&mut sender, signed_txn());
    assert!(matches!(r, Err(ClientError::Transport(_))));
    assert_eq!(client.json_rpc_client.transport.calls, 3);
    assert_eq!(sender.unwrap().sequence_number, 5);
}
