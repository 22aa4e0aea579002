//! The verified ledger client.
//!
//! Every read builds one request item, sends it with the client's current
//! trusted version as a freshness floor, hands the response together with
//! that exact request to the verification engine, and only on an accepted
//! verification replaces the stored trusted state — wholesale, never
//! partially. A whole failed read cycle is retried, but only on a transport
//! condition that says the connection state is unknown, and only up to a
//! fixed cap. Writes go through the JSON-RPC channel with its own
//! unconditional bounded retry, which is safe only because the ledger
//! service rejects duplicate submissions of one signed transaction.

use vstd::prelude::*;
use crate::errors::{
    is_retryable, ClientError, ProtocolViolation, TransportCode, TransportError,
    VerificationError, MAX_RETRY_COUNT,
};
use crate::json_rpc::{protocol_tag, validate_reply_spec, JsonRpcClient, JsonRpcTransport};
use crate::json::JsonValue;
use crate::requests::{
    item_answers, pair_transactions_with_events, paired_with_events, RequestItem, ResponseItem,
    UpdateToLatestLedgerRequest, UpdateToLatestLedgerResponse,
};
use crate::types::{
    AccessPath, AccountAddress, AccountData, AccountStateBlob, AccountStateWithProof,
    ContractEvent, EventWithProof, LedgerInfoWithSignatures, SignedTransaction, Transaction,
    TrustedState, Version, Waypoint,
};

verus! {

/// The outcome of verifying one response against the current trusted state.
/// Exactly one variant results from a success: either the epoch stayed and
/// only the version advanced, or an epoch boundary was crossed and the
/// change also carries the epoch-change certificate and the validator set
/// that becomes effective.
#[derive(Debug, PartialEq)]
pub enum TrustedStateChange {
    /// Same epoch, version advanced.
    Version { new_state: TrustedState },
    /// An epoch boundary was crossed.
    Epoch {
        new_state: TrustedState,
        latest_epoch_change_li: LedgerInfoWithSignatures,
        latest_validator_set: String,
    },
}

impl TrustedStateChange {
    /// The trusted state this change installs.
    pub open spec fn new_state(self) -> TrustedState {
        match self {
            TrustedStateChange::Version { new_state } => new_state,
            TrustedStateChange::Epoch { new_state, .. } => new_state,
        }
    }
}

/// What an accepted verification means, and all the client assumes of the
/// engine: the new trusted state sits exactly at the response's certified
/// version, trust never moves backward in version or epoch, and the change
/// is of kind Epoch precisely when the epoch advanced. The request is the
/// exact request the acceptance was judged against: an accepted response
/// answers it item for item, each response item of the kind its request
/// item asked for; what pairing demands of the opaque proofs beyond that is
/// the engine's own obligation.
pub open spec fn verify_accepts(
    state: TrustedState,
    request: UpdateToLatestLedgerRequest,
    response: UpdateToLatestLedgerResponse,
    change: TrustedStateChange,
) -> bool {
    &&& response.response_items@.len() == request.requested_items@.len()
    &&& (forall|i: int|
        0 <= i < request.requested_items@.len() ==> item_answers(
            request.requested_items@[i],
            #[trigger] response.response_items@[i],
        ))
    &&& change.new_state().version == response.ledger_info_with_sigs.ledger_info.version
    &&& state.version <= change.new_state().version
    &&& state.epoch <= change.new_state().epoch
    &&& (change is Epoch <==> change.new_state().epoch > state.epoch)
}

/// The verification engine, an injected capability: it checks a response's
/// proofs against the trusted state and the exact request that produced the
/// response, and either classifies the accepted advance or rejects. The
/// cryptographic checking itself is outside this crate; what an acceptance
/// may claim is pinned by [`verify_accepts`].
pub trait VerificationEngine {
    fn verify(
        &self,
        trusted_state: &TrustedState,
        request: &UpdateToLatestLedgerRequest,
        response: &UpdateToLatestLedgerResponse,
    ) -> (r: Result<TrustedStateChange, VerificationError>)
        ensures
            r matches Ok(change) ==> verify_accepts(*trusted_state, *request, *response, change),
    ;
}

/// The binary RPC channel, an injected capability: one blocking
/// request/response call of the ledger service's "update to latest ledger"
/// operation. `Err` means the call itself failed; nothing is assumed of a
/// response that arrived — the verification engine judges it.
pub trait LedgerTransport {
    fn update_to_latest_ledger(&mut self, request: &UpdateToLatestLedgerRequest) -> (r: Result<
        UpdateToLatestLedgerResponse,
        TransportError,
    >);
}

/// How the stored epoch-change certificate moves under a change: replaced by
/// an Epoch change's certificate, untouched by a Version change.
pub open spec fn cert_after(
    cert: Option<LedgerInfoWithSignatures>,
    change: TrustedStateChange,
) -> Option<LedgerInfoWithSignatures> {
    match change {
        TrustedStateChange::Version { .. } => cert,
        TrustedStateChange::Epoch { latest_epoch_change_li, .. } => Some(latest_epoch_change_li),
    }
}

/// Whether a read attempt's outcome is worth another attempt: only a
/// transport failure whose condition leaves the connection state unknown.
pub open spec fn retryable_read(o: Result<UpdateToLatestLedgerResponse, ClientError>) -> bool {
    o matches Err(e) && is_retryable(e)
}

/// The read-path retry policy: retry only below the cap, and only a
/// retryable transport condition — never a verification, protocol or
/// application failure.
pub open spec fn should_retry<R>(try_cnt: u64, ret: Result<R, ClientError>) -> bool {
    try_cnt < MAX_RETRY_COUNT && (ret matches Err(e) && is_retryable(e))
}

/// What a one-item account-state read yields from its read cycle's outcome:
/// the proven blob (or its absence) and the version it was proven against,
/// or the cycle's own failure, a missing item, or a wrong item kind.
pub open spec fn account_blob_result(o: Result<UpdateToLatestLedgerResponse, ClientError>) -> Result<
    (Option<AccountStateBlob>, Version),
    ClientError,
> {
    match o {
        Err(e) => Err(e),
        Ok(resp) => if resp.response_items@.len() == 0 {
            Err(ClientError::Protocol(ProtocolViolation::MissingResponseItem))
        } else {
            match resp.response_items@[0] {
                ResponseItem::GetAccountState { account_state_with_proof } => Ok(
                    (
                        account_state_with_proof.blob,
                        resp.ledger_info_with_sigs.ledger_info.version,
                    ),
                ),
                _ => Err(ClientError::Protocol(ProtocolViolation::WrongResponseVariant)),
            }
        },
    }
}

/// What a sequence-number read yields: zero for a proven-absent account,
/// the resource's sequence number for a decodable blob, and a protocol
/// error for a blob no resource can be read from.
pub open spec fn sequence_number_result(o: Result<UpdateToLatestLedgerResponse, ClientError>) -> Result<
    u64,
    ClientError,
> {
    match account_blob_result(o) {
        Err(e) => Err(e),
        Ok((blob_opt, _version)) => match blob_opt {
            None => Ok(0u64),
            Some(blob) => match blob.resource {
                None => Err(ClientError::Protocol(ProtocolViolation::UndecodableAccountResource)),
                Some(resource) => Ok(resource.sequence_number),
            },
        },
    }
}

/// What a transaction-by-account-and-sequence read yields: the transaction
/// and its events if the ledger has one at that slot, `None` if it proves
/// there is none.
pub open spec fn txn_by_seq_result(o: Result<UpdateToLatestLedgerResponse, ClientError>) -> Result<
    Option<(Transaction, Option<Vec<ContractEvent>>)>,
    ClientError,
> {
    match o {
        Err(e) => Err(e),
        Ok(resp) => if resp.response_items@.len() == 0 {
            Err(ClientError::Protocol(ProtocolViolation::MissingResponseItem))
        } else {
            match resp.response_items@[0] {
                ResponseItem::GetAccountTransactionBySequenceNumber {
                    transaction_with_proof,
                    ..
                } => match transaction_with_proof {
                    None => Ok(None::<(Transaction, Option<Vec<ContractEvent>>)>),
                    Some(t) => Ok(Some((t.transaction, t.events))),
                },
                _ => Err(ClientError::Protocol(ProtocolViolation::WrongResponseVariant)),
            }
        },
    }
}

/// How a transaction-range read's result relates to its read cycle's
/// outcome: on a well-shaped response, the positional pairing of
/// transactions with events.
pub open spec fn txn_range_result(
    o: Result<UpdateToLatestLedgerResponse, ClientError>,
    r: Result<Vec<(Transaction, Option<Vec<ContractEvent>>)>, ClientError>,
) -> bool {
    match o {
        Err(e) => r == Err::<Vec<(Transaction, Option<Vec<ContractEvent>>)>, ClientError>(e),
        Ok(resp) => if resp.response_items@.len() == 0 {
            r == Err::<Vec<(Transaction, Option<Vec<ContractEvent>>)>, ClientError>(
                ClientError::Protocol(ProtocolViolation::MissingResponseItem),
            )
        } else {
            match resp.response_items@[0] {
                ResponseItem::GetTransactions { txn_list_with_proof } => paired_with_events(
                    txn_list_with_proof.transactions@,
                    txn_list_with_proof.events,
                    r,
                ),
                _ => r == Err::<Vec<(Transaction, Option<Vec<ContractEvent>>)>, ClientError>(
                    ClientError::Protocol(ProtocolViolation::WrongResponseVariant),
                ),
            }
        },
    }
}

/// How an events-by-access-path read's result relates to its read cycle's
/// outcome: the proven events together with, always, the account's latest
/// event-count state.
pub open spec fn events_result(
    o: Result<UpdateToLatestLedgerResponse, ClientError>,
    r: Result<(Vec<EventWithProof>, AccountStateWithProof), ClientError>,
) -> bool {
    match o {
        Err(e) => r == Err::<(Vec<EventWithProof>, AccountStateWithProof), ClientError>(e),
        Ok(resp) => if resp.response_items@.len() == 0 {
            r == Err::<(Vec<EventWithProof>, AccountStateWithProof), ClientError>(
                ClientError::Protocol(ProtocolViolation::MissingResponseItem),
            )
        } else {
            match resp.response_items@[0] {
                ResponseItem::GetEventsByEventAccessPath {
                    events_with_proof,
                    proof_of_latest_event,
                } => r == Ok::<(Vec<EventWithProof>, AccountStateWithProof), ClientError>(
                    (events_with_proof, proof_of_latest_event),
                ),
                _ => r == Err::<(Vec<EventWithProof>, AccountStateWithProof), ClientError>(
                    ClientError::Protocol(ProtocolViolation::WrongResponseVariant),
                ),
            }
        },
    }
}

/// What a submission's JSON-RPC payload means: only the literal `null`
/// acknowledges acceptance; any other successful payload is itself an
/// application error carrying that payload.
pub open spec fn submit_outcome(v: Result<JsonValue, ClientError>) -> Result<(), ClientError> {
    match v {
        Err(e) => Err(e),
        Ok(value) => if value is Null {
            Ok(())
        } else {
            Err(ClientError::Application(value))
        },
    }
}

/// The lowercase hex digit of a value below sixteen.
pub open spec fn hex_digit(n: u8) -> char {
    if n == 0 {
        '0'
    } else if n == 1 {
        '1'
    } else if n == 2 {
        '2'
    } else if n == 3 {
        '3'
    } else if n == 4 {
        '4'
    } else if n == 5 {
        '5'
    } else if n == 6 {
        '6'
    } else if n == 7 {
        '7'
    } else if n == 8 {
        '8'
    } else if n == 9 {
        '9'
    } else if n == 10 {
        'a'
    } else if n == 11 {
        'b'
    } else if n == 12 {
        'c'
    } else if n == 13 {
        'd'
    } else if n == 14 {
        'e'
    } else {
        'f'
    }
}

/// The lowercase hex encoding of a byte string: two digits per byte, high
/// nibble first.
pub open spec fn hex_of(bytes: Seq<u8>) -> Seq<char>
    decreases bytes.len(),
{
    if bytes.len() == 0 {
        Seq::empty()
    } else {
        seq![hex_digit((bytes[0] / 16) as u8), hex_digit((bytes[0] % 16) as u8)] + hex_of(
            bytes.drop_first(),
        )
    }
}

/// Relies on hex::encode: each input byte becomes two lowercase hex digits,
/// high nibble first.
#[verifier::external_body]
fn encode_hex_lower(bytes: &Vec<u8>) -> (r: String)
    ensures
        r@ == hex_of(bytes@),
{
    hex::encode(bytes.as_slice())
}

/// One read attempt, as the ghost log records it: the exact request handed
/// to the transport and to the verification engine, the attempt's outcome,
/// and — when the engine accepted — the change it returned.
pub struct ReadAttempt {
    pub request: UpdateToLatestLedgerRequest,
    pub outcome: Result<UpdateToLatestLedgerResponse, ClientError>,
    pub change: Option<TrustedStateChange>,
}

/// A client of the ledger service that verifies what it is told. It holds
/// the two channels and the engine as injected capabilities, and the two
/// pieces of trust it ratchets: the trusted state and the most recent
/// epoch-change certificate. The ghost log records each read attempt — the
/// request it carried, its outcome, the change it installed — and the ghost
/// request field the last read request built, for the contracts to speak
/// about.
pub struct LibraClient<T: LedgerTransport, E: VerificationEngine, J: JsonRpcTransport> {
    /// The binary RPC channel for the verified read path.
    pub client: T,
    /// The proof-verification engine.
    pub engine: E,
    /// The JSON-RPC channel for submissions.
    pub json_rpc_client: JsonRpcClient<J>,
    /// The latest verified chain state.
    pub trusted_state: TrustedState,
    /// The most recent epoch-change certificate; `None` until the first
    /// epoch transition is observed, then only ever replaced.
    pub latest_epoch_change_li: Option<LedgerInfoWithSignatures>,
    /// One entry per read attempt: the request it carried, its outcome,
    /// and the accepted change if there was one.
    pub read_log: Ghost<Seq<ReadAttempt>>,
    /// The read request most recently built and sent.
    pub last_ledger_request: Ghost<Option<UpdateToLatestLedgerRequest>>,
}

impl<T: LedgerTransport, E: VerificationEngine, J: JsonRpcTransport> LibraClient<T, E, J> {
    /// The trust ratchet between two client states: neither version nor
    /// epoch ever moves backward, and the stored certificate changes exactly
    /// when the epoch does.
    pub open spec fn trust_ratchet(pre: Self, post: Self) -> bool {
        &&& pre.trusted_state.version <= post.trusted_state.version
        &&& pre.trusted_state.epoch <= post.trusted_state.epoch
        &&& (post.trusted_state.epoch > pre.trusted_state.epoch
            ==> post.latest_epoch_change_li is Some)
        &&& (post.trusted_state.epoch == pre.trusted_state.epoch
            ==> post.latest_epoch_change_li == pre.latest_epoch_change_li)
        &&& post.json_rpc_client == pre.json_rpc_client
    }

    /// The retry discipline's trace over the read log: at least one and at
    /// most three attempts were made, every attempt before the last failed
    /// with a retryable condition, the last attempt's outcome is the
    /// surfaced one, and a surfaced retryable failure means the cap was
    /// exhausted.
    pub open spec fn bounded_attempts(
        pre: Self,
        post: Self,
        o: Result<UpdateToLatestLedgerResponse, ClientError>,
    ) -> bool {
        &&& pre.read_log@.is_prefix_of(post.read_log@)
        &&& pre.read_log@.len() < post.read_log@.len() <= pre.read_log@.len() + (MAX_RETRY_COUNT
            + 1)
        &&& (forall|i: int|
            pre.read_log@.len() <= i < post.read_log@.len() - 1 ==> retryable_read(
                (#[trigger] post.read_log@[i]).outcome,
            ))
        &&& post.read_log@.last().outcome == o
        &&& (retryable_read(o) ==> post.read_log@.len() == pre.read_log@.len() + (MAX_RETRY_COUNT
            + 1))
    }

    /// What every single-item read operation did to the client: it sent one
    /// request holding exactly the given item under the old trusted version
    /// as freshness floor, handed that identical request to the transport on
    /// every attempt and to the engine with the response it produced, obeyed
    /// the retry discipline, installed exactly the accepted change, and
    /// touched nothing on any failed attempt.
    pub open spec fn single_item_read(pre: Self, post: Self, item: RequestItem) -> bool {
        &&& Self::trust_ratchet(pre, post)
        &&& Self::bounded_attempts(pre, post, post.read_log@.last().outcome)
        &&& post.last_ledger_request@ matches Some(q)
        &&& q.client_known_version == pre.trusted_state.version
        &&& q.requested_items@ =~= seq![item]
        &&& (forall|i: int|
            pre.read_log@.len() <= i < post.read_log@.len() ==> (
            #[trigger] post.read_log@[i]).request == q)
        &&& (post.read_log@.last().outcome matches Err(_) ==> post.trusted_state
            == pre.trusted_state && post.latest_epoch_change_li == pre.latest_epoch_change_li)
        &&& (post.read_log@.last().outcome matches Ok(resp) ==> ({
            &&& post.read_log@.last().change matches Some(change)
            &&& verify_accepts(pre.trusted_state, q, resp, change)
            &&& post.trusted_state == change.new_state()
            &&& post.latest_epoch_change_li == cert_after(pre.latest_epoch_change_li, change)
        }))
        &&& (post.read_log@.last().outcome matches Err(e) ==> (e is Transport
            || e is Verification))
    }

    /// Construct a client from its capabilities and an optional trust
    /// anchor. With a waypoint, trust starts anchored there; without one,
    /// the client starts in the explicitly unsafe trust-anything mode.
    pub fn new(
        client: T,
        engine: E,
        json_rpc_client: JsonRpcClient<J>,
        waypoint: Option<Waypoint>,
    ) -> (r: Result<Self, ClientError>)
        ensures
            ({
                &&& r matches Ok(c)
                &&& c.latest_epoch_change_li is None
                &&& c.read_log@ == Seq::<ReadAttempt>::empty()
                &&& c.last_ledger_request@ is None
                &&& (waypoint matches Some(w) ==> c.trusted_state.version == w.version
                    && c.trusted_state.epoch == 0 && c.trusted_state.validator_set_commitment
                    == w.value_hash)
                &&& (waypoint is None ==> c.trusted_state.version == 0 && c.trusted_state.epoch
                    == 0)
                &&& c.client == client
                &&& c.engine == engine
                &&& c.json_rpc_client == json_rpc_client
            }),
    {
        let initial_trusted_state = match waypoint {
            Some(waypoint) => TrustedState::from_waypoint(waypoint),
            None => TrustedState::new_trust_any_genesis_WARNING_UNSAFE(),
        };
        Ok(
            LibraClient {
                client,
                engine,
                json_rpc_client,
                trusted_state: initial_trusted_state,
                latest_epoch_change_li: None,
                read_log: Ghost(Seq::empty()),
                last_ledger_request: Ghost(None),
            },
        )
    }

    /// The retry classifier, shared by every read operation.
    fn need_to_retry<R>(try_cnt: u64, ret: &Result<R, ClientError>) -> (r: bool)
        ensures
            r == should_retry(try_cnt, *ret),
    {
        if try_cnt >= MAX_RETRY_COUNT {
            return false;
        }
        match ret {
            Err(e) => match e {
                ClientError::Transport(t) => t.code == TransportCode::Unavailable || t.code
                    == TransportCode::Unknown,
                _ => false,
            },
            _ => false,
        }
    }

    /// Install an accepted change: the trusted state always, the stored
    /// epoch-change certificate exactly on an Epoch change.
    fn apply_change(&mut self, change: TrustedStateChange)
        ensures
            final(self).trusted_state == change.new_state(),
            final(self).latest_epoch_change_li == cert_after(
                old(self).latest_epoch_change_li,
                change,
            ),
            final(self).client == old(self).client,
            final(self).engine == old(self).engine,
            final(self).json_rpc_client == old(self).json_rpc_client,
            final(self).read_log == old(self).read_log,
            final(self).last_ledger_request == old(self).last_ledger_request,
    {
        match change {
            TrustedStateChange::Epoch {
                new_state,
                latest_epoch_change_li,
                latest_validator_set: _,
            } => {
                self.trusted_state = new_state;
                self.latest_epoch_change_li = Some(latest_epoch_change_li);
            },
            TrustedStateChange::Version { new_state } => {
                self.trusted_state = new_state;
            },
        }
    }

    /// One read attempt: send the request, verify the response against the
    /// current trusted state and that exact request, and install the change.
    /// On any failure the stored trust is untouched.
    fn get_with_proof(&mut self, request: &UpdateToLatestLedgerRequest) -> (r: Result<
        UpdateToLatestLedgerResponse,
        ClientError,
    >)
        ensures
            final(self).read_log@ == old(self).read_log@.push(final(self).read_log@.last()),
            ({
                let attempt = final(self).read_log@.last();
                &&& attempt.request == *request
                &&& attempt.outcome == r
                &&& (r matches Ok(resp) ==> ({
                    &&& attempt.change matches Some(change)
                    &&& verify_accepts(old(self).trusted_state, *request, resp, change)
                    &&& final(self).trusted_state == change.new_state()
                    &&& final(self).latest_epoch_change_li == cert_after(
                        old(self).latest_epoch_change_li,
                        change,
                    )
                }))
                &&& (r is Err ==> attempt.change is None)
            }),
            r matches Ok(resp) ==> ({
                &&& final(self).trusted_state.version
                    == resp.ledger_info_with_sigs.ledger_info.version
                &&& old(self).trusted_state.version <= final(self).trusted_state.version
                &&& old(self).trusted_state.epoch <= final(self).trusted_state.epoch
                &&& (final(self).trusted_state.epoch > old(self).trusted_state.epoch
                    ==> final(self).latest_epoch_change_li is Some)
                &&& (final(self).trusted_state.epoch == old(self).trusted_state.epoch
                    ==> final(self).latest_epoch_change_li == old(self).latest_epoch_change_li)
            }),
            r matches Ok(resp) ==> resp.ledger_info_with_sigs.ledger_info.version >= old(
                self,
            ).trusted_state.version,
            r is Err ==> final(self).trusted_state == old(self).trusted_state
                && final(self).latest_epoch_change_li == old(self).latest_epoch_change_li,
            r matches Err(e) ==> (e is Transport || e is Verification),
            final(self).json_rpc_client == old(self).json_rpc_client,
            final(self).last_ledger_request == old(self).last_ledger_request,
    {
        let response = match self.client.update_to_latest_ledger(request) {
            Ok(response) => response,
            Err(te) => {
                let out = Err(ClientError::Transport(te));
                self.read_log = Ghost(
                    self.read_log@.push(
                        ReadAttempt { request: *request, outcome: out, change: None },
                    ),
                );
                return out;
            },
        };
        match self.engine.verify(&self.trusted_state, request, &response) {
            Ok(change) => {
                let ghost accepted = change;
                self.apply_change(change);
                let out = Ok(response);
                self.read_log = Ghost(
                    self.read_log@.push(
                        ReadAttempt { request: *request, outcome: out, change: Some(accepted) },
                    ),
                );
                out
            },
            Err(ve) => {
                let out = Err(ClientError::Verification(ve));
                self.read_log = Ghost(
                    self.read_log@.push(
                        ReadAttempt { request: *request, outcome: out, change: None },
                    ),
                );
                out
            },
        }
    }

    /// The read cycle with its retry discipline: repeat the whole attempt —
    /// send and verify — while the classifier asks for it.
    pub fn get_with_proof_sync(&mut self, requested_items: Vec<RequestItem>) -> (r: Result<
        UpdateToLatestLedgerResponse,
        ClientError,
    >)
        ensures
            Self::trust_ratchet(*old(self), *final(self)),
            Self::bounded_attempts(*old(self), *final(self), r),
            final(self).last_ledger_request@ matches Some(q) && q.client_known_version
                == old(self).trusted_state.version && q.requested_items == requested_items && (
            forall|i: int|
                old(self).read_log@.len() <= i < final(self).read_log@.len() ==> (
                #[trigger] final(self).read_log@[i]).request == q),
            r is Err ==> final(self).trusted_state == old(self).trusted_state
                && final(self).latest_epoch_change_li == old(self).latest_epoch_change_li,
            r matches Ok(resp) ==> ({
                &&& final(self).read_log@.last().change matches Some(change)
                &&& verify_accepts(
                    old(self).trusted_state,
                    final(self).last_ledger_request@.unwrap(),
                    resp,
                    change,
                )
                &&& final(self).trusted_state == change.new_state()
                &&& final(self).latest_epoch_change_li == cert_after(
                    old(self).latest_epoch_change_li,
                    change,
                )
            }),
            r matches Ok(resp) ==> resp.ledger_info_with_sigs.ledger_info.version >= old(
                self,
            ).trusted_state.version,
            r matches Err(e) ==> (e is Transport || e is Verification),
    {
        let request = UpdateToLatestLedgerRequest::new(
            self.trusted_state.latest_version(),
            requested_items,
        );
        self.last_ledger_request = Ghost(Some(request));
        let ghost log0 = self.read_log@;
        let ghost state0 = self.trusted_state;
        let ghost cert0 = self.latest_epoch_change_li;
        let ghost json0 = self.json_rpc_client;
        let ghost lreq0 = self.last_ledger_request;

        let mut response = self.get_with_proof(&request);
        let mut try_cnt: u64 = 0;
        let mut retry = Self::need_to_retry(try_cnt, &response);
        while retry
            invariant
                retry == should_retry(try_cnt, response),
                try_cnt <= MAX_RETRY_COUNT,
                self.read_log@.len() == log0.len() + try_cnt + 1,
                log0.is_prefix_of(self.read_log@),
                forall|i: int|
                    log0.len() <= i < self.read_log@.len() - 1 ==> retryable_read(
                        (#[trigger] self.read_log@[i]).outcome,
                    ),
                forall|i: int|
                    log0.len() <= i < self.read_log@.len() ==> (
                    #[trigger] self.read_log@[i]).request == request,
                self.read_log@.last().outcome == response,
                response is Err ==> self.trusted_state == state0 && self.latest_epoch_change_li
                    == cert0,
                state0.version <= self.trusted_state.version,
                state0.epoch <= self.trusted_state.epoch,
                response matches Ok(rr) ==> self.trusted_state.version
                    == rr.ledger_info_with_sigs.ledger_info.version,
                response matches Ok(rr) ==> ({
                    &&& self.read_log@.last().change matches Some(change)
                    &&& verify_accepts(state0, request, rr, change)
                    &&& self.trusted_state == change.new_state()
                    &&& self.latest_epoch_change_li == cert_after(cert0, change)
                }),
                self.trusted_state.epoch > state0.epoch ==> self.latest_epoch_change_li is Some,
                self.trusted_state.epoch == state0.epoch ==> self.latest_epoch_change_li == cert0,
                response matches Err(e) ==> (e is Transport || e is Verification),
                self.json_rpc_client == json0,
                self.last_ledger_request == lreq0,
            decreases MAX_RETRY_COUNT - try_cnt,
        {
            response = self.get_with_proof(&request);
            try_cnt = try_cnt + 1;
            retry = Self::need_to_retry(try_cnt, &response);
        }
        response
    }

    /// Submit a transaction and, exactly when the service acknowledges it,
    /// bump the sender record's sequence number by one. Pass `None` for the
    /// sender record if the sender's address is not managed by the caller.
    /// Success is a `null` result payload; any other payload, a reported
    /// error, or a send that kept failing is surfaced and leaves the record
    /// untouched.
    pub fn submit_transaction(
        &mut self,
        sender_account_opt: &mut Option<AccountData>,
        transaction: SignedTransaction,
    ) -> (r: Result<(), ClientError>)
        requires
            *old(sender_account_opt) matches Some(a) ==> a.sequence_number < u64::MAX,
        ensures
            ({
                &&& final(self).json_rpc_client.last_request@ matches Some(q)
                &&& q.method@ == "submit"@
                &&& q.params@.len() == 1
                &&& q.params@[0]@ == hex_of(transaction.canonical_bytes@)
                &&& q.jsonrpc@ == protocol_tag()
                &&& final(self).json_rpc_client.last_reply@ matches Some(t)
                &&& (t matches Err(te) ==> r == Err::<(), ClientError>(ClientError::Transport(te)))
                &&& (t matches Ok(reply) ==> r == submit_outcome(validate_reply_spec(reply, q.id)))
            }),
            r is Ok ==> (*old(sender_account_opt) matches Some(a) ==> *final(sender_account_opt)
                == Some(
                (AccountData {
                    address: a.address,
                    sequence_number: (a.sequence_number + 1) as u64,
                }),
            )),
            r is Ok ==> (*old(sender_account_opt) is None ==> *final(sender_account_opt) is None),
            r is Err ==> *final(sender_account_opt) == *old(sender_account_opt),
            final(self).trusted_state == old(self).trusted_state,
            final(self).latest_epoch_change_li == old(self).latest_epoch_change_li,
            final(self).read_log == old(self).read_log,
            final(self).last_ledger_request == old(self).last_ledger_request,
            old(self).json_rpc_client.send_log@.is_prefix_of(
                final(self).json_rpc_client.send_log@,
            ),
            old(self).json_rpc_client.send_log@.len() < final(self).json_rpc_client.send_log@.len()
                <= old(self).json_rpc_client.send_log@.len() + (MAX_RETRY_COUNT + 1),
            forall|i: int|
                old(self).json_rpc_client.send_log@.len() <= i
                    < final(self).json_rpc_client.send_log@.len()
                    ==> (#[trigger] final(self).json_rpc_client.send_log@[i]).request
                    == final(self).json_rpc_client.last_request@.unwrap(),
            forall|i: int|
                old(self).json_rpc_client.send_log@.len() <= i
                    < final(self).json_rpc_client.send_log@.len() - 1
                    ==> (#[trigger] final(self).json_rpc_client.send_log@[i]).outcome is Err,
            (r matches Err(e) && e is Transport) ==> final(self).json_rpc_client.send_log@.len()
                == old(self).json_rpc_client.send_log@.len() + (MAX_RETRY_COUNT + 1),
    {
        let payload = encode_hex_lower(&transaction.canonical_bytes);
        let mut params: Vec<String> = Vec::new();
        params.push(payload);

        match self.json_rpc_client.send_libra_request("submit".to_owned(), params) {
            Ok(result) => {
                if result.is_null() {
                    match sender_account_opt {
                        Some(sender_account) => {
                            // Bump up sequence_number if transaction is accepted.
                            sender_account.sequence_number = sender_account.sequence_number + 1;
                        },
                        None => {},
                    }
                    Ok(())
                } else {
                    Err(ClientError::Application(result))
                }
            },
            Err(e) => Err(e),
        }
    }

    /// Get the latest proven sequence number of the account, an account the
    /// ledger proves absent counting as zero.
    pub fn get_sequence_number(&mut self, address: AccountAddress) -> (r: Result<u64, ClientError>)
        ensures
            Self::single_item_read(
                *old(self),
                *final(self),
                (RequestItem::GetAccountState { address }),
            ),
            r == sequence_number_result(final(self).read_log@.last().outcome),
    {
        match self.get_account_blob(address) {
            Err(e) => Err(e),
            Ok((blob_opt, _version)) => match blob_opt {
                None => Ok(0),
                Some(blob) => match blob.account_resource() {
                    None => Err(
                        ClientError::Protocol(ProtocolViolation::UndecodableAccountResource),
                    ),
                    Some(resource) => Ok(resource.sequence_number()),
                },
            },
        }
    }

    /// Get the latest account state blob, or its proven absence, together
    /// with the ledger version it was proven against.
    pub fn get_account_blob(&mut self, address: AccountAddress) -> (r: Result<
        (Option<AccountStateBlob>, Version),
        ClientError,
    >)
        ensures
            Self::single_item_read(
                *old(self),
                *final(self),
                (RequestItem::GetAccountState { address }),
            ),
            r == account_blob_result(final(self).read_log@.last().outcome),
    {
        let req_item = RequestItem::GetAccountState { address };
        let mut items: Vec<RequestItem> = Vec::new();
        items.push(req_item);

        let mut response = match self.get_with_proof_sync(items) {
            Ok(response) => response,
            Err(e) => {
                return Err(e);
            },
        };
        if response.response_items.len() == 0 {
            return Err(ClientError::Protocol(ProtocolViolation::MissingResponseItem));
        }
        let item = response.response_items.remove(0);
        match item.into_get_account_state_response() {
            Ok(account_state_with_proof) => Ok(
                (
                    account_state_with_proof.blob,
                    response.ledger_info_with_sigs.ledger_info().version(),
                ),
            ),
            Err(e) => Err(e),
        }
    }

    /// Get the transaction the account committed under the sequence number,
    /// if any, optionally with the events it emitted.
    pub fn get_txn_by_acc_seq(
        &mut self,
        account: AccountAddress,
        sequence_number: u64,
        fetch_events: bool,
    ) -> (r: Result<Option<(Transaction, Option<Vec<ContractEvent>>)>, ClientError>)
        ensures
            Self::single_item_read(
                *old(self),
                *final(self),
                (RequestItem::GetAccountTransactionBySequenceNumber {
                    account,
                    sequence_number,
                    fetch_events,
                }),
            ),
            r == txn_by_seq_result(final(self).read_log@.last().outcome),
    {
        let req_item = RequestItem::GetAccountTransactionBySequenceNumber {
            account,
            sequence_number,
            fetch_events,
        };
        let mut items: Vec<RequestItem> = Vec::new();
        items.push(req_item);

        let mut response = match self.get_with_proof_sync(items) {
            Ok(response) => response,
            Err(e) => {
                return Err(e);
            },
        };
        if response.response_items.len() == 0 {
            return Err(ClientError::Protocol(ProtocolViolation::MissingResponseItem));
        }
        let item = response.response_items.remove(0);
        match item.into_get_account_txn_by_seq_num_response() {
            Ok((txn_with_proof, _)) => match txn_with_proof {
                Some(t) => Ok(Some((t.transaction, t.events))),
                None => Ok(None),
            },
            Err(e) => Err(e),
        }
    }

    /// Get the transactions at versions `start_version` up to
    /// `start_version + limit` (exclusive), each paired positionally with
    /// its events — or with the absent-events marker when the service
    /// omitted events.
    pub fn get_txn_by_range(
        &mut self,
        start_version: Version,
        limit: u64,
        fetch_events: bool,
    ) -> (r: Result<Vec<(Transaction, Option<Vec<ContractEvent>>)>, ClientError>)
        ensures
            Self::single_item_read(
                *old(self),
                *final(self),
                (RequestItem::GetTransactions { start_version, limit, fetch_events }),
            ),
            txn_range_result(final(self).read_log@.last().outcome, r),
    {
        let req_item = RequestItem::GetTransactions { start_version, limit, fetch_events };
        let mut items: Vec<RequestItem> = Vec::new();
        items.push(req_item);

        let mut response = match self.get_with_proof_sync(items) {
            Ok(response) => response,
            Err(e) => {
                return Err(e);
            },
        };
        if response.response_items.len() == 0 {
            return Err(ClientError::Protocol(ProtocolViolation::MissingResponseItem));
        }
        let item = response.response_items.remove(0);
        match item.into_get_transactions_response() {
            Ok(txn_list_with_proof) => pair_transactions_with_events(
                txn_list_with_proof.transactions,
                txn_list_with_proof.events,
            ),
            Err(e) => Err(e),
        }
    }

    /// Get events by access path, and always the proof of the account's
    /// latest event-count state, which tells a caller whether fewer results
    /// than the limit mean the stream is exhausted.
    pub fn get_events_by_access_path(
        &mut self,
        access_path: AccessPath,
        start_event_seq_num: u64,
        ascending: bool,
        limit: u64,
    ) -> (r: Result<(Vec<EventWithProof>, AccountStateWithProof), ClientError>)
        ensures
            Self::single_item_read(
                *old(self),
                *final(self),
                (RequestItem::GetEventsByEventAccessPath {
                    access_path,
                    start_event_seq_num,
                    ascending,
                    limit,
                }),
            ),
            events_result(final(self).read_log@.last().outcome, r),
    {
        let req_item = RequestItem::GetEventsByEventAccessPath {
            access_path,
            start_event_seq_num,
            ascending,
            limit,
        };
        let mut items: Vec<RequestItem> = Vec::new();
        items.push(req_item);

        let mut response = match self.get_with_proof_sync(items) {
            Ok(response) => response,
            Err(e) => {
                return Err(e);
            },
        };
        if response.response_items.len() == 0 {
            return Err(ClientError::Protocol(ProtocolViolation::MissingResponseItem));
        }
        let value_with_proof = response.response_items.remove(0);
        match value_with_proof {
            ResponseItem::GetEventsByEventAccessPath {
                events_with_proof,
                proof_of_latest_event,
            } => Ok((events_with_proof, proof_of_latest_event)),
            _ => Err(ClientError::Protocol(ProtocolViolation::WrongResponseVariant)),
        }
    }

    /// LedgerInfo corresponding to the latest epoch change.
    pub fn latest_epoch_change_li(&self) -> (r: Option<&LedgerInfoWithSignatures>)
        ensures
            match r {
                Some(li) => self.latest_epoch_change_li == Some(*li),
                None => self.latest_epoch_change_li is None,
            },
    {
        self.latest_epoch_change_li.as_ref()
    }
}

/// Monotonic trust, first half: an accepted verification never moves the
/// trusted version or epoch backward, so across any run of accepted changes
/// both are non-decreasing.
pub proof fn lemma_monotonic_trust(
    state: TrustedState,
    request: UpdateToLatestLedgerRequest,
    response: UpdateToLatestLedgerResponse,
    change: TrustedStateChange,
)
    requires
        verify_accepts(state, request, response, change),
    ensures
        state.version <= change.new_state().version,
        state.epoch <= change.new_state().epoch,
{
}

/// The trust ratchet composes: across any sequence of operations, each of
/// which ratchets, the stored trusted version and epoch are non-decreasing
/// end to end, and the certificate still moves only with the epoch.
pub proof fn lemma_trust_ratchet_transitive<
    T: LedgerTransport,
    E: VerificationEngine,
    J: JsonRpcTransport,
>(a: LibraClient<T, E, J>, b: LibraClient<T, E, J>, c: LibraClient<T, E, J>)
    requires
        LibraClient::trust_ratchet(a, b),
        LibraClient::trust_ratchet(b, c),
    ensures
        LibraClient::trust_ratchet(a, c),
{
}

/// Monotonic trust, second half: a response whose certified version lies
/// strictly below the current trusted version is never accepted, whatever
/// change might be claimed for it.
pub proof fn lemma_stale_response_rejected(
    state: TrustedState,
    request: UpdateToLatestLedgerRequest,
    response: UpdateToLatestLedgerResponse,
    change: TrustedStateChange,
)
    requires
        response.ledger_info_with_sigs.ledger_info.version < state.version,
    ensures
        !verify_accepts(state, request, response, change),
{
}

/// Epoch transitions propagate the certificate: an Epoch change stores its
/// own certificate, and a Version change right after leaves the stored
/// certificate exactly as the Epoch change left it.
pub proof fn lemma_epoch_certificate_propagation(
    cert: Option<LedgerInfoWithSignatures>,
    epoch_change: TrustedStateChange,
    version_change: TrustedStateChange,
)
    requires
        epoch_change is Epoch,
        version_change is Version,
    ensures
        epoch_change matches TrustedStateChange::Epoch { latest_epoch_change_li, .. }
            ==> cert_after(cert, epoch_change) == Some(latest_epoch_change_li),
        cert_after(cert_after(cert, epoch_change), version_change) == cert_after(
            cert,
            epoch_change,
        ),
{
}

/// Bounded retry: a read cycle that surfaces a retryable transport failure
/// made exactly three attempts — one plus the retry cap — every one of
/// which failed with a retryable condition.
pub proof fn lemma_bounded_retry<
    T: LedgerTransport,
    E: VerificationEngine,
    J: JsonRpcTransport,
>(
    pre: LibraClient<T, E, J>,
    post: LibraClient<T, E, J>,
    o: Result<UpdateToLatestLedgerResponse, ClientError>,
)
    requires
        LibraClient::bounded_attempts(pre, post, o),
        retryable_read(o),
    ensures
        post.read_log@.len() == pre.read_log@.len() + (MAX_RETRY_COUNT + 1),
        forall|i: int|
            pre.read_log@.len() <= i < post.read_log@.len() ==> retryable_read(
                (#[trigger] post.read_log@[i]).outcome,
            ),
{
    assert forall|i: int|
        pre.read_log@.len() <= i < post.read_log@.len() implies retryable_read(
        (#[trigger] post.read_log@[i]).outcome,
    ) by {
        if i == post.read_log@.len() - 1 {
            assert(post.read_log@[i] == post.read_log@.last());
        }
    }
}

/// Retry non-escalation: when the first attempt of a read cycle fails with
/// a non-retryable condition, there is no second one — the cycle made
/// exactly one attempt and surfaced that attempt's outcome.
pub proof fn lemma_retry_non_escalation<
    T: LedgerTransport,
    E: VerificationEngine,
    J: JsonRpcTransport,
>(
    pre: LibraClient<T, E, J>,
    post: LibraClient<T, E, J>,
    o: Result<UpdateToLatestLedgerResponse, ClientError>,
)
    requires
        LibraClient::bounded_attempts(pre, post, o),
        !retryable_read(post.read_log@[pre.read_log@.len() as int].outcome),
    ensures
        post.read_log@.len() == pre.read_log@.len() + 1,
        o == post.read_log@[pre.read_log@.len() as int].outcome,
{
    if post.read_log@.len() > pre.read_log@.len() + 1 {
        assert(retryable_read(post.read_log@[pre.read_log@.len() as int].outcome));
    }
    assert(post.read_log@.last() == post.read_log@[post.read_log@.len() - 1]);
}

} // verus!
