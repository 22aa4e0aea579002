//! Request and response items for the verified read path.
//!
//! A request names the items it asks for and carries the client's current
//! trusted version as a freshness floor. A response answers item by item and
//! adds a ledger-info certificate for the node's latest committed state.
//! Every read operation sends exactly one item and expects the one response
//! variant of the same kind; anything else is a fail-fast protocol error.

use vstd::prelude::*;
use crate::errors::{ClientError, ProtocolViolation};
use crate::types::{
    AccessPath, AccountAddress, AccountStateWithProof, ContractEvent, EventWithProof,
    LedgerInfoWithSignatures, Transaction, TransactionListWithProof, TransactionWithProof,
    Version,
};

verus! {

/// One query to the ledger service.
#[derive(Clone, Debug, PartialEq)]
pub enum RequestItem {
    GetAccountState {
        address: AccountAddress,
    },
    GetAccountTransactionBySequenceNumber {
        account: AccountAddress,
        sequence_number: u64,
        fetch_events: bool,
    },
    GetTransactions {
        start_version: Version,
        limit: u64,
        fetch_events: bool,
    },
    GetEventsByEventAccessPath {
        access_path: AccessPath,
        start_event_seq_num: u64,
        ascending: bool,
        limit: u64,
    },
}

/// The answer to one request item, tagged with the same kind.
#[derive(Clone, Debug, PartialEq)]
pub enum ResponseItem {
    GetAccountState {
        account_state_with_proof: AccountStateWithProof,
    },
    GetAccountTransactionBySequenceNumber {
        transaction_with_proof: Option<TransactionWithProof>,
        proof_of_current_sequence_number: Option<AccountStateWithProof>,
    },
    GetTransactions {
        txn_list_with_proof: TransactionListWithProof,
    },
    GetEventsByEventAccessPath {
        events_with_proof: Vec<EventWithProof>,
        proof_of_latest_event: AccountStateWithProof,
    },
}

impl ResponseItem {
    /// Unwrap an account-state response item; any other variant is a
    /// protocol error.
    pub fn into_get_account_state_response(self) -> (r: Result<
        AccountStateWithProof,
        ClientError,
    >)
        ensures
            self matches ResponseItem::GetAccountState { account_state_with_proof } ==> r
                == Ok::<AccountStateWithProof, ClientError>(account_state_with_proof),
            !(self is GetAccountState) ==> r == Err::<AccountStateWithProof, ClientError>(
                ClientError::Protocol(ProtocolViolation::WrongResponseVariant),
            ),
    {
        match self {
            ResponseItem::GetAccountState { account_state_with_proof } => Ok(
                account_state_with_proof,
            ),
            _ => Err(ClientError::Protocol(ProtocolViolation::WrongResponseVariant)),
        }
    }

    /// Unwrap an account-transaction response item; any other variant is a
    /// protocol error.
    pub fn into_get_account_txn_by_seq_num_response(self) -> (r: Result<
        (Option<TransactionWithProof>, Option<AccountStateWithProof>),
        ClientError,
    >)
        ensures
            self matches ResponseItem::GetAccountTransactionBySequenceNumber {
                transaction_with_proof,
                proof_of_current_sequence_number,
            } ==> r == Ok::<_, ClientError>(
                (transaction_with_proof, proof_of_current_sequence_number),
            ),
            !(self is GetAccountTransactionBySequenceNumber) ==> (r matches Err(e) && e
                == ClientError::Protocol(ProtocolViolation::WrongResponseVariant)),
    {
        match self {
            ResponseItem::GetAccountTransactionBySequenceNumber {
                transaction_with_proof,
                proof_of_current_sequence_number,
            } => Ok((transaction_with_proof, proof_of_current_sequence_number)),
            _ => Err(ClientError::Protocol(ProtocolViolation::WrongResponseVariant)),
        }
    }

    /// Unwrap a transaction-list response item; any other variant is a
    /// protocol error.
    pub fn into_get_transactions_response(self) -> (r: Result<
        TransactionListWithProof,
        ClientError,
    >)
        ensures
            self matches ResponseItem::GetTransactions { txn_list_with_proof } ==> r == Ok::<
                _,
                ClientError,
            >(txn_list_with_proof),
            !(self is GetTransactions) ==> (r matches Err(e) && e == ClientError::Protocol(
                ProtocolViolation::WrongResponseVariant,
            )),
    {
        match self {
            ResponseItem::GetTransactions { txn_list_with_proof } => Ok(txn_list_with_proof),
            _ => Err(ClientError::Protocol(ProtocolViolation::WrongResponseVariant)),
        }
    }
}

/// Whether one response item is an answer to one request item: the kinds
/// must correspond one to one.
pub open spec fn item_answers(req: RequestItem, resp: ResponseItem) -> bool {
    match req {
        RequestItem::GetAccountState { .. } => resp is GetAccountState,
        RequestItem::GetAccountTransactionBySequenceNumber { .. } => resp
            is GetAccountTransactionBySequenceNumber,
        RequestItem::GetTransactions { .. } => resp is GetTransactions,
        RequestItem::GetEventsByEventAccessPath { .. } => resp is GetEventsByEventAccessPath,
    }
}

/// A read request: the freshness floor and the requested items.
#[derive(Clone, Debug, PartialEq)]
pub struct UpdateToLatestLedgerRequest {
    pub client_known_version: Version,
    pub requested_items: Vec<RequestItem>,
}

impl UpdateToLatestLedgerRequest {
    pub fn new(client_known_version: Version, requested_items: Vec<RequestItem>) -> (r: Self)
        ensures
            r.client_known_version == client_known_version,
            r.requested_items == requested_items,
    {
        UpdateToLatestLedgerRequest { client_known_version, requested_items }
    }
}

/// A read response: one item per request item, and the certificate for the
/// node's latest committed state.
#[derive(Clone, Debug, PartialEq)]
pub struct UpdateToLatestLedgerResponse {
    pub response_items: Vec<ResponseItem>,
    pub ledger_info_with_sigs: LedgerInfoWithSignatures,
}

/// What pairing a transaction run with its event lists must yield: with an
/// event list of matching length, positional pairs; with none, every
/// transaction paired with the absent-events marker; an unequal length is a
/// protocol error.
pub open spec fn paired_with_events(
    txns: Seq<Transaction>,
    events: Option<Vec<Vec<ContractEvent>>>,
    r: Result<Vec<(Transaction, Option<Vec<ContractEvent>>)>, ClientError>,
) -> bool {
    match events {
        Some(ev) => {
            if ev@.len() != txns.len() {
                r == Err::<Vec<(Transaction, Option<Vec<ContractEvent>>)>, ClientError>(
                    ClientError::Protocol(ProtocolViolation::EventCountMismatch),
                )
            } else {
                r matches Ok(pairs) && pairs@.len() == txns.len() && (forall|i: int|
                    0 <= i < txns.len() ==> #[trigger] pairs@[i] == (
                        txns[i],
                        Some(ev@[i]),
                    ))
            }
        },
        None => r matches Ok(pairs) && pairs@.len() == txns.len() && (forall|i: int|
            0 <= i < txns.len() ==> #[trigger] pairs@[i] == (
                txns[i],
                None::<Vec<ContractEvent>>,
            )),
    }
}

/// Pair each transaction with its event list by position. If the service
/// omitted events, pair each transaction with the absent marker instead of
/// failing; if it sent a list of a different length, fail fast.
pub fn pair_transactions_with_events(
    txns: Vec<Transaction>,
    events: Option<Vec<Vec<ContractEvent>>>,
) -> (r: Result<Vec<(Transaction, Option<Vec<ContractEvent>>)>, ClientError>)
    ensures
        paired_with_events(txns@, events, r),
{
    let ghost txns0 = txns@;
    let mut txns = txns;
    let mut pairs: Vec<(Transaction, Option<Vec<ContractEvent>>)> = Vec::new();
    match events {
        Some(ev) => {
            if ev.len() != txns.len() {
                return Err(ClientError::Protocol(ProtocolViolation::EventCountMismatch));
            }
            let ghost ev0 = ev;
            let mut ev = ev;
            while txns.len() > 0
                invariant
                    txns@ == txns0.skip(pairs@.len() as int),
                    ev@ == ev0@.skip(pairs@.len() as int),
                    ev0@.len() == txns0.len(),
                    pairs@.len() <= txns0.len(),
                    forall|i: int|
                        0 <= i < pairs@.len() ==> #[trigger] pairs@[i] == (
                            txns0[i],
                            Some(ev0@[i]),
                        ),
                decreases txns@.len(),
            {
                let t = txns.remove(0);
                let e = ev.remove(0);
                proof {
                    assert(t == txns0[pairs@.len() as int]);
                    assert(e == ev0@[pairs@.len() as int]);
                }
                pairs.push((t, Some(e)));
            }
            Ok(pairs)
        },
        None => {
            while txns.len() > 0
                invariant
                    txns@ == txns0.skip(pairs@.len() as int),
                    pairs@.len() <= txns0.len(),
                    forall|i: int|
                        0 <= i < pairs@.len() ==> #[trigger] pairs@[i] == (
                            txns0[i],
                            None::<Vec<ContractEvent>>,
                        ),
                decreases txns@.len(),
            {
                let t = txns.remove(0);
                pairs.push((t, None));
            }
            Ok(pairs)
        },
    }
}

} // verus!
