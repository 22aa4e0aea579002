//! The ledger data model, as plain values.
//!
//! The client never looks inside cryptographic material: hashes, signatures
//! and proofs are carried as opaque bytes for the verification engine to
//! consume. What the client itself reads — versions, epochs, sequence
//! numbers, transaction payloads, events — is held as plain data so that
//! every decision over it can be stated and proved.

use vstd::prelude::*;

verus! {

/// A ledger version: the index of a committed transaction.
pub type Version = u64;

/// A 16-byte-style account identifier, held as plain bytes.
#[derive(Clone, Debug, PartialEq)]
pub struct AccountAddress {
    pub bytes: Vec<u8>,
}

/// A path naming one resource or event stream under an account.
#[derive(Clone, Debug, PartialEq)]
pub struct AccessPath {
    pub address: AccountAddress,
    pub path: Vec<u8>,
}

/// An externally supplied trust anchor: a ledger version together with a
/// hash commitment to the state at that version. Parsing its textual form
/// is the caller's concern; the client receives it as a value.
#[derive(Clone, Debug, PartialEq)]
pub struct Waypoint {
    pub version: Version,
    pub value_hash: Vec<u8>,
}

/// The metadata of a certified ledger state: the version up to which the
/// ledger is committed and the epoch whose validator set certified it.
#[derive(Clone, Debug, PartialEq)]
pub struct LedgerInfo {
    pub version: Version,
    pub epoch: u64,
}

impl LedgerInfo {
    pub fn version(&self) -> (r: Version)
        ensures
            r == self.version,
    {
        self.version
    }

    pub fn epoch(&self) -> (r: u64)
        ensures
            r == self.epoch,
    {
        self.epoch
    }
}

/// A ledger-info certificate: the metadata plus the validator signatures
/// over it, opaque to the client and checked by the verification engine.
#[derive(Clone, Debug, PartialEq)]
pub struct LedgerInfoWithSignatures {
    pub ledger_info: LedgerInfo,
    pub signatures: Vec<u8>,
}

impl LedgerInfoWithSignatures {
    pub fn ledger_info(&self) -> (r: &LedgerInfo)
        ensures
            r == self.ledger_info,
    {
        &self.ledger_info
    }
}

/// The client's verified belief about the ledger: a version up to which
/// responses have been verified, the epoch whose validator set is current,
/// and a commitment to the material that validates future proofs. Replaced
/// wholesale on each successful verification, never mutated in place.
#[derive(Clone, Debug, PartialEq)]
pub struct TrustedState {
    pub version: Version,
    pub epoch: u64,
    pub validator_set_commitment: Vec<u8>,
}

impl TrustedState {
    /// Anchor trust at an externally supplied waypoint.
    pub fn from_waypoint(waypoint: Waypoint) -> (r: Self)
        ensures
            r.version == waypoint.version,
            r.epoch == 0,
            r.validator_set_commitment == waypoint.value_hash,
    {
        TrustedState {
            version: waypoint.version,
            epoch: 0,
            validator_set_commitment: waypoint.value_hash,
        }
    }

    /// Start with no trust anchor at all: the first response ever seen is
    /// believed. Unsafe against a malicious first responder, hence the loud
    /// name; reachable only by explicit opt-in.
    #[allow(non_snake_case)]
    pub fn new_trust_any_genesis_WARNING_UNSAFE() -> (r: Self)
        ensures
            r.version == 0,
            r.epoch == 0,
            r.validator_set_commitment@ == Seq::<u8>::empty(),
    {
        TrustedState { version: 0, epoch: 0, validator_set_commitment: Vec::new() }
    }

    /// The latest version this state has verified: the freshness floor sent
    /// with every request.
    pub fn latest_version(&self) -> (r: Version)
        ensures
            r == self.version,
    {
        self.version
    }
}

/// A committed transaction, as the ledger returns it; its payload is opaque
/// to the client.
#[derive(Clone, Debug, PartialEq)]
pub struct Transaction {
    pub bytes: Vec<u8>,
}

/// A transaction ready for submission, carrying its canonical serialized
/// form. Signing and serialization happen in the caller's key-management
/// layer; the client only forwards the bytes.
#[derive(Clone, Debug, PartialEq)]
pub struct SignedTransaction {
    pub canonical_bytes: Vec<u8>,
}

/// One event emitted by a committed transaction.
#[derive(Clone, Debug, PartialEq)]
pub struct ContractEvent {
    pub sequence_number: u64,
    pub data: Vec<u8>,
}

/// An event together with the proof that places it on the ledger.
#[derive(Clone, Debug, PartialEq)]
pub struct EventWithProof {
    pub transaction_version: Version,
    pub event_index: u64,
    pub event: ContractEvent,
    pub proof_bytes: Vec<u8>,
}

/// The resource a blob stores for an account, reduced to the field the
/// client reads.
#[derive(Clone, Copy, Debug, PartialEq, Eq, Structural)]
pub struct AccountResource {
    pub sequence_number: u64,
}

impl AccountResource {
    pub fn sequence_number(&self) -> (r: u64)
        ensures
            r == self.sequence_number,
    {
        self.sequence_number
    }
}

/// An account state blob, as the decoder sees it: either it contains an
/// account resource or no resource can be read from it.
#[derive(Clone, Debug, PartialEq)]
pub struct AccountStateBlob {
    pub resource: Option<AccountResource>,
}

impl AccountStateBlob {
    /// The account resource embedded in this blob, if one can be decoded.
    pub fn account_resource(&self) -> (r: Option<AccountResource>)
        ensures
            r == self.resource,
    {
        self.resource
    }
}

/// An account's state blob (or its proven absence) at a version, with proof.
#[derive(Clone, Debug, PartialEq)]
pub struct AccountStateWithProof {
    pub version: Version,
    pub blob: Option<AccountStateBlob>,
    pub proof_bytes: Vec<u8>,
}

/// A transaction at a version, optionally with the events it emitted, with
/// proof.
#[derive(Clone, Debug, PartialEq)]
pub struct TransactionWithProof {
    pub version: Version,
    pub transaction: Transaction,
    pub events: Option<Vec<ContractEvent>>,
    pub proof_bytes: Vec<u8>,
}

/// A consecutive run of transactions, optionally with one event list per
/// transaction, with proof.
#[derive(Clone, Debug, PartialEq)]
pub struct TransactionListWithProof {
    pub transactions: Vec<Transaction>,
    pub events: Option<Vec<Vec<ContractEvent>>>,
    pub proof_bytes: Vec<u8>,
}

/// The caller-owned record of a sender account. A successful, acknowledged
/// submission bumps its sequence number by exactly one; nothing else ever
/// touches it.
#[derive(Clone, Debug, PartialEq)]
pub struct AccountData {
    pub address: AccountAddress,
    pub sequence_number: u64,
}

} // verus!
