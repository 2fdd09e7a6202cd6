use vstd::prelude::*;
use vstd::string::*;

use crate::block_ingestor::BlockInfo;
use crate::data_availability::HasBlockNumber;
use crate::felt::{felt_from_hex, felt_hex_value, Felt};
use crate::text::text_eq;

verus! {

/// L2→L1 message emitted by a contract execution.
#[derive(Debug, Clone)]
pub struct L2ToL1Message {
    pub from_address: Felt,
    pub to_address: Felt,
    pub payload: Vec<Felt>,
}

/// L1→L2 message derived from an L1Handler transaction.
#[derive(Debug, Clone)]
pub struct L1ToL2Message {
    pub from_address: Felt,
    pub to_address: Felt,
    pub selector: Felt,
    pub payload: Vec<Felt>,
    pub nonce: Felt,
}

/// Attestation data fetched from a Katana rollup node for a batch of blocks.
///
/// The blocks are threaded through the entire TEE pipeline so that downstream stages retain
/// access to the attested block range.
#[derive(Debug, Clone)]
pub struct TeeAttestation {
    /// Database batch id for persistence tracking.
    pub batch_id: i64,
    /// The ordered batch of blocks covered by this attestation.
    pub blocks: Vec<BlockInfo>,
    /// Raw attestation bytes returned by Katana (hex-encoded AMD SEV-SNP quote).
    pub quote: String,
    pub prev_state_root: String,
    pub state_root: String,
    pub prev_block_hash: String,
    pub block_hash: String,
    pub prev_block_number: Felt,
    pub block_number: Felt,
    /// Poseidon commitment over all L1↔L2 messages in the attested block range.
    pub messages_commitment: Felt,
    /// All L2→L1 messages emitted in the attested block range.
    pub l2_to_l1_messages: Vec<L2ToL1Message>,
    /// All L1→L2 messages processed in the attested block range.
    pub l1_to_l2_messages: Vec<L1ToL2Message>,
}

/// A proof produced by the TEE proving service for a batch of blocks, carrying the block state
/// fields needed to settle it.
#[derive(Debug, Clone)]
pub struct TeeProof {
    /// Database batch id for persistence tracking.
    pub batch_id: i64,
    /// Ordered batch of blocks covered by this proof.
    pub blocks: Vec<BlockInfo>,
    /// Encoded proof returned by the TEE proving service.
    pub data: Vec<u8>,
    pub prev_state_root: Felt,
    pub state_root: Felt,
    pub prev_block_hash: Felt,
    pub block_hash: Felt,
    pub prev_block_number: Felt,
    pub block_number: Felt,
    /// Poseidon commitment over all L1↔L2 messages in the attested block range.
    pub messages_commitment: Felt,
    /// All L2→L1 messages emitted in the attested block range.
    pub l2_to_l1_messages: Vec<L2ToL1Message>,
    /// All L1→L2 messages processed in the attested block range.
    pub l1_to_l2_messages: Vec<L1ToL2Message>,
}

impl HasBlockNumber for TeeAttestation {
    /// An attestation covers a non-empty batch.
    open spec fn has_block_number(&self) -> bool {
        self.blocks@.len() > 0
    }

    /// The number of the last block of the batch, by which attestations are ordered.
    fn block_number(&self) -> (r: u64)
        ensures
            r == self.blocks@.last().number,
    {
        self.blocks[self.blocks.len() - 1].number
    }

    /// Whether the batch holds a block.
    fn carries_block_number(&self) -> (r: bool) {
        self.blocks.len() > 0
    }
}

impl HasBlockNumber for TeeProof {
    /// A proof covers a non-empty batch.
    open spec fn has_block_number(&self) -> bool {
        self.blocks@.len() > 0
    }

    /// The number of the last block of the batch, by which proofs are ordered.
    fn block_number(&self) -> (r: u64)
        ensures
            r == self.blocks@.last().number,
    {
        self.blocks[self.blocks.len() - 1].number
    }

    /// Whether the batch holds a block.
    fn carries_block_number(&self) -> (r: bool) {
        self.blocks.len() > 0
    }
}

/// The value of a hex-encoded felt, or zero when it does not parse.
pub open spec fn hex_felt_or_zero(s: Seq<char>) -> int {
    match felt_hex_value(s) {
        Some(v) => v,
        None => 0,
    }
}

fn parse_felt_or_zero(s: &String) -> (r: Felt)
    ensures
        r@ == hex_felt_or_zero(s@),
{
    match felt_from_hex(s.as_str()) {
        Some(f) => f,
        None => Felt::zero(),
    }
}

/// Turns an attestation into a proof without an external proving service: the hex-encoded
/// roots and hashes are parsed (zero when they do not parse), the proof data is empty, and the
/// batch, block range and messages are carried over.
pub fn prove_attestation(attestation: TeeAttestation) -> (r: TeeProof)
    ensures
        r.batch_id == attestation.batch_id,
        r.blocks == attestation.blocks,
        r.data@ == Seq::<u8>::empty(),
        r.prev_state_root@ == hex_felt_or_zero(attestation.prev_state_root@),
        r.state_root@ == hex_felt_or_zero(attestation.state_root@),
        r.prev_block_hash@ == hex_felt_or_zero(attestation.prev_block_hash@),
        r.block_hash@ == hex_felt_or_zero(attestation.block_hash@),
        r.prev_block_number == attestation.prev_block_number,
        r.block_number == attestation.block_number,
        r.messages_commitment == attestation.messages_commitment,
        r.l2_to_l1_messages == attestation.l2_to_l1_messages,
        r.l1_to_l2_messages == attestation.l1_to_l2_messages,
{
    let prev_state_root = parse_felt_or_zero(&attestation.prev_state_root);
    let state_root = parse_felt_or_zero(&attestation.state_root);
    let prev_block_hash = parse_felt_or_zero(&attestation.prev_block_hash);
    let block_hash = parse_felt_or_zero(&attestation.block_hash);
    TeeProof {
        batch_id: attestation.batch_id,
        blocks: attestation.blocks,
        data: Vec::new(),
        prev_state_root,
        state_root,
        prev_block_hash,
        block_hash,
        prev_block_number: attestation.prev_block_number,
        block_number: attestation.block_number,
        messages_commitment: attestation.messages_commitment,
        l2_to_l1_messages: attestation.l2_to_l1_messages,
        l1_to_l2_messages: attestation.l1_to_l2_messages,
    }
}

/// Unique identifier for a TEE batch in persistent storage.
pub type BatchId = i64;

/// Status of a batch in the TEE pipeline.
#[derive(Debug, Clone, Copy, PartialEq, Eq, Structural)]
pub enum TeeBatchStatus {
    /// Waiting to be attested.
    PendingAttestation,
    /// Attestation completed; stored in DB.
    Attested,
    /// Proof generated; stored in DB.
    Proved,
    /// Proof submitted to settlement; awaiting confirmation.
    SettlementPending,
    /// Proof settled on-chain; batch complete.
    Settled,
    /// Batch failed after exhausting retries.
    Failed,
}

/// The text under which each batch status is stored.
pub open spec fn batch_status_text(s: TeeBatchStatus) -> Seq<char> {
    match s {
        TeeBatchStatus::PendingAttestation => "pending_attestation"@,
        TeeBatchStatus::Attested => "attested"@,
        TeeBatchStatus::Proved => "proved"@,
        TeeBatchStatus::SettlementPending => "settlement_pending"@,
        TeeBatchStatus::Settled => "settled"@,
        TeeBatchStatus::Failed => "failed"@,
    }
}

/// The batch status stored under the text `t`, if any.
pub open spec fn batch_status_of_text(t: Seq<char>) -> Option<TeeBatchStatus> {
    if t == "pending_attestation"@ {
        Some(TeeBatchStatus::PendingAttestation)
    } else if t == "attested"@ {
        Some(TeeBatchStatus::Attested)
    } else if t == "proved"@ {
        Some(TeeBatchStatus::Proved)
    } else if t == "settlement_pending"@ {
        Some(TeeBatchStatus::SettlementPending)
    } else if t == "settled"@ {
        Some(TeeBatchStatus::Settled)
    } else if t == "failed"@ {
        Some(TeeBatchStatus::Failed)
    } else {
        None
    }
}

impl TeeBatchStatus {
    /// The text under which the status is stored.
    pub fn to_string(&self) -> (r: String)
        ensures
            r@ == batch_status_text(*self),
    {
        let t: &str = match self {
            TeeBatchStatus::PendingAttestation => "pending_attestation",
            TeeBatchStatus::Attested => "attested",
            TeeBatchStatus::Proved => "proved",
            TeeBatchStatus::SettlementPending => "settlement_pending",
            TeeBatchStatus::Settled => "settled",
            TeeBatchStatus::Failed => "failed",
        };
        String::from_str(t)
    }

    /// Reads a status from its stored text; any other text is rejected with a message naming
    /// it.
    pub fn from_str(s: &str) -> (r: Result<TeeBatchStatus, String>)
        ensures
            r matches Ok(st) ==> batch_status_of_text(s@) == Some(st),
            r is Err <==> batch_status_of_text(s@) is None,
            r matches Err(m) ==> m@ == "unknown status: "@ + s@,
    {
        if text_eq(s, "pending_attestation") {
            Ok(TeeBatchStatus::PendingAttestation)
        } else if text_eq(s, "attested") {
            Ok(TeeBatchStatus::Attested)
        } else if text_eq(s, "proved") {
            Ok(TeeBatchStatus::Proved)
        } else if text_eq(s, "settlement_pending") {
            Ok(TeeBatchStatus::SettlementPending)
        } else if text_eq(s, "settled") {
            Ok(TeeBatchStatus::Settled)
        } else if text_eq(s, "failed") {
            Ok(TeeBatchStatus::Failed)
        } else {
            let mut m = String::from_str("unknown status: ");
            m.append(s);
            Err(m)
        }
    }
}

/// Reading back the stored text of a batch status gives the same status.
pub proof fn lemma_batch_status_text_round_trip(s: TeeBatchStatus)
    ensures
        batch_status_of_text(batch_status_text(s)) == Some(s),
{
    reveal_strlit("pending_attestation");
    reveal_strlit("attested");
    reveal_strlit("proved");
    reveal_strlit("settlement_pending");
    reveal_strlit("settled");
    reveal_strlit("failed");
    assert("pending_attestation"@.len() == 19);
    assert("attested"@.len() == 8);
    assert("proved"@.len() == 6);
    assert("settlement_pending"@.len() == 18);
    assert("settled"@.len() == 7);
    assert("failed"@.len() == 6);
    assert("proved"@[0] == 'p');
    assert("failed"@[0] == 'f');
}

/// Attestation metadata as stored in or loaded from persistent storage.
#[derive(Debug, Clone)]
pub struct StoredAttestation {
    /// Raw attestation response from Katana (hex-encoded AMD SEV-SNP quote).
    pub quote: String,
    pub prev_state_root: String,
    pub state_root: String,
    pub prev_block_hash: String,
    pub block_hash: String,
    pub prev_block_number: String,
    pub block_number: String,
    /// Poseidon commitment over all L1↔L2 messages.
    pub messages_commitment: String,
    /// JSON-serialized L2→L1 messages.
    pub l2_to_l1_messages: String,
    /// JSON-serialized L1→L2 messages.
    pub l1_to_l2_messages: String,
}

/// Batch metadata loaded from persistent storage for recovery.
#[derive(Debug, Clone)]
pub struct IncompleteBatch {
    /// Database row ID for this batch.
    pub batch_id: BatchId,
    /// First block number in the batch.
    pub first_block: u64,
    /// Last block number in the batch.
    pub last_block: u64,
    /// Current status in the pipeline.
    pub status: TeeBatchStatus,
    /// Stored attestation (if status >= Attested).
    pub attestation: Option<StoredAttestation>,
    /// Stored proof bytes (if status >= Proved).
    pub proof: Option<Vec<u8>>,
    /// Stored settlement transaction hash (if status >= SettlementPending).
    pub settlement_tx_hash: Option<String>,
    /// Number of times this batch has been retried.
    pub retry_count: u32,
}

} // verus!
