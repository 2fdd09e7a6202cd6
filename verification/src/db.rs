use vstd::prelude::*;
use vstd::string::*;

use crate::error::Error;
use crate::schema::{contains_text, find_text};
use crate::text::text_eq;

verus! {

/// A block tracked by the proving database.
#[derive(Debug, Clone)]
pub struct Block {
    pub id: u32,
    pub query_id_step1: String,
    pub query_id_step2: String,
    pub status: BlockStatus,
}

/// Proving status of a block in the proving database.
#[derive(Debug, Clone, Copy, PartialEq, Eq, Structural)]
pub enum BlockStatus {
    PieSubmitted,
    Failed,
    PieProofGenerated,
    BridgeProofSubmited,
    Completed,
}

/// Status of a proof at the proving service.
#[derive(Debug, Clone, Copy, PartialEq, Eq, Structural)]
pub enum ProverStatus {
    Proving,
    Proved,
    Failed,
}

/// The text stored for each block status.
pub open spec fn block_status_text(s: BlockStatus) -> Seq<char> {
    match s {
        BlockStatus::PieSubmitted => "PIE_SUBMITTED"@,
        BlockStatus::Failed => "FAILED"@,
        BlockStatus::PieProofGenerated => "PIE_PROOF_GENERATED"@,
        BlockStatus::BridgeProofSubmited => "BRIDGE_PROOF_SUBMITED"@,
        BlockStatus::Completed => "COMPLETED"@,
    }
}

/// The status whose stored text is `t`, if any.
pub open spec fn block_status_of_text(t: Seq<char>) -> Option<BlockStatus> {
    if t == "PIE_SUBMITTED"@ {
        Some(BlockStatus::PieSubmitted)
    } else if t == "FAILED"@ {
        Some(BlockStatus::Failed)
    } else if t == "PIE_PROOF_GENERATED"@ {
        Some(BlockStatus::PieProofGenerated)
    } else if t == "BRIDGE_PROOF_SUBMITED"@ {
        Some(BlockStatus::BridgeProofSubmited)
    } else if t == "COMPLETED"@ {
        Some(BlockStatus::Completed)
    } else {
        None
    }
}

impl BlockStatus {
    /// The text under which the status is stored.
    pub fn as_str(&self) -> (r: &'static str)
        ensures
            r@ == block_status_text(*self),
    {
        match self {
            BlockStatus::PieSubmitted => "PIE_SUBMITTED",
            BlockStatus::Failed => "FAILED",
            BlockStatus::PieProofGenerated => "PIE_PROOF_GENERATED",
            BlockStatus::BridgeProofSubmited => "BRIDGE_PROOF_SUBMITED",
            BlockStatus::Completed => "COMPLETED",
        }
    }

    /// Reads a status back from its stored text; any other text is a conversion error.
    pub fn try_from(s: &str) -> (r: Result<BlockStatus, Error>)
        ensures
            r matches Ok(st) ==> block_status_of_text(s@) == Some(st),
            r is Err <==> block_status_of_text(s@) is None,
            r matches Err(e) ==> e is TryFromStrError,
    {
        if text_eq(s, "PIE_SUBMITTED") {
            Ok(BlockStatus::PieSubmitted)
        } else if text_eq(s, "FAILED") {
            Ok(BlockStatus::Failed)
        } else if text_eq(s, "PIE_PROOF_GENERATED") {
            Ok(BlockStatus::PieProofGenerated)
        } else if text_eq(s, "BRIDGE_PROOF_SUBMITED") {
            Ok(BlockStatus::BridgeProofSubmited)
        } else if text_eq(s, "COMPLETED") {
            Ok(BlockStatus::Completed)
        } else {
            Err(Error::TryFromStrError(String::from_str("AtlanticStatus conversion error")))
        }
    }
}

/// Reading back the stored text of a status gives the same status.
pub proof fn lemma_block_status_text_round_trip(s: BlockStatus)
    ensures
        block_status_of_text(block_status_text(s)) == Some(s),
{
    reveal_strlit("PIE_SUBMITTED");
    reveal_strlit("FAILED");
    reveal_strlit("PIE_PROOF_GENERATED");
    reveal_strlit("BRIDGE_PROOF_SUBMITED");
    reveal_strlit("COMPLETED");
    assert("PIE_SUBMITTED"@.len() == 13);
    assert("FAILED"@.len() == 6);
    assert("PIE_PROOF_GENERATED"@.len() == 19);
    assert("BRIDGE_PROOF_SUBMITED"@.len() == 21);
    assert("COMPLETED"@.len() == 9);
}

/// The tables of the proving database.
#[derive(Debug, Clone, Copy, PartialEq, Eq, Structural)]
pub enum ProvingTable {
    Blocks,
    Proofs,
}

/// The name of a proving database table.
pub open spec fn proving_table_name(t: ProvingTable) -> Seq<char> {
    match t {
        ProvingTable::Blocks => "blocks"@,
        ProvingTable::Proofs => "proofs"@,
    }
}

/// The columns a proving database table must have.
pub open spec fn proving_required_columns(t: ProvingTable) -> Seq<Seq<char>> {
    match t {
        ProvingTable::Blocks => seq!["id"@, "query_id_step1"@, "query_id_step2"@, "status"@],
        ProvingTable::Proofs => seq!["id"@, "block_number"@, "pie_proof"@, "bridge_proof"@],
    }
}

impl ProvingTable {
    /// The name of the table.
    pub fn name(&self) -> (r: &'static str)
        ensures
            r@ == proving_table_name(*self),
    {
        match self {
            ProvingTable::Blocks => "blocks",
            ProvingTable::Proofs => "proofs",
        }
    }

    /// The columns the table must have.
    pub fn required_columns(&self) -> (r: Vec<&'static str>)
        ensures
            r@.len() == proving_required_columns(*self).len(),
            forall|i: int|
                0 <= i < r@.len() ==> #[trigger] r@[i]@ == proving_required_columns(*self)[i],
    {
        match self {
            ProvingTable::Blocks => vec!["id", "query_id_step1", "query_id_step2", "status"],
            ProvingTable::Proofs => vec!["id", "block_number", "pie_proof", "bridge_proof"],
        }
    }
}

/// Checks the column names a proving database table reports against the columns it must have;
/// other columns are allowed.
pub fn check_proving_table_columns(table: ProvingTable, columns: &Vec<String>) -> (r: bool)
    ensures
        r == forall|j: int|
            0 <= j < proving_required_columns(table).len() ==> contains_text(
                columns@,
                #[trigger] proving_required_columns(table)[j],
            ),
{
    let required = table.required_columns();
    let mut j: usize = 0;
    while j < required.len()
        invariant
            j <= required@.len(),
            required@.len() == proving_required_columns(table).len(),
            forall|i: int|
                0 <= i < required@.len() ==> #[trigger] required@[i]@ == proving_required_columns(
                    table,
                )[i],
            forall|k: int|
                0 <= k < j ==> contains_text(columns@, #[trigger] proving_required_columns(table)[k]),
        decreases required@.len() - j,
    {
        if !find_text(columns, required[j]) {
            assert(required@[j as int]@ == proving_required_columns(table)[j as int]);
            return false;
        }
        j = j + 1;
    }
    true
}

} // verus!
