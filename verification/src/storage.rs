use vstd::prelude::*;
use vstd::string::*;

use crate::data_availability::DataAvailabilityPointer;
use crate::text::text_eq;

verus! {

/// Status of a block as it moves through the proving and settlement pipeline.
#[derive(Debug, Clone, Copy, PartialEq, Eq, Structural)]
pub enum BlockStatus {
    Mined,
    SnosPieGenerated,
    SnosProofSubmitted,
    SnosProofGenerated,
    BridgePieSubmitted,
    BridgePieGenerated,
    BridgeProofSubmitted,
    BridgeProofGenerated,
    VerifiedProof,
    Settled,
    Failed,
}

/// The text under which each status is stored.
pub open spec fn status_text(s: BlockStatus) -> Seq<char> {
    match s {
        BlockStatus::Mined => "mined"@,
        BlockStatus::SnosPieGenerated => "snos_pie_generated"@,
        BlockStatus::SnosProofSubmitted => "snos_proof_submitted"@,
        BlockStatus::SnosProofGenerated => "snos_proof_generated"@,
        BlockStatus::BridgePieSubmitted => "bridge_pie_submitted"@,
        BlockStatus::BridgePieGenerated => "bridge_pie_generated"@,
        BlockStatus::BridgeProofSubmitted => "bridge_proof_submitted"@,
        BlockStatus::BridgeProofGenerated => "bridge_proof_generated"@,
        BlockStatus::VerifiedProof => "verified_proof"@,
        BlockStatus::Settled => "settled"@,
        BlockStatus::Failed => "failed"@,
    }
}

/// The status stored under the text `t`, if any.
pub open spec fn status_of_text(t: Seq<char>) -> Option<BlockStatus> {
    if t == "mined"@ {
        Some(BlockStatus::Mined)
    } else if t == "snos_pie_generated"@ {
        Some(BlockStatus::SnosPieGenerated)
    } else if t == "snos_proof_submitted"@ {
        Some(BlockStatus::SnosProofSubmitted)
    } else if t == "snos_proof_generated"@ {
        Some(BlockStatus::SnosProofGenerated)
    } else if t == "bridge_pie_submitted"@ {
        Some(BlockStatus::BridgePieSubmitted)
    } else if t == "bridge_pie_generated"@ {
        Some(BlockStatus::BridgePieGenerated)
    } else if t == "bridge_proof_submitted"@ {
        Some(BlockStatus::BridgeProofSubmitted)
    } else if t == "bridge_proof_generated"@ {
        Some(BlockStatus::BridgeProofGenerated)
    } else if t == "verified_proof"@ {
        Some(BlockStatus::VerifiedProof)
    } else if t == "settled"@ {
        Some(BlockStatus::Settled)
    } else if t == "failed"@ {
        Some(BlockStatus::Failed)
    } else {
        None
    }
}

impl BlockStatus {
    /// The text under which the status is stored.
    pub fn as_text(&self) -> (r: &'static str)
        ensures
            r@ == status_text(*self),
    {
        match self {
            BlockStatus::Mined => "mined",
            BlockStatus::SnosPieGenerated => "snos_pie_generated",
            BlockStatus::SnosProofSubmitted => "snos_proof_submitted",
            BlockStatus::SnosProofGenerated => "snos_proof_generated",
            BlockStatus::BridgePieSubmitted => "bridge_pie_submitted",
            BlockStatus::BridgePieGenerated => "bridge_pie_generated",
            BlockStatus::BridgeProofSubmitted => "bridge_proof_submitted",
            BlockStatus::BridgeProofGenerated => "bridge_proof_generated",
            BlockStatus::VerifiedProof => "verified_proof",
            BlockStatus::Settled => "settled",
            BlockStatus::Failed => "failed",
        }
    }

    /// The status as an owned string, as it is written to the database.
    pub fn to_string(&self) -> (r: String)
        ensures
            r@ == status_text(*self),
    {
        String::from_str(self.as_text())
    }

    /// Reads a status from its stored text; `None` for any text that is not a status.
    pub fn parse(s: &str) -> (r: Option<BlockStatus>)
        ensures
            r == status_of_text(s@),
    {
        proof {
            lemma_status_texts_distinct();
        }
        if text_eq(s, "mined") {
            Some(BlockStatus::Mined)
        } else if text_eq(s, "snos_pie_generated") {
            Some(BlockStatus::SnosPieGenerated)
        } else if text_eq(s, "snos_proof_submitted") {
            Some(BlockStatus::SnosProofSubmitted)
        } else if text_eq(s, "snos_proof_generated") {
            Some(BlockStatus::SnosProofGenerated)
        } else if text_eq(s, "bridge_pie_submitted") {
            Some(BlockStatus::BridgePieSubmitted)
        } else if text_eq(s, "bridge_pie_generated") {
            Some(BlockStatus::BridgePieGenerated)
        } else if text_eq(s, "bridge_proof_submitted") {
            Some(BlockStatus::BridgeProofSubmitted)
        } else if text_eq(s, "bridge_proof_generated") {
            Some(BlockStatus::BridgeProofGenerated)
        } else if text_eq(s, "verified_proof") {
            Some(BlockStatus::VerifiedProof)
        } else if text_eq(s, "settled") {
            Some(BlockStatus::Settled)
        } else if text_eq(s, "failed") {
            Some(BlockStatus::Failed)
        } else {
            None
        }
    }

    /// Reads a status from its stored text. Only the texts of [`status_text`] are statuses.
    pub fn from(s: &str) -> (r: BlockStatus)
        requires
            status_of_text(s@) is Some,
        ensures
            status_of_text(s@) == Some(r),
    {
        match BlockStatus::parse(s) {
            Some(st) => st,
            None => {
                proof {
                    assert(false);
                }
                BlockStatus::Failed
            },
        }
    }
}

proof fn lemma_status_texts_distinct()
    ensures
        forall|a: BlockStatus, b: BlockStatus| status_text(a) == status_text(b) ==> a == b,
{
    reveal_strlit("mined");
    reveal_strlit("snos_pie_generated");
    reveal_strlit("snos_proof_submitted");
    reveal_strlit("snos_proof_generated");
    reveal_strlit("bridge_pie_submitted");
    reveal_strlit("bridge_pie_generated");
    reveal_strlit("bridge_proof_submitted");
    reveal_strlit("bridge_proof_generated");
    reveal_strlit("verified_proof");
    reveal_strlit("settled");
    reveal_strlit("failed");
    assert("mined"@.len() == 5);
    assert("snos_pie_generated"@.len() == 18);
    assert("snos_proof_submitted"@.len() == 20);
    assert("snos_proof_generated"@.len() == 20);
    assert("bridge_pie_submitted"@.len() == 20);
    assert("bridge_pie_generated"@.len() == 20);
    assert("bridge_proof_submitted"@.len() == 22);
    assert("bridge_proof_generated"@.len() == 22);
    assert("verified_proof"@.len() == 14);
    assert("settled"@.len() == 7);
    assert("failed"@.len() == 6);
    assert("snos_proof_submitted"@[11] == 's');
    assert("snos_proof_generated"@[11] == 'g');
    assert("snos_proof_submitted"@[0] == 's');
    assert("bridge_pie_submitted"@[0] == 'b');
    assert("bridge_pie_generated"@[0] == 'b');
    assert("snos_proof_generated"@[0] == 's');
    assert("bridge_pie_submitted"@[11] == 's');
    assert("bridge_pie_generated"@[11] == 'g');
    assert("bridge_proof_submitted"@[13] == 's');
    assert("bridge_proof_generated"@[13] == 'g');
}

/// Reading back the stored text of a status gives the same status, and distinct statuses are
/// stored under distinct texts.
pub proof fn lemma_status_text_round_trip(s: BlockStatus)
    ensures
        status_of_text(status_text(s)) == Some(s),
{
    reveal_strlit("mined");
    reveal_strlit("snos_pie_generated");
    reveal_strlit("snos_proof_submitted");
    reveal_strlit("snos_proof_generated");
    reveal_strlit("bridge_pie_submitted");
    reveal_strlit("bridge_pie_generated");
    reveal_strlit("bridge_proof_submitted");
    reveal_strlit("bridge_proof_generated");
    reveal_strlit("verified_proof");
    reveal_strlit("settled");
    reveal_strlit("failed");
    assert("mined"@.len() == 5);
    assert("snos_pie_generated"@.len() == 18);
    assert("snos_proof_submitted"@.len() == 20);
    assert("snos_proof_generated"@.len() == 20);
    assert("bridge_pie_submitted"@.len() == 20);
    assert("bridge_pie_generated"@.len() == 20);
    assert("bridge_proof_submitted"@.len() == 22);
    assert("bridge_proof_generated"@.len() == 22);
    assert("verified_proof"@.len() == 14);
    assert("settled"@.len() == 7);
    assert("failed"@.len() == 6);
    assert("snos_proof_submitted"@[11] == 's');
    assert("snos_proof_generated"@[11] == 'g');
    assert("snos_proof_submitted"@[0] == 's');
    assert("bridge_pie_submitted"@[0] == 'b');
    assert("bridge_pie_generated"@[0] == 'b');
    assert("snos_proof_generated"@[0] == 's');
    assert("bridge_pie_submitted"@[11] == 's');
    assert("bridge_pie_generated"@[11] == 'g');
    assert("bridge_proof_submitted"@[13] == 's');
    assert("bridge_proof_generated"@[13] == 'g');
}

/// One of the two proving steps of a block: the SNOS run and the layout bridge.
#[derive(Debug, Clone, Copy, PartialEq, Eq, Structural)]
pub enum Step {
    Snos,
    Bridge,
}

/// One of the three queries submitted to the proving service for a block.
#[derive(Debug, Clone, Copy, PartialEq, Eq, Structural)]
pub enum Query {
    SnosProof,
    BridgeProof,
    BridgeTrace,
}

impl Step {
    /// Column of the `pies` table that holds the PIE of this step.
    pub fn pie_column(&self) -> (r: &'static str)
        ensures
            r@ == (match *self {
                Step::Snos => "snos_pie"@,
                Step::Bridge => "bridge_pie"@,
            }),
    {
        match self {
            Step::Snos => "snos_pie",
            Step::Bridge => "bridge_pie",
        }
    }

    /// Column of the `proofs` table that holds the proof of this step.
    pub fn proof_column(&self) -> (r: &'static str)
        ensures
            r@ == (match *self {
                Step::Snos => "snos_proof"@,
                Step::Bridge => "bridge_proof"@,
            }),
    {
        match self {
            Step::Snos => "snos_proof",
            Step::Bridge => "bridge_proof",
        }
    }

    /// The status a block takes once the PIE of this step is stored.
    pub fn pie_generated_status(&self) -> (r: BlockStatus)
        ensures
            r == (match *self {
                Step::Snos => BlockStatus::SnosPieGenerated,
                Step::Bridge => BlockStatus::BridgePieGenerated,
            }),
    {
        match self {
            Step::Snos => BlockStatus::SnosPieGenerated,
            Step::Bridge => BlockStatus::BridgePieGenerated,
        }
    }

    /// The status a block takes once the proof of this step is stored.
    pub fn proof_generated_status(&self) -> (r: BlockStatus)
        ensures
            r == (match *self {
                Step::Snos => BlockStatus::SnosProofGenerated,
                Step::Bridge => BlockStatus::BridgeProofGenerated,
            }),
    {
        match self {
            Step::Snos => BlockStatus::SnosProofGenerated,
            Step::Bridge => BlockStatus::BridgeProofGenerated,
        }
    }
}

impl Query {
    /// Column of the `job_ids` table that holds the id of this query.
    pub fn column(&self) -> (r: &'static str)
        ensures
            r@ == (match *self {
                Query::SnosProof => "snos_proof_query_id"@,
                Query::BridgeProof => "bridge_proof_query_id"@,
                Query::BridgeTrace => "trace_gen_query_id"@,
            }),
    {
        match self {
            Query::SnosProof => "snos_proof_query_id",
            Query::BridgeProof => "bridge_proof_query_id",
            Query::BridgeTrace => "trace_gen_query_id",
        }
    }

    /// The status a block takes once this query has been submitted.
    pub fn submitted_status(&self) -> (r: BlockStatus)
        ensures
            r == (match *self {
                Query::SnosProof => BlockStatus::SnosProofSubmitted,
                Query::BridgeProof => BlockStatus::BridgeProofSubmitted,
                Query::BridgeTrace => BlockStatus::BridgePieSubmitted,
            }),
    {
        match self {
            Query::SnosProof => BlockStatus::SnosProofSubmitted,
            Query::BridgeProof => BlockStatus::BridgeProofSubmitted,
            Query::BridgeTrace => BlockStatus::BridgePieSubmitted,
        }
    }
}

/// A settled block together with the pointer to its published data.
#[derive(Debug, Clone, Copy, PartialEq, Eq)]
pub struct BlockWithDa {
    pub height: u64,
    pub da_pointer: DataAvailabilityPointer,
}

/// The head of the chain as known to a storage backend.
#[derive(Debug, Clone, Copy, PartialEq, Eq)]
pub enum ChainHead {
    Genesis,
    Block(BlockWithDa),
}

/// An entirely in-memory storage backend useful for development and testing purposes.
#[derive(Debug, Clone, Copy)]
pub struct InMemoryStorageBackend {
    last_block: Option<BlockWithDa>,
}

impl InMemoryStorageBackend {
    /// The block last recorded as chain head, if any.
    pub closed spec fn last_block(&self) -> Option<BlockWithDa> {
        self.last_block
    }

    /// A backend that has recorded no block yet.
    pub fn new() -> (r: Self)
        ensures
            r.last_block() is None,
    {
        InMemoryStorageBackend { last_block: None }
    }

    /// The chain head: genesis until a block is recorded, then the last recorded block.
    pub fn get_chain_head(&self) -> (r: ChainHead)
        ensures
            r == (match self.last_block() {
                Some(b) => ChainHead::Block(b),
                None => ChainHead::Genesis,
            }),
    {
        match self.last_block {
            Some(last_block) => ChainHead::Block(last_block),
            None => ChainHead::Genesis,
        }
    }

    /// Records `block` as the new chain head.
    pub fn set_chain_head(&mut self, block: BlockWithDa)
        ensures
            final(self).last_block() == Some(block),
    {
        self.last_block = Some(block);
    }
}

/// The chain head read after recording a block is that block.
pub proof fn lemma_chain_head_reads_last_write(after: InMemoryStorageBackend, block: BlockWithDa)
    requires
        after.last_block() == Some(block),
    ensures
        (match after.last_block() {
            Some(b) => ChainHead::Block(b),
            None => ChainHead::Genesis,
        }) == ChainHead::Block(block),
{
}

} // verus!
