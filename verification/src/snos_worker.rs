use vstd::prelude::*;

use crate::atlantic::{snos_label, Layout};
use crate::storage::Query;
use crate::text::spec_decimal;

verus! {

/// Where the SNOS proving of one block stands.
///
/// A block's SNOS PIE is proved by the proving service unless its proof is already stored, or
/// unless mock mode derives the proof from the PIE itself. Every submitted query is recorded
/// before it is waited on, so that a restarted worker waits on it instead of submitting it again.
#[derive(Debug, Clone, PartialEq, Eq)]
pub enum SnosStage {
    /// Nothing done yet for the block.
    Start,
    /// Waiting for the lookup of a stored SNOS proof.
    CheckingStoredProof,
    /// Waiting for the lookup of a recorded SNOS proof query.
    CheckingQuery,
    /// Waiting for the PIE to be compressed and submitted.
    Submitting,
    /// Waiting for the id of a new query to be recorded.
    RecordingQuery { query_id: String },
    /// Waiting on the proof generation job of a query.
    AwaitingJob { query_id: String },
    /// Waiting for the proof of the query to be fetched, stored and parsed.
    StoringProof,
    /// The block is done with.
    Finished,
}

/// What the outside world reports after performing an action.
#[derive(Debug, Clone, PartialEq, Eq)]
pub enum SnosEvent {
    /// The requested action completed.
    Done,
    /// A SNOS proof is stored for the block.
    ProofFound,
    /// No SNOS proof is stored for the block.
    ProofMissing,
    /// A recorded query id was found.
    QueryFound { query_id: String },
    /// No query id is recorded.
    QueryMissing,
    /// The PIE was submitted and the query got this id.
    Submitted { query_id: String },
}

/// What to do next for the block.
#[derive(Debug, Clone, PartialEq, Eq)]
pub enum SnosAction {
    /// Look up a stored SNOS proof.
    LoadStoredProof,
    /// Parse the stored proof and forward it.
    ForwardStoredProof,
    /// Derive a mock proof from the PIE's own output and forward it.
    ForwardMockProof,
    /// Look up the id recorded for a query of the given kind.
    LoadQueryId { query: Query },
    /// Compress the PIE and submit its proof generation.
    Submit,
    /// Record the id of a submitted query.
    RecordQueryId { query: Query, query_id: String },
    /// Wait until the proof generation job completes or shutdown is requested.
    AwaitJob { query_id: String },
    /// Fetch the proof of the query, store it and parse it.
    FetchAndStoreProof { query_id: String },
    /// Forward the fetched proof; a shutdown requested meanwhile stops the worker instead.
    Forward,
}

/// The events each stage waits for.
pub open spec fn snos_expects(stage: SnosStage, event: SnosEvent) -> bool {
    match stage {
        SnosStage::Start => event is Done,
        SnosStage::CheckingStoredProof => event is ProofFound || event is ProofMissing,
        SnosStage::CheckingQuery => event is QueryFound || event is QueryMissing,
        SnosStage::Submitting => event is Submitted,
        SnosStage::RecordingQuery { .. } => event is Done,
        SnosStage::AwaitingJob { .. } => event is Done,
        SnosStage::StoringProof => event is Done,
        SnosStage::Finished => false,
    }
}

/// The transition table of the SNOS worker; `mock` is whether proofs are derived from the PIE.
pub open spec fn snos_next(stage: SnosStage, event: SnosEvent, mock: bool) -> (SnosStage, SnosAction) {
    match stage {
        SnosStage::Start => (SnosStage::CheckingStoredProof, SnosAction::LoadStoredProof),
        SnosStage::CheckingStoredProof => match event {
            SnosEvent::ProofFound => (SnosStage::Finished, SnosAction::ForwardStoredProof),
            _ => if mock {
                (SnosStage::Finished, SnosAction::ForwardMockProof)
            } else {
                (SnosStage::CheckingQuery, SnosAction::LoadQueryId { query: Query::SnosProof })
            },
        },
        SnosStage::CheckingQuery => match event {
            SnosEvent::QueryFound { query_id } => (
                SnosStage::AwaitingJob { query_id: query_id },
                SnosAction::AwaitJob { query_id: query_id },
            ),
            _ => (SnosStage::Submitting, SnosAction::Submit),
        },
        SnosStage::Submitting => match event {
            SnosEvent::Submitted { query_id } => (
                SnosStage::RecordingQuery { query_id: query_id },
                SnosAction::RecordQueryId { query: Query::SnosProof, query_id: query_id },
            ),
            _ => (SnosStage::Finished, SnosAction::Forward),
        },
        SnosStage::RecordingQuery { query_id } => (
            SnosStage::AwaitingJob { query_id: query_id },
            SnosAction::AwaitJob { query_id: query_id },
        ),
        SnosStage::AwaitingJob { query_id } => (
            SnosStage::StoringProof,
            SnosAction::FetchAndStoreProof { query_id: query_id },
        ),
        SnosStage::StoringProof => (SnosStage::Finished, SnosAction::Forward),
        SnosStage::Finished => (SnosStage::Finished, SnosAction::Forward),
    }
}

/// A measure that every transition strictly decreases.
pub open spec fn snos_rank(stage: SnosStage) -> nat {
    match stage {
        SnosStage::Start => 7,
        SnosStage::CheckingStoredProof => 6,
        SnosStage::CheckingQuery => 5,
        SnosStage::Submitting => 4,
        SnosStage::RecordingQuery { .. } => 3,
        SnosStage::AwaitingJob { .. } => 2,
        SnosStage::StoringProof => 1,
        SnosStage::Finished => 0,
    }
}

impl SnosStage {
    /// Moves the block along after `event`, returning what to do next.
    pub fn step(self, event: SnosEvent, mock: bool) -> (r: (SnosStage, SnosAction))
        requires
            snos_expects(self, event),
        ensures
            r == snos_next(self, event, mock),
    {
        match self {
            SnosStage::Start => (SnosStage::CheckingStoredProof, SnosAction::LoadStoredProof),
            SnosStage::CheckingStoredProof => match event {
                SnosEvent::ProofFound => (SnosStage::Finished, SnosAction::ForwardStoredProof),
                _ => if mock {
                    (SnosStage::Finished, SnosAction::ForwardMockProof)
                } else {
                    (SnosStage::CheckingQuery, SnosAction::LoadQueryId { query: Query::SnosProof })
                },
            },
            SnosStage::CheckingQuery => match event {
                SnosEvent::QueryFound { query_id } => (
                    SnosStage::AwaitingJob { query_id: query_id.clone() },
                    SnosAction::AwaitJob { query_id },
                ),
                _ => (SnosStage::Submitting, SnosAction::Submit),
            },
            SnosStage::Submitting => match event {
                SnosEvent::Submitted { query_id } => (
                    SnosStage::RecordingQuery { query_id: query_id.clone() },
                    SnosAction::RecordQueryId { query: Query::SnosProof, query_id },
                ),
                _ => (SnosStage::Finished, SnosAction::Forward),
            },
            SnosStage::RecordingQuery { query_id } => (
                SnosStage::AwaitingJob { query_id: query_id.clone() },
                SnosAction::AwaitJob { query_id },
            ),
            SnosStage::AwaitingJob { query_id } => (
                SnosStage::StoringProof,
                SnosAction::FetchAndStoreProof { query_id },
            ),
            SnosStage::StoringProof => (SnosStage::Finished, SnosAction::Forward),
            SnosStage::Finished => (SnosStage::Finished, SnosAction::Forward),
        }
    }
}

/// Every transition moves to a lower rank, so a block needs at most seven actions.
pub proof fn lemma_snos_progress(stage: SnosStage, event: SnosEvent, mock: bool)
    requires
        snos_expects(stage, event),
    ensures
        snos_rank(snos_next(stage, event, mock).0) < snos_rank(stage),
        snos_rank(stage) <= 7,
{
}

/// A stored proof is forwarded as is; in mock mode a block without stored proof is forwarded
/// with a mock proof. In both cases nothing is submitted to the proving service.
pub proof fn lemma_snos_no_submission_needed(mock: bool)
    ensures
        snos_next(SnosStage::CheckingStoredProof, SnosEvent::ProofFound, mock) == (
        SnosStage::Finished, SnosAction::ForwardStoredProof),
        mock ==> snos_next(SnosStage::CheckingStoredProof, SnosEvent::ProofMissing, mock) == (
        SnosStage::Finished, SnosAction::ForwardMockProof),
{
}

/// A query id handed back by a submission is recorded by the very next action, and the worker
/// only waits on a job whose query id was found recorded or has just been recorded.
pub proof fn lemma_snos_queries_recorded_before_awaited(stage: SnosStage, event: SnosEvent, mock: bool)
    requires
        snos_expects(stage, event),
    ensures
        event is Submitted ==> snos_next(stage, event, mock).1 == (SnosAction::RecordQueryId {
            query: Query::SnosProof,
            query_id: event->Submitted_query_id,
        }),
        snos_next(stage, event, mock).1 is AwaitJob ==> (event == (SnosEvent::QueryFound {
            query_id: snos_next(stage, event, mock).1->AwaitJob_query_id,
        }) || stage == (SnosStage::RecordingQuery {
            query_id: snos_next(stage, event, mock).1->AwaitJob_query_id,
        })),
{
}

/// A request to the outside world while proving the SNOS PIE of one block, with everything it
/// needs.
#[derive(Debug, Clone, PartialEq, Eq)]
pub enum SnosCommand {
    /// Look up the block's stored SNOS proof.
    LoadStoredProof { block_id: u32 },
    /// Parse the stored proof and hand it on for block `block_number`.
    ForwardStoredProof { block_number: u64 },
    /// Derive a mock proof from the PIE's own output and hand it on for block `block_number`.
    ForwardMockProof { block_number: u64 },
    /// Look up the id recorded for the block's query of the given kind.
    LoadQueryId { block_id: u32, query: Query },
    /// Compress the PIE and submit its proof generation with this layout and label.
    Submit { layout: Layout, label: String },
    /// Record the id of a submitted query for the block.
    RecordQueryId { block_id: u32, query: Query, query_id: String },
    /// Wait until the proof generation job of the query completes or shutdown is requested.
    AwaitJob { query_id: String },
    /// Fetch the proof of the query, store it for the block and parse it.
    FetchAndStoreProof { block_id: u32, query_id: String },
    /// Hand the fetched proof on for block `block_number`, unless shutdown is requested first.
    Forward { block_number: u64 },
}

/// The request that carries out `action` for the block `block_number`.
pub open spec fn snos_command_for(block_number: u64, action: SnosAction, cmd: SnosCommand) -> bool {
    let id = block_number as u32;
    match action {
        SnosAction::LoadStoredProof => cmd == SnosCommand::LoadStoredProof { block_id: id },
        SnosAction::ForwardStoredProof => cmd == SnosCommand::ForwardStoredProof { block_number },
        SnosAction::ForwardMockProof => cmd == SnosCommand::ForwardMockProof { block_number },
        SnosAction::LoadQueryId { query } => cmd == SnosCommand::LoadQueryId { block_id: id, query },
        SnosAction::Submit => {
            &&& cmd is Submit
            &&& cmd->Submit_layout == Layout::dynamic
            &&& cmd->Submit_label@ == "snos_"@ + spec_decimal(block_number as nat)
        },
        SnosAction::RecordQueryId { query, query_id } => cmd == SnosCommand::RecordQueryId {
            block_id: id,
            query,
            query_id,
        },
        SnosAction::AwaitJob { query_id } => cmd == SnosCommand::AwaitJob { query_id },
        SnosAction::FetchAndStoreProof { query_id } => cmd == SnosCommand::FetchAndStoreProof {
            block_id: id,
            query_id,
        },
        SnosAction::Forward => cmd == SnosCommand::Forward { block_number },
    }
}

/// The request that carries out `action` for the block `block_number`: the block's id, and for
/// a submission the `dynamic` layout and the label `snos_{n}`.
pub fn snos_command(block_number: u64, action: SnosAction) -> (r: SnosCommand)
    requires
        block_number <= u32::MAX,
    ensures
        snos_command_for(block_number, action, r),
{
    let id = block_number as u32;
    match action {
        SnosAction::LoadStoredProof => SnosCommand::LoadStoredProof { block_id: id },
        SnosAction::ForwardStoredProof => SnosCommand::ForwardStoredProof { block_number },
        SnosAction::ForwardMockProof => SnosCommand::ForwardMockProof { block_number },
        SnosAction::LoadQueryId { query } => SnosCommand::LoadQueryId { block_id: id, query },
        SnosAction::Submit => SnosCommand::Submit {
            layout: Layout::dynamic,
            label: snos_label(block_number),
        },
        SnosAction::RecordQueryId { query, query_id } => SnosCommand::RecordQueryId {
            block_id: id,
            query,
            query_id,
        },
        SnosAction::AwaitJob { query_id } => SnosCommand::AwaitJob { query_id },
        SnosAction::FetchAndStoreProof { query_id } => SnosCommand::FetchAndStoreProof {
            block_id: id,
            query_id,
        },
        SnosAction::Forward => SnosCommand::Forward { block_number },
    }
}

impl SnosStage {
    /// Moves the block `block_number` along after `event`, following [`snos_next`], and returns
    /// the request that carries out the next action with its arguments.
    pub fn step_block(self, block_number: u64, event: SnosEvent, mock: bool) -> (r: (
        SnosStage,
        SnosCommand,
    ))
        requires
            block_number <= u32::MAX,
            snos_expects(self, event),
        ensures
            r.0 == snos_next(self, event, mock).0,
            snos_command_for(block_number, snos_next(self, event, mock).1, r.1),
    {
        let (stage, action) = self.step(event, mock);
        (stage, snos_command(block_number, action))
    }
}

/// A query the worker waits on is the query whose proof it fetches and stores next: awaiting a
/// query moves to the stage that waits on that same query, a finished wait fetches and stores
/// that query's proof, and a fetched proof is handed on only once it is stored.
pub proof fn lemma_snos_awaited_query_is_fetched(stage: SnosStage, event: SnosEvent, mock: bool)
    requires
        snos_expects(stage, event),
    ensures
        snos_next(stage, event, mock).1 matches SnosAction::AwaitJob { query_id } ==> snos_next(
            stage,
            event,
            mock,
        ).0 == (SnosStage::AwaitingJob { query_id }),
        stage matches SnosStage::AwaitingJob { query_id } ==> snos_next(stage, event, mock) == (
        SnosStage::StoringProof, SnosAction::FetchAndStoreProof { query_id }),
        snos_next(stage, event, mock).1 is FetchAndStoreProof ==> stage is AwaitingJob,
        snos_next(stage, event, mock).1 is Forward ==> stage is StoringProof,
{
}

/// The stage the worker moves to is the one that waits for the outcome of the action it asks
/// for, under the same query id; the block is done with exactly when a proof is handed on.
pub proof fn lemma_snos_next_stage_waits_on_action(stage: SnosStage, event: SnosEvent, mock: bool)
    requires
        snos_expects(stage, event),
    ensures
        ({
            let (next, action) = snos_next(stage, event, mock);
            &&& action is LoadStoredProof <==> next is CheckingStoredProof
            &&& action is LoadQueryId <==> next is CheckingQuery
            &&& action is Submit <==> next is Submitting
            &&& action matches SnosAction::RecordQueryId { query_id, .. } ==> next == (
            SnosStage::RecordingQuery { query_id })
            &&& next is RecordingQuery ==> action is RecordQueryId
            &&& next is AwaitingJob ==> action is AwaitJob
            &&& action is FetchAndStoreProof <==> next is StoringProof
            &&& (action is Forward || action is ForwardStoredProof || action is ForwardMockProof) <==> next
                is Finished
        }),
{
}

/// What leads to each action: a stored proof is handed on only when one was found; a mock proof
/// only in mock mode for a block without stored proof; the recorded query is looked up only
/// outside mock mode when no proof is stored; a proof generation is submitted only when no
/// query is recorded either.
pub proof fn lemma_snos_action_origins(stage: SnosStage, event: SnosEvent, mock: bool)
    requires
        snos_expects(stage, event),
    ensures
        ({
            let action = snos_next(stage, event, mock).1;
            &&& action is ForwardStoredProof <==> (stage is CheckingStoredProof && event is ProofFound)
            &&& action is ForwardMockProof <==> (stage is CheckingStoredProof && event is ProofMissing
                && mock)
            &&& action is LoadQueryId <==> (stage is CheckingStoredProof && event is ProofMissing && !mock)
            &&& action is Submit <==> (stage is CheckingQuery && event is QueryMissing)
        }),
{
}

} // verus!
