use vstd::prelude::*;

use crate::atlantic::{
    calculate_job_size, job_size_for_steps, layout_bridge_input, layout_label, layout_trace_label,
    AtlanticJobSize, Layout,
};
use crate::block_ingestor::BlockInfo;
use crate::storage::BlockStatus;
use crate::text::spec_decimal;
use crate::storage::Query;

verus! {

/// Where the layout bridge proving of one block stands.
///
/// A block is proved in up to three moves, each resumable after a restart from what the
/// database holds: the layout bridge trace is generated from the block's SNOS proof, the trace
/// (a PIE) is proved, and the proof is stored and forwarded. Every query submitted to the
/// proving service is recorded before it is waited on, so that a restarted worker waits on it
/// instead of submitting it again.
#[derive(Debug, Clone, PartialEq, Eq)]
pub enum BridgeStage {
    /// Nothing done yet for the block.
    Start,
    /// Waiting for the block's state update to be loaded.
    LoadingStateUpdate,
    /// Waiting for the lookup of a stored bridge proof.
    CheckingStoredProof,
    /// Waiting for the lookup of a recorded bridge proof query.
    CheckingProofQuery,
    /// Waiting on a bridge proof query recorded by an earlier run.
    AwaitingRecordedProof { query_id: String },
    /// Waiting for the proof of a finished recorded query to be fetched and stored.
    StoringRecordedProof,
    /// Waiting for the lookup of a stored layout bridge PIE.
    CheckingStoredPie,
    /// Waiting for the lookup of a recorded trace generation query.
    CheckingTraceQuery,
    /// Waiting for a trace generation query to be submitted.
    SubmittingTrace,
    /// Waiting for the id of a new trace query to be recorded.
    RecordingTraceQuery { query_id: String },
    /// Waiting on a trace generation query.
    AwaitingTrace { query_id: String },
    /// Waiting for the PIE of a finished trace query to be fetched and stored.
    StoringPie,
    /// Waiting for a bridge proof query to be submitted.
    SubmittingProof,
    /// Waiting for the id of a new bridge proof query to be recorded.
    RecordingProofQuery { query_id: String },
    /// Waiting on a bridge proof query submitted by this run.
    AwaitingProof { query_id: String },
    /// Waiting for the proof of a finished query submitted by this run to be fetched and stored.
    StoringProof,
    /// The block is done with: forwarded or recorded as failed.
    Finished,
    /// The worker stops: shutdown was requested.
    Stopped,
    /// The worker stops with an error.
    Aborted,
}

/// What the outside world reports after performing an action.
#[derive(Debug, Clone, PartialEq, Eq)]
pub enum BridgeEvent {
    /// The requested action completed.
    Done,
    /// A stored bridge proof was found and parses as a proof.
    ValidProofFound,
    /// A stored bridge proof was found but does not parse as a proof.
    InvalidProofFound,
    /// No bridge proof is stored.
    ProofMissing,
    /// A recorded query id was found.
    QueryFound { query_id: String },
    /// No query id is recorded.
    QueryMissing,
    /// A layout bridge PIE is stored; it runs `n_steps` Cairo steps.
    PieFound { n_steps: usize },
    /// The PIE of a finished trace query was fetched and stored; it runs `n_steps` Cairo steps.
    PieStored { n_steps: usize },
    /// No layout bridge PIE is stored.
    PieMissing,
    /// A query was submitted and got this id.
    Submitted { query_id: String },
    /// The awaited query finished.
    QueryDone,
    /// The awaited query failed, with this message.
    QueryFailed { message: String },
    /// Shutdown was requested while waiting.
    Shutdown,
    /// Fetching the result of a finished query failed.
    FetchFailed,
}

/// What to do next for the block.
#[derive(Debug, Clone, PartialEq, Eq)]
pub enum BridgeAction {
    /// Load the block's state update from the database.
    LoadStateUpdate,
    /// Look up a stored bridge proof and check that it parses.
    LoadStoredProof,
    /// Look up the id recorded for a query of the given kind.
    LoadQueryId { query: Query },
    /// Look up a stored layout bridge PIE.
    LoadStoredPie,
    /// Submit the layout bridge trace generation for the block's SNOS proof.
    SubmitTrace,
    /// Submit the proof generation of the stored layout bridge PIE, declaring `job_size`.
    SubmitProof { job_size: AtlanticJobSize },
    /// Record the id of a submitted query.
    RecordQueryId { query: Query, query_id: String },
    /// Wait until the query finishes, fails, or shutdown is requested.
    AwaitQuery { query_id: String },
    /// Fetch the PIE produced by the finished trace query and store it.
    FetchAndStorePie { query_id: String },
    /// Fetch the proof produced by the finished proof query and store it.
    FetchAndStoreProof { query_id: String },
    /// Forward the block as proved; when `watch_shutdown`, a shutdown requested meanwhile stops
    /// the worker instead.
    Forward { watch_shutdown: bool },
    /// Record the block as failed with this message.
    MarkFailed { message: String },
    /// Stop the worker.
    Stop,
    /// Stop the worker with an error.
    Abort,
}

/// The events each stage waits for.
pub open spec fn bridge_expects(stage: BridgeStage, event: BridgeEvent) -> bool {
    match stage {
        BridgeStage::Start => event is Done,
        BridgeStage::LoadingStateUpdate => event is Done,
        BridgeStage::CheckingStoredProof => event is ValidProofFound || event is InvalidProofFound
            || event is ProofMissing,
        BridgeStage::CheckingProofQuery => event is QueryFound || event is QueryMissing,
        BridgeStage::AwaitingRecordedProof { .. } => event is QueryDone || event is QueryFailed
            || event is Shutdown,
        BridgeStage::StoringRecordedProof => event is Done || event is FetchFailed,
        BridgeStage::CheckingStoredPie => event is PieFound || event is PieMissing,
        BridgeStage::CheckingTraceQuery => event is QueryFound || event is QueryMissing,
        BridgeStage::SubmittingTrace => event is Submitted,
        BridgeStage::RecordingTraceQuery { .. } => event is Done,
        BridgeStage::AwaitingTrace { .. } => event is QueryDone || event is QueryFailed
            || event is Shutdown,
        BridgeStage::StoringPie => event is PieStored || event is FetchFailed,
        BridgeStage::SubmittingProof => event is Submitted,
        BridgeStage::RecordingProofQuery { .. } => event is Done,
        BridgeStage::AwaitingProof { .. } => event is QueryDone || event is QueryFailed
            || event is Shutdown,
        BridgeStage::StoringProof => event is Done || event is FetchFailed,
        _ => false,
    }
}

/// The stages at which the worker is done with a block.
pub open spec fn bridge_is_final(stage: BridgeStage) -> bool {
    stage is Finished || stage is Stopped || stage is Aborted
}

/// The transition table of the layout bridge worker.
pub open spec fn bridge_next(stage: BridgeStage, event: BridgeEvent) -> (BridgeStage, BridgeAction) {
    match stage {
        BridgeStage::Start => (BridgeStage::LoadingStateUpdate, BridgeAction::LoadStateUpdate),
        BridgeStage::LoadingStateUpdate => (
            BridgeStage::CheckingStoredProof,
            BridgeAction::LoadStoredProof,
        ),
        BridgeStage::CheckingStoredProof => match event {
            BridgeEvent::ValidProofFound => (
                BridgeStage::Finished,
                BridgeAction::Forward { watch_shutdown: false },
            ),
            _ => (
                BridgeStage::CheckingProofQuery,
                BridgeAction::LoadQueryId { query: Query::BridgeProof },
            ),
        },
        BridgeStage::CheckingProofQuery => match event {
            BridgeEvent::QueryFound { query_id } => (
                BridgeStage::AwaitingRecordedProof { query_id: query_id },
                BridgeAction::AwaitQuery { query_id: query_id },
            ),
            _ => (BridgeStage::CheckingStoredPie, BridgeAction::LoadStoredPie),
        },
        BridgeStage::AwaitingRecordedProof { query_id } => match event {
            BridgeEvent::QueryDone => (
                BridgeStage::StoringRecordedProof,
                BridgeAction::FetchAndStoreProof { query_id: query_id },
            ),
            BridgeEvent::QueryFailed { message } => (
                BridgeStage::Finished,
                BridgeAction::MarkFailed { message: message },
            ),
            _ => (BridgeStage::Stopped, BridgeAction::Stop),
        },
        BridgeStage::StoringRecordedProof => match event {
            BridgeEvent::Done => (
                BridgeStage::Finished,
                BridgeAction::Forward { watch_shutdown: false },
            ),
            _ => (BridgeStage::Aborted, BridgeAction::Abort),
        },
        BridgeStage::CheckingStoredPie => match event {
            BridgeEvent::PieFound { n_steps } => (
                BridgeStage::SubmittingProof,
                BridgeAction::SubmitProof { job_size: job_size_for_steps(n_steps as int) },
            ),
            _ => (
                BridgeStage::CheckingTraceQuery,
                BridgeAction::LoadQueryId { query: Query::BridgeTrace },
            ),
        },
        BridgeStage::CheckingTraceQuery => match event {
            BridgeEvent::QueryFound { query_id } => (
                BridgeStage::AwaitingTrace { query_id: query_id },
                BridgeAction::AwaitQuery { query_id: query_id },
            ),
            _ => (BridgeStage::SubmittingTrace, BridgeAction::SubmitTrace),
        },
        BridgeStage::SubmittingTrace => match event {
            BridgeEvent::Submitted { query_id } => (
                BridgeStage::RecordingTraceQuery { query_id: query_id },
                BridgeAction::RecordQueryId { query: Query::BridgeTrace, query_id: query_id },
            ),
            _ => (BridgeStage::Aborted, BridgeAction::Abort),
        },
        BridgeStage::RecordingTraceQuery { query_id } => (
            BridgeStage::AwaitingTrace { query_id: query_id },
            BridgeAction::AwaitQuery { query_id: query_id },
        ),
        BridgeStage::AwaitingTrace { query_id } => match event {
            BridgeEvent::QueryDone => (
                BridgeStage::StoringPie,
                BridgeAction::FetchAndStorePie { query_id: query_id },
            ),
            BridgeEvent::QueryFailed { message } => (
                BridgeStage::Finished,
                BridgeAction::MarkFailed { message: message },
            ),
            _ => (BridgeStage::Stopped, BridgeAction::Stop),
        },
        BridgeStage::StoringPie => match event {
            BridgeEvent::PieStored { n_steps } => (
                BridgeStage::SubmittingProof,
                BridgeAction::SubmitProof { job_size: job_size_for_steps(n_steps as int) },
            ),
            _ => (BridgeStage::Aborted, BridgeAction::Abort),
        },
        BridgeStage::SubmittingProof => match event {
            BridgeEvent::Submitted { query_id } => (
                BridgeStage::RecordingProofQuery { query_id: query_id },
                BridgeAction::RecordQueryId { query: Query::BridgeProof, query_id: query_id },
            ),
            _ => (BridgeStage::Aborted, BridgeAction::Abort),
        },
        BridgeStage::RecordingProofQuery { query_id } => (
            BridgeStage::AwaitingProof { query_id: query_id },
            BridgeAction::AwaitQuery { query_id: query_id },
        ),
        BridgeStage::AwaitingProof { query_id } => match event {
            BridgeEvent::QueryDone => (
                BridgeStage::StoringProof,
                BridgeAction::FetchAndStoreProof { query_id: query_id },
            ),
            BridgeEvent::QueryFailed { message } => (
                BridgeStage::Finished,
                BridgeAction::MarkFailed { message: message },
            ),
            _ => (BridgeStage::Stopped, BridgeAction::Stop),
        },
        BridgeStage::StoringProof => match event {
            BridgeEvent::Done => (
                BridgeStage::Finished,
                BridgeAction::Forward { watch_shutdown: true },
            ),
            _ => (BridgeStage::Aborted, BridgeAction::Abort),
        },
        _ => (stage, BridgeAction::Stop),
    }
}

/// A measure that every transition strictly decreases, bounding the number of moves for a
/// block.
pub open spec fn bridge_rank(stage: BridgeStage) -> nat {
    match stage {
        BridgeStage::Start => 16,
        BridgeStage::LoadingStateUpdate => 15,
        BridgeStage::CheckingStoredProof => 14,
        BridgeStage::CheckingProofQuery => 13,
        BridgeStage::AwaitingRecordedProof { .. } => 2,
        BridgeStage::StoringRecordedProof => 1,
        BridgeStage::CheckingStoredPie => 12,
        BridgeStage::CheckingTraceQuery => 11,
        BridgeStage::SubmittingTrace => 10,
        BridgeStage::RecordingTraceQuery { .. } => 9,
        BridgeStage::AwaitingTrace { .. } => 8,
        BridgeStage::StoringPie => 7,
        BridgeStage::SubmittingProof => 6,
        BridgeStage::RecordingProofQuery { .. } => 5,
        BridgeStage::AwaitingProof { .. } => 4,
        BridgeStage::StoringProof => 3,
        _ => 0,
    }
}

impl BridgeStage {
    /// Moves the block along after `event`, returning what to do next.
    pub fn step(self, event: BridgeEvent) -> (r: (BridgeStage, BridgeAction))
        requires
            bridge_expects(self, event),
        ensures
            r == bridge_next(self, event),
    {
        match self {
            BridgeStage::Start => (BridgeStage::LoadingStateUpdate, BridgeAction::LoadStateUpdate),
            BridgeStage::LoadingStateUpdate => (
                BridgeStage::CheckingStoredProof,
                BridgeAction::LoadStoredProof,
            ),
            BridgeStage::CheckingStoredProof => match event {
                BridgeEvent::ValidProofFound => (
                    BridgeStage::Finished,
                    BridgeAction::Forward { watch_shutdown: false },
                ),
                _ => (
                    BridgeStage::CheckingProofQuery,
                    BridgeAction::LoadQueryId { query: Query::BridgeProof },
                ),
            },
            BridgeStage::CheckingProofQuery => match event {
                BridgeEvent::QueryFound { query_id } => (
                    BridgeStage::AwaitingRecordedProof { query_id: query_id.clone() },
                    BridgeAction::AwaitQuery { query_id },
                ),
                _ => (BridgeStage::CheckingStoredPie, BridgeAction::LoadStoredPie),
            },
            BridgeStage::AwaitingRecordedProof { query_id } => match event {
                BridgeEvent::QueryDone => (
                    BridgeStage::StoringRecordedProof,
                    BridgeAction::FetchAndStoreProof { query_id },
                ),
                BridgeEvent::QueryFailed { message } => (
                    BridgeStage::Finished,
                    BridgeAction::MarkFailed { message },
                ),
                _ => (BridgeStage::Stopped, BridgeAction::Stop),
            },
            BridgeStage::StoringRecordedProof => match event {
                BridgeEvent::Done => (
                    BridgeStage::Finished,
                    BridgeAction::Forward { watch_shutdown: false },
                ),
                _ => (BridgeStage::Aborted, BridgeAction::Abort),
            },
            BridgeStage::CheckingStoredPie => match event {
                BridgeEvent::PieFound { n_steps } => (
                    BridgeStage::SubmittingProof,
                    BridgeAction::SubmitProof { job_size: calculate_job_size(n_steps) },
                ),
                _ => (
                    BridgeStage::CheckingTraceQuery,
                    BridgeAction::LoadQueryId { query: Query::BridgeTrace },
                ),
            },
            BridgeStage::CheckingTraceQuery => match event {
                BridgeEvent::QueryFound { query_id } => (
                    BridgeStage::AwaitingTrace { query_id: query_id.clone() },
                    BridgeAction::AwaitQuery { query_id },
                ),
                _ => (BridgeStage::SubmittingTrace, BridgeAction::SubmitTrace),
            },
            BridgeStage::SubmittingTrace => match event {
                BridgeEvent::Submitted { query_id } => (
                    BridgeStage::RecordingTraceQuery { query_id: query_id.clone() },
                    BridgeAction::RecordQueryId { query: Query::BridgeTrace, query_id },
                ),
                _ => (BridgeStage::Aborted, BridgeAction::Abort),
            },
            BridgeStage::RecordingTraceQuery { query_id } => (
                BridgeStage::AwaitingTrace { query_id: query_id.clone() },
                BridgeAction::AwaitQuery { query_id },
            ),
            BridgeStage::AwaitingTrace { query_id } => match event {
                BridgeEvent::QueryDone => (
                    BridgeStage::StoringPie,
                    BridgeAction::FetchAndStorePie { query_id },
                ),
                BridgeEvent::QueryFailed { message } => (
                    BridgeStage::Finished,
                    BridgeAction::MarkFailed { message },
                ),
                _ => (BridgeStage::Stopped, BridgeAction::Stop),
            },
            BridgeStage::StoringPie => match event {
                BridgeEvent::PieStored { n_steps } => (
                    BridgeStage::SubmittingProof,
                    BridgeAction::SubmitProof { job_size: calculate_job_size(n_steps) },
                ),
                _ => (BridgeStage::Aborted, BridgeAction::Abort),
            },
            BridgeStage::SubmittingProof => match event {
                BridgeEvent::Submitted { query_id } => (
                    BridgeStage::RecordingProofQuery { query_id: query_id.clone() },
                    BridgeAction::RecordQueryId { query: Query::BridgeProof, query_id },
                ),
                _ => (BridgeStage::Aborted, BridgeAction::Abort),
            },
            BridgeStage::RecordingProofQuery { query_id } => (
                BridgeStage::AwaitingProof { query_id: query_id.clone() },
                BridgeAction::AwaitQuery { query_id },
            ),
            BridgeStage::AwaitingProof { query_id } => match event {
                BridgeEvent::QueryDone => (
                    BridgeStage::StoringProof,
                    BridgeAction::FetchAndStoreProof { query_id },
                ),
                BridgeEvent::QueryFailed { message } => (
                    BridgeStage::Finished,
                    BridgeAction::MarkFailed { message },
                ),
                _ => (BridgeStage::Stopped, BridgeAction::Stop),
            },
            BridgeStage::StoringProof => match event {
                BridgeEvent::Done => (
                    BridgeStage::Finished,
                    BridgeAction::Forward { watch_shutdown: true },
                ),
                _ => (BridgeStage::Aborted, BridgeAction::Abort),
            },
            BridgeStage::Finished => (BridgeStage::Finished, BridgeAction::Stop),
            BridgeStage::Stopped => (BridgeStage::Stopped, BridgeAction::Stop),
            BridgeStage::Aborted => (BridgeStage::Aborted, BridgeAction::Abort),
        }
    }
}

/// Every transition moves to a lower rank, so a block needs at most sixteen actions before the
/// worker is done with it.
pub proof fn lemma_bridge_progress(stage: BridgeStage, event: BridgeEvent)
    requires
        bridge_expects(stage, event),
    ensures
        bridge_rank(bridge_next(stage, event).0) < bridge_rank(stage),
        bridge_rank(stage) <= 16,
{
}

/// A query id handed back by a submission is recorded by the very next action, and the worker
/// only ever waits on a query whose id was found recorded or has just been recorded.
pub proof fn lemma_bridge_queries_recorded_before_awaited(stage: BridgeStage, event: BridgeEvent)
    requires
        bridge_expects(stage, event),
    ensures
        (event is Submitted && stage is SubmittingTrace) ==> bridge_next(stage, event).1 == (
        BridgeAction::RecordQueryId { query: Query::BridgeTrace, query_id: event->Submitted_query_id }),
        (event is Submitted && stage is SubmittingProof) ==> bridge_next(stage, event).1 == (
        BridgeAction::RecordQueryId { query: Query::BridgeProof, query_id: event->Submitted_query_id }),
        bridge_next(stage, event).1 matches BridgeAction::AwaitQuery { query_id } ==> (
        event == (BridgeEvent::QueryFound { query_id: query_id }) || (event is Done && (stage
            == (BridgeStage::RecordingTraceQuery { query_id: query_id }) || stage
            == (BridgeStage::RecordingProofQuery { query_id: query_id })))),
{
}

/// A valid bridge proof found in the database is forwarded at once: restarting a worker never
/// resubmits a block whose proof is stored.
pub proof fn lemma_bridge_stored_proof_reused()
    ensures
        bridge_next(BridgeStage::CheckingStoredProof, BridgeEvent::ValidProofFound) == (
        BridgeStage::Finished, BridgeAction::Forward { watch_shutdown: false }),
{
}

/// While waiting on a query, a failure records the block as failed with the query's message and
/// finishes the block, and a requested shutdown stops the worker.
pub proof fn lemma_bridge_wait_outcomes(stage: BridgeStage, event: BridgeEvent)
    requires
        bridge_expects(stage, event),
        stage is AwaitingRecordedProof || stage is AwaitingTrace || stage is AwaitingProof,
    ensures
        event matches BridgeEvent::QueryFailed { message } ==> bridge_next(stage, event) == (
        BridgeStage::Finished, BridgeAction::MarkFailed { message: message }),
        event is Shutdown ==> bridge_next(stage, event) == (BridgeStage::Stopped, BridgeAction::Stop),
{
}

/// A request to the outside world while proving one block through the layout bridge, with
/// everything it needs.
#[derive(Debug)]
pub enum BridgeCommand {
    /// Load the block's state update from the database.
    LoadStateUpdate { block_id: u32 },
    /// Look up the block's stored bridge proof and check that it parses.
    LoadStoredProof { block_id: u32 },
    /// Look up the id recorded for the block's query of the given kind.
    LoadQueryId { block_id: u32, query: Query },
    /// Look up the block's stored layout bridge PIE.
    LoadStoredPie { block_id: u32 },
    /// Submit a trace generation of the layout bridge program on `input`, labelled `label`.
    SubmitTrace { label: String, input: String },
    /// Submit the proof generation of the stored PIE.
    SubmitProof { layout: Layout, label: String, job_size: AtlanticJobSize },
    /// Record the id of a submitted query for the block.
    RecordQueryId { block_id: u32, query: Query, query_id: String },
    /// Wait until the query finishes, fails, or shutdown is requested.
    AwaitQuery { query_id: String },
    /// Fetch the PIE of the finished trace query and store it for the block.
    FetchAndStorePie { block_id: u32, query_id: String },
    /// Fetch the proof of the finished proof query and store it for the block.
    FetchAndStoreProof { block_id: u32, query_id: String },
    /// Hand `block` downstream; when `watch_shutdown`, a shutdown requested meanwhile stops the
    /// worker instead.
    Forward { block: BlockInfo, watch_shutdown: bool },
    /// Record the block as failed with this message.
    MarkFailed { block_id: u32, message: String },
    /// Stop the worker.
    Stop,
    /// Stop the worker with an error.
    Abort,
}

/// The request that carries out `kind` for the block `block_number`, whose SNOS proof is the
/// text `snos_proof` and whose state update is `state_update`.
pub open spec fn bridge_command_for(
    block_number: u64,
    snos_proof: Seq<char>,
    state_update: Option<starknet::core::types::StateUpdate>,
    kind: BridgeAction,
    cmd: BridgeCommand,
) -> bool {
    let id = block_number as u32;
    match kind {
        BridgeAction::LoadStateUpdate => cmd == BridgeCommand::LoadStateUpdate { block_id: id },
        BridgeAction::LoadStoredProof => cmd == BridgeCommand::LoadStoredProof { block_id: id },
        BridgeAction::LoadQueryId { query } => cmd == BridgeCommand::LoadQueryId { block_id: id, query },
        BridgeAction::LoadStoredPie => cmd == BridgeCommand::LoadStoredPie { block_id: id },
        BridgeAction::SubmitTrace => {
            &&& cmd is SubmitTrace
            &&& cmd->SubmitTrace_label@ == "layout-trace-"@ + spec_decimal(block_number as nat)
            &&& cmd->SubmitTrace_input@ == "{\n\t\"proof\": "@ + snos_proof + "\n}"@
        },
        BridgeAction::SubmitProof { job_size } => {
            &&& cmd is SubmitProof
            &&& cmd->SubmitProof_layout == Layout::recursive_with_poseidon
            &&& cmd->SubmitProof_label@ == "layout-"@ + spec_decimal(block_number as nat)
            &&& cmd->SubmitProof_job_size == job_size
        },
        BridgeAction::RecordQueryId { query, query_id } => cmd == BridgeCommand::RecordQueryId {
            block_id: id,
            query,
            query_id,
        },
        BridgeAction::AwaitQuery { query_id } => cmd == BridgeCommand::AwaitQuery { query_id },
        BridgeAction::FetchAndStorePie { query_id } => cmd == BridgeCommand::FetchAndStorePie {
            block_id: id,
            query_id,
        },
        BridgeAction::FetchAndStoreProof { query_id } => cmd == BridgeCommand::FetchAndStoreProof {
            block_id: id,
            query_id,
        },
        BridgeAction::Forward { watch_shutdown } => cmd == BridgeCommand::Forward {
            block: BlockInfo {
                number: block_number,
                status: BlockStatus::SnosProofGenerated,
                state_update,
            },
            watch_shutdown,
        },
        BridgeAction::MarkFailed { message } => cmd == BridgeCommand::MarkFailed {
            block_id: id,
            message,
        },
        BridgeAction::Stop => cmd is Stop,
        BridgeAction::Abort => cmd is Abort,
    }
}

/// The layout bridge proving of one block: where it stands and what it carries from one step to
/// the next.
#[derive(Debug)]
pub struct BridgeJob {
    block_number: u64,
    snos_proof: String,
    state_update: Option<starknet::core::types::StateUpdate>,
    stage: BridgeStage,
}

impl BridgeJob {
    /// The number of the block.
    pub closed spec fn block_number(&self) -> u64 {
        self.block_number
    }

    /// The text of the block's SNOS proof.
    pub closed spec fn snos_proof(&self) -> Seq<char> {
        self.snos_proof@
    }

    /// The block's state update, once loaded.
    pub closed spec fn state_update(&self) -> Option<starknet::core::types::StateUpdate> {
        self.state_update
    }

    /// Where the block stands.
    pub closed spec fn stage(&self) -> BridgeStage {
        self.stage
    }

    /// Takes up the block `block_number` whose SNOS proof is `snos_proof`; its number must fit
    /// the database's 32-bit block ids.
    pub fn new(block_number: u64, snos_proof: String) -> (r: BridgeJob)
        requires
            block_number <= u32::MAX,
        ensures
            r.block_number() == block_number,
            r.snos_proof() == snos_proof@,
            r.state_update() is None,
            r.stage() == BridgeStage::Start,
    {
        BridgeJob { block_number, snos_proof, state_update: None, stage: BridgeStage::Start }
    }

    /// The request carrying out `kind` for this block.
    fn command(&mut self, kind: BridgeAction) -> (r: BridgeCommand)
        requires
            old(self).block_number() <= u32::MAX,
        ensures
            bridge_command_for(
                old(self).block_number(),
                old(self).snos_proof(),
                old(self).state_update(),
                kind,
                r,
            ),
            final(self).block_number() == old(self).block_number(),
            final(self).snos_proof() == old(self).snos_proof(),
            final(self).stage() == old(self).stage(),
            !(kind is Forward) ==> final(self).state_update() == old(self).state_update(),
    {
        let id = self.block_number as u32;
        match kind {
            BridgeAction::LoadStateUpdate => BridgeCommand::LoadStateUpdate { block_id: id },
            BridgeAction::LoadStoredProof => BridgeCommand::LoadStoredProof { block_id: id },
            BridgeAction::LoadQueryId { query } => BridgeCommand::LoadQueryId { block_id: id, query },
            BridgeAction::LoadStoredPie => BridgeCommand::LoadStoredPie { block_id: id },
            BridgeAction::SubmitTrace => BridgeCommand::SubmitTrace {
                label: layout_trace_label(self.block_number),
                input: layout_bridge_input(self.snos_proof.as_str()),
            },
            BridgeAction::SubmitProof { job_size } => BridgeCommand::SubmitProof {
                layout: Layout::recursive_with_poseidon,
                label: layout_label(self.block_number),
                job_size,
            },
            BridgeAction::RecordQueryId { query, query_id } => BridgeCommand::RecordQueryId {
                block_id: id,
                query,
                query_id,
            },
            BridgeAction::AwaitQuery { query_id } => BridgeCommand::AwaitQuery { query_id },
            BridgeAction::FetchAndStorePie { query_id } => BridgeCommand::FetchAndStorePie {
                block_id: id,
                query_id,
            },
            BridgeAction::FetchAndStoreProof { query_id } => BridgeCommand::FetchAndStoreProof {
                block_id: id,
                query_id,
            },
            BridgeAction::Forward { watch_shutdown } => {
                let mut state_update = None;
                std::mem::swap(&mut state_update, &mut self.state_update);
                BridgeCommand::Forward {
                    block: BlockInfo {
                        number: self.block_number,
                        status: BlockStatus::SnosProofGenerated,
                        state_update,
                    },
                    watch_shutdown,
                }
            },
            BridgeAction::MarkFailed { message } => BridgeCommand::MarkFailed { block_id: id, message },
            BridgeAction::Stop => BridgeCommand::Stop,
            BridgeAction::Abort => BridgeCommand::Abort,
        }
    }

    /// Starts the block: its state update is loaded first.
    pub fn start(&mut self) -> (r: BridgeCommand)
        requires
            old(self).stage() == BridgeStage::Start,
            old(self).block_number() <= u32::MAX,
        ensures
            r == (BridgeCommand::LoadStateUpdate { block_id: old(self).block_number() as u32 }),
            final(self).stage() == BridgeStage::LoadingStateUpdate,
            final(self).block_number() == old(self).block_number(),
            final(self).snos_proof() == old(self).snos_proof(),
            final(self).state_update() == old(self).state_update(),
    {
        self.stage = BridgeStage::LoadingStateUpdate;
        BridgeCommand::LoadStateUpdate { block_id: self.block_number as u32 }
    }

    /// Records the loaded state update of the block, and looks up its stored bridge proof.
    pub fn state_update_loaded(&mut self, state_update: starknet::core::types::StateUpdate) -> (r: BridgeCommand)
        requires
            old(self).stage() == BridgeStage::LoadingStateUpdate,
            old(self).block_number() <= u32::MAX,
        ensures
            r == (BridgeCommand::LoadStoredProof { block_id: old(self).block_number() as u32 }),
            final(self).stage() == BridgeStage::CheckingStoredProof,
            final(self).state_update() == Some(state_update),
            final(self).block_number() == old(self).block_number(),
            final(self).snos_proof() == old(self).snos_proof(),
    {
        self.state_update = Some(state_update);
        self.stage = BridgeStage::CheckingStoredProof;
        BridgeCommand::LoadStoredProof { block_id: self.block_number as u32 }
    }

    /// Moves the block along after `event`, following [`bridge_next`], and returns the request
    /// that carries out the next action with its arguments: the block's id, the trace label
    /// `layout-trace-{n}` and input wrapping the SNOS proof, the proof label `layout-{n}` with
    /// the `recursive_with_poseidon` layout and the job size of the PIE, and, when the block is
    /// done, the block itself with status `SnosProofGenerated` and its loaded state update.
    pub fn step(&mut self, event: BridgeEvent) -> (r: BridgeCommand)
        requires
            old(self).block_number() <= u32::MAX,
            !(old(self).stage() is Start),
            !(old(self).stage() is LoadingStateUpdate),
            bridge_expects(old(self).stage(), event),
        ensures
            final(self).stage() == bridge_next(old(self).stage(), event).0,
            bridge_command_for(
                old(self).block_number(),
                old(self).snos_proof(),
                old(self).state_update(),
                bridge_next(old(self).stage(), event).1,
                r,
            ),
            final(self).block_number() == old(self).block_number(),
            final(self).snos_proof() == old(self).snos_proof(),
            !(bridge_next(old(self).stage(), event).1 is Forward) ==> final(self).state_update()
                == old(self).state_update(),
    {
        let mut stage = BridgeStage::Finished;
        std::mem::swap(&mut stage, &mut self.stage);
        let (next, kind) = stage.step(event);
        self.stage = next;
        self.command(kind)
    }
}

/// A block whose valid bridge proof is stored is handed on at once, as the block with status
/// `SnosProofGenerated` and the state update loaded for it, without any submission.
pub proof fn lemma_stored_proof_forwards_loaded_block(
    block_number: u64,
    snos_proof: Seq<char>,
    state_update: starknet::core::types::StateUpdate,
    cmd: BridgeCommand,
)
    requires
        bridge_command_for(
            block_number,
            snos_proof,
            Some(state_update),
            bridge_next(BridgeStage::CheckingStoredProof, BridgeEvent::ValidProofFound).1,
            cmd,
        ),
    ensures
        bridge_next(BridgeStage::CheckingStoredProof, BridgeEvent::ValidProofFound).0
            == BridgeStage::Finished,
        cmd == (BridgeCommand::Forward {
            block: BlockInfo {
                number: block_number,
                status: BlockStatus::SnosProofGenerated,
                state_update: Some(state_update),
            },
            watch_shutdown: false,
        }),
{
}

/// The worker hands a block on only once its bridge proof is in storage: either a valid proof
/// was found stored, or a fetched proof was just stored.
pub proof fn lemma_bridge_forwards_only_stored_proofs(stage: BridgeStage, event: BridgeEvent)
    requires
        bridge_expects(stage, event),
        bridge_next(stage, event).1 is Forward,
    ensures
        (stage is CheckingStoredProof && event is ValidProofFound) || ((stage is StoringRecordedProof
            || stage is StoringProof) && event is Done),
{
}

/// A query that finished is fetched next, under the id that was awaited: a proof query (recorded
/// earlier or just submitted) has its proof fetched and stored, a trace query its PIE.
pub proof fn lemma_bridge_finished_query_is_fetched(stage: BridgeStage, event: BridgeEvent)
    requires
        bridge_expects(stage, event),
        event is QueryDone,
    ensures
        stage matches BridgeStage::AwaitingRecordedProof { query_id } ==> bridge_next(stage, event)
            == (BridgeStage::StoringRecordedProof, BridgeAction::FetchAndStoreProof { query_id }),
        stage matches BridgeStage::AwaitingProof { query_id } ==> bridge_next(stage, event) == (
        BridgeStage::StoringProof, BridgeAction::FetchAndStoreProof { query_id }),
        stage matches BridgeStage::AwaitingTrace { query_id } ==> bridge_next(stage, event) == (
        BridgeStage::StoringPie, BridgeAction::FetchAndStorePie { query_id }),
{
}

/// The stage the worker moves to is the one that waits for the outcome of the action it asks
/// for: a query being awaited, fetched, submitted or recorded is waited on under the same id,
/// and the block is done with exactly when it is forwarded or marked failed.
pub proof fn lemma_bridge_next_stage_waits_on_action(stage: BridgeStage, event: BridgeEvent)
    requires
        bridge_expects(stage, event),
    ensures
        ({
            let (next, action) = bridge_next(stage, event);
            &&& action is LoadStoredProof <==> next is CheckingStoredProof
            &&& action == (BridgeAction::LoadQueryId { query: Query::BridgeProof }) <==> next
                is CheckingProofQuery
            &&& action == (BridgeAction::LoadQueryId { query: Query::BridgeTrace }) <==> next
                is CheckingTraceQuery
            &&& action is LoadStoredPie <==> next is CheckingStoredPie
            &&& action is SubmitTrace <==> next is SubmittingTrace
            &&& action is SubmitProof <==> next is SubmittingProof
            &&& action matches BridgeAction::RecordQueryId { query, query_id } ==> (query
                == Query::BridgeTrace && next == (BridgeStage::RecordingTraceQuery { query_id })) || (
            query == Query::BridgeProof && next == (BridgeStage::RecordingProofQuery { query_id }))
            &&& action matches BridgeAction::AwaitQuery { query_id } ==> next == (
            BridgeStage::AwaitingRecordedProof { query_id }) || next == (BridgeStage::AwaitingTrace {
                query_id,
            }) || next == (BridgeStage::AwaitingProof { query_id })
            &&& action is FetchAndStorePie <==> next is StoringPie
            &&& action is FetchAndStoreProof <==> (next is StoringRecordedProof || next is StoringProof)
            &&& (action is Forward || action is MarkFailed) <==> next is Finished
            &&& action is Stop <==> next is Stopped
            &&& action is Abort <==> next is Aborted
        }),
{
}

/// What leads to each action: a fetch only follows the end of a wait on that very query; a proof
/// is submitted only with a PIE at hand, at the job size of its step count; a trace is submitted
/// only when no proof, proof query, PIE or trace query is recorded; a block is marked failed
/// only with the message of its failed query; the worker stops only on shutdown and aborts only
/// when a fetch failed.
pub proof fn lemma_bridge_action_origins(stage: BridgeStage, event: BridgeEvent)
    requires
        bridge_expects(stage, event),
    ensures
        ({
            let action = bridge_next(stage, event).1;
            &&& action matches BridgeAction::FetchAndStoreProof { query_id } ==> event is QueryDone && (
            stage == (BridgeStage::AwaitingRecordedProof { query_id }) || stage == (
            BridgeStage::AwaitingProof { query_id }))
            &&& action matches BridgeAction::FetchAndStorePie { query_id } ==> event is QueryDone
                && stage == (BridgeStage::AwaitingTrace { query_id })
            &&& action matches BridgeAction::SubmitProof { job_size } ==> (stage is CheckingStoredPie
                && event is PieFound && job_size == job_size_for_steps(event->PieFound_n_steps as int)) || (
            stage is StoringPie && event is PieStored && job_size == job_size_for_steps(
                event->PieStored_n_steps as int,
            ))
            &&& action is SubmitTrace ==> stage is CheckingTraceQuery && event is QueryMissing
            &&& action is LoadStoredPie ==> stage is CheckingProofQuery && event is QueryMissing
            &&& action matches BridgeAction::MarkFailed { message } ==> event == (
            BridgeEvent::QueryFailed { message })
            &&& action is Stop ==> event is Shutdown
            &&& action is Abort ==> event is FetchFailed
            &&& event is FetchFailed ==> bridge_next(stage, event) == (BridgeStage::Aborted, BridgeAction::Abort)
        }),
{
}

} // verus!
