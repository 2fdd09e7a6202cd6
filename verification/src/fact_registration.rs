use vstd::prelude::*;

use crate::settlement::block_id;
use crate::storage::BlockStatus;

verus! {

/// How a fact registrar proves a block's bridge proof before settlement.
#[derive(Debug, Clone, Copy, PartialEq, Eq, Structural)]
pub enum RegistrarKind {
    /// The proof is verified on the on-chain integrity verifier, once.
    Integrity,
    /// No on-chain verification (development and testing).
    Noop,
}

/// Where the registration of one block stands.
#[derive(Debug, Clone, Copy, PartialEq, Eq, Structural)]
pub enum RegistrationStage {
    /// Nothing done yet for the block.
    Start { block_number: u64 },
    /// Waiting for the block's bridge proof to be loaded from the database.
    LoadingProof { block_id: u32 },
    /// Waiting for the loaded proof to be decoded as UTF-8 text.
    DecodingProof { block_id: u32 },
    /// Waiting for the proof text to be parsed and its output read; `status` is the block's
    /// status when it was read first.
    ParsingProof { block_id: u32, status: Option<BlockStatus> },
    /// Waiting for the block's status to be read.
    LoadingStatus { block_id: u32 },
    /// Waiting for the proof to be verified on the integrity verifier.
    Verifying { block_id: u32 },
    /// The registration is over.
    Finished,
}

/// What the outside world reports after a registration action.
#[derive(Debug, Clone, Copy, PartialEq, Eq, Structural)]
pub enum RegistrationEvent {
    /// The requested action completed.
    Done,
    /// No bridge proof is stored for the block.
    Missing,
    /// The requested action failed.
    Failed,
    /// The block's status was read.
    Status { status: BlockStatus },
}

/// What the registrar does next.
#[derive(Debug, Clone, Copy, PartialEq, Eq, Structural)]
pub enum RegistrationAction {
    /// Load the block's bridge proof.
    LoadProof { block_id: u32 },
    /// Decode the loaded proof as UTF-8 text.
    DecodeProof,
    /// Parse the proof and read its program output.
    ParseProof,
    /// Read the block's status.
    LoadStatus { block_id: u32 },
    /// Verify the proof on the integrity verifier and record the block as verified.
    Verify { block_id: u32 },
    /// Build the `update_state` call from the program output: the block is settled.
    BuildCall,
    /// Skip the block: it is not settled now.
    Skip,
    /// Report a failure for the block.
    Fail,
}

/// The events each registration stage waits for.
pub open spec fn registration_expects(stage: RegistrationStage, event: RegistrationEvent) -> bool {
    match stage {
        RegistrationStage::Start { .. } => event is Done,
        RegistrationStage::LoadingProof { .. } => event is Done || event is Missing,
        RegistrationStage::DecodingProof { .. } => event is Done || event is Failed,
        RegistrationStage::ParsingProof { .. } => event is Done || event is Failed,
        RegistrationStage::LoadingStatus { .. } => event is Status || event is Failed,
        RegistrationStage::Verifying { .. } => event is Done || event is Failed,
        RegistrationStage::Finished => false,
    }
}

/// The transition table of a fact registrar of the given kind. The integrity registrar parses
/// the proof before reading the status; the no-op registrar reads the status first and parses
/// only the proof of a block it settles.
pub open spec fn registration_next(kind: RegistrarKind, stage: RegistrationStage, event: RegistrationEvent) -> (
    RegistrationStage,
    RegistrationAction,
) {
    match stage {
        RegistrationStage::Start { block_number } => if block_number <= u32::MAX {
            (
                RegistrationStage::LoadingProof { block_id: block_number as u32 },
                RegistrationAction::LoadProof { block_id: block_number as u32 },
            )
        } else {
            (RegistrationStage::Finished, RegistrationAction::Fail)
        },
        RegistrationStage::LoadingProof { block_id } => match event {
            RegistrationEvent::Done => (
                RegistrationStage::DecodingProof { block_id },
                RegistrationAction::DecodeProof,
            ),
            _ => (RegistrationStage::Finished, RegistrationAction::Skip),
        },
        RegistrationStage::DecodingProof { block_id } => match event {
            RegistrationEvent::Done => match kind {
                RegistrarKind::Integrity => (
                    RegistrationStage::ParsingProof { block_id, status: None },
                    RegistrationAction::ParseProof,
                ),
                RegistrarKind::Noop => (
                    RegistrationStage::LoadingStatus { block_id },
                    RegistrationAction::LoadStatus { block_id },
                ),
            },
            _ => (RegistrationStage::Finished, RegistrationAction::Fail),
        },
        RegistrationStage::ParsingProof { block_id, status } => match event {
            RegistrationEvent::Done => match status {
                None => (
                    RegistrationStage::LoadingStatus { block_id },
                    RegistrationAction::LoadStatus { block_id },
                ),
                Some(_) => (RegistrationStage::Finished, RegistrationAction::BuildCall),
            },
            _ => (RegistrationStage::Finished, RegistrationAction::Fail),
        },
        RegistrationStage::LoadingStatus { block_id } => match event {
            RegistrationEvent::Status { status } => match kind {
                RegistrarKind::Integrity => match status {
                    BlockStatus::BridgeProofGenerated => (
                        RegistrationStage::Verifying { block_id },
                        RegistrationAction::Verify { block_id },
                    ),
                    BlockStatus::VerifiedProof => (
                        RegistrationStage::Finished,
                        RegistrationAction::BuildCall,
                    ),
                    _ => (RegistrationStage::Finished, RegistrationAction::Skip),
                },
                RegistrarKind::Noop => if status is BridgeProofGenerated || status is VerifiedProof {
                    (
                        RegistrationStage::ParsingProof { block_id, status: Some(status) },
                        RegistrationAction::ParseProof,
                    )
                } else {
                    (RegistrationStage::Finished, RegistrationAction::Skip)
                },
            },
            _ => (RegistrationStage::Finished, RegistrationAction::Fail),
        },
        RegistrationStage::Verifying { .. } => match event {
            RegistrationEvent::Done => (RegistrationStage::Finished, RegistrationAction::BuildCall),
            _ => (RegistrationStage::Finished, RegistrationAction::Fail),
        },
        RegistrationStage::Finished => (RegistrationStage::Finished, RegistrationAction::Skip),
    }
}

impl RegistrationStage {
    /// Moves the registration of the block along after `event`, returning what to do next.
    pub fn step(self, kind: RegistrarKind, event: RegistrationEvent) -> (r: (
        RegistrationStage,
        RegistrationAction,
    ))
        requires
            registration_expects(self, event),
        ensures
            r == registration_next(kind, self, event),
    {
        match self {
            RegistrationStage::Start { block_number } => match block_id(block_number) {
                Some(id) => (
                    RegistrationStage::LoadingProof { block_id: id },
                    RegistrationAction::LoadProof { block_id: id },
                ),
                None => (RegistrationStage::Finished, RegistrationAction::Fail),
            },
            RegistrationStage::LoadingProof { block_id } => match event {
                RegistrationEvent::Done => (
                    RegistrationStage::DecodingProof { block_id },
                    RegistrationAction::DecodeProof,
                ),
                _ => (RegistrationStage::Finished, RegistrationAction::Skip),
            },
            RegistrationStage::DecodingProof { block_id } => match event {
                RegistrationEvent::Done => match kind {
                    RegistrarKind::Integrity => (
                        RegistrationStage::ParsingProof { block_id, status: None },
                        RegistrationAction::ParseProof,
                    ),
                    RegistrarKind::Noop => (
                        RegistrationStage::LoadingStatus { block_id },
                        RegistrationAction::LoadStatus { block_id },
                    ),
                },
                _ => (RegistrationStage::Finished, RegistrationAction::Fail),
            },
            RegistrationStage::ParsingProof { block_id, status } => match event {
                RegistrationEvent::Done => match status {
                    None => (
                        RegistrationStage::LoadingStatus { block_id },
                        RegistrationAction::LoadStatus { block_id },
                    ),
                    Some(_) => (RegistrationStage::Finished, RegistrationAction::BuildCall),
                },
                _ => (RegistrationStage::Finished, RegistrationAction::Fail),
            },
            RegistrationStage::LoadingStatus { block_id } => match event {
                RegistrationEvent::Status { status } => match kind {
                    RegistrarKind::Integrity => match status {
                        BlockStatus::BridgeProofGenerated => (
                            RegistrationStage::Verifying { block_id },
                            RegistrationAction::Verify { block_id },
                        ),
                        BlockStatus::VerifiedProof => (
                            RegistrationStage::Finished,
                            RegistrationAction::BuildCall,
                        ),
                        _ => (RegistrationStage::Finished, RegistrationAction::Skip),
                    },
                    RegistrarKind::Noop => match status {
                        BlockStatus::BridgeProofGenerated | BlockStatus::VerifiedProof => (
                            RegistrationStage::ParsingProof { block_id, status: Some(status) },
                            RegistrationAction::ParseProof,
                        ),
                        _ => (RegistrationStage::Finished, RegistrationAction::Skip),
                    },
                },
                _ => (RegistrationStage::Finished, RegistrationAction::Fail),
            },
            RegistrationStage::Verifying { .. } => match event {
                RegistrationEvent::Done => (
                    RegistrationStage::Finished,
                    RegistrationAction::BuildCall,
                ),
                _ => (RegistrationStage::Finished, RegistrationAction::Fail),
            },
            RegistrationStage::Finished => (RegistrationStage::Finished, RegistrationAction::Skip),
        }
    }
}

/// The stages a registrar of the given kind can be in: the integrity registrar parses before it
/// knows the status, the no-op registrar only parses the proof of a block it accepted and never
/// verifies.
pub open spec fn registration_consistent(kind: RegistrarKind, stage: RegistrationStage) -> bool {
    match stage {
        RegistrationStage::ParsingProof { status, .. } => match kind {
            RegistrarKind::Integrity => status is None,
            RegistrarKind::Noop => status matches Some(s) && (s is BridgeProofGenerated
                || s is VerifiedProof),
        },
        RegistrationStage::Verifying { .. } => kind is Integrity,
        _ => true,
    }
}

/// Every move keeps a registration consistent; a registration starts consistent, since only
/// parsing and verifying stages are constrained.
pub proof fn lemma_registration_stays_consistent(kind: RegistrarKind, stage: RegistrationStage, event: RegistrationEvent)
    requires
        registration_consistent(kind, stage),
        registration_expects(stage, event),
    ensures
        registration_consistent(kind, registration_next(kind, stage, event).0),
{
}

/// How far a stage is from the end of the registration; every transition lowers it.
pub open spec fn registration_rank(stage: RegistrationStage) -> nat {
    match stage {
        RegistrationStage::Start { .. } => 6,
        RegistrationStage::LoadingProof { .. } => 5,
        RegistrationStage::DecodingProof { .. } => 4,
        RegistrationStage::ParsingProof { status, .. } => if status is None {
            3
        } else {
            1
        },
        RegistrationStage::LoadingStatus { .. } => 2,
        RegistrationStage::Verifying { .. } => 1,
        RegistrationStage::Finished => 0,
    }
}

/// A registration ends after at most six moves.
pub proof fn lemma_registration_progress(kind: RegistrarKind, stage: RegistrationStage, event: RegistrationEvent)
    requires
        registration_expects(stage, event),
    ensures
        registration_rank(registration_next(kind, stage, event).0) < registration_rank(stage),
{
}

/// A block is settled only when its bridge proof is known good: the integrity registrar builds
/// the call after verifying a freshly generated proof or for a block already verified, and the
/// no-op registrar only for a block whose bridge proof was generated or verified, once the proof
/// parsed.
pub proof fn lemma_settled_only_when_proof_accepted(kind: RegistrarKind, stage: RegistrationStage, event: RegistrationEvent)
    requires
        registration_consistent(kind, stage),
        registration_expects(stage, event),
        registration_next(kind, stage, event).1 is BuildCall,
    ensures
        kind is Integrity ==> (stage is Verifying && event is Done) || (stage is LoadingStatus
            && event == (RegistrationEvent::Status { status: BlockStatus::VerifiedProof })),
        kind is Noop ==> event is Done && stage is ParsingProof && (stage->ParsingProof_status
            is Some) && (stage->ParsingProof_status->0 is BridgeProofGenerated
            || stage->ParsingProof_status->0 is VerifiedProof),
{
}

/// A block whose bridge proof is not stored is skipped, not failed.
pub proof fn lemma_missing_proof_skips(kind: RegistrarKind, block_id: u32)
    ensures
        registration_next(kind, RegistrationStage::LoadingProof { block_id }, RegistrationEvent::Missing)
            == (RegistrationStage::Finished, RegistrationAction::Skip),
{
}

/// The integrity registrar verifies a proof only for a block whose bridge proof was generated
/// and not yet verified: after a restart, a verified block is not verified again.
pub proof fn lemma_integrity_verifies_once(block_id: u32, status: BlockStatus)
    ensures
        registration_next(
            RegistrarKind::Integrity,
            RegistrationStage::LoadingStatus { block_id },
            RegistrationEvent::Status { status },
        ).1 is Verify <==> status is BridgeProofGenerated,
{
}

/// The no-op registrar settles a block exactly when its bridge proof was generated or already
/// verified: reading any other status skips the block, while either of these two statuses leads
/// to the parsing of the proof and, once it parsed, to the settlement call.
pub proof fn lemma_noop_settles_generated_or_verified(block_id: u32, status: BlockStatus)
    ensures
        ({
            let (next, action) = registration_next(
                RegistrarKind::Noop,
                RegistrationStage::LoadingStatus { block_id },
                RegistrationEvent::Status { status },
            );
            &&& (action is Skip) <==> !(status is BridgeProofGenerated || status is VerifiedProof)
            &&& (status is BridgeProofGenerated || status is VerifiedProof) ==> {
                &&& next == (RegistrationStage::ParsingProof { block_id, status: Some(status) })
                &&& action is ParseProof
                &&& registration_next(RegistrarKind::Noop, next, RegistrationEvent::Done) == (
                RegistrationStage::Finished, RegistrationAction::BuildCall)
            }
            &&& !(status is BridgeProofGenerated || status is VerifiedProof) ==> next
                == RegistrationStage::Finished
        }),
{
}

/// The stage a registrar moves to is the one that waits for the outcome of the action it asks
/// for, for the same block; the registration is over exactly when the block is settled, skipped
/// or failed.
pub proof fn lemma_registration_next_stage_waits_on_action(
    kind: RegistrarKind,
    stage: RegistrationStage,
    event: RegistrationEvent,
)
    requires
        registration_expects(stage, event),
    ensures
        ({
            let (next, action) = registration_next(kind, stage, event);
            &&& action matches RegistrationAction::LoadProof { block_id } ==> next == (
            RegistrationStage::LoadingProof { block_id })
            &&& action is DecodeProof <==> next is DecodingProof
            &&& action is ParseProof <==> next is ParsingProof
            &&& action matches RegistrationAction::LoadStatus { block_id } ==> next == (
            RegistrationStage::LoadingStatus { block_id })
            &&& action matches RegistrationAction::Verify { block_id } ==> next == (
            RegistrationStage::Verifying { block_id })
            &&& (action is BuildCall || action is Skip || action is Fail) <==> next is Finished
        }),
{
}

/// A registration fails exactly when a requested step failed, or when the block number does
/// not fit the database ids; a block is skipped only when no bridge proof is stored for it or
/// its status does not allow settling it; the block keeps its id from one stage to the next.
pub proof fn lemma_registration_outcomes(kind: RegistrarKind, stage: RegistrationStage, event: RegistrationEvent)
    requires
        registration_expects(stage, event),
    ensures
        ({
            let (next, action) = registration_next(kind, stage, event);
            &&& action is Fail <==> (event is Failed || (stage matches RegistrationStage::Start {
                block_number,
            } && block_number > u32::MAX))
            &&& action is Skip ==> (stage is LoadingProof && event is Missing) || (stage is LoadingStatus
                && event is Status && !(event->Status_status is BridgeProofGenerated
                || event->Status_status is VerifiedProof))
            &&& stage is Start && !(next is Finished) ==> next == (RegistrationStage::LoadingProof {
                block_id: stage->Start_block_number as u32,
            })
            &&& stage is LoadingProof && !(next is Finished) ==> next == (RegistrationStage::DecodingProof {
                block_id: stage->LoadingProof_block_id,
            })
            &&& stage is DecodingProof && !(next is Finished) ==> (next == (
            RegistrationStage::ParsingProof { block_id: stage->DecodingProof_block_id, status: None })
                || next == (RegistrationStage::LoadingStatus { block_id: stage->DecodingProof_block_id }))
            &&& stage is ParsingProof && !(next is Finished) ==> next == (RegistrationStage::LoadingStatus {
                block_id: stage->ParsingProof_block_id,
            })
            &&& stage is LoadingStatus && !(next is Finished) ==> (next == (RegistrationStage::Verifying {
                block_id: stage->LoadingStatus_block_id,
            }) || next is ParsingProof && next->ParsingProof_block_id == stage->LoadingStatus_block_id)
        }),
{
}

} // verus!
