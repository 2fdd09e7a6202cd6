use saya_core::fact_registration::{RegistrarKind, RegistrationAction, RegistrationEvent, RegistrationStage};
use saya_core::storage::BlockStatus;

fn run(kind: RegistrarKind, block_number: u64, events: &[RegistrationEvent]) -> Vec<RegistrationAction> {
    let mut stage = RegistrationStage::Start { block_number };
    let (s, a) = stage.step(kind, RegistrationEvent::Done);
    stage = s;
    let mut actions = vec![a];
    for e in events {
        let (s, a) = stage.step(kind, *e);
        stage = s;
        actions.push(a);
    }
    assert_eq!(stage, RegistrationStage::Finished);
    actions
}

#[test]
fn integrity_verifies_a_fresh_proof_then_settles() {
    let actions = run(
        RegistrarKind::Integrity,
        7,
        &[
            RegistrationEvent::Done,
            RegistrationEvent::Done,
            RegistrationEvent::Done,
            RegistrationEvent::Status { status: BlockStatus::BridgeProofGenerated },
            RegistrationEvent::Done,
        ],
    );
    assert_eq!(
        actions,
        vec![
            RegistrationAction::LoadProof { block_id: 7 },
            RegistrationAction::DecodeProof,
            RegistrationAction::ParseProof,
            RegistrationAction::LoadStatus { block_id: 7 },
            RegistrationAction::Verify { block_id: 7 },
            RegistrationAction::BuildCall,
        ]
    );
}

#[test]
fn integrity_settles_a_verified_block_without_verifying_again() {
    let actions = run(
        RegistrarKind::Integrity,
        7,
        &[
            RegistrationEvent::Done,
            RegistrationEvent::Done,
            RegistrationEvent::Done,
            RegistrationEvent::Status { status: BlockStatus::VerifiedProof },
        ],
    );
    assert_eq!(actions.last(), Some(&RegistrationAction::BuildCall));
    assert!(!actions.iter().any(|a| matches!(a, RegistrationAction::Verify { .. })));
}

#[test]
fn noop_reads_the_status_before_parsing() {
    let actions = run(
        RegistrarKind::Noop,
        3,
        &[
            RegistrationEvent::Done,
            RegistrationEvent::Done,
            RegistrationEvent::Status { status: BlockStatus::VerifiedProof },
            RegistrationEvent::Done,
        ],
    );
    assert_eq!(
        actions,
        vec![
            RegistrationAction::LoadProof { block_id: 3 },
            RegistrationAction::DecodeProof,
            RegistrationAction::LoadStatus { block_id: 3 },
            RegistrationAction::ParseProof,
            RegistrationAction::BuildCall,
        ]
    );
}

#[test]
fn blocks_are_skipped_or_failed() {
    let missing = run(RegistrarKind::Noop, 3, &[RegistrationEvent::Missing]);
    assert_eq!(missing.last(), Some(&RegistrationAction::Skip));
    let wrong_status = run(
        RegistrarKind::Noop,
        3,
        &[
            RegistrationEvent::Done,
            RegistrationEvent::Done,
            RegistrationEvent::Status { status: BlockStatus::Mined },
        ],
    );
    assert_eq!(wrong_status.last(), Some(&RegistrationAction::Skip));
    let bad_text = run(RegistrarKind::Integrity, 3, &[RegistrationEvent::Done, RegistrationEvent::Failed]);
    assert_eq!(bad_text.last(), Some(&RegistrationAction::Fail));
    let too_big = RegistrationStage::Start { block_number: u32::MAX as u64 + 1 }
        .step(RegistrarKind::Integrity, RegistrationEvent::Done);
    assert_eq!(too_big, (RegistrationStage::Finished, RegistrationAction::Fail));
}
