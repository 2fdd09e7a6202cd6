use saya_core::data_availability::DataAvailabilityPointer;
use saya_core::settlement::{
    block_id, decode_appchain_state, integrity_plan, noop_settles, piltover_state, update_state_calldata,
    update_state_input, IntegrityAction, IntegrityPlan, IntegrityVerification, PiltoverInput,
    SettlementAction, SettlementCursor, SettlementEvent, SettlementStage,
};
use saya_core::stark_proof::{mock_from_output, PublicInput, SegmentInfo, StarkProof};
use saya_core::storage::BlockStatus;
use saya_core::Felt;

fn felt(v: u64) -> Felt {
    Felt::from_u64(v)
}

fn pointer() -> DataAvailabilityPointer {
    let mut commitment = [0u8; 32];
    commitment[31] = 7;
    DataAvailabilityPointer { height: 12, commitment, namespace: felt(3) }
}

#[test]
fn settlement_of_a_block_runs_to_its_cursor() {
    let (stage, action) = SettlementStage::AwaitingDa
        .step(SettlementEvent::DaReceived { block_number: 5, pointer: Some(pointer()) });
    assert_eq!(stage, SettlementStage::BuildingCall { block_number: 5 });
    assert!(matches!(action, SettlementAction::BuildCall { block_number: 5, pointer: Some(_) }));
    let (stage, action) = stage.step(SettlementEvent::CallBuilt);
    assert_eq!(stage, SettlementStage::EstimatingFee { block_number: 5 });
    assert!(matches!(action, SettlementAction::EstimateFee));
    let (stage, action) = stage.step(SettlementEvent::Done);
    assert!(matches!(action, SettlementAction::SendTransaction));
    let (stage, action) = stage.step(SettlementEvent::Sent { transaction_hash: felt(0xabc) });
    assert!(matches!(action, SettlementAction::WatchTransaction { transaction_hash } if transaction_hash == felt(0xabc)));
    let (stage, action) = stage.step(SettlementEvent::Done);
    assert!(matches!(action, SettlementAction::RemoveBlock { block_id: 5 }));
    let (stage, action) = stage.step(SettlementEvent::Done);
    assert_eq!(stage, SettlementStage::EmittingCursor);
    match action {
        SettlementAction::EmitCursor { cursor } => {
            assert_eq!(cursor, SettlementCursor { block_number: 5, transaction_hash: felt(0xabc) })
        }
        other => panic!("unexpected action {:?}", other),
    }
    let (stage, action) = stage.step(SettlementEvent::Done);
    assert_eq!(stage, SettlementStage::AwaitingDa);
    assert!(matches!(action, SettlementAction::AwaitDa));
}

#[test]
fn skipped_and_failed_registrations_settle_nothing() {
    for event in [SettlementEvent::CallSkipped, SettlementEvent::RegistrationFailed] {
        let (stage, action) = SettlementStage::BuildingCall { block_number: 8 }.step(event);
        assert_eq!(stage, SettlementStage::AwaitingDa);
        assert!(matches!(action, SettlementAction::AwaitDa));
    }
}

#[test]
fn settlement_stops_and_aborts() {
    let (stage, action) = SettlementStage::AwaitingDa.step(SettlementEvent::Shutdown);
    assert_eq!(stage, SettlementStage::Stopped);
    assert!(matches!(action, SettlementAction::Stop));
    let (stage, _) = SettlementStage::AwaitingDa.step(SettlementEvent::DaClosed);
    assert_eq!(stage, SettlementStage::Stopped);
    let (stage, action) = SettlementStage::Sending { block_number: 1 }.step(SettlementEvent::Failed);
    assert_eq!(stage, SettlementStage::Aborted);
    assert!(matches!(action, SettlementAction::Abort));
    let too_big = u32::MAX as u64 + 1;
    let (stage, action) = SettlementStage::Confirming { block_number: too_big, transaction_hash: felt(1) }
        .step(SettlementEvent::Done);
    assert_eq!(stage, SettlementStage::Aborted);
    assert!(matches!(action, SettlementAction::Abort));
    let (stage, _) = SettlementStage::EmittingCursor.step(SettlementEvent::Shutdown);
    assert_eq!(stage, SettlementStage::Stopped);
}

#[test]
fn registrars_decide_by_status() {
    assert_eq!(integrity_plan(BlockStatus::BridgeProofGenerated), IntegrityPlan::VerifyThenSettle);
    assert_eq!(integrity_plan(BlockStatus::VerifiedProof), IntegrityPlan::Settle);
    assert_eq!(integrity_plan(BlockStatus::Mined), IntegrityPlan::Skip);
    assert_eq!(integrity_plan(BlockStatus::Settled), IntegrityPlan::Skip);
    assert!(noop_settles(BlockStatus::BridgeProofGenerated));
    assert!(noop_settles(BlockStatus::VerifiedProof));
    assert!(!noop_settles(BlockStatus::SnosProofGenerated));
    assert_eq!(block_id(7), Some(7));
    assert_eq!(block_id(u32::MAX as u64), Some(u32::MAX));
    assert_eq!(block_id(u32::MAX as u64 + 1), None);
}

#[test]
fn integrity_chunks_use_consecutive_nonces_and_add_up_fees() {
    let mut v = IntegrityVerification::new(3, felt(40));
    for (i, fee) in [5u64, 6, 7].into_iter().enumerate() {
        match v.next_action() {
            IntegrityAction::SendChunk { index, nonce } => {
                assert_eq!(index, i);
                assert_eq!(nonce, felt(40 + i as u64));
            }
            other => panic!("unexpected action {:?}", other),
        }
        v.chunk_confirmed(felt(fee));
    }
    match v.next_action() {
        IntegrityAction::MarkVerified { total_fee } => assert_eq!(total_fee, felt(18)),
        other => panic!("unexpected action {:?}", other),
    }
    let mut w = IntegrityVerification::new(2, Felt::max());
    match w.next_action() {
        IntegrityAction::SendChunk { nonce, .. } => assert_eq!(nonce, Felt::max()),
        other => panic!("unexpected action {:?}", other),
    }
    w.chunk_confirmed(Felt::max());
    match w.next_action() {
        IntegrityAction::SendChunk { index, nonce } => {
            assert_eq!(index, 1);
            assert_eq!(nonce, Felt::zero());
        }
        other => panic!("unexpected action {:?}", other),
    }
    let empty = IntegrityVerification::new(0, felt(1));
    assert!(matches!(empty.next_action(), IntegrityAction::MarkVerified { total_fee } if total_fee == Felt::zero()));
}

#[test]
fn update_state_input_carries_da_information() {
    let out = vec![felt(1), felt(2)];
    match update_state_input(out.clone(), None) {
        PiltoverInput::LayoutBridgeOutputNoDa(o) => assert_eq!(o, out),
        other => panic!("unexpected input {:?}", other),
    }
    match update_state_input(out.clone(), Some(pointer())) {
        PiltoverInput::LayoutBridgeOutputWithDa(o, info) => {
            assert_eq!(o, out);
            assert_eq!(info.height, 12);
            assert_eq!(info.commitment, felt(7));
            assert_eq!(info.namespace, felt(3));
        }
        other => panic!("unexpected input {:?}", other),
    }
}

#[test]
fn piltover_replies_are_decoded() {
    let raw = vec![felt(1), felt(2), felt(3), felt(4)];
    let s = decode_appchain_state(&raw).unwrap();
    assert_eq!((s.state_root, s.block_number, s.block_hash), (felt(1), felt(2), felt(3)));
    assert!(decode_appchain_state(&vec![felt(1), felt(2)]).is_none());
    let p = piltover_state(&raw).unwrap();
    assert_eq!((p.state_root, p.block_number, p.block_hash), (felt(1), 2, felt(3)));
    assert!(piltover_state(&vec![felt(1), felt(u32::MAX as u64 + 1), felt(3)]).is_none());
    assert!(piltover_state(&vec![felt(1)]).is_none());
}

#[test]
fn update_state_calldata_holds_both_outputs() {
    let base = || StarkProof {
        public_input: PublicInput {
            segments: vec![
                SegmentInfo { begin_addr: felt(0), stop_ptr: felt(0) },
                SegmentInfo { begin_addr: felt(0), stop_ptr: felt(0) },
                SegmentInfo { begin_addr: felt(0), stop_ptr: felt(0) },
            ],
            main_page: vec![],
        },
    };
    let snos = mock_from_output(base(), &vec![felt(1), felt(2)]);
    let bridge = mock_from_output(base(), &vec![felt(3)]);
    let c = update_state_calldata(&snos, &bridge);
    assert_eq!(c.program_snos_output, vec![felt(1), felt(2)]);
    assert_eq!(c.program_output, vec![felt(3)]);
    assert_eq!(c.onchain_data_hash, Felt::zero());
    assert_eq!(c.onchain_data_size, (Felt::zero(), Felt::zero()));
}
