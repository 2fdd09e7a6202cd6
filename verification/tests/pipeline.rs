use saya_core::block_ingestor::{poll_plan, BlockInfo};
use saya_core::block_orderer::BlockOrderer;
use saya_core::atlantic::{AtlanticJobSize, Layout};
use saya_core::bridge_worker::{BridgeAction, BridgeCommand, BridgeEvent, BridgeJob, BridgeStage};
use saya_core::data_availability::{
    block_cursor, persistent_packet, sovereign_packet, unpublished_cursor, DataAvailabilityPointer,
    HasBlockNumber, PacketChain, SnosProof,
};
use saya_core::orchestrator::{sovereign_start, Genesis, StartBlockError};
use saya_core::retry::{RetryBackoff, RetryDecision};
use saya_core::snos_worker::{snos_command, SnosAction, SnosCommand, SnosEvent, SnosStage};
use saya_core::storage::{BlockStatus, BlockWithDa, ChainHead, InMemoryStorageBackend, Query};
use saya_core::Felt;

fn state_update(root: u64) -> starknet::core::types::StateUpdate {
    starknet::core::types::StateUpdate {
        block_hash: starknet::core::types::Felt::from(1u64),
        old_root: starknet::core::types::Felt::from(root),
        new_root: starknet::core::types::Felt::from(root + 1),
        state_diff: starknet::core::types::StateDiff {
            storage_diffs: vec![],
            deprecated_declared_classes: vec![],
            declared_classes: vec![],
            deployed_contracts: vec![],
            replaced_classes: vec![],
            nonces: vec![],
        },
    }
}

fn block(number: u64) -> BlockInfo {
    BlockInfo { number, status: BlockStatus::Mined, state_update: None }
}

#[test]
fn poll_hands_on_failed_blocks_then_the_current_one() {
    let failed = vec![(3u32, "boom".to_string()), (4u32, "again".to_string())];
    let plan = poll_plan(10, Some(12), Some(failed));
    assert_eq!(plan.dispatch, vec![3, 4, 10]);
    assert_eq!(plan.handled, vec![3, 4]);
    assert_eq!(plan.next_block, 11);

    let plan = poll_plan(10, Some(10), None);
    assert_eq!(plan.dispatch, vec![10]);
    assert!(plan.handled.is_empty());
    assert_eq!(plan.next_block, 11);
}

#[test]
fn poll_waits_when_the_chain_is_behind() {
    let plan = poll_plan(10, Some(9), Some(vec![(1, "x".to_string())]));
    assert!(plan.dispatch.is_empty());
    assert!(plan.handled.is_empty());
    assert_eq!(plan.next_block, 10);
    let plan = poll_plan(10, None, None);
    assert!(plan.dispatch.is_empty());
    assert_eq!(plan.next_block, 10);
}

#[test]
fn successive_polls_hand_on_consecutive_blocks() {
    let mut current = 5;
    let mut heads = Vec::new();
    for latest in [Some(7), None, Some(4), Some(6), Some(9), Some(8), Some(8)] {
        let plan = poll_plan(current, latest, None);
        heads.extend(plan.dispatch);
        current = plan.next_block;
    }
    assert_eq!(heads, vec![5, 6, 7, 8]);
    assert_eq!(current, 9);
}

#[test]
fn backoff_retries_with_growing_delays_then_gives_up() {
    let backoff = RetryBackoff::new(3);
    let (d1, backoff) = backoff.after_failure();
    assert_eq!(d1, RetryDecision::Retry { delay_factor: 1 });
    let (d2, backoff) = backoff.after_failure();
    assert_eq!(d2, RetryDecision::Retry { delay_factor: 2 });
    let (d3, _) = backoff.after_failure();
    assert_eq!(d3, RetryDecision::GiveUp);

    let (d, _) = RetryBackoff::new(0).after_failure();
    assert_eq!(d, RetryDecision::GiveUp);
    let (d, _) = RetryBackoff::new(1).after_failure();
    assert_eq!(d, RetryDecision::GiveUp);
}

#[test]
fn packets_link_to_the_previous_blob() {
    let ns = Felt::from_u64(77);
    let mut chain = PacketChain::new(ns, None);
    assert!(chain.packet_context().prev.is_none());
    let cursor = chain.record_blob(1, "first", 100, [1u8; 32]);
    assert_eq!(cursor.block_number, 1);
    assert_eq!(cursor.full_payload, "first");
    let expected = DataAvailabilityPointer { height: 100, commitment: [1u8; 32], namespace: ns };
    assert_eq!(cursor.pointer, Some(expected));
    assert_eq!(chain.packet_context().prev, Some(expected));
    let cursor2 = chain.record_blob(2, "second", 101, [2u8; 32]);
    assert_eq!(cursor2.pointer.unwrap().height, 101);
    assert_eq!(chain.packet_context().prev.unwrap().commitment, [2u8; 32]);
}

#[test]
fn packets_and_unpublished_cursors() {
    let proof = SnosProof { block_number: 9, proof: "p".to_string() };
    assert_eq!(proof.block_number(), 9);
    let prev = Some(DataAvailabilityPointer { height: 1, commitment: [0u8; 32], namespace: Felt::zero() });
    let chain = PacketChain::new(Felt::zero(), prev);
    let packet = sovereign_packet(proof, chain.packet_context());
    assert_eq!(packet.prev, prev);
    assert_eq!(packet.proof.proof, "p");
    assert!(persistent_packet(block(3)).state_update.is_none());
    let c = unpublished_cursor(4, "payload");
    assert_eq!((c.block_number, c.pointer, c.full_payload), (4, None, "payload"));
    let c = block_cursor(block(6));
    assert_eq!(c.block_number, 6);
    assert!(c.pointer.is_none());
    assert_eq!(c.full_payload.block_number(), 6);
}

#[test]
fn orderer_releases_blocks_in_order() {
    let mut orderer: BlockOrderer<&str> = BlockOrderer::new(5);
    orderer.insert(7, "seven");
    orderer.insert(6, "six");
    assert!(orderer.drain_ready().is_empty());
    assert_eq!(orderer.next_expected_block(), 5);
    orderer.insert(5, "five");
    assert_eq!(orderer.drain_ready(), vec!["five", "six", "seven"]);
    assert_eq!(orderer.next_expected_block(), 8);
    assert_eq!(orderer.pop_next(), None);
    orderer.insert(8, "eight");
    assert_eq!(orderer.pop_next(), Some("eight"));
    assert_eq!(orderer.next_expected_block(), 9);
}

#[test]
fn chain_head_reads_back_the_last_block() {
    let mut storage = InMemoryStorageBackend::new();
    assert_eq!(storage.get_chain_head(), ChainHead::Genesis);
    let b = BlockWithDa {
        height: 4,
        da_pointer: DataAvailabilityPointer { height: 2, commitment: [3u8; 32], namespace: Felt::one() },
    };
    storage.set_chain_head(b);
    assert_eq!(storage.get_chain_head(), ChainHead::Block(b));
}

#[test]
fn sovereign_chain_resumes_after_its_head() {
    let b = BlockWithDa {
        height: 4,
        da_pointer: DataAvailabilityPointer { height: 2, commitment: [3u8; 32], namespace: Felt::one() },
    };
    assert_eq!(
        sovereign_start(ChainHead::Block(b), None),
        Ok((5, Some(DataAvailabilityPointer { height: 4, commitment: [3u8; 32], namespace: Felt::one() })))
    );
    assert_eq!(
        sovereign_start(ChainHead::Genesis, Some(Genesis { first_block_number: 1 })),
        Ok((1, None))
    );
    assert_eq!(sovereign_start(ChainHead::Genesis, None), Err(StartBlockError::GenesisNotProvided));
}

#[test]
fn snos_worker_submits_records_then_awaits() {
    let (s, a) = SnosStage::Start.step(SnosEvent::Done, false);
    assert!(matches!(a, SnosAction::LoadStoredProof));
    let (s, a) = s.step(SnosEvent::ProofMissing, false);
    assert!(matches!(a, SnosAction::LoadQueryId { query: Query::SnosProof }));
    let (s, a) = s.step(SnosEvent::QueryMissing, false);
    assert!(matches!(a, SnosAction::Submit));
    let (s, a) = s.step(SnosEvent::Submitted { query_id: "q1".to_string() }, false);
    assert!(matches!(a, SnosAction::RecordQueryId { query: Query::SnosProof, ref query_id } if query_id == "q1"));
    let (s, a) = s.step(SnosEvent::Done, false);
    assert!(matches!(a, SnosAction::AwaitJob { ref query_id } if query_id == "q1"));
    let (s, a) = s.step(SnosEvent::Done, false);
    assert!(matches!(a, SnosAction::FetchAndStoreProof { .. }));
    let (s, a) = s.step(SnosEvent::Done, false);
    assert!(matches!(a, SnosAction::Forward));
    assert_eq!(s, SnosStage::Finished);
}

#[test]
fn snos_worker_reuses_stored_proofs_and_mocks() {
    let (s, a) = SnosStage::CheckingStoredProof.step(SnosEvent::ProofFound, false);
    assert_eq!(s, SnosStage::Finished);
    assert!(matches!(a, SnosAction::ForwardStoredProof));
    let (s, a) = SnosStage::CheckingStoredProof.step(SnosEvent::ProofMissing, true);
    assert_eq!(s, SnosStage::Finished);
    assert!(matches!(a, SnosAction::ForwardMockProof));
    let (_, a) = SnosStage::CheckingQuery.step(SnosEvent::QueryFound { query_id: "old".to_string() }, false);
    assert!(matches!(a, SnosAction::AwaitJob { ref query_id } if query_id == "old"));
}

#[test]
fn bridge_worker_resumes_from_what_is_recorded() {
    let (s, a) = BridgeStage::CheckingStoredProof.step(BridgeEvent::ValidProofFound);
    assert_eq!(s, BridgeStage::Finished);
    assert_eq!(a, BridgeAction::Forward { watch_shutdown: false });
    let (s, a) = BridgeStage::CheckingStoredProof.step(BridgeEvent::ProofMissing);
    assert_eq!(s, BridgeStage::CheckingProofQuery);
    assert_eq!(a, BridgeAction::LoadQueryId { query: Query::BridgeProof });
    let (s, a) = s.step(BridgeEvent::QueryMissing);
    assert_eq!(a, BridgeAction::LoadStoredPie);
    let (s, a) = s.step(BridgeEvent::PieMissing);
    assert_eq!(a, BridgeAction::LoadQueryId { query: Query::BridgeTrace });
    let (s, a) = s.step(BridgeEvent::QueryMissing);
    assert_eq!(a, BridgeAction::SubmitTrace);
    let (s, a) = s.step(BridgeEvent::Submitted { query_id: "t1".to_string() });
    assert_eq!(a, BridgeAction::RecordQueryId { query: Query::BridgeTrace, query_id: "t1".to_string() });
    let (s, a) = s.step(BridgeEvent::Done);
    assert_eq!(a, BridgeAction::AwaitQuery { query_id: "t1".to_string() });
    let (s, a) = s.step(BridgeEvent::QueryDone);
    assert_eq!(a, BridgeAction::FetchAndStorePie { query_id: "t1".to_string() });
    let (s, a) = s.step(BridgeEvent::PieStored { n_steps: 100 });
    assert_eq!(a, BridgeAction::SubmitProof { job_size: AtlanticJobSize::XS });
    let (s, a) = s.step(BridgeEvent::Submitted { query_id: "p1".to_string() });
    assert_eq!(a, BridgeAction::RecordQueryId { query: Query::BridgeProof, query_id: "p1".to_string() });
    let (s, _) = s.step(BridgeEvent::Done);
    let (s, a) = s.step(BridgeEvent::QueryFailed { message: "bad".to_string() });
    assert_eq!(s, BridgeStage::Finished);
    assert_eq!(a, BridgeAction::MarkFailed { message: "bad".to_string() });
}

#[test]
fn bridge_worker_stops_on_shutdown() {
    let (s, a) = BridgeStage::AwaitingTrace { query_id: "t".to_string() }.step(BridgeEvent::Shutdown);
    assert_eq!(s, BridgeStage::Stopped);
    assert_eq!(a, BridgeAction::Stop);
    let (s, a) = BridgeStage::StoringPie.step(BridgeEvent::FetchFailed);
    assert_eq!(s, BridgeStage::Aborted);
    assert_eq!(a, BridgeAction::Abort);
}

#[test]
fn bridge_job_submits_labelled_trace_and_proof_then_forwards_the_loaded_block() {
    let mut job = BridgeJob::new(7, "{\"a\":1}".to_string());
    assert!(matches!(job.start(), BridgeCommand::LoadStateUpdate { block_id: 7 }));
    let su = state_update(40);
    assert!(matches!(job.state_update_loaded(su.clone()), BridgeCommand::LoadStoredProof { block_id: 7 }));
    assert!(matches!(
        job.step(BridgeEvent::ProofMissing),
        BridgeCommand::LoadQueryId { block_id: 7, query: Query::BridgeProof }
    ));
    assert!(matches!(job.step(BridgeEvent::QueryMissing), BridgeCommand::LoadStoredPie { block_id: 7 }));
    assert!(matches!(
        job.step(BridgeEvent::PieMissing),
        BridgeCommand::LoadQueryId { block_id: 7, query: Query::BridgeTrace }
    ));
    match job.step(BridgeEvent::QueryMissing) {
        BridgeCommand::SubmitTrace { label, input } => {
            assert_eq!(label, "layout-trace-7");
            assert_eq!(input, "{\n\t\"proof\": {\"a\":1}\n}");
        }
        other => panic!("unexpected {:?}", other),
    }
    match job.step(BridgeEvent::Submitted { query_id: "t1".to_string() }) {
        BridgeCommand::RecordQueryId { block_id, query, query_id } => {
            assert_eq!(block_id, 7);
            assert_eq!(query, Query::BridgeTrace);
            assert_eq!(query_id, "t1");
        }
        other => panic!("unexpected {:?}", other),
    }
    assert!(matches!(job.step(BridgeEvent::Done), BridgeCommand::AwaitQuery { ref query_id } if query_id == "t1"));
    assert!(matches!(
        job.step(BridgeEvent::QueryDone),
        BridgeCommand::FetchAndStorePie { block_id: 7, ref query_id } if query_id == "t1"
    ));
    match job.step(BridgeEvent::PieStored { n_steps: 13_000_000 }) {
        BridgeCommand::SubmitProof { layout, label, job_size } => {
            assert_eq!(layout, Layout::recursive_with_poseidon);
            assert_eq!(label, "layout-7");
            assert_eq!(job_size, AtlanticJobSize::M);
        }
        other => panic!("unexpected {:?}", other),
    }
    assert!(matches!(
        job.step(BridgeEvent::Submitted { query_id: "p1".to_string() }),
        BridgeCommand::RecordQueryId { block_id: 7, query: Query::BridgeProof, ref query_id } if query_id == "p1"
    ));
    assert!(matches!(job.step(BridgeEvent::Done), BridgeCommand::AwaitQuery { ref query_id } if query_id == "p1"));
    assert!(matches!(
        job.step(BridgeEvent::QueryDone),
        BridgeCommand::FetchAndStoreProof { block_id: 7, ref query_id } if query_id == "p1"
    ));
    match job.step(BridgeEvent::Done) {
        BridgeCommand::Forward { block, watch_shutdown } => {
            assert!(watch_shutdown);
            assert_eq!(block.number, 7);
            assert_eq!(block.status, BlockStatus::SnosProofGenerated);
            assert_eq!(block.state_update, Some(su));
        }
        other => panic!("unexpected {:?}", other),
    }
}

#[test]
fn bridge_job_forwards_a_valid_stored_proof_without_submitting() {
    let mut job = BridgeJob::new(12, "p".to_string());
    let _ = job.start();
    let su = state_update(3);
    let _ = job.state_update_loaded(su.clone());
    match job.step(BridgeEvent::ValidProofFound) {
        BridgeCommand::Forward { block, watch_shutdown } => {
            assert!(!watch_shutdown);
            assert_eq!(block.number, 12);
            assert_eq!(block.status, BlockStatus::SnosProofGenerated);
            assert_eq!(block.state_update, Some(su));
        }
        other => panic!("unexpected {:?}", other),
    }
}

#[test]
fn bridge_job_submits_a_stored_pie_with_its_job_size() {
    let mut job = BridgeJob::new(5, "p".to_string());
    let _ = job.start();
    let _ = job.state_update_loaded(state_update(1));
    let _ = job.step(BridgeEvent::InvalidProofFound);
    let _ = job.step(BridgeEvent::QueryMissing);
    match job.step(BridgeEvent::PieFound { n_steps: 6_500_000 }) {
        BridgeCommand::SubmitProof { layout, label, job_size } => {
            assert_eq!(layout, Layout::recursive_with_poseidon);
            assert_eq!(label, "layout-5");
            assert_eq!(job_size, AtlanticJobSize::S);
        }
        other => panic!("unexpected {:?}", other),
    }
}

#[test]
fn bridge_job_marks_a_failed_recorded_query() {
    let mut job = BridgeJob::new(9, "p".to_string());
    let _ = job.start();
    let _ = job.state_update_loaded(state_update(1));
    let _ = job.step(BridgeEvent::ProofMissing);
    assert!(matches!(
        job.step(BridgeEvent::QueryFound { query_id: "q".to_string() }),
        BridgeCommand::AwaitQuery { ref query_id } if query_id == "q"
    ));
    assert!(matches!(
        job.step(BridgeEvent::QueryFailed { message: "boom".to_string() }),
        BridgeCommand::MarkFailed { block_id: 9, ref message } if message == "boom"
    ));
}

#[test]
fn snos_submission_is_labelled_with_the_block() {
    assert_eq!(
        snos_command(42, SnosAction::Submit),
        SnosCommand::Submit { layout: Layout::dynamic, label: "snos_42".to_string() }
    );
    assert_eq!(snos_command(42, SnosAction::LoadStoredProof), SnosCommand::LoadStoredProof { block_id: 42 });
    let (s, c) = SnosStage::CheckingQuery.step_block(3, SnosEvent::QueryMissing, false);
    assert_eq!(s, SnosStage::Submitting);
    assert_eq!(c, SnosCommand::Submit { layout: Layout::dynamic, label: "snos_3".to_string() });
    let (s, c) = SnosStage::StoringProof.step_block(3, SnosEvent::Done, false);
    assert_eq!(s, SnosStage::Finished);
    assert_eq!(c, SnosCommand::Forward { block_number: 3 });
}

#[test]
fn orderer_holds_far_blocks_and_reports_what_is_buffered() {
    let mut orderer: BlockOrderer<&str> = BlockOrderer::new(2);
    orderer.insert(u64::MAX, "last");
    orderer.insert(3, "three");
    assert!(orderer.is_pending(3));
    assert!(!orderer.is_pending(2));
    assert!(orderer.drain_ready().is_empty());
    orderer.insert(2, "two");
    assert_eq!(orderer.drain_ready(), vec!["two", "three"]);
    assert_eq!(orderer.next_expected_block(), 4);
    assert!(orderer.is_pending(u64::MAX));
}

#[test]
fn batches_say_whether_they_carry_a_block_number() {
    assert!(block(3).carries_block_number());
    let proof = SnosProof { block_number: 4, proof: () };
    assert!(proof.carries_block_number());
}
