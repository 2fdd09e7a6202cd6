use saya_core::db;
use saya_core::db::{check_proving_table_columns, ProvingTable};
use saya_core::schema::{check_table_columns, expected_table_list, mark_handled_sql, schema_needs_creation, Table};
use saya_core::storage::{BlockStatus, Query, Step};
use saya_core::tee::{prove_attestation, TeeAttestation, TeeBatchStatus};
use saya_core::{Error, Felt};
use saya_core::block_ingestor::BlockInfo;
use saya_core::data_availability::HasBlockNumber;

fn names(v: &[&str]) -> Vec<String> {
    v.iter().map(|s| s.to_string()).collect()
}

#[test]
fn block_status_texts_round_trip() {
    let all = [
        BlockStatus::Mined,
        BlockStatus::SnosPieGenerated,
        BlockStatus::SnosProofSubmitted,
        BlockStatus::SnosProofGenerated,
        BlockStatus::BridgePieSubmitted,
        BlockStatus::BridgePieGenerated,
        BlockStatus::BridgeProofSubmitted,
        BlockStatus::BridgeProofGenerated,
        BlockStatus::VerifiedProof,
        BlockStatus::Settled,
        BlockStatus::Failed,
    ];
    for s in all {
        assert_eq!(BlockStatus::from(s.as_text()), s);
        assert_eq!(s.to_string(), s.as_text());
    }
    assert_eq!(BlockStatus::SnosProofSubmitted.as_text(), "snos_proof_submitted");
    assert_eq!(BlockStatus::from("bridge_proof_generated"), BlockStatus::BridgeProofGenerated);
}

#[test]
fn steps_and_queries_name_their_columns_and_statuses() {
    assert_eq!(Step::Snos.pie_column(), "snos_pie");
    assert_eq!(Step::Bridge.proof_column(), "bridge_proof");
    assert_eq!(Step::Bridge.pie_generated_status(), BlockStatus::BridgePieGenerated);
    assert_eq!(Step::Snos.proof_generated_status(), BlockStatus::SnosProofGenerated);
    assert_eq!(Query::BridgeTrace.column(), "trace_gen_query_id");
    assert_eq!(Query::BridgeTrace.submitted_status(), BlockStatus::BridgePieSubmitted);
    assert_eq!(Query::SnosProof.submitted_status(), BlockStatus::SnosProofSubmitted);
}

#[test]
fn prover_db_statuses() {
    assert_eq!(db::BlockStatus::try_from("COMPLETED").ok(), Some(db::BlockStatus::Completed));
    assert_eq!(db::BlockStatus::PieSubmitted.as_str(), "PIE_SUBMITTED");
    match db::BlockStatus::try_from("DONE") {
        Err(Error::TryFromStrError(m)) => assert_eq!(m, "AtlanticStatus conversion error"),
        other => panic!("unexpected {:?}", other),
    }
}

#[test]
fn table_columns_are_checked() {
    assert!(check_table_columns(Table::Blocks, &names(&["block_id", "status"])));
    assert!(check_table_columns(Table::Blocks, &names(&["status", "extra", "block_id"])));
    assert!(!check_table_columns(Table::Blocks, &names(&["block_id"])));
    assert!(check_table_columns(
        Table::JobIds,
        &names(&["id", "block_id", "snos_proof_query_id", "trace_gen_query_id", "bridge_proof_query_id"])
    ));
    assert!(!check_table_columns(Table::FailedBlocks, &names(&["id", "block_id"])));
    assert_eq!(Table::JobIds.name(), "job_ids");
    assert_eq!(expected_table_list(), vec![Table::Blocks, Table::Pies, Table::Proofs, Table::JobIds, Table::FailedBlocks]);
    assert!(schema_needs_creation(false, true));
    assert!(schema_needs_creation(true, false));
    assert!(!schema_needs_creation(true, true));
}

#[test]
fn failed_blocks_statement_has_one_parameter_per_block() {
    assert_eq!(mark_handled_sql(0), None);
    assert_eq!(
        mark_handled_sql(1).unwrap(),
        "UPDATE failed_blocks SET handled = TRUE WHERE block_id IN (?)"
    );
    assert_eq!(
        mark_handled_sql(3).unwrap(),
        "UPDATE failed_blocks SET handled = TRUE WHERE block_id IN (?,?,?)"
    );
}

#[test]
fn batch_statuses_round_trip_and_reject_unknown_text() {
    for s in [
        TeeBatchStatus::PendingAttestation,
        TeeBatchStatus::Attested,
        TeeBatchStatus::Proved,
        TeeBatchStatus::SettlementPending,
        TeeBatchStatus::Settled,
        TeeBatchStatus::Failed,
    ] {
        assert_eq!(TeeBatchStatus::from_str(&s.to_string()), Ok(s));
    }
    assert_eq!(TeeBatchStatus::from_str("weird"), Err("unknown status: weird".to_string()));
}

#[test]
fn attestations_are_proved_with_parsed_roots() {
    let attestation = TeeAttestation {
        batch_id: 4,
        blocks: vec![],
        quote: "00".to_string(),
        prev_state_root: "0x1f".to_string(),
        state_root: "garbage".to_string(),
        prev_block_hash: "0x2".to_string(),
        block_hash: "0x3".to_string(),
        prev_block_number: Felt::from_u64(7),
        block_number: Felt::from_u64(8),
        messages_commitment: Felt::from_u64(9),
        l2_to_l1_messages: vec![],
        l1_to_l2_messages: vec![],
    };
    let proof = prove_attestation(attestation);
    assert_eq!(proof.batch_id, 4);
    assert_eq!(proof.prev_state_root, Felt::from_u64(31));
    assert_eq!(proof.state_root, Felt::zero());
    assert_eq!(proof.prev_block_hash, Felt::from_u64(2));
    assert_eq!(proof.block_hash, Felt::from_u64(3));
    assert_eq!(proof.block_number, Felt::from_u64(8));
    assert!(proof.data.is_empty());
    assert!(!proof.carries_block_number());
}

#[test]
fn batches_are_ordered_by_their_last_block() {
    let block = |number| BlockInfo { number, status: BlockStatus::Mined, state_update: None };
    let attestation = TeeAttestation {
        batch_id: 1,
        blocks: vec![block(3), block(4), block(5)],
        quote: String::new(),
        prev_state_root: String::new(),
        state_root: String::new(),
        prev_block_hash: String::new(),
        block_hash: String::new(),
        prev_block_number: Felt::from_u64(2),
        block_number: Felt::from_u64(5),
        messages_commitment: Felt::zero(),
        l2_to_l1_messages: vec![],
        l1_to_l2_messages: vec![],
    };
    assert_eq!(attestation.block_number(), 5);
    assert!(attestation.carries_block_number());
    let proof = prove_attestation(attestation);
    assert!(proof.carries_block_number());
    assert_eq!(HasBlockNumber::block_number(&proof), 5);
    assert_eq!(proof.blocks.len(), 3);
}

#[test]
fn proving_database_columns_are_checked() {
    assert!(check_proving_table_columns(
        ProvingTable::Blocks,
        &names(&["id", "query_id_step1", "query_id_step2", "status"])
    ));
    assert!(!check_proving_table_columns(ProvingTable::Blocks, &names(&["id", "status"])));
    assert!(check_proving_table_columns(
        ProvingTable::Proofs,
        &names(&["bridge_proof", "pie_proof", "block_number", "id", "extra"])
    ));
    assert_eq!(ProvingTable::Proofs.name(), "proofs");
}
