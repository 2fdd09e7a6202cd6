use saya_core::stark_proof::{
    bootloader_program_hash, bootloader_snos_output, calculate_output, layout_bridge_bootloader_output,
    mock_bridge_block, mock_bridge_proof, mock_from_output, AddrValue, PublicInput, SegmentInfo, StarkProof,
};
use saya_core::data_availability::SnosProof;
use saya_core::storage::{BlockStatus, Step};
use saya_core::Felt;

fn felt(v: u64) -> Felt {
    Felt::from_u64(v)
}

/// A proof with the usual program, execution and output segments and an empty main page.
fn base_proof() -> StarkProof {
    let seg = |b: u64, e: u64| SegmentInfo { begin_addr: felt(b), stop_ptr: felt(e) };
    StarkProof {
        public_input: PublicInput {
            segments: vec![seg(1, 5), seg(10, 20), seg(30, 30), seg(40, 41)],
            main_page: vec![AddrValue { address: felt(1), value: felt(77) }],
        },
    }
}

#[test]
fn test_calculate_output_from_mocked_proof() {
    let proof = mock_from_output(
        base_proof(),
        &vec![felt(0x1), felt(0x2), felt(0x3), felt(0x4), felt(0x5), felt(0x6)],
    );

    let output = calculate_output(&proof);
    assert_eq!(
        output,
        vec![felt(0x1), felt(0x2), felt(0x3), felt(0x4), felt(0x5), felt(0x6)]
    );
}

#[test]
fn mocked_output_segment_starts_at_mock_address() {
    let proof = mock_from_output(base_proof(), &vec![felt(9), felt(8)]);
    let seg = proof.public_input.segments[2];
    assert_eq!(seg.begin_addr, felt(0xc387));
    assert_eq!(seg.stop_ptr, felt(0xc389));
    assert_eq!(proof.public_input.segments[3].begin_addr, felt(40));
    assert_eq!(proof.public_input.main_page.len(), 3);
    assert_eq!(proof.public_input.main_page[2].address, felt(0xc388));
    assert_eq!(proof.public_input.main_page[0].value, felt(77));
}

#[test]
fn output_is_read_from_the_end_of_the_main_page() {
    let mut proof = base_proof();
    proof.public_input.segments[2] = SegmentInfo { begin_addr: felt(100), stop_ptr: felt(102) };
    proof.public_input.main_page = vec![
        AddrValue { address: felt(1), value: felt(11) },
        AddrValue { address: felt(100), value: felt(12) },
        AddrValue { address: felt(101), value: felt(13) },
    ];
    assert_eq!(calculate_output(&proof), vec![felt(12), felt(13)]);
}

#[test]
fn bootloader_outputs_have_their_headers() {
    let snos = vec![felt(5), felt(6)];
    assert_eq!(
        bootloader_snos_output(felt(42), &snos),
        vec![felt(0), felt(0), felt(42), felt(5), felt(6)]
    );
    let hash = bootloader_program_hash();
    assert_eq!(hash, Felt::from_parts(0x5ab580b04e3532b6b18f81cfa654a0, 0x5e29dd8e2352d88df1e765a84072db07).unwrap());
    assert_eq!(
        layout_bridge_bootloader_output(felt(3), &snos),
        vec![felt(1), felt(0), felt(3), hash, felt(0), felt(5), felt(6)]
    );
}

#[test]
fn mock_bridge_proof_carries_the_snos_output() {
    let snos = mock_from_output(base_proof(), &vec![felt(21), felt(22), felt(23)]);
    let bridge = mock_bridge_proof(base_proof(), felt(99), &snos);
    let out = calculate_output(&bridge);
    assert_eq!(
        out,
        vec![felt(1), felt(0), felt(99), bootloader_program_hash(), felt(0), felt(21), felt(22), felt(23)]
    );
}

#[test]
fn mock_bridge_block_stores_the_proof_and_hands_the_block_on() {
    let snos = mock_from_output(base_proof(), &vec![felt(31), felt(32)]);
    let su = starknet::core::types::StateUpdate {
        block_hash: starknet::core::types::Felt::from(2u64),
        old_root: starknet::core::types::Felt::from(3u64),
        new_root: starknet::core::types::Felt::from(4u64),
        state_diff: starknet::core::types::StateDiff {
            storage_diffs: vec![],
            deprecated_declared_classes: vec![],
            declared_classes: vec![],
            deployed_contracts: vec![],
            replaced_classes: vec![],
            nonces: vec![],
        },
    };
    let r = mock_bridge_block(base_proof(), felt(55), SnosProof { block_number: 8, proof: snos }, su.clone());
    assert_eq!(r.block_id, 8);
    assert_eq!(r.step, Step::Bridge);
    assert_eq!(
        calculate_output(&r.proof),
        vec![felt(1), felt(0), felt(55), bootloader_program_hash(), felt(0), felt(31), felt(32)]
    );
    assert_eq!(r.block.number, 8);
    assert_eq!(r.block.status, BlockStatus::BridgeProofGenerated);
    assert_eq!(r.block.state_update, Some(su));
}
