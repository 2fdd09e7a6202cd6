use vstd::prelude::*;

use crate::block_ingestor::BlockInfo;
use crate::data_availability::SnosProof;
use crate::felt::{two_pow_64, Felt};
use crate::storage::{BlockStatus, Step};

verus! {

/// A memory segment declared in the public input of a STARK stark.
#[derive(Debug, Clone, Copy)]
pub struct SegmentInfo {
    pub begin_addr: Felt,
    pub stop_ptr: Felt,
}

/// A cell of the main memory page of a STARK stark.
#[derive(Debug, Clone, Copy)]
pub struct AddrValue {
    pub address: Felt,
    pub value: Felt,
}

/// The part of a STARK proof's public input that carries the program output.
#[derive(Debug, Clone)]
pub struct PublicInput {
    pub segments: Vec<SegmentInfo>,
    pub main_page: Vec<AddrValue>,
}

/// A STARK proof, as far as the pipeline reads it: its public input.
#[derive(Debug, Clone)]
pub struct StarkProof {
    pub public_input: PublicInput,
}

/// Index of the output segment among the segments of the public input.
pub open spec fn output_segment_index() -> int {
    2
}

/// The number of output cells declared by the output segment.
pub open spec fn output_len(stark: StarkProof) -> int {
    let seg = stark.public_input.segments@[2];
    seg.stop_ptr@ - seg.begin_addr@
}

/// A proof whose output segment is well-formed: it exists, does not end before it begins, and
/// declares no more cells than the main page holds.
pub open spec fn has_readable_output(stark: StarkProof) -> bool {
    &&& stark.public_input.segments@.len() > 2
    &&& stark.public_input.segments@[2].begin_addr@ <= stark.public_input.segments@[2].stop_ptr@
    &&& output_len(stark) <= stark.public_input.main_page@.len()
}

/// The program output of a proof: the values of the last `output_len` cells of the main page.
pub open spec fn proof_output(stark: StarkProof) -> Seq<Felt> {
    let page = stark.public_input.main_page@;
    page.subrange(page.len() - output_len(stark), page.len() as int).map_values(
        |c: AddrValue| c.value,
    )
}

/// Extracts the program output from a proof: the values of the main page cells covered by the
/// output segment, which are the last ones on the page.
pub fn calculate_output(stark: &StarkProof) -> (r: Vec<Felt>)
    requires
        has_readable_output(*stark),
    ensures
        r@ == proof_output(*stark),
{
    let seg = stark.public_input.segments[2];
    let n = seg.stop_ptr.checked_sub_u64(&seg.begin_addr);
    let len = stark.public_input.main_page.len();
    proof {
        assert(n is Some);
    }
    let out_len = n.unwrap();
    let start = len - out_len as usize;
    let mut out: Vec<Felt> = Vec::new();
    let mut i = start;
    while i < len
        invariant
            start <= i <= len,
            len == stark.public_input.main_page@.len(),
            start == len - output_len(*stark),
            out@ == stark.public_input.main_page@.subrange(start as int, i as int).map_values(
                |c: AddrValue| c.value,
            ),
        decreases len - i,
    {
        out.push(stark.public_input.main_page[i].value);
        i = i + 1;
        assert(out@ =~= stark.public_input.main_page@.subrange(start as int, i as int).map_values(
            |c: AddrValue| c.value,
        ));
    }
    out
}

/// The address at which a mocked proof's output segment begins.
pub open spec fn mock_output_begin() -> int {
    0xc387
}

/// `proof` with its output segment pointed at `output`, which is appended to the main page at
/// the addresses following the mock output address.
pub open spec fn mocked_with_output(stark: StarkProof, output: Seq<Felt>, mocked: StarkProof) -> bool {
    let old_page = stark.public_input.main_page@;
    let page = mocked.public_input.main_page@;
    &&& stark.public_input.segments@.len() > 2
    &&& mocked.public_input.segments@.len() == stark.public_input.segments@.len()
    &&& forall|i: int|
        0 <= i < stark.public_input.segments@.len() && i != 2 ==> mocked.public_input.segments@[i]
            == stark.public_input.segments@[i]
    &&& mocked.public_input.segments@[2].begin_addr@ == mock_output_begin()
    &&& mocked.public_input.segments@[2].stop_ptr@ == mock_output_begin() + output.len()
    &&& page.len() == old_page.len() + output.len()
    &&& page.subrange(0, old_page.len() as int) == old_page
    &&& forall|i: int|
        0 <= i < output.len() ==> #[trigger] page[old_page.len() + i].value == output[i]
            && page[old_page.len() + i].address@ == mock_output_begin() + i
}

/// Builds a mock proof around `output`: the output segment of `proof` is set to cover
/// `output.len()` cells from the mock output address, and those cells are appended to the main
/// page. The result is not a valid proof; it only carries `output` where a proof does.
pub fn mock_from_output(stark: StarkProof, output: &Vec<Felt>) -> (r: StarkProof)
    requires
        stark.public_input.segments@.len() > 2,
        output@.len() + mock_output_begin() < two_pow_64(),
        stark.public_input.main_page@.len() + output@.len() <= usize::MAX,
    ensures
        mocked_with_output(stark, output@, r),
        has_readable_output(r),
        proof_output(r) == output@,
{
    let mut stark = stark;
    let ghost old_proof = stark;
    let n = output.len();
    let begin = Felt::from_u64(0xc387);
    let stop = Felt::from_u64(0xc387 + n as u64);
    let mut segments = stark.public_input.segments;
    segments.set(2, SegmentInfo { begin_addr: begin, stop_ptr: stop });
    let mut page = stark.public_input.main_page;
    let old_len = page.len();
    let mut i: usize = 0;
    while i < n
        invariant
            i <= n,
            n == output@.len(),
            n + 0xc387 < two_pow_64(),
            old_len == old_proof.public_input.main_page@.len(),
            old_len + n <= usize::MAX,
            page@.len() == old_len + i,
            page@.subrange(0, old_len as int) == old_proof.public_input.main_page@,
            forall|j: int|
                0 <= j < i ==> #[trigger] page@[old_len + j].value == output@[j]
                    && page@[old_len + j].address@ == mock_output_begin() + j,
        decreases n - i,
    {
        let cell = AddrValue { address: Felt::from_u64(0xc387 + i as u64), value: output[i] };
        page.push(cell);
        assert(page@[old_len + i as int].value == output@[i as int]);
        i = i + 1;
        assert(page@.subrange(0, old_len as int) =~= old_proof.public_input.main_page@);
    }
    let r = StarkProof { public_input: PublicInput { segments, main_page: page } };
    assert(forall|j: int|
        0 <= j < old_proof.public_input.segments@.len() && j != 2 ==> r.public_input.segments@[j]
            == old_proof.public_input.segments@[j]);
    assert forall|k: int| 0 <= k < output@.len() implies #[trigger] r.public_input.main_page@[
        old_proof.public_input.main_page@.len() + k].value == output@[k]
        && r.public_input.main_page@[old_proof.public_input.main_page@.len() + k].address@
        == mock_output_begin() + k by {
        assert(page@[old_len + k].value == output@[k]);
    }
    proof {
        lemma_mock_output_round_trip(old_proof, output@, r);
    }
    r
}

/// Reading the output of a proof mocked around `output` gives back `output`.
pub proof fn lemma_mock_output_round_trip(stark: StarkProof, output: Seq<Felt>, mocked: StarkProof)
    requires
        mocked_with_output(stark, output, mocked),
    ensures
        has_readable_output(mocked),
        proof_output(mocked) == output,
{
    let page = mocked.public_input.main_page@;
    let old_len = stark.public_input.main_page@.len();
    assert(output_len(mocked) == output.len());
    assert(proof_output(mocked) =~= output) by {
        assert forall|i: int| 0 <= i < output.len() implies proof_output(mocked)[i]
            == output[i] by {
            assert(page[old_len + i].value == output[i]);
        }
    }
}

/// The output of a SNOS run as seen through the bootloader: two zero words for the bootloader
/// configuration and output length (not checked by Piltover), the SNOS program hash, then the
/// SNOS output.
pub fn bootloader_snos_output(snos_program_hash: Felt, snos_output: &Vec<Felt>) -> (r: Vec<Felt>)
    ensures
        r@ == seq![Felt::spec_zero(), Felt::spec_zero(), snos_program_hash] + snos_output@,
{
    let mut out: Vec<Felt> = Vec::new();
    out.push(Felt::zero());
    out.push(Felt::zero());
    out.push(snos_program_hash);
    let mut i: usize = 0;
    while i < snos_output.len()
        invariant
            i <= snos_output@.len(),
            out@ == seq![Felt::spec_zero(), Felt::spec_zero(), snos_program_hash]
                + snos_output@.take(i as int),
        decreases snos_output@.len() - i,
    {
        out.push(snos_output[i]);
        i = i + 1;
        assert(out@ =~= seq![Felt::spec_zero(), Felt::spec_zero(), snos_program_hash]
            + snos_output@.take(i as int));
    }
    assert(snos_output@.take(snos_output@.len() as int) =~= snos_output@);
    out
}

/// The program hash of the bootloader used by the Herodotus prover.
pub fn bootloader_program_hash() -> (r: Felt)
    ensures
        r@ == 0x5ab580b04e3532b6b18f81cfa654a05e29dd8e2352d88df1e765a84072db07,
{
    let r = Felt::from_parts(0x5ab580b04e3532b6b18f81cfa654a0, 0x5e29dd8e2352d88df1e765a84072db07);
    assert(0x5ab580b04e3532b6b18f81cfa654a0 * crate::felt::two_pow_128()
        + 0x5e29dd8e2352d88df1e765a84072db07
        == 0x5ab580b04e3532b6b18f81cfa654a05e29dd8e2352d88df1e765a84072db07);
    r.unwrap()
}

/// The output of a mocked layout bridge run as seen through the bootloader: the number of tasks
/// (always one), the output length (not checked by Piltover, zero), the layout bridge program
/// hash, the bootloader program hash, the verifier output length (zero), then the SNOS output.
pub fn layout_bridge_bootloader_output(layout_bridge_program_hash: Felt, snos_output: &Vec<Felt>) -> (r: Vec<Felt>)
    ensures
        r@.len() == 5 + snos_output@.len(),
        r@[0]@ == 1,
        r@[1]@ == 0,
        r@[2] == layout_bridge_program_hash,
        r@[3]@ == 0x5ab580b04e3532b6b18f81cfa654a05e29dd8e2352d88df1e765a84072db07,
        r@[4]@ == 0,
        r@.subrange(5, r@.len() as int) == snos_output@,
{
    let mut out: Vec<Felt> = Vec::new();
    out.push(Felt::one());
    out.push(Felt::zero());
    out.push(layout_bridge_program_hash);
    out.push(bootloader_program_hash());
    out.push(Felt::zero());
    let ghost head = out@;
    let mut i: usize = 0;
    while i < snos_output.len()
        invariant
            i <= snos_output@.len(),
            out@ == head + snos_output@.take(i as int),
            head.len() == 5,
        decreases snos_output@.len() - i,
    {
        out.push(snos_output[i]);
        i = i + 1;
        assert(out@ =~= head + snos_output@.take(i as int));
    }
    assert(out@.subrange(5, out@.len() as int) =~= snos_output@);
    out
}

/// Builds the mock layout bridge proof of a block from its SNOS proof: the SNOS output, seen
/// through the bootloader header of a layout bridge run, is set as the output of `base`.
/// Reading the output of the result gives that header followed by the SNOS output.
pub fn mock_bridge_proof(base: StarkProof, layout_bridge_program_hash: Felt, snos_proof: &StarkProof) -> (r:
    StarkProof)
    requires
        has_readable_output(*snos_proof),
        base.public_input.segments@.len() > 2,
        output_len(*snos_proof) + 5 + mock_output_begin() < two_pow_64(),
        base.public_input.main_page@.len() + output_len(*snos_proof) + 5 <= usize::MAX,
    ensures
        mocked_with_output(base, proof_output(r), r),
        has_readable_output(r),
        proof_output(r).len() == 5 + output_len(*snos_proof),
        proof_output(r)[0]@ == 1,
        proof_output(r)[1]@ == 0,
        proof_output(r)[2] == layout_bridge_program_hash,
        proof_output(r)[3]@ == 0x5ab580b04e3532b6b18f81cfa654a05e29dd8e2352d88df1e765a84072db07,
        proof_output(r)[4]@ == 0,
        proof_output(r).subrange(5, proof_output(r).len() as int) == proof_output(*snos_proof),
{
    let snos_output = calculate_output(snos_proof);
    let output = layout_bridge_bootloader_output(layout_bridge_program_hash, &snos_output);
    let r = mock_from_output(base, &output);
    proof {
        lemma_mock_output_round_trip(base, output@, r);
    }
    r
}

/// What the mock layout bridge prover does for a block: the mock bridge proof to store for the
/// block as its bridge proof, and the block to hand on once it is stored.
#[derive(Debug)]
pub struct MockBridgeOutcome {
    /// The database id of the block the proof is stored for.
    pub block_id: u32,
    /// The step the proof is stored under.
    pub step: Step,
    /// The mock bridge proof.
    pub proof: StarkProof,
    /// The block handed on once the proof is stored.
    pub block: BlockInfo,
}

/// Handles one SNOS proof in the mock layout bridge prover: the mock bridge proof of the block
/// (the layout bridge bootloader header followed by the SNOS output, set on `base`) is stored
/// as the block's bridge proof, and the block then goes on with status `BridgeProofGenerated`
/// and its state update.
pub fn mock_bridge_block(
    base: StarkProof,
    layout_bridge_program_hash: Felt,
    snos: SnosProof<StarkProof>,
    state_update: starknet::core::types::StateUpdate,
) -> (r: MockBridgeOutcome)
    requires
        snos.block_number <= u32::MAX,
        has_readable_output(snos.proof),
        base.public_input.segments@.len() > 2,
        output_len(snos.proof) + 5 + mock_output_begin() < two_pow_64(),
        base.public_input.main_page@.len() + output_len(snos.proof) + 5 <= usize::MAX,
    ensures
        r.block_id == snos.block_number,
        r.step == Step::Bridge,
        mocked_with_output(base, proof_output(r.proof), r.proof),
        proof_output(r.proof).len() == 5 + output_len(snos.proof),
        proof_output(r.proof)[0]@ == 1,
        proof_output(r.proof)[1]@ == 0,
        proof_output(r.proof)[2] == layout_bridge_program_hash,
        proof_output(r.proof)[3]@ == 0x5ab580b04e3532b6b18f81cfa654a05e29dd8e2352d88df1e765a84072db07,
        proof_output(r.proof)[4]@ == 0,
        proof_output(r.proof).subrange(5, proof_output(r.proof).len() as int) == proof_output(
            snos.proof,
        ),
        r.block == (BlockInfo {
            number: snos.block_number,
            status: BlockStatus::BridgeProofGenerated,
            state_update: Some(state_update),
        }),
{
    let proof = mock_bridge_proof(base, layout_bridge_program_hash, &snos.proof);
    MockBridgeOutcome {
        block_id: snos.block_number as u32,
        step: Step::Bridge,
        proof,
        block: BlockInfo {
            number: snos.block_number,
            status: BlockStatus::BridgeProofGenerated,
            state_update: Some(state_update),
        },
    }
}

} // verus!
