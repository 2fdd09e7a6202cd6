use vstd::prelude::*;

use crate::storage::BlockStatus;

verus! {

/// The state changes of a block, as returned by the rollup node.
#[verifier::external_type_specification]
#[verifier::external_body]
pub struct ExStateUpdate(starknet::core::types::StateUpdate);

/// A block moving through the pipeline.
#[derive(Debug, Clone)]
pub struct BlockInfo {
    pub number: u64,
    pub status: BlockStatus,
    pub state_update: Option<starknet::core::types::StateUpdate>,
}

/// Whether a poll that found `latest` as the node's latest block hands the current block on: the
/// lookup succeeded and the chain has reached the current block.
pub open spec fn poll_dispatches(current_block: u64, latest: Option<u64>) -> bool {
    latest matches Some(l) && l >= current_block
}

/// The block the ingestor waits for after such a poll.
pub open spec fn poll_next_block(current_block: u64, latest: Option<u64>) -> int {
    if poll_dispatches(current_block, latest) {
        current_block + 1
    } else {
        current_block as int
    }
}

/// The ids of failed blocks.
pub open spec fn failed_ids(failed: Seq<(u32, String)>) -> Seq<u32> {
    failed.map_values(|f: (u32, String)| f.0)
}

/// The ids of failed blocks as block numbers.
pub open spec fn failed_numbers(failed: Seq<(u32, String)>) -> Seq<u64> {
    failed.map_values(|f: (u32, String)| f.0 as u64)
}

/// What the polling ingestor does after one poll of the node.
#[derive(Debug, Clone)]
pub struct PollPlan {
    /// Blocks to hand to the workers, in order.
    pub dispatch: Vec<u64>,
    /// Failed blocks to mark as handled once dispatched.
    pub handled: Vec<u32>,
    /// The block to wait for next.
    pub next_block: u64,
}

/// Plans one poll of the polling ingestor. When the node's latest block has reached the current
/// one, the failed blocks not yet handled (when their lookup succeeded) are re-queued first, then
/// the current block, and the ingestor moves on to the next block; otherwise nothing is handed on
/// and the ingestor waits before polling again.
pub fn poll_plan(current_block: u64, latest: Option<u64>, failed_blocks: Option<Vec<(u32, String)>>) -> (r:
    PollPlan)
    requires
        poll_dispatches(current_block, latest) ==> current_block < u64::MAX,
    ensures
        r.next_block == poll_next_block(current_block, latest),
        !poll_dispatches(current_block, latest) ==> r.dispatch@.len() == 0 && r.handled@.len() == 0,
        poll_dispatches(current_block, latest) ==> (match failed_blocks {
            Some(f) => r.dispatch@ == failed_numbers(f@).push(current_block) && r.handled@
                == failed_ids(f@),
            None => r.dispatch@ == seq![current_block] && r.handled@.len() == 0,
        }),
{
    let mut dispatch: Vec<u64> = Vec::new();
    let mut handled: Vec<u32> = Vec::new();
    let dispatches = match latest {
        Some(l) => l >= current_block,
        None => false,
    };
    if !dispatches {
        return PollPlan { dispatch, handled, next_block: current_block };
    }
    match failed_blocks {
        Some(f) => {
            let mut i: usize = 0;
            while i < f.len()
                invariant
                    i <= f@.len(),
                    dispatch@ == failed_numbers(f@.take(i as int)),
                    handled@ == failed_ids(f@.take(i as int)),
                decreases f@.len() - i,
            {
                let id = f[i].0;
                dispatch.push(id as u64);
                handled.push(id);
                i = i + 1;
                assert(failed_numbers(f@.take(i as int)) =~= failed_numbers(f@.take(i - 1)).push(
                    id as u64,
                ));
                assert(failed_ids(f@.take(i as int)) =~= failed_ids(f@.take(i - 1)).push(id));
            }
            assert(f@.take(f@.len() as int) =~= f@);
        },
        None => {},
    }
    dispatch.push(current_block);
    PollPlan { dispatch, handled, next_block: current_block + 1 }
}

/// The block the ingestor waits for, the blocks it handed on as current blocks, and the latest
/// block the node reported at each of those polls, after polls that found the given latest
/// blocks, starting from `start`. Each poll moves to [`poll_next_block`], the `next_block` of
/// [`poll_plan`], and a poll that moves on has handed on the block it waited for (the last block
/// of its plan).
pub open spec fn poll_run(start: u64, latests: Seq<Option<u64>>) -> (int, Seq<int>, Seq<int>)
    decreases latests.len(),
{
    if latests.len() == 0 {
        (start as int, Seq::empty(), Seq::empty())
    } else {
        let (current, heads, seen) = poll_run(start, latests.drop_last());
        if current < u64::MAX && poll_dispatches(current as u64, latests.last()) {
            (
                poll_next_block(current as u64, latests.last()),
                heads.push(current),
                seen.push(latests.last()->0 as int),
            )
        } else {
            (current, heads, seen)
        }
    }
}

/// Whatever the node answers, the polling ingestor hands on every block from its start block on,
/// each exactly once and in order, with no gap, and only once the node reported a latest block
/// at least as high: after any sequence of polls (below the last 64-bit block number) the blocks
/// handed on as current blocks are exactly `start, start + 1, ...` up to the block it now waits
/// for.
pub proof fn lemma_polling_hands_on_consecutive_blocks(start: u64, latests: Seq<Option<u64>>)
    ensures
        poll_run(start, latests).0 >= start,
        poll_run(start, latests).1 == Seq::new(
            (poll_run(start, latests).0 - start) as nat,
            |i: int| start + i,
        ),
        poll_run(start, latests).2.len() == poll_run(start, latests).1.len(),
        forall|i: int|
            0 <= i < poll_run(start, latests).1.len() ==> #[trigger] poll_run(start, latests).2[i]
                >= poll_run(start, latests).1[i],
    decreases latests.len(),
{
    if latests.len() > 0 {
        lemma_polling_hands_on_consecutive_blocks(start, latests.drop_last());
        let (current, heads, seen) = poll_run(start, latests.drop_last());
        assert(heads.push(current) =~= Seq::new((current + 1 - start) as nat, |i: int| start + i));
    }
}

/// Generates the PIE of a block's execution with the OS run in this process.
#[derive(Debug, Clone, Copy)]
pub struct LocalPieGenerator;

} // verus!
