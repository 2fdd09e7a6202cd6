use vstd::prelude::*;

use crate::block_ingestor::BlockInfo;
use crate::felt::Felt;

verus! {

/// Location of a blob published on the data availability layer.
#[derive(Debug, Clone, Copy, PartialEq, Eq)]
pub struct DataAvailabilityPointer {
    /// Celestia block height.
    pub height: u64,
    /// Celestia blob commitment.
    pub commitment: [u8; 32],
    /// Celestia namespace ID.
    pub namespace: Felt,
}

/// A payload that has gone through the data availability layer.
#[derive(Debug, Clone)]
pub struct DataAvailabilityCursor<P> {
    /// State transition block.
    pub block_number: u64,
    /// Pointer to location of data availability. `None` if data publishing was not performed.
    pub pointer: Option<DataAvailabilityPointer>,
    /// Full content of the payload.
    pub full_payload: P,
}

/// What a packet needs to know of the packets published before it.
#[derive(Debug, Clone, Copy)]
pub struct DataAvailabilityPacketContext {
    pub prev: Option<DataAvailabilityPointer>,
}

/// A proof of a block's execution, tagged with the block's number.
#[derive(Debug, Clone)]
pub struct SnosProof<P> {
    pub block_number: u64,
    pub proof: P,
}

/// Implemented by pipeline items that carry a block number, by which they are ordered.
pub trait HasBlockNumber {
    /// Whether the item has a block number to give.
    spec fn has_block_number(&self) -> bool;

    fn block_number(&self) -> (r: u64)
        requires
            self.has_block_number(),
    ;

    /// Whether the item has a block number to give, checked at run time.
    fn carries_block_number(&self) -> (r: bool)
        ensures
            r == self.has_block_number(),
    ;
}

impl<P> HasBlockNumber for SnosProof<P> {
    open spec fn has_block_number(&self) -> bool {
        true
    }

    /// The number of the proved block.
    fn block_number(&self) -> (r: u64)
        ensures
            r == self.block_number,
    {
        self.block_number
    }

    /// A proof always names its block.
    fn carries_block_number(&self) -> (r: bool) {
        true
    }
}

impl HasBlockNumber for BlockInfo {
    open spec fn has_block_number(&self) -> bool {
        true
    }

    /// The number of the block.
    fn block_number(&self) -> (r: u64)
        ensures
            r == self.number,
    {
        self.number
    }

    /// A block always has its number.
    fn carries_block_number(&self) -> (r: bool) {
        true
    }
}

/// Data made available in `sovereign` mode: the full proof, linked to the previous packet.
#[derive(Debug, Clone)]
pub struct SovereignPacket<P> {
    /// Pointer to the previous packet.
    pub prev: Option<DataAvailabilityPointer>,
    /// The content of the packet.
    pub proof: SnosProof<P>,
}

/// Data made available in `persistent` mode: only the block's state update.
#[derive(Debug, Clone)]
pub struct PersistentPacket {
    pub state_update: Option<starknet::core::types::StateUpdate>,
}

/// The packet published for a proof in `sovereign` mode: the proof, pointing at the packet
/// published before it.
pub fn sovereign_packet<P>(proof: SnosProof<P>, ctx: DataAvailabilityPacketContext) -> (r: SovereignPacket<P>)
    ensures
        r.prev == ctx.prev,
        r.proof == proof,
{
    SovereignPacket { prev: ctx.prev, proof }
}

/// The packet published for a block in `persistent` mode: its state update alone.
pub fn persistent_packet(block: BlockInfo) -> (r: PersistentPacket)
    ensures
        r.state_update == block.state_update,
{
    PersistentPacket { state_update: block.state_update }
}

/// The cursor a backend that publishes nothing hands on for a payload: no pointer.
pub fn unpublished_cursor<P>(block_number: u64, payload: P) -> (r: DataAvailabilityCursor<P>)
    ensures
        r.block_number == block_number,
        r.pointer is None,
        r.full_payload == payload,
{
    DataAvailabilityCursor { block_number, pointer: None, full_payload: payload }
}

/// The cursor of a block handed to settlement without data being published: a pipeline that
/// publishes nothing hands each block on as it comes, under its own number.
pub fn block_cursor(block: BlockInfo) -> (r: DataAvailabilityCursor<BlockInfo>)
    ensures
        r.block_number == block.number,
        r.pointer is None,
        r.full_payload == block,
{
    let n = block.number;
    unpublished_cursor(n, block)
}

/// The pointer to a blob published at `height` with `commitment` in `namespace`.
pub open spec fn blob_pointer(height: u64, commitment: [u8; 32], namespace: Felt) -> DataAvailabilityPointer {
    DataAvailabilityPointer { height, commitment, namespace }
}

/// The chain of packets a data availability backend publishes: each packet points at the blob
/// published before it.
#[derive(Debug, Clone, Copy)]
pub struct PacketChain {
    namespace: Felt,
    last_pointer: Option<DataAvailabilityPointer>,
}

impl PacketChain {
    /// The pointer to the last blob published, if any.
    pub closed spec fn last(self) -> Option<DataAvailabilityPointer> {
        self.last_pointer
    }

    /// The namespace blobs are published in.
    pub closed spec fn namespace(self) -> Felt {
        self.namespace
    }

    /// Resumes the chain after the blob `last_pointer` points at, publishing in `namespace`.
    pub fn new(namespace: Felt, last_pointer: Option<DataAvailabilityPointer>) -> (r: PacketChain)
        ensures
            r.last() == last_pointer,
            r.namespace() == namespace,
    {
        PacketChain { namespace, last_pointer }
    }

    /// What the next packet knows of the packets before it: the last blob published.
    pub fn packet_context(&self) -> (r: DataAvailabilityPacketContext)
        ensures
            r.prev == self.last(),
    {
        DataAvailabilityPacketContext { prev: self.last_pointer }
    }

    /// Records that the packet of `payload`, for block `block_number`, was published as a blob at
    /// `height` with `commitment`, and returns the cursor handed downstream, which points at it.
    pub fn record_blob<P>(&mut self, block_number: u64, payload: P, height: u64, commitment: [u8; 32]) -> (r:
        DataAvailabilityCursor<P>)
        ensures
            final(self).namespace() == old(self).namespace(),
            final(self).last() == Some(blob_pointer(height, commitment, old(self).namespace())),
            r.block_number == block_number,
            r.pointer == Some(blob_pointer(height, commitment, old(self).namespace())),
            r.full_payload == payload,
    {
        let pointer = DataAvailabilityPointer { height, commitment, namespace: self.namespace };
        self.last_pointer = Some(pointer);
        DataAvailabilityCursor { block_number, pointer: Some(pointer), full_payload: payload }
    }
}

/// Each published packet points at the blob published just before it: once a blob is recorded,
/// the context of the next packet (the chain's last pointer) is the pointer handed downstream
/// with that blob's cursor.
pub proof fn lemma_next_packet_points_at_recorded_blob<P>(
    before: PacketChain,
    after: PacketChain,
    height: u64,
    commitment: [u8; 32],
    cursor: DataAvailabilityCursor<P>,
)
    requires
        after.namespace() == before.namespace(),
        after.last() == Some(blob_pointer(height, commitment, before.namespace())),
        cursor.pointer == Some(blob_pointer(height, commitment, before.namespace())),
    ensures
        after.last() == cursor.pointer,
        after.last() is Some,
{
}

/// The law of a whole run of a data availability backend that resumes after `chains[0].last()`:
/// `chains[i]` is the chain before the `i`-th payload is published and `chains[i + 1]` the chain
/// after its blob, at `blobs[i]` (height and commitment), was recorded, handing on `cursors[i]`.
/// Every cursor points at its own blob in the chain's namespace, and the packet of the first
/// payload is chained to the pointer the backend resumed from, while the packet of every later
/// payload is chained to the pointer of the cursor handed on just before it.
pub proof fn lemma_packet_chain_run<P>(
    chains: Seq<PacketChain>,
    blobs: Seq<(u64, [u8; 32])>,
    cursors: Seq<DataAvailabilityCursor<P>>,
)
    requires
        chains.len() == blobs.len() + 1,
        cursors.len() == blobs.len(),
        forall|i: int|
            0 <= i < blobs.len() ==> {
                &&& #[trigger] chains[i + 1].namespace() == chains[i].namespace()
                &&& chains[i + 1].last() == Some(blob_pointer(blobs[i].0, blobs[i].1, chains[i].namespace()))
                &&& cursors[i].pointer == Some(blob_pointer(blobs[i].0, blobs[i].1, chains[i].namespace()))
            },
    ensures
        forall|i: int| 0 <= i < chains.len() ==> #[trigger] chains[i].namespace() == chains[0].namespace(),
        forall|i: int|
            0 <= i < cursors.len() ==> #[trigger] cursors[i].pointer == Some(
                blob_pointer(blobs[i].0, blobs[i].1, chains[0].namespace()),
            ),
        forall|i: int|
            0 < i < cursors.len() ==> #[trigger] chains[i].last() == cursors[i - 1].pointer,
    decreases blobs.len(),
{
    if blobs.len() > 0 {
        let n = blobs.len() - 1;
        let c2 = chains.drop_last();
        let b2 = blobs.drop_last();
        let k2 = cursors.drop_last();
        assert forall|i: int| 0 <= i < b2.len() implies {
            &&& #[trigger] c2[i + 1].namespace() == c2[i].namespace()
            &&& c2[i + 1].last() == Some(blob_pointer(b2[i].0, b2[i].1, c2[i].namespace()))
            &&& k2[i].pointer == Some(blob_pointer(b2[i].0, b2[i].1, c2[i].namespace()))
        } by {
            assert(chains[i + 1].namespace() == chains[i].namespace());
        }
        lemma_packet_chain_run(c2, b2, k2);
        assert(chains[n + 1].namespace() == chains[n].namespace());
        assert(c2[n].namespace() == c2[0].namespace());
        assert forall|i: int| 0 <= i < chains.len() implies #[trigger] chains[i].namespace()
            == chains[0].namespace() by {
            if i <= n {
                assert(c2[i].namespace() == c2[0].namespace());
            }
        }
        assert forall|i: int| 0 <= i < cursors.len() implies #[trigger] cursors[i].pointer == Some(
            blob_pointer(blobs[i].0, blobs[i].1, chains[0].namespace()),
        ) by {
            assert(chains[i + 1].namespace() == chains[i].namespace());
            assert(chains[i].namespace() == chains[0].namespace());
        }
        assert forall|i: int| 0 < i < cursors.len() implies #[trigger] chains[i].last()
            == cursors[i - 1].pointer by {
            assert(chains[(i - 1) + 1].namespace() == chains[i - 1].namespace());
        }
    }
}

} // verus!
