use vstd::prelude::*;

use crate::data_availability::DataAvailabilityPointer;
use crate::felt::{felt_prime, two_pow_64, Felt};
use crate::storage::ChainHead;

verus! {

/// Where a network starts when no chain head has been persisted yet.
#[derive(Debug, Clone, Copy)]
pub struct Genesis {
    /// Number or height of the first block that transforms the genesis state. This is usually `0`
    /// or `1` for a new network, but can be arbitrary for existing networks.
    pub first_block_number: u64,
}

/// Why an orchestrator could not determine the first block to process.
#[derive(Debug, Clone, Copy, PartialEq, Eq, Structural)]
pub enum StartBlockError {
    /// The block after the last settled one does not fit in 64 bits.
    BlockNumberOutOfRange,
    /// No chain head is persisted and no genesis was supplied.
    GenesisNotProvided,
}

/// The first block to process after the settlement layer reports `settled` as its last verified
/// block. The settlement layer reports `P - 1` (the felt `-1`) before any block was settled, and
/// felt addition wraps, so that value gives block `0`.
pub fn start_block_after_settled(settled: Felt) -> (r: Result<u64, StartBlockError>)
    ensures
        ((settled@ + 1) % felt_prime() < two_pow_64()) <==> r is Ok,
        r matches Ok(b) ==> b == (settled@ + 1) % felt_prime(),
        r matches Err(e) ==> e == StartBlockError::BlockNumberOutOfRange,
{
    let next = settled.wrapping_successor();
    match next.to_u64() {
        Some(b) => Ok(b),
        None => Err(StartBlockError::BlockNumberOutOfRange),
    }
}

/// Where a sovereign chain resumes: after the persisted chain head, chaining its data to the
/// head's published data, or at the supplied genesis with no previous data. The previous
/// pointer is taken at the persisted block's height, with the commitment and namespace of the
/// head's published data.
pub fn sovereign_start(chain_head: ChainHead, genesis: Option<Genesis>) -> (r: Result<
    (u64, Option<DataAvailabilityPointer>),
    StartBlockError,
>)
    requires
        chain_head matches ChainHead::Block(b) ==> b.height < u64::MAX,
    ensures
        r == (match chain_head {
            ChainHead::Genesis => match genesis {
                Some(g) => Ok((g.first_block_number, None)),
                None => Err(StartBlockError::GenesisNotProvided),
            },
            ChainHead::Block(b) => Ok((
                (b.height + 1) as u64,
                Some(
                    DataAvailabilityPointer {
                        height: b.height,
                        commitment: b.da_pointer.commitment,
                        namespace: b.da_pointer.namespace,
                    },
                ),
            )),
        }),
{
    match chain_head {
        ChainHead::Genesis => match genesis {
            Some(g) => Ok((g.first_block_number, None)),
            None => Err(StartBlockError::GenesisNotProvided),
        },
        ChainHead::Block(b) => Ok((
            b.height + 1,
            Some(
                DataAvailabilityPointer {
                    height: b.height,
                    commitment: b.da_pointer.commitment,
                    namespace: b.da_pointer.namespace,
                },
            ),
        )),
    }
}

/// Builder of the orchestrator that runs a rollup in persistent mode: blocks are proved, their
/// proofs made available, and the state transition applied on the settlement layer.
#[derive(Debug)]
pub struct PersistentOrchestratorBuilder<I, P, D, S> {
    pub ingestor_builder: I,
    pub prover_builder: P,
    pub da_builder: D,
    pub settlement_builder: S,
}

impl<I, P, D, S> PersistentOrchestratorBuilder<I, P, D, S> {
    /// Gathers the builders of the four pipeline components.
    pub fn new(ingestor_builder: I, prover_builder: P, da_builder: D, settlement_builder: S) -> (r:
        Self)
        ensures
            r.ingestor_builder == ingestor_builder,
            r.prover_builder == prover_builder,
            r.da_builder == da_builder,
            r.settlement_builder == settlement_builder,
    {
        PersistentOrchestratorBuilder { ingestor_builder, prover_builder, da_builder, settlement_builder }
    }
}

/// Builder of the orchestrator that runs a rollup in persistent mode with blocks proved inside a
/// trusted execution environment: only an ingestor and a settlement backend are wired.
#[derive(Debug)]
pub struct PersistentTeeOrchestratorBuilder<I, S> {
    pub ingestor_builder: I,
    pub settlement_builder: S,
}

impl<I, S> PersistentTeeOrchestratorBuilder<I, S> {
    /// Gathers the builders of the ingestor and the settlement backend.
    pub fn new(ingestor_builder: I, settlement_builder: S) -> (r: Self)
        ensures
            r.ingestor_builder == ingestor_builder,
            r.settlement_builder == settlement_builder,
    {
        PersistentTeeOrchestratorBuilder { ingestor_builder, settlement_builder }
    }
}

/// Builder of the orchestrator that runs a rollup in sovereign mode: blocks are proved and their
/// proofs made available, with no settlement on a base layer.
#[derive(Debug)]
pub struct SovereignOrchestratorBuilder<I, P, D, S> {
    pub ingestor_builder: I,
    pub prover_builder: P,
    pub da_builder: D,
    pub storage: S,
    pub genesis: Option<Genesis>,
}

impl<I, P, D, S> SovereignOrchestratorBuilder<I, P, D, S> {
    /// Gathers the builders, the chain head storage and the optional genesis.
    pub fn new(
        ingestor_builder: I,
        prover_builder: P,
        da_builder: D,
        storage: S,
        genesis: Option<Genesis>,
    ) -> (r: Self)
        ensures
            r.ingestor_builder == ingestor_builder,
            r.prover_builder == prover_builder,
            r.da_builder == da_builder,
            r.storage == storage,
            r.genesis == genesis,
    {
        SovereignOrchestratorBuilder { ingestor_builder, prover_builder, da_builder, storage, genesis }
    }
}

/// Builder of the orchestrator for the TEE pipeline: batches of blocks are attested, proved
/// from the attestation and settled.
#[derive(Debug)]
pub struct TeeOrchestratorBuilder<I, A, P, S> {
    pub ingestor_builder: I,
    pub attestor_builder: A,
    pub prover_builder: P,
    pub settlement_builder: S,
}

impl<I, A, P, S> TeeOrchestratorBuilder<I, A, P, S> {
    /// Gathers the builders of the four TEE pipeline stages.
    pub fn new(ingestor_builder: I, attestor_builder: A, prover_builder: P, settlement_builder: S) -> (r:
        Self)
        ensures
            r.ingestor_builder == ingestor_builder,
            r.attestor_builder == attestor_builder,
            r.prover_builder == prover_builder,
            r.settlement_builder == settlement_builder,
    {
        TeeOrchestratorBuilder { ingestor_builder, attestor_builder, prover_builder, settlement_builder }
    }
}

/// Builder of a pipeline stage made of two chained stages, the output of the upstream one
/// feeding the downstream one.
#[derive(Debug)]
pub struct PipelineChainBuilder<U, D> {
    pub upstream_builder: U,
    pub downstream_builder: D,
}

impl<U, D> PipelineChainBuilder<U, D> {
    /// Chains `upstream_builder` into `downstream_builder`.
    pub fn new(upstream_builder: U, downstream_builder: D) -> (r: Self)
        ensures
            r.upstream_builder == upstream_builder,
            r.downstream_builder == downstream_builder,
    {
        PipelineChainBuilder { upstream_builder, downstream_builder }
    }
}

} // verus!
