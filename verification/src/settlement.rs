use vstd::prelude::*;

use crate::data_availability::DataAvailabilityPointer;
use crate::felt::{be_value, felt_from_bytes_be, felt_prime, Felt};
use crate::stark_proof::{calculate_output, has_readable_output, proof_output, StarkProof};
use crate::storage::BlockStatus;

verus! {

/// A block whose state transition has been settled.
#[derive(Debug, Clone, Copy, PartialEq, Eq, Structural)]
pub struct SettlementCursor {
    /// Number/height of the rollup block that has been settled.
    pub block_number: u64,
    /// Settlement transaction hash.
    pub transaction_hash: Felt,
}

/// Where the data of a settled block was made available, as Piltover records it.
#[derive(Debug, Clone, Copy)]
pub struct DaLayerInfo {
    pub height: u64,
    pub commitment: Felt,
    pub namespace: Felt,
}

/// The input of Piltover's `update_state` entry point for a layout bridge proof.
#[derive(Debug, Clone)]
pub enum PiltoverInput {
    /// The layout bridge program output, without data availability.
    LayoutBridgeOutputNoDa(Vec<Felt>),
    /// The layout bridge program output and where its data was published.
    LayoutBridgeOutputWithDa(Vec<Felt>, DaLayerInfo),
}

/// Builds the `update_state` input for a layout bridge program output and, when the data was
/// published, its data availability pointer.
pub fn update_state_input(program_output: Vec<Felt>, da_pointer: Option<DataAvailabilityPointer>) -> (r:
    PiltoverInput)
    ensures
        da_pointer is None ==> r == PiltoverInput::LayoutBridgeOutputNoDa(program_output),
        da_pointer matches Some(p) ==> (r matches PiltoverInput::LayoutBridgeOutputWithDa(out, info)
            && out == program_output && info.height == p.height && info.commitment@
            == be_value(p.commitment@) % felt_prime() && info.namespace == p.namespace),
{
    match da_pointer {
        Some(pointer) => {
            let info = DaLayerInfo {
                height: pointer.height,
                commitment: felt_from_bytes_be(&pointer.commitment),
                namespace: pointer.namespace,
            };
            PiltoverInput::LayoutBridgeOutputWithDa(program_output, info)
        },
        None => PiltoverInput::LayoutBridgeOutputNoDa(program_output),
    }
}

/// What the integrity fact registrar does with a block, given its status.
#[derive(Debug, Clone, Copy, PartialEq, Eq, Structural)]
pub enum IntegrityPlan {
    /// Submit the bridge proof to the integrity verifier, then settle.
    VerifyThenSettle,
    /// The proof was verified by an earlier run: settle without verifying again.
    Settle,
    /// The block is not ready for settlement: skip it.
    Skip,
}

/// What the integrity fact registrar does with a block whose bridge proof is stored: a block
/// whose bridge proof was generated is verified then settled, one already verified is only
/// settled, and any other is skipped.
pub fn integrity_plan(status: BlockStatus) -> (r: IntegrityPlan)
    ensures
        r == (match status {
            BlockStatus::BridgeProofGenerated => IntegrityPlan::VerifyThenSettle,
            BlockStatus::VerifiedProof => IntegrityPlan::Settle,
            _ => IntegrityPlan::Skip,
        }),
{
    match status {
        BlockStatus::BridgeProofGenerated => IntegrityPlan::VerifyThenSettle,
        BlockStatus::VerifiedProof => IntegrityPlan::Settle,
        _ => IntegrityPlan::Skip,
    }
}

/// Whether the registrar that skips on-chain verification settles a block in `status`: only a
/// block whose bridge proof was generated or verified is settled.
pub fn noop_settles(status: BlockStatus) -> (r: bool)
    ensures
        r <==> (status is BridgeProofGenerated || status is VerifiedProof),
{
    match status {
        BlockStatus::BridgeProofGenerated | BlockStatus::VerifiedProof => true,
        _ => false,
    }
}

/// The database id of a rollup block, or `None` when its number does not fit the 32-bit ids the
/// database uses.
pub fn block_id(block_number: u64) -> (r: Option<u32>)
    ensures
        block_number <= u32::MAX <==> r is Some,
        r matches Some(id) ==> id == block_number,
{
    if block_number <= u32::MAX as u64 {
        Some(block_number as u32)
    } else {
        None
    }
}

/// The state Piltover reports for the appchain.
#[derive(Debug, Clone, Copy)]
pub struct AppchainState {
    pub state_root: Felt,
    pub block_number: Felt,
    pub block_hash: Felt,
}

/// Decodes the reply of Piltover's `get_state`: its first three felts are the state root, the
/// block number and the block hash; a shorter reply is `None`.
pub fn decode_appchain_state(raw: &Vec<Felt>) -> (r: Option<AppchainState>)
    ensures
        r is Some <==> raw@.len() >= 3,
        r matches Some(s) ==> s.state_root == raw@[0] && s.block_number == raw@[1] && s.block_hash
            == raw@[2],
{
    if raw.len() >= 3 {
        Some(AppchainState { state_root: raw[0], block_number: raw[1], block_hash: raw[2] })
    } else {
        None
    }
}

/// Where the settlement backend stands with the block it is settling.
#[derive(Debug, Clone, Copy, PartialEq, Eq, Structural)]
pub enum SettlementStage {
    /// Waiting for the next block to come out of data availability.
    AwaitingDa,
    /// Waiting for the fact registrar to build the settlement call of the block.
    BuildingCall { block_number: u64 },
    /// Waiting for the fee of the settlement call to be estimated.
    EstimatingFee { block_number: u64 },
    /// Waiting for the settlement transaction to be sent.
    Sending { block_number: u64 },
    /// Waiting for the sent transaction to be confirmed.
    Confirming { block_number: u64, transaction_hash: Felt },
    /// Waiting for the settled block to be removed from the database.
    RemovingBlock { block_number: u64, transaction_hash: Felt },
    /// Waiting for the settlement cursor to be handed downstream.
    EmittingCursor,
    /// The backend stops: shutdown was requested or its input closed.
    Stopped,
    /// The backend stops on an error it cannot recover from.
    Aborted,
}

/// What the outside world reports after performing a settlement action.
#[derive(Debug, Clone, Copy)]
pub enum SettlementEvent {
    /// Shutdown was requested while waiting.
    Shutdown,
    /// The data availability channel was closed.
    DaClosed,
    /// A block came out of data availability.
    DaReceived { block_number: u64, pointer: Option<DataAvailabilityPointer> },
    /// The fact registrar built the settlement call.
    CallBuilt,
    /// The fact registrar chose to skip the block.
    CallSkipped,
    /// The fact registrar failed on the block.
    RegistrationFailed,
    /// The requested action completed.
    Done,
    /// The settlement transaction was sent with this hash.
    Sent { transaction_hash: Felt },
    /// The requested action failed.
    Failed,
}

/// What the settlement backend does next.
#[derive(Debug, Clone, Copy)]
pub enum SettlementAction {
    /// Wait for the next block out of data availability, or for shutdown.
    AwaitDa,
    /// Ask the fact registrar for the settlement call of the block.
    BuildCall { block_number: u64, pointer: Option<DataAvailabilityPointer> },
    /// Estimate the fee of the settlement call, retrying with backoff.
    EstimateFee,
    /// Send the settlement call, retrying with backoff.
    SendTransaction,
    /// Wait until the transaction is confirmed.
    WatchTransaction { transaction_hash: Felt },
    /// Remove the settled block from the database.
    RemoveBlock { block_id: u32 },
    /// Hand the cursor downstream, unless shutdown is requested meanwhile.
    EmitCursor { cursor: SettlementCursor },
    /// Stop the backend.
    Stop,
    /// Stop the backend with an error.
    Abort,
}

/// The events each settlement stage waits for.
pub open spec fn settlement_expects(stage: SettlementStage, event: SettlementEvent) -> bool {
    match stage {
        SettlementStage::AwaitingDa => event is Shutdown || event is DaClosed || event is DaReceived,
        SettlementStage::BuildingCall { .. } => event is CallBuilt || event is CallSkipped
            || event is RegistrationFailed,
        SettlementStage::EstimatingFee { .. } => event is Done || event is Failed,
        SettlementStage::Sending { .. } => event is Sent || event is Failed,
        SettlementStage::Confirming { .. } => event is Done || event is Failed,
        SettlementStage::RemovingBlock { .. } => event is Done || event is Failed,
        SettlementStage::EmittingCursor => event is Done || event is Shutdown,
        _ => false,
    }
}

/// The transition table of the settlement backend.
pub open spec fn settlement_next(stage: SettlementStage, event: SettlementEvent) -> (
    SettlementStage,
    SettlementAction,
) {
    match stage {
        SettlementStage::AwaitingDa => match event {
            SettlementEvent::DaReceived { block_number, pointer } => (
                SettlementStage::BuildingCall { block_number },
                SettlementAction::BuildCall { block_number, pointer },
            ),
            _ => (SettlementStage::Stopped, SettlementAction::Stop),
        },
        SettlementStage::BuildingCall { block_number } => match event {
            SettlementEvent::CallBuilt => (
                SettlementStage::EstimatingFee { block_number },
                SettlementAction::EstimateFee,
            ),
            _ => (SettlementStage::AwaitingDa, SettlementAction::AwaitDa),
        },
        SettlementStage::EstimatingFee { block_number } => match event {
            SettlementEvent::Done => (
                SettlementStage::Sending { block_number },
                SettlementAction::SendTransaction,
            ),
            _ => (SettlementStage::Aborted, SettlementAction::Abort),
        },
        SettlementStage::Sending { block_number } => match event {
            SettlementEvent::Sent { transaction_hash } => (
                SettlementStage::Confirming { block_number, transaction_hash },
                SettlementAction::WatchTransaction { transaction_hash },
            ),
            _ => (SettlementStage::Aborted, SettlementAction::Abort),
        },
        SettlementStage::Confirming { block_number, transaction_hash } => match event {
            SettlementEvent::Done => if block_number <= u32::MAX {
                (
                    SettlementStage::RemovingBlock { block_number, transaction_hash },
                    SettlementAction::RemoveBlock { block_id: block_number as u32 },
                )
            } else {
                (SettlementStage::Aborted, SettlementAction::Abort)
            },
            _ => (SettlementStage::Aborted, SettlementAction::Abort),
        },
        SettlementStage::RemovingBlock { block_number, transaction_hash } => match event {
            SettlementEvent::Done => (
                SettlementStage::EmittingCursor,
                SettlementAction::EmitCursor {
                    cursor: SettlementCursor { block_number, transaction_hash },
                },
            ),
            _ => (SettlementStage::Aborted, SettlementAction::Abort),
        },
        SettlementStage::EmittingCursor => match event {
            SettlementEvent::Done => (SettlementStage::AwaitingDa, SettlementAction::AwaitDa),
            _ => (SettlementStage::Stopped, SettlementAction::Stop),
        },
        SettlementStage::Stopped => (SettlementStage::Stopped, SettlementAction::Stop),
        SettlementStage::Aborted => (SettlementStage::Aborted, SettlementAction::Abort),
    }
}

impl SettlementStage {
    /// Moves the settlement along after `event`, returning what to do next.
    pub fn step(self, event: SettlementEvent) -> (r: (SettlementStage, SettlementAction))
        requires
            settlement_expects(self, event),
        ensures
            r == settlement_next(self, event),
    {
        match self {
            SettlementStage::AwaitingDa => match event {
                SettlementEvent::DaReceived { block_number, pointer } => (
                    SettlementStage::BuildingCall { block_number },
                    SettlementAction::BuildCall { block_number, pointer },
                ),
                _ => (SettlementStage::Stopped, SettlementAction::Stop),
            },
            SettlementStage::BuildingCall { block_number } => match event {
                SettlementEvent::CallBuilt => (
                    SettlementStage::EstimatingFee { block_number },
                    SettlementAction::EstimateFee,
                ),
                _ => (SettlementStage::AwaitingDa, SettlementAction::AwaitDa),
            },
            SettlementStage::EstimatingFee { block_number } => match event {
                SettlementEvent::Done => (
                    SettlementStage::Sending { block_number },
                    SettlementAction::SendTransaction,
                ),
                _ => (SettlementStage::Aborted, SettlementAction::Abort),
            },
            SettlementStage::Sending { block_number } => match event {
                SettlementEvent::Sent { transaction_hash } => (
                    SettlementStage::Confirming { block_number, transaction_hash },
                    SettlementAction::WatchTransaction { transaction_hash },
                ),
                _ => (SettlementStage::Aborted, SettlementAction::Abort),
            },
            SettlementStage::Confirming { block_number, transaction_hash } => match event {
                SettlementEvent::Done => match block_id(block_number) {
                    Some(id) => (
                        SettlementStage::RemovingBlock { block_number, transaction_hash },
                        SettlementAction::RemoveBlock { block_id: id },
                    ),
                    None => (SettlementStage::Aborted, SettlementAction::Abort),
                },
                _ => (SettlementStage::Aborted, SettlementAction::Abort),
            },
            SettlementStage::RemovingBlock { block_number, transaction_hash } => match event {
                SettlementEvent::Done => (
                    SettlementStage::EmittingCursor,
                    SettlementAction::EmitCursor {
                        cursor: SettlementCursor { block_number, transaction_hash },
                    },
                ),
                _ => (SettlementStage::Aborted, SettlementAction::Abort),
            },
            SettlementStage::EmittingCursor => match event {
                SettlementEvent::Done => (SettlementStage::AwaitingDa, SettlementAction::AwaitDa),
                _ => (SettlementStage::Stopped, SettlementAction::Stop),
            },
            SettlementStage::Stopped => (SettlementStage::Stopped, SettlementAction::Stop),
            SettlementStage::Aborted => (SettlementStage::Aborted, SettlementAction::Abort),
        }
    }
}

/// How far a stage is from having settled its block; each transition within a block lowers it.
pub open spec fn settlement_rank(stage: SettlementStage) -> nat {
    match stage {
        SettlementStage::BuildingCall { .. } => 6,
        SettlementStage::EstimatingFee { .. } => 5,
        SettlementStage::Sending { .. } => 4,
        SettlementStage::Confirming { .. } => 3,
        SettlementStage::RemovingBlock { .. } => 2,
        SettlementStage::EmittingCursor => 1,
        _ => 0,
    }
}

/// Once a block is taken up, every move brings it closer to settled or ends its handling: a
/// block is settled, skipped or abandoned in at most six moves.
pub proof fn lemma_settlement_progress(stage: SettlementStage, event: SettlementEvent)
    requires
        settlement_expects(stage, event),
        !(stage is AwaitingDa),
    ensures
        settlement_rank(settlement_next(stage, event).0) < settlement_rank(stage),
{
}

/// A cursor is handed downstream only once the block's settlement transaction was confirmed and
/// the block removed from the database, and it names that block and that transaction.
pub proof fn lemma_cursor_after_confirmed_removal(stage: SettlementStage, event: SettlementEvent)
    requires
        settlement_expects(stage, event),
        settlement_next(stage, event).1 is EmitCursor,
    ensures
        stage matches SettlementStage::RemovingBlock { block_number, transaction_hash } && event
            is Done && settlement_next(stage, event).1 == (SettlementAction::EmitCursor {
            cursor: SettlementCursor { block_number, transaction_hash },
        }),
{
}

/// The block removed from the database is the block whose transaction was confirmed.
pub proof fn lemma_removed_block_is_confirmed(stage: SettlementStage, event: SettlementEvent)
    requires
        settlement_expects(stage, event),
        settlement_next(stage, event).1 is RemoveBlock,
    ensures
        stage matches SettlementStage::Confirming { block_number, transaction_hash } && event
            is Done && settlement_next(stage, event) == (SettlementStage::RemovingBlock {
            block_number,
            transaction_hash,
        }, SettlementAction::RemoveBlock { block_id: block_number as u32 }),
{
}

/// A block the fact registrar skips or fails on is not settled: the backend sends nothing and
/// waits for the next block.
pub proof fn lemma_unregistered_block_not_settled(block_number: u64, event: SettlementEvent)
    requires
        event is CallSkipped || event is RegistrationFailed,
    ensures
        settlement_next(SettlementStage::BuildingCall { block_number }, event) == (
        SettlementStage::AwaitingDa, SettlementAction::AwaitDa),
{
}

/// A requested shutdown or a closed input stops the backend.
pub proof fn lemma_settlement_stops(stage: SettlementStage, event: SettlementEvent)
    requires
        settlement_expects(stage, event),
        event is Shutdown || event is DaClosed,
    ensures
        settlement_next(stage, event) == (SettlementStage::Stopped, SettlementAction::Stop),
{
}

/// The field sum of `fees`, as the integrity registrar accumulates them.
pub open spec fn felt_sum(fees: Seq<int>) -> int
    decreases fees.len(),
{
    if fees.len() == 0 {
        0
    } else {
        (felt_sum(fees.drop_last()) + fees.last()) % felt_prime()
    }
}

/// What to do next while verifying a split bridge proof on the integrity verifier.
#[derive(Debug, Clone, Copy)]
pub enum IntegrityAction {
    /// Send the transaction of chunk `index` with account nonce `nonce`, and wait for its receipt.
    SendChunk { index: usize, nonce: Felt },
    /// Every chunk is confirmed: record the block's proof as verified.
    MarkVerified { total_fee: Felt },
}

/// Progress of sending the transactions of a split bridge proof to the integrity verifier, one
/// after the other with consecutive account nonces, adding up the fees they cost.
pub struct IntegrityVerification {
    chunk_count: usize,
    next_chunk: usize,
    nonce: Felt,
    total_fee: Felt,
    start_nonce: Ghost<int>,
    fees: Ghost<Seq<int>>,
}

impl IntegrityVerification {
    #[verifier::type_invariant]
    spec fn consistent(self) -> bool {
        &&& self.next_chunk <= self.chunk_count
        &&& self.fees@.len() == self.next_chunk
        &&& 0 <= self.start_nonce@ < felt_prime()
        &&& self.nonce@ == (self.start_nonce@ + self.next_chunk) % felt_prime()
        &&& self.total_fee@ == felt_sum(self.fees@)
    }

    /// The number of transactions the proof was split into.
    pub closed spec fn chunk_count(self) -> nat {
        self.chunk_count as nat
    }

    /// The number of transactions confirmed so far.
    pub closed spec fn confirmed(self) -> nat {
        self.next_chunk as nat
    }

    /// The account nonce the first transaction is sent with.
    pub closed spec fn start_nonce(self) -> int {
        self.start_nonce@
    }

    /// The fees of the confirmed transactions, in order.
    pub closed spec fn fees(self) -> Seq<int> {
        self.fees@
    }

    /// Starts verifying a proof split into `chunk_count` transactions, the first of which is sent
    /// with the account's current nonce `start_nonce`.
    pub fn new(chunk_count: usize, start_nonce: Felt) -> (r: IntegrityVerification)
        ensures
            r.chunk_count() == chunk_count,
            r.confirmed() == 0,
            r.start_nonce() == start_nonce@,
            r.fees() == Seq::<int>::empty(),
    {
        proof {
            use_type_invariant(&start_nonce);
            crate::felt::lemma_felt_nonnegative(start_nonce);
            vstd::arithmetic::div_mod::lemma_small_mod(start_nonce@ as nat, felt_prime() as nat);
        }
        IntegrityVerification {
            chunk_count,
            next_chunk: 0,
            nonce: start_nonce,
            total_fee: Felt::zero(),
            start_nonce: Ghost(start_nonce@),
            fees: Ghost(Seq::empty()),
        }
    }

    /// The next thing to do: send the first unconfirmed chunk with the start nonce advanced by its
    /// index, or, once all are confirmed, record the block as verified with the field sum of the
    /// fees paid.
    pub fn next_action(&self) -> (r: IntegrityAction)
        ensures
            self.confirmed() < self.chunk_count() ==> (r matches IntegrityAction::SendChunk {
                index,
                nonce,
            } && index == self.confirmed() && nonce@ == (self.start_nonce() + index)
                % felt_prime()),
            self.confirmed() == self.chunk_count() ==> (r matches IntegrityAction::MarkVerified {
                total_fee,
            } && total_fee@ == felt_sum(self.fees())),
    {
        proof {
            use_type_invariant(self);
        }
        if self.next_chunk < self.chunk_count {
            IntegrityAction::SendChunk { index: self.next_chunk, nonce: self.nonce }
        } else {
            IntegrityAction::MarkVerified { total_fee: self.total_fee }
        }
    }

    /// Records that the chunk just sent was confirmed at the cost of `fee`.
    pub fn chunk_confirmed(&mut self, fee: Felt)
        requires
            old(self).confirmed() < old(self).chunk_count(),
        ensures
            final(self).chunk_count() == old(self).chunk_count(),
            final(self).confirmed() == old(self).confirmed() + 1,
            final(self).start_nonce() == old(self).start_nonce(),
            final(self).fees() == old(self).fees().push(fee@),
    {
        proof {
            use_type_invariant(&*self);
        }
        let ghost n = self.next_chunk;
        let ghost start = self.start_nonce@;
        let ghost fees = self.fees@.push(fee@);
        let nonce = self.nonce.add(&Felt::one());
        let total = self.total_fee.add(&fee);
        proof {
            vstd::arithmetic::div_mod::lemma_add_mod_noop(start + n, 1, felt_prime());
            vstd::arithmetic::div_mod::lemma_small_mod(1, felt_prime() as nat);
            vstd::arithmetic::div_mod::lemma_mod_bound(start + n, felt_prime());
            vstd::arithmetic::div_mod::lemma_small_mod(((start + n) % felt_prime()) as nat, felt_prime() as nat);
            assert(fees.drop_last() =~= self.fees@);
        }
        *self = IntegrityVerification {
            chunk_count: self.chunk_count,
            next_chunk: self.next_chunk + 1,
            nonce,
            total_fee: total,
            start_nonce: Ghost(start),
            fees: Ghost(fees),
        };
    }
}

/// The arguments of Piltover's `update_state` for a block proved by SNOS and bridged by the
/// layout bridge.
#[derive(Debug)]
pub struct PiltoverCalldata {
    pub program_snos_output: Vec<Felt>,
    pub program_output: Vec<Felt>,
    pub onchain_data_hash: Felt,
    /// A 256-bit size as its low and high halves.
    pub onchain_data_size: (Felt, Felt),
}

/// The `update_state` arguments for a block from its SNOS proof and its layout bridge proof: the
/// output of each, with no on-chain data (a zero hash and a zero size).
pub fn update_state_calldata(snos_proof: &StarkProof, bridge_proof: &StarkProof) -> (r: PiltoverCalldata)
    requires
        has_readable_output(*snos_proof),
        has_readable_output(*bridge_proof),
    ensures
        r.program_snos_output@ == proof_output(*snos_proof),
        r.program_output@ == proof_output(*bridge_proof),
        r.onchain_data_hash@ == 0,
        r.onchain_data_size.0@ == 0,
        r.onchain_data_size.1@ == 0,
{
    PiltoverCalldata {
        program_snos_output: calculate_output(snos_proof),
        program_output: calculate_output(bridge_proof),
        onchain_data_hash: Felt::zero(),
        onchain_data_size: (Felt::zero(), Felt::zero()),
    }
}

/// The state the Piltover contract reports.
#[derive(Debug, Clone, Copy)]
pub struct PiltoverState {
    pub state_root: Felt,
    pub block_number: u32,
    pub block_hash: Felt,
}

/// Reads the reply of Piltover's `get_state`: the state root, the block number and the block
/// hash are its first three felts. `None` when the reply is shorter or the block number does not
/// fit in 32 bits.
pub fn piltover_state(raw: &Vec<Felt>) -> (r: Option<PiltoverState>)
    ensures
        r is Some <==> raw@.len() >= 3 && raw@[1]@ <= u32::MAX,
        r matches Some(s) ==> s.state_root == raw@[0] && s.block_number == raw@[1]@ && s.block_hash
            == raw@[2],
{
    if raw.len() < 3 {
        return None;
    }
    match raw[1].to_u64() {
        Some(n) => if n <= u32::MAX as u64 {
            Some(PiltoverState { state_root: raw[0], block_number: n as u32, block_hash: raw[2] })
        } else {
            None
        },
        None => None,
    }
}

/// Once a settlement call is being paid for and sent, a failure of any later step (fee
/// estimation, sending, confirmation, removal of the block) stops the backend with an error: the
/// block is never silently dropped.
pub proof fn lemma_settlement_failure_aborts(stage: SettlementStage, event: SettlementEvent)
    requires
        settlement_expects(stage, event),
        event is Failed,
    ensures
        settlement_next(stage, event) == (SettlementStage::Aborted, SettlementAction::Abort),
{
}

/// The backend goes back to waiting for the next block only after handing on the cursor of a
/// settled block, or when the fact registrar skipped or failed the block.
pub proof fn lemma_settlement_waits_again_only_when_done(stage: SettlementStage, event: SettlementEvent)
    requires
        settlement_expects(stage, event),
        settlement_next(stage, event).0 is AwaitingDa,
    ensures
        (stage is EmittingCursor && event is Done) || (stage is BuildingCall && (event is CallSkipped
            || event is RegistrationFailed)),
{
}

/// The stage the backend moves to is the one that waits for the outcome of the action it asks
/// for, carrying the block taken up and the hash of its transaction.
pub proof fn lemma_settlement_next_stage_waits_on_action(stage: SettlementStage, event: SettlementEvent)
    requires
        settlement_expects(stage, event),
    ensures
        ({
            let (next, action) = settlement_next(stage, event);
            &&& action matches SettlementAction::BuildCall { block_number, .. } ==> next == (
            SettlementStage::BuildingCall { block_number })
            &&& action is EstimateFee <==> next is EstimatingFee
            &&& action is SendTransaction <==> next is Sending
            &&& action matches SettlementAction::WatchTransaction { transaction_hash } ==> next
                is Confirming && next->Confirming_transaction_hash == transaction_hash
            &&& action is RemoveBlock <==> next is RemovingBlock
            &&& action is EmitCursor <==> next is EmittingCursor
            &&& action is AwaitDa <==> next is AwaitingDa
            &&& action is Stop <==> next is Stopped
            &&& action is Abort <==> next is Aborted
        }),
{
}

/// Each step of a settlement follows the one before it for the same block: the call is built
/// for the block and pointer that came out of data availability, the fee is estimated only for
/// a built call, the transaction is sent only once its fee was estimated and watched under the
/// hash it was sent with, and the block keeps its number from one stage to the next.
pub proof fn lemma_settlement_steps_follow_each_other(stage: SettlementStage, event: SettlementEvent)
    requires
        settlement_expects(stage, event),
    ensures
        ({
            let (next, action) = settlement_next(stage, event);
            &&& action matches SettlementAction::BuildCall { block_number, pointer } ==> event == (
            SettlementEvent::DaReceived { block_number, pointer })
            &&& action is EstimateFee ==> stage is BuildingCall && event is CallBuilt
            &&& action is SendTransaction ==> stage is EstimatingFee && event is Done
            &&& action matches SettlementAction::WatchTransaction { transaction_hash } ==> stage
                is Sending && event == (SettlementEvent::Sent { transaction_hash })
            &&& stage is BuildingCall && next is EstimatingFee ==> next->EstimatingFee_block_number
                == stage->BuildingCall_block_number
            &&& stage is EstimatingFee && next is Sending ==> next->Sending_block_number
                == stage->EstimatingFee_block_number
            &&& stage is Sending && next is Confirming ==> next->Confirming_block_number
                == stage->Sending_block_number
            &&& stage is Confirming && next is RemovingBlock ==> next == (SettlementStage::RemovingBlock {
                block_number: stage->Confirming_block_number,
                transaction_hash: stage->Confirming_transaction_hash,
            }) && action == (SettlementAction::RemoveBlock {
                block_id: stage->Confirming_block_number as u32,
            })
        }),
{
}

} // verus!
