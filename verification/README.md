# saya_core

The decisions, data structures and rules of Saya, the proving and settlement orchestrator of the
Dojo/Katana stack, verified with Verus.

- `src/` is the verified library. Each module states its behaviour in `requires`/`ensures`
  contracts over mathematical models (felts as integers below the Stark prime, maps as `Map`,
  lists as `Seq`) and proves the laws that relate its operations:
  - `felt`: field elements and their arithmetic; the few calls into `starknet-types-core` and
    `starknet` sit behind trusted wrappers whose contracts are documented there.
  - `block_orderer`, `block_ingestor`, `retry`: ordering blocks, polling the node, backing off.
  - `snos_worker`, `bridge_worker`, `fact_registration`, `settlement`: the proving, registration
    and settlement pipelines as transition functions from stage and event to stage and action.
  - `stark_proof`, `shard`, `data_availability`, `atlantic`, `schema`, `storage`, `tee`, `db`:
    proof outputs, state-diff squashing, data availability packets, prover-service queries, the
    database schema and statuses, and the TEE batch types.
- `app/` holds what performs I/O: the SQLite store, the Atlantic HTTP client, the polling
  ingestor (which plans each round with `poll_plan`), the SNOS prover (which drives
  `SnosStage::step_block`) and the layout bridge prover (which drives `BridgeJob`), both
  performing the requests the library returns, the settlement backend (which drives
  `SettlementStage`), and the block orderer, TEE prover and no-op data availability stages.
  The provers take the Cairo VM's PIE handling and the verifier's proof format through a
  trait, since those crates are not dependencies here. The mock layout bridge prover, the
  Celestia backend and the no-op and integrity fact registrars have their decisions in the
  library (`mock_bridge_block`, `PacketChain`, `noop_settles` with `update_state_input`,
  `IntegrityVerification`) but no runner here: their outside work needs the verifier's proof
  type, the Piltover call bindings and the Celestia and integrity clients. Only the TEE fact
  registrar, which skips every block, is wired.
- `tests/` exercises the library on concrete values.
