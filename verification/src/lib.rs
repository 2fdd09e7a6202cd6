//! Verified core of Saya, the proving and settlement orchestrator of the Dojo/Katana stack.
//!
//! Saya reads finalized blocks from a Katana rollup node, has them proved and settles the
//! resulting state transitions. This crate holds the decisions, data structures and rules of
//! that pipeline; the binaries around it perform the network, database and process I/O.

pub mod felt;
pub mod text;
pub mod error;
pub mod db;
pub mod data_availability;
pub mod storage;
pub mod block_orderer;
pub mod shard;
pub mod stark_proof;
pub mod atlantic;
pub mod orchestrator;
pub mod block_ingestor;
pub mod tee;
pub mod bridge_worker;
pub mod snos_worker;
pub mod settlement;
pub mod fact_registration;
pub mod retry;
pub mod schema;
pub mod account;
pub mod prover_job;

pub use felt::Felt;
pub use error::Error;
