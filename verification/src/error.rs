use vstd::prelude::*;

verus! {

/// Errors raised by the proving database and the services around it.
#[derive(Debug)]
pub enum Error {
    BlockNotFound(u32),
    InvalidChainId,
    TimeoutError(String),
    TransactionRejected(String),
    TransactionFailed(String),
    TryFromStrError(String),
    ServerNotAliveError,
}

} // verus!
