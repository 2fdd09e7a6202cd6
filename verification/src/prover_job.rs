use vstd::prelude::*;
use vstd::string::*;

verus! {

/// The result of a finished job of the remote prover service: a proof, the PIE of an OS run, or
/// the PIE of a program run.
#[derive(Debug, Clone)]
pub enum JobResult<P, S, R> {
    Prove(P),
    Snos(S),
    Run(R),
}

/// Takes the OS-run PIE out of the result of a PIE generation job; any other kind of result is
/// an error.
pub fn snos_job_output<P, S, R>(result: JobResult<P, S, R>) -> (r: Result<S, String>)
    ensures
        match result {
            JobResult::Snos(s) => r == Ok::<S, String>(s),
            _ => r matches Err(m) && m@ == "Expected a prove result, but got a different result type"@,
        },
{
    match result {
        JobResult::Snos(s) => Ok(s),
        _ => Err(String::from_str("Expected a prove result, but got a different result type")),
    }
}

/// Takes the PIE out of the result of a program run job; any other kind of result is an error.
pub fn run_job_output<P, S, R>(result: JobResult<P, S, R>) -> (r: Result<R, String>)
    ensures
        match result {
            JobResult::Run(run) => r == Ok::<R, String>(run),
            _ => r matches Err(m) && m@ == "Expected a run result, but got a different result type"@,
        },
{
    match result {
        JobResult::Run(run) => Ok(run),
        _ => Err(String::from_str("Expected a run result, but got a different result type")),
    }
}

} // verus!
