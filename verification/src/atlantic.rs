use vstd::prelude::*;
use vstd::string::*;

use crate::data_availability::SnosProof;
use crate::db::ProverStatus;
use crate::error::Error;
use crate::text::{decimal_text, spec_decimal, text_eq};

verus! {

/// Status of a query submitted to the Atlantic prover service.
#[derive(Debug, Clone, Copy, PartialEq, Eq, Structural)]
pub enum AtlanticQueryStatus {
    Received,
    Done,
    Failed,
    InProgress,
}

/// Status of one job of an Atlantic query.
#[derive(Debug, Clone, Copy, PartialEq, Eq, Structural)]
pub enum AtlanticJobStatus {
    InProgress,
    Completed,
    Failed,
}

/// One job of an Atlantic query.
#[derive(Debug, Clone)]
pub struct AtlanticQueryJob {
    pub id: String,
    pub atlantic_query_id: String,
    pub status: AtlanticJobStatus,
    pub job_name: String,
    pub created_at: String,
    pub completed_at: String,
}

/// An Atlantic query as reported by the service.
#[derive(Debug, Clone)]
pub struct AtlanticQuery {
    pub id: String,
    pub status: AtlanticQueryStatus,
}

/// The service's answer when asked about a query.
#[derive(Debug, Clone)]
pub struct AtlanticQueryResponse {
    pub atlantic_query: AtlanticQuery,
}

/// Size class declared for a proving job.
#[derive(Debug, Clone, Copy, PartialEq, Eq, Structural)]
pub enum AtlanticJobSize {
    XS,
    S,
    M,
    L,
}

impl AtlanticJobSize {
    /// The name of the size as the service expects it.
    pub fn as_str(&self) -> (r: &'static str)
        ensures
            r@ == (match *self {
                AtlanticJobSize::XS => "XS"@,
                AtlanticJobSize::S => "S"@,
                AtlanticJobSize::M => "M"@,
                AtlanticJobSize::L => "L"@,
            }),
    {
        match self {
            AtlanticJobSize::XS => "XS",
            AtlanticJobSize::S => "S",
            AtlanticJobSize::M => "M",
            AtlanticJobSize::L => "L",
        }
    }
}

/// Cairo language version of a submitted program.
#[derive(Debug, Clone, Copy, PartialEq, Eq, Structural)]
pub enum AtlanticCairoVersion {
    Cairo0,
    Cairo1,
}

impl AtlanticCairoVersion {
    /// The name of the version as the service expects it.
    pub fn as_str(&self) -> (r: &'static str)
        ensures
            r@ == (match *self {
                AtlanticCairoVersion::Cairo0 => "cairo0"@,
                AtlanticCairoVersion::Cairo1 => "cairo1"@,
            }),
    {
        match self {
            AtlanticCairoVersion::Cairo0 => "cairo0",
            AtlanticCairoVersion::Cairo1 => "cairo1",
        }
    }
}

/// Cairo VM used to run a submitted program.
#[derive(Debug, Clone, Copy, PartialEq, Eq, Structural)]
pub enum AtlanticCairoVmVersion {
    Rust,
    Python,
}

impl AtlanticCairoVmVersion {
    /// The name of the VM as the service expects it.
    pub fn as_str(&self) -> (r: &'static str)
        ensures
            r@ == (match *self {
                AtlanticCairoVmVersion::Rust => "rust"@,
                AtlanticCairoVmVersion::Python => "python"@,
            }),
    {
        match self {
            AtlanticCairoVmVersion::Rust => "rust",
            AtlanticCairoVmVersion::Python => "python",
        }
    }
}

/// What a query asks the service to produce.
#[derive(Debug, Clone, Copy, PartialEq, Eq, Structural)]
pub enum AtlanticQueryResult {
    TraceGeneration,
    ProofGeneration,
    ProofVerificationOnL1,
    ProofVerificationOnL2,
}

impl AtlanticQueryResult {
    /// The name of the result kind as the service expects it.
    pub fn as_str(&self) -> (r: &'static str)
        ensures
            r@ == (match *self {
                AtlanticQueryResult::TraceGeneration => "TRACE_GENERATION"@,
                AtlanticQueryResult::ProofGeneration => "PROOF_GENERATION"@,
                AtlanticQueryResult::ProofVerificationOnL1 => "PROOF_VERIFICATION_ON_L1"@,
                AtlanticQueryResult::ProofVerificationOnL2 => "PROOF_VERIFICATION_ON_L2"@,
            }),
    {
        match self {
            AtlanticQueryResult::TraceGeneration => "TRACE_GENERATION",
            AtlanticQueryResult::ProofGeneration => "PROOF_GENERATION",
            AtlanticQueryResult::ProofVerificationOnL1 => "PROOF_VERIFICATION_ON_L1",
            AtlanticQueryResult::ProofVerificationOnL2 => "PROOF_VERIFICATION_ON_L2",
        }
    }
}

/// Cairo layouts a proof can be generated for.
#[derive(Debug, Clone, Copy, PartialEq, Eq, Structural)]
#[allow(non_camel_case_types)]
pub enum Layout {
    plain,
    small,
    dex,
    recursive,
    starknet,
    starknet_with_keccak,
    recursive_large_output,
    recursive_with_poseidon,
    all_solidity,
    all_cairo,
    dynamic,
}

impl Layout {
    /// The name of the layout as the service expects it.
    pub fn to_str(self) -> (r: &'static str)
        ensures
            r@ == (match self {
                Layout::plain => "plain"@,
                Layout::small => "small"@,
                Layout::dex => "dex"@,
                Layout::recursive => "recursive"@,
                Layout::starknet => "starknet"@,
                Layout::starknet_with_keccak => "starknet_with_keccak"@,
                Layout::recursive_large_output => "recursive_large_output"@,
                Layout::recursive_with_poseidon => "recursive_with_poseidon"@,
                Layout::all_solidity => "all_solidity"@,
                Layout::all_cairo => "all_cairo"@,
                Layout::dynamic => "dynamic"@,
            }),
    {
        match self {
            Layout::plain => "plain",
            Layout::small => "small",
            Layout::dex => "dex",
            Layout::recursive => "recursive",
            Layout::starknet => "starknet",
            Layout::starknet_with_keccak => "starknet_with_keccak",
            Layout::recursive_large_output => "recursive_large_output",
            Layout::recursive_with_poseidon => "recursive_with_poseidon",
            Layout::all_solidity => "all_solidity",
            Layout::all_cairo => "all_cairo",
            Layout::dynamic => "dynamic",
        }
    }
}

/// The job size class for a PIE of `n_steps` Cairo steps.
pub open spec fn job_size_for_steps(n_steps: int) -> AtlanticJobSize {
    if n_steps <= 6_499_999 {
        AtlanticJobSize::XS
    } else if n_steps <= 12_999_999 {
        AtlanticJobSize::S
    } else if n_steps <= 29_999_999 {
        AtlanticJobSize::M
    } else {
        AtlanticJobSize::L
    }
}

/// Calculates the job size from the number of steps of the PIE to prove: XS below 6.5M steps,
/// S below 13M, M below 30M, L above. Larger sizes can be used for small PIEs, but cost more;
/// XS is interpreted as S by SHARP.
pub fn calculate_job_size(n_steps: usize) -> (r: AtlanticJobSize)
    ensures
        r == job_size_for_steps(n_steps as int),
{
    if n_steps <= 6_499_999 {
        AtlanticJobSize::XS
    } else if n_steps <= 12_999_999 {
        AtlanticJobSize::S
    } else if n_steps <= 29_999_999 {
        AtlanticJobSize::M
    } else {
        AtlanticJobSize::L
    }
}

/// The prover status of a query whose jobs have the given statuses: still proving while no job
/// is reported, failed as soon as one job failed, proved once all jobs completed.
pub open spec fn prover_status_of_jobs(statuses: Seq<Seq<char>>) -> ProverStatus {
    if statuses.len() == 0 {
        ProverStatus::Proving
    } else if exists|i: int| 0 <= i < statuses.len() && statuses[i] == "FAILED"@ {
        ProverStatus::Failed
    } else if forall|i: int| 0 <= i < statuses.len() ==> statuses[i] == "COMPLETED"@ {
        ProverStatus::Proved
    } else {
        ProverStatus::Proving
    }
}

/// A query has failed as soon as one of its jobs failed, whatever its other jobs report; it is
/// proved exactly when it has jobs and every one of them completed; in every other case (no
/// jobs yet, or none failed and some not completed) it is still being proved.
pub proof fn lemma_prover_status_of_jobs(statuses: Seq<Seq<char>>)
    ensures
        (exists|i: int| 0 <= i < statuses.len() && statuses[i] == "FAILED"@) <==> prover_status_of_jobs(
            statuses,
        ) == ProverStatus::Failed,
        (statuses.len() > 0 && forall|i: int| 0 <= i < statuses.len() ==> statuses[i] == "COMPLETED"@)
            <==> prover_status_of_jobs(statuses) == ProverStatus::Proved,
        prover_status_of_jobs(statuses) == ProverStatus::Proving <==> (!(exists|i: int|
            0 <= i < statuses.len() && statuses[i] == "FAILED"@) && (statuses.len() == 0
            || exists|i: int| 0 <= i < statuses.len() && statuses[i] != "COMPLETED"@)),
{
    reveal_strlit("FAILED");
    reveal_strlit("COMPLETED");
    assert("FAILED"@.len() != "COMPLETED"@.len());
    if statuses.len() > 0 && forall|i: int| 0 <= i < statuses.len() ==> statuses[i] == "COMPLETED"@ {
        assert(!(exists|i: int| 0 <= i < statuses.len() && statuses[i] == "FAILED"@)) by {
            if exists|i: int| 0 <= i < statuses.len() && statuses[i] == "FAILED"@ {
                let i = choose|i: int| 0 <= i < statuses.len() && statuses[i] == "FAILED"@;
                assert(statuses[i] == "COMPLETED"@);
            }
        }
    }
}

/// Decides the prover status of a query from the statuses of its jobs.
pub fn prover_status_from_jobs(statuses: &Vec<String>) -> (r: ProverStatus)
    ensures
        r == prover_status_of_jobs(statuses@.map_values(|s: String| s@)),
        (exists|i: int| 0 <= i < statuses@.len() && statuses@[i]@ == "FAILED"@) <==> r
            == ProverStatus::Failed,
        (statuses@.len() > 0 && forall|i: int| 0 <= i < statuses@.len() ==> statuses@[i]@ == "COMPLETED"@)
            <==> r == ProverStatus::Proved,
{
    let ghost v = statuses@.map_values(|s: String| s@);
    proof {
        lemma_prover_status_of_jobs(v);
        assert((exists|i: int| 0 <= i < statuses@.len() && statuses@[i]@ == "FAILED"@) <==> (exists|i: int|
            0 <= i < v.len() && v[i] == "FAILED"@)) by {
            if exists|i: int| 0 <= i < statuses@.len() && statuses@[i]@ == "FAILED"@ {
                let i = choose|i: int| 0 <= i < statuses@.len() && statuses@[i]@ == "FAILED"@;
                assert(v[i] == "FAILED"@);
            }
        }
        assert((forall|i: int| 0 <= i < statuses@.len() ==> statuses@[i]@ == "COMPLETED"@) <==> (forall|i: int|
            0 <= i < v.len() ==> v[i] == "COMPLETED"@)) by {
            if forall|i: int| 0 <= i < v.len() ==> v[i] == "COMPLETED"@ {
                assert forall|i: int| 0 <= i < statuses@.len() implies statuses@[i]@ == "COMPLETED"@ by {
                    assert(v[i] == statuses@[i]@);
                }
            }
        }
    }
    decide_prover_status(statuses)
}

/// The prover status of a query, decided job by job.
fn decide_prover_status(statuses: &Vec<String>) -> (r: ProverStatus)
    ensures
        r == prover_status_of_jobs(statuses@.map_values(|s: String| s@)),
{
    let ghost v = statuses@.map_values(|s: String| s@);
    if statuses.len() == 0 {
        return ProverStatus::Proving;
    }
    let mut i: usize = 0;
    while i < statuses.len()
        invariant
            i <= statuses@.len(),
            v == statuses@.map_values(|s: String| s@),
            forall|j: int| 0 <= j < i ==> v[j] != "FAILED"@,
        decreases statuses@.len() - i,
    {
        if text_eq(statuses[i].as_str(), "FAILED") {
            assert(v[i as int] == "FAILED"@);
            return ProverStatus::Failed;
        }
        i = i + 1;
    }
    let mut k: usize = 0;
    while k < statuses.len()
        invariant
            k <= statuses@.len(),
            v == statuses@.map_values(|s: String| s@),
            forall|j: int| 0 <= j < statuses@.len() ==> v[j] != "FAILED"@,
            forall|j: int| 0 <= j < k ==> v[j] == "COMPLETED"@,
        decreases statuses@.len() - k,
    {
        if !text_eq(statuses[k].as_str(), "COMPLETED") {
            assert(v[k as int] != "COMPLETED"@);
            return ProverStatus::Proving;
        }
        k = k + 1;
    }
    ProverStatus::Proved
}

/// What a poller does after one look at a query.
#[derive(Debug, Clone, Copy, PartialEq, Eq, Structural)]
pub enum QueryPoll {
    /// The query is done; its result can be fetched.
    Done,
    /// The query failed; the block is given up.
    Failed,
    /// Shutdown was requested; the poller stops.
    Shutdown,
    /// Poll again after the poll interval.
    Continue,
}

/// One polling round of a query: a requested shutdown wins, then a fetched status decides; a
/// failed fetch means polling again.
pub fn query_poll_step(shutdown_requested: bool, fetched: Option<AtlanticQueryStatus>) -> (r: QueryPoll)
    ensures
        shutdown_requested ==> r == QueryPoll::Shutdown,
        !shutdown_requested ==> r == (match fetched {
            Some(AtlanticQueryStatus::Done) => QueryPoll::Done,
            Some(AtlanticQueryStatus::Failed) => QueryPoll::Failed,
            _ => QueryPoll::Continue,
        }),
{
    if shutdown_requested {
        return QueryPoll::Shutdown;
    }
    match fetched {
        Some(AtlanticQueryStatus::Done) => QueryPoll::Done,
        Some(AtlanticQueryStatus::Failed) => QueryPoll::Failed,
        _ => QueryPoll::Continue,
    }
}

/// Status of the first job named `name`, if one is reported.
pub open spec fn first_job_status(jobs: Seq<AtlanticQueryJob>, name: Seq<char>) -> Option<
    AtlanticJobStatus,
>
    decreases jobs.len(),
{
    if jobs.len() == 0 {
        None
    } else if jobs[0].job_name@ == name {
        Some(jobs[0].status)
    } else {
        first_job_status(jobs.drop_first(), name)
    }
}

/// The status found for a job name is that of the earliest job carrying the name; nothing is
/// found exactly when no job carries it.
pub proof fn lemma_first_job_status(jobs: Seq<AtlanticQueryJob>, name: Seq<char>)
    ensures
        first_job_status(jobs, name) is None <==> forall|i: int| 0 <= i < jobs.len() ==> #[trigger] jobs[i].job_name@
            != name,
        first_job_status(jobs, name) matches Some(st) ==> exists|i: int|
            0 <= i < jobs.len() && #[trigger] jobs[i].job_name@ == name && jobs[i].status == st && forall|j: int|
                0 <= j < i ==> jobs[j].job_name@ != name,
    decreases jobs.len(),
{
    if jobs.len() > 0 {
        let rest = jobs.drop_first();
        lemma_first_job_status(rest, name);
        if jobs[0].job_name@ != name {
            assert forall|i: int| 0 < i < jobs.len() implies jobs[i] == rest[i - 1] by {}
            if first_job_status(rest, name) is None {
                assert forall|i: int| 0 <= i < jobs.len() implies #[trigger] jobs[i].job_name@ != name by {
                    if i > 0 {
                        assert(rest[i - 1].job_name@ != name);
                    }
                }
            } else {
                let k = choose|k: int| 0 <= k < rest.len() && #[trigger] rest[k].job_name@ == name
                    && rest[k].status == first_job_status(rest, name)->0 && forall|j: int|
                        0 <= j < k ==> rest[j].job_name@ != name;
                assert(jobs[k + 1].job_name@ == name);
                assert forall|j: int| 0 <= j < k + 1 implies jobs[j].job_name@ != name by {
                    if j > 0 {
                        assert(rest[j - 1].job_name@ != name);
                    }
                }
            }
        } else {
            assert(jobs[0].job_name@ == name);
        }
    }
}

/// The rank of a job size class, from the smallest to the largest.
pub open spec fn job_size_rank(size: AtlanticJobSize) -> int {
    match size {
        AtlanticJobSize::XS => 0,
        AtlanticJobSize::S => 1,
        AtlanticJobSize::M => 2,
        AtlanticJobSize::L => 3,
    }
}

/// A PIE with more steps never gets a smaller job size class; the smallest PIEs are `XS` and
/// the largest `L`.
pub proof fn lemma_job_size_monotone(small: int, large: int)
    requires
        small <= large,
    ensures
        job_size_rank(job_size_for_steps(small)) <= job_size_rank(job_size_for_steps(large)),
        small <= 0 ==> job_size_for_steps(small) == AtlanticJobSize::XS,
        large >= 30_000_000 ==> job_size_for_steps(large) == AtlanticJobSize::L,
{
}

/// Finds the status of the first job with the given name.
pub fn find_job_status(jobs: &Vec<AtlanticQueryJob>, name: &str) -> (r: Option<AtlanticJobStatus>)
    ensures
        r == first_job_status(jobs@, name@),
{
    let mut i: usize = 0;
    assert(jobs@.skip(0) =~= jobs@);
    while i < jobs.len()
        invariant
            i <= jobs@.len(),
            first_job_status(jobs@, name@) == first_job_status(jobs@.skip(i as int), name@),
        decreases jobs@.len() - i,
    {
        if text_eq(jobs[i].job_name.as_str(), name) {
            return Some(jobs[i].status);
        }
        assert(jobs@.skip(i as int).drop_first() =~= jobs@.skip(i as int + 1));
        i = i + 1;
    }
    None
}

/// What a poller waiting for a named job does after one look at the query's jobs.
#[derive(Debug, Clone, Copy, PartialEq, Eq, Structural)]
pub enum JobPoll {
    /// The job completed, or shutdown was requested: stop waiting.
    Stop,
    /// The job failed.
    Failed,
    /// Poll again after the poll interval.
    Continue,
}

/// One polling round of a named job: shutdown stops the wait, a completed job stops it, a
/// failed job is reported, anything else (no such job yet, in progress, or a failed fetch) polls
/// again.
pub fn job_poll_step(shutdown_requested: bool, job_status: Option<AtlanticJobStatus>) -> (r: JobPoll)
    ensures
        r == (if shutdown_requested {
            JobPoll::Stop
        } else {
            match job_status {
                Some(AtlanticJobStatus::Completed) => JobPoll::Stop,
                Some(AtlanticJobStatus::Failed) => JobPoll::Failed,
                _ => JobPoll::Continue,
            }
        }),
{
    if shutdown_requested {
        return JobPoll::Stop;
    }
    match job_status {
        Some(AtlanticJobStatus::Completed) => JobPoll::Stop,
        Some(AtlanticJobStatus::Failed) => JobPoll::Failed,
        _ => JobPoll::Continue,
    }
}

/// Errors raised by the provers.
#[derive(Debug)]
pub enum ProverError {
    Prover(String),
    Shutdown,
    BlockFail(String),
    MetadataFetch(String),
    ProofParse(String),
}

/// The message recorded when the proof generation of a query fails.
pub fn query_failure_message(query_id: &str) -> (r: String)
    ensures
        r@ == "Proof generation failed for query: "@ + query_id@,
{
    let mut s = String::from_str("Proof generation failed for query: ");
    s.append(query_id);
    s
}

/// The input handed to the layout bridge program: a JSON object whose `proof` field is the
/// given JSON proof.
pub fn layout_bridge_input(proof_json: &str) -> (r: String)
    ensures
        r@ == "{\n\t\"proof\": "@ + proof_json@ + "\n}"@,
{
    let mut s = String::from_str("{\n\t\"proof\": ");
    s.append(proof_json);
    s.append("\n}");
    s
}

/// The external id under which the SNOS proof of a block is submitted.
pub fn snos_label(block_number: u64) -> (r: String)
    ensures
        r@ == "snos_"@ + spec_decimal(block_number as nat),
{
    let d = decimal_text(block_number);
    let mut s = String::from_str("snos_");
    s.append(d.as_str());
    s
}

/// The external id under which the layout bridge trace of a block is submitted.
pub fn layout_trace_label(block_number: u64) -> (r: String)
    ensures
        r@ == "layout-trace-"@ + spec_decimal(block_number as nat),
{
    let d = decimal_text(block_number);
    let mut s = String::from_str("layout-trace-");
    s.append(d.as_str());
    s
}

/// The external id under which the layout bridge proof of a block is submitted.
pub fn layout_label(block_number: u64) -> (r: String)
    ensures
        r@ == "layout-"@ + spec_decimal(block_number as nat),
{
    let d = decimal_text(block_number);
    let mut s = String::from_str("layout-");
    s.append(d.as_str());
    s
}

/// Base location of query artifacts on the Atlantic object store.
pub open spec fn atlantic_s3_base() -> Seq<char> {
    "https://s3.pl-waw.scw.cloud/atlantic-k8s-experimental/queries"@
}

/// Location of the proof produced by a query.
pub fn proof_url(query_id: &str) -> (r: String)
    ensures
        r@ == atlantic_s3_base() + "/"@ + query_id@ + "/proof.json"@,
{
    let mut s = String::from_str("https://s3.pl-waw.scw.cloud/atlantic-k8s-experimental/queries");
    s.append("/");
    s.append(query_id);
    s.append("/proof.json");
    s
}

/// Location of the PIE produced by a trace generation query.
pub fn trace_url(query_id: &str) -> (r: String)
    ensures
        r@ == atlantic_s3_base() + "/"@ + query_id@ + "/pie.cairo0.zip"@,
{
    let mut s = String::from_str("https://s3.pl-waw.scw.cloud/atlantic-k8s-experimental/queries");
    s.append("/");
    s.append(query_id);
    s.append("/pie.cairo0.zip");
    s
}

/// Location of the proof of a SHARP query on the legacy query store.
pub fn sharp_proof_url(query_id: &str) -> (r: String)
    ensures
        r@ == "https://atlantic-queries.s3.nl-ams.scw.cloud/sharp_queries/query_"@ + query_id@
            + "/proof.json"@,
{
    let mut s = String::from_str(
        "https://atlantic-queries.s3.nl-ams.scw.cloud/sharp_queries/query_",
    );
    s.append(query_id);
    s.append("/proof.json");
    s
}

/// A text field of a multipart form.
pub struct FormField {
    pub name: String,
    pub value: String,
}

fn field(name: &str, value: &str) -> (r: FormField)
    ensures
        r.name@ == name@,
        r.value@ == value@,
{
    FormField { name: String::from_str(name), value: String::from_str(value) }
}

/// The text fields sent with a proof generation query, besides the PIE file.
pub fn proof_generation_fields(layout: Layout, label: &str, job_size: AtlanticJobSize) -> (r: Vec<
    FormField,
>)
    ensures
        r@.len() == 4,
        r@[0].name@ == "layout"@ && r@[0].value@ == layout.to_str_spec(),
        r@[1].name@ == "externalId"@ && r@[1].value@ == label@,
        r@[2].name@ == "declaredJobSize"@ && r@[2].value@ == job_size.as_str_spec(),
        r@[3].name@ == "result"@ && r@[3].value@ == "PROOF_GENERATION"@,
{
    let mut v: Vec<FormField> = Vec::new();
    v.push(field("layout", layout.to_str()));
    v.push(field("externalId", label));
    v.push(field("declaredJobSize", job_size.as_str()));
    v.push(field("result", AtlanticQueryResult::ProofGeneration.as_str()));
    v
}

/// The text fields sent with a trace generation query, besides the program and input files.
pub fn trace_generation_fields(label: &str) -> (r: Vec<FormField>)
    ensures
        r@.len() == 5,
        r@[0].name@ == "cairoVersion"@ && r@[0].value@ == "cairo0"@,
        r@[1].name@ == "result"@ && r@[1].value@ == "TRACE_GENERATION"@,
        r@[2].name@ == "declaredJobSize"@ && r@[2].value@ == "XS"@,
        r@[3].name@ == "cairoVm"@ && r@[3].value@ == "python"@,
        r@[4].name@ == "externalId"@ && r@[4].value@ == label@,
{
    let mut v: Vec<FormField> = Vec::new();
    v.push(field("cairoVersion", AtlanticCairoVersion::Cairo0.as_str()));
    v.push(field("result", AtlanticQueryResult::TraceGeneration.as_str()));
    v.push(field("declaredJobSize", AtlanticJobSize::XS.as_str()));
    v.push(field("cairoVm", AtlanticCairoVmVersion::Python.as_str()));
    v.push(field("externalId", label));
    v
}

impl Layout {
    /// The name of the layout as the service expects it.
    pub open spec fn to_str_spec(self) -> Seq<char> {
        match self {
            Layout::plain => "plain"@,
            Layout::small => "small"@,
            Layout::dex => "dex"@,
            Layout::recursive => "recursive"@,
            Layout::starknet => "starknet"@,
            Layout::starknet_with_keccak => "starknet_with_keccak"@,
            Layout::recursive_large_output => "recursive_large_output"@,
            Layout::recursive_with_poseidon => "recursive_with_poseidon"@,
            Layout::all_solidity => "all_solidity"@,
            Layout::all_cairo => "all_cairo"@,
            Layout::dynamic => "dynamic"@,
        }
    }
}

impl AtlanticJobSize {
    /// The name of the size as the service expects it.
    pub open spec fn as_str_spec(self) -> Seq<char> {
        match self {
            AtlanticJobSize::XS => "XS"@,
            AtlanticJobSize::S => "S"@,
            AtlanticJobSize::M => "M"@,
            AtlanticJobSize::L => "L"@,
        }
    }
}

/// A proof as the Atlantic service delivers it, read from the raw text it returns; a text that
/// is not such a proof is rejected with a message saying why.
pub trait AtlanticProof: Sized {
    fn parse(raw_proof: String) -> Result<Self, String>;
}

impl AtlanticProof for String {
    /// The raw text is the proof.
    fn parse(raw_proof: String) -> (r: Result<String, String>)
        ensures
            r == Ok::<String, String>(raw_proof),
    {
        Ok(raw_proof)
    }
}

/// The message recorded when a stored proof does not parse.
pub open spec fn proof_parse_message(block_number: u32, reason: Seq<char>) -> Seq<char> {
    "Failed to parse proof for block number "@ + spec_decimal(block_number as nat) + ": "@ + reason
}

/// What a worker hands on for a block once its proof is stored: the parsed proof tagged with
/// the block's number, or, when the proof did not parse, an error naming the block and the
/// reason.
pub fn stored_proof_result<P>(block_number: u32, parsed: Result<P, String>) -> (r: Result<
    SnosProof<P>,
    ProverError,
>)
    ensures
        match parsed {
            Ok(p) => r matches Ok(s) && s.block_number == block_number && s.proof == p,
            Err(reason) => r matches Err(ProverError::ProofParse(m)) && m@ == proof_parse_message(
                block_number,
                reason@,
            ),
        },
{
    match parsed {
        Ok(proof) => Ok(SnosProof { block_number: block_number as u64, proof }),
        Err(reason) => {
            let mut m = String::from_str("Failed to parse proof for block number ");
            let n = decimal_text(block_number as u64);
            m.append(n.as_str());
            m.append(": ");
            m.append(reason.as_str());
            proof {
                reveal_strlit("Failed to parse proof for block number ");
                reveal_strlit(": ");
            }
            Err(ProverError::ProofParse(m))
        },
    }
}

/// Parses a proof just stored for a block with the proof type's own parser, handing it exactly
/// the stored text, and hands on what [`stored_proof_result`] makes of the parser's outcome.
pub fn parse_stored_proof<P: AtlanticProof>(raw_proof: String, block_number: u32) -> (r: Result<
    SnosProof<P>,
    ProverError,
>)
    ensures
        exists|parsed: Result<P, String>|
            #[trigger] call_ensures(P::parse, (raw_proof,), parsed) && (match parsed {
                Ok(p) => r matches Ok(s) && s.block_number == block_number && s.proof == p,
                Err(reason) => r matches Err(ProverError::ProofParse(m)) && m@ == proof_parse_message(
                    block_number,
                    reason@,
                ),
            }),
        r matches Ok(s) ==> s.block_number == block_number,
        r matches Err(e) ==> e is ProofParse,
{
    let parsed = P::parse(raw_proof);
    stored_proof_result(block_number, parsed)
}

/// What the status check of a query does once it knows whether the proving service is alive.
#[derive(Debug)]
pub enum QueryStatusStep {
    /// The service is not alive: the check fails with this error, and no jobs are requested.
    Fail(Error),
    /// The service is alive: request the jobs of the query.
    RequestJobs,
}

/// The first decision of a query status check: a service that is not alive fails the check with
/// `ServerNotAliveError` before any jobs request; an alive one is asked for the query's jobs.
pub fn after_alive_check(alive: bool) -> (r: QueryStatusStep)
    ensures
        alive <==> r is RequestJobs,
        !alive ==> (r matches QueryStatusStep::Fail(e) && e is ServerNotAliveError),
{
    if alive {
        QueryStatusStep::RequestJobs
    } else {
        QueryStatusStep::Fail(Error::ServerNotAliveError)
    }
}

/// The prover status of a query: `ServerNotAliveError` when the service is not alive (the jobs,
/// then not requested, are not read), otherwise the status decided from the statuses of the
/// query's jobs.
pub fn check_query_status(alive: bool, job_statuses: Option<&Vec<String>>) -> (r: Result<
    ProverStatus,
    Error,
>)
    requires
        alive ==> job_statuses is Some,
    ensures
        !alive ==> (r matches Err(e) && e is ServerNotAliveError),
        alive ==> r == Ok::<ProverStatus, Error>(
            prover_status_of_jobs(job_statuses.unwrap()@.map_values(|s: String| s@)),
        ),
{
    match after_alive_check(alive) {
        QueryStatusStep::Fail(e) => Err(e),
        QueryStatusStep::RequestJobs => match job_statuses {
            Some(statuses) => Ok(prover_status_from_jobs(statuses)),
            None => {
                proof {
                    assert(false);
                }
                Err(Error::ServerNotAliveError)
            },
        },
    }
}

} // verus!
