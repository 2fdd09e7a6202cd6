use saya_core::atlantic::{
    calculate_job_size, find_job_status, job_poll_step, layout_bridge_input, layout_label,
    layout_trace_label, proof_generation_fields, proof_url, prover_status_from_jobs,
    query_failure_message, query_poll_step, sharp_proof_url, snos_label, trace_generation_fields,
    trace_url, AtlanticCairoVersion, AtlanticCairoVmVersion, AtlanticJobSize, AtlanticJobStatus,
    AtlanticProof, AtlanticQueryJob, AtlanticQueryResult, AtlanticQueryStatus, JobPoll, Layout,
    QueryPoll,
};
use saya_core::db::ProverStatus;
use saya_core::atlantic::{after_alive_check, check_query_status, QueryStatusStep};
use saya_core::error::Error;
use saya_core::atlantic::{parse_stored_proof, stored_proof_result, ProverError};
use saya_core::prover_job::{run_job_output, snos_job_output, JobResult};

fn job(name: &str, status: AtlanticJobStatus) -> AtlanticQueryJob {
    AtlanticQueryJob {
        id: "id".to_string(),
        atlantic_query_id: "q".to_string(),
        status,
        job_name: name.to_string(),
        created_at: String::new(),
        completed_at: String::new(),
    }
}

#[test]
fn job_size_follows_the_step_count() {
    assert_eq!(calculate_job_size(0), AtlanticJobSize::XS);
    assert_eq!(calculate_job_size(6_499_999), AtlanticJobSize::XS);
    assert_eq!(calculate_job_size(6_500_000), AtlanticJobSize::S);
    assert_eq!(calculate_job_size(12_999_999), AtlanticJobSize::S);
    assert_eq!(calculate_job_size(13_000_000), AtlanticJobSize::M);
    assert_eq!(calculate_job_size(29_999_999), AtlanticJobSize::M);
    assert_eq!(calculate_job_size(30_000_000), AtlanticJobSize::L);
}

#[test]
fn names_sent_to_the_service() {
    assert_eq!(AtlanticJobSize::XS.as_str(), "XS");
    assert_eq!(AtlanticJobSize::L.as_str(), "L");
    assert_eq!(AtlanticCairoVersion::Cairo0.as_str(), "cairo0");
    assert_eq!(AtlanticCairoVmVersion::Python.as_str(), "python");
    assert_eq!(AtlanticQueryResult::ProofVerificationOnL2.as_str(), "PROOF_VERIFICATION_ON_L2");
    assert_eq!(Layout::recursive_with_poseidon.to_str(), "recursive_with_poseidon");
    assert_eq!(Layout::all_cairo.to_str(), "all_cairo");
}

#[test]
fn prover_status_from_job_statuses() {
    let s = |v: &[&str]| v.iter().map(|x| x.to_string()).collect::<Vec<_>>();
    assert_eq!(prover_status_from_jobs(&s(&[])), ProverStatus::Proving);
    assert_eq!(prover_status_from_jobs(&s(&["COMPLETED", "FAILED"])), ProverStatus::Failed);
    assert_eq!(prover_status_from_jobs(&s(&["COMPLETED", "COMPLETED"])), ProverStatus::Proved);
    assert_eq!(prover_status_from_jobs(&s(&["COMPLETED", "IN_PROGRESS"])), ProverStatus::Proving);
}

#[test]
fn polling_rounds() {
    assert_eq!(query_poll_step(true, Some(AtlanticQueryStatus::Done)), QueryPoll::Shutdown);
    assert_eq!(query_poll_step(false, Some(AtlanticQueryStatus::Done)), QueryPoll::Done);
    assert_eq!(query_poll_step(false, Some(AtlanticQueryStatus::Failed)), QueryPoll::Failed);
    assert_eq!(query_poll_step(false, Some(AtlanticQueryStatus::InProgress)), QueryPoll::Continue);
    assert_eq!(query_poll_step(false, None), QueryPoll::Continue);
    assert_eq!(job_poll_step(true, None), JobPoll::Stop);
    assert_eq!(job_poll_step(false, Some(AtlanticJobStatus::Completed)), JobPoll::Stop);
    assert_eq!(job_poll_step(false, Some(AtlanticJobStatus::Failed)), JobPoll::Failed);
    assert_eq!(job_poll_step(false, Some(AtlanticJobStatus::InProgress)), JobPoll::Continue);
}

#[test]
fn first_job_with_a_name_is_found() {
    let jobs = vec![
        job("trace", AtlanticJobStatus::Completed),
        job("proof", AtlanticJobStatus::Failed),
        job("proof", AtlanticJobStatus::Completed),
    ];
    assert_eq!(find_job_status(&jobs, "proof"), Some(AtlanticJobStatus::Failed));
    assert_eq!(find_job_status(&jobs, "verify"), None);
}

#[test]
fn texts_built_for_queries() {
    assert_eq!(query_failure_message("abc"), "Proof generation failed for query: abc");
    assert_eq!(layout_bridge_input("{}"), "{\n\t\"proof\": {}\n}");
    assert_eq!(snos_label(123), "snos_123");
    assert_eq!(layout_trace_label(0), "layout-trace-0");
    assert_eq!(layout_label(45), "layout-45");
    assert!(proof_url("q1").ends_with("/q1/proof.json"));
    assert!(trace_url("q1").ends_with("/q1/pie.cairo0.zip"));
    assert!(sharp_proof_url("q2").starts_with("https://atlantic-queries.s3.nl-ams.scw.cloud/sharp_queries/query_q2"));
}

#[test]
fn form_fields_of_queries() {
    let f = proof_generation_fields(Layout::recursive, "snos_1", AtlanticJobSize::M);
    let pairs: Vec<(String, String)> = f.into_iter().map(|x| (x.name, x.value)).collect();
    assert_eq!(
        pairs,
        vec![
            ("layout".to_string(), "recursive".to_string()),
            ("externalId".to_string(), "snos_1".to_string()),
            ("declaredJobSize".to_string(), "M".to_string()),
            ("result".to_string(), "PROOF_GENERATION".to_string()),
        ]
    );
    let f = trace_generation_fields("layout-trace-1");
    assert_eq!(f.len(), 5);
    assert_eq!(f[4].name, "externalId");
    assert_eq!(f[4].value, "layout-trace-1");
}

#[test]
fn raw_text_proofs_parse_as_themselves() {
    let p = <String as AtlanticProof>::parse("raw".to_string());
    assert_eq!(p.ok(), Some("raw".to_string()));
}

#[test]
fn stored_proofs_are_tagged_or_rejected_with_the_block() {
    let ok = stored_proof_result::<u8>(12, Ok(7)).ok().unwrap();
    assert_eq!((ok.block_number, ok.proof), (12, 7));
    match stored_proof_result::<u8>(12, Err("bad json".to_string())) {
        Err(ProverError::ProofParse(m)) => {
            assert_eq!(m, "Failed to parse proof for block number 12: bad json")
        }
        _ => panic!("expected a parse error"),
    }
    let parsed = parse_stored_proof::<String>("raw".to_string(), 3).ok().unwrap();
    assert_eq!(parsed.block_number, 3);
    assert_eq!(parsed.proof, "raw");
}

#[test]
fn job_results_of_the_expected_kind_are_taken() {
    let snos: JobResult<(), &str, u8> = JobResult::Snos("pie");
    assert_eq!(snos_job_output(snos), Ok("pie"));
    let run: JobResult<(), &str, u8> = JobResult::Run(4);
    assert_eq!(
        snos_job_output(run),
        Err("Expected a prove result, but got a different result type".to_string())
    );
    assert_eq!(run_job_output(JobResult::<(), &str, u8>::Run(4)), Ok(4));
    assert_eq!(
        run_job_output(JobResult::<(), &str, u8>::Prove(())),
        Err("Expected a run result, but got a different result type".to_string())
    );
}

#[test]
fn query_status_needs_a_live_service() {
    assert!(matches!(after_alive_check(false), QueryStatusStep::Fail(Error::ServerNotAliveError)));
    assert!(matches!(after_alive_check(true), QueryStatusStep::RequestJobs));
    assert!(matches!(check_query_status(false, None), Err(Error::ServerNotAliveError)));
    let done = vec!["COMPLETED".to_string(), "COMPLETED".to_string()];
    assert!(matches!(check_query_status(true, Some(&done)), Ok(ProverStatus::Proved)));
    let failed = vec!["COMPLETED".to_string(), "FAILED".to_string()];
    assert!(matches!(check_query_status(true, Some(&failed)), Ok(ProverStatus::Failed)));
    assert!(matches!(check_query_status(true, Some(&vec![])), Ok(ProverStatus::Proving)));
}
