//! A concurrency stress harness for a bytecode compile/instantiate/execute
//! pipeline: each stress cycle independently compiles a fixed bytecode module,
//! stores the artifact in a local registry, reads it back, instantiates it,
//! calls its single exported function, and checks the returned value against
//! the expected result. A cohort of such cycles runs concurrently; any failure
//! anywhere is fatal and reported.

mod backend;
mod cohort;
mod cycle;
mod detection;
mod failure;
mod probe;

pub use backend::CompiledArtifact;
pub use cohort::{
    cohort_verdict, cohort_verdict_of, lemma_all_successful_cohort_succeeds,
    lemma_cohort_reports_failure, lemma_cohort_verdict_faithful, lemma_cohort_verdict_ok,
    lemma_single_failure_decides,
    worker_verdict, CohortError, WorkerOutcome,
};
pub use cycle::{
    check_observed, classify_stage, compile, cycle_verdict, decide_cycle, observed_verdict,
    run_cycle, stage_verdict, CycleEvents,
};
pub use detection::{
    lemma_racy_instantiation_surfaced, lemma_wrong_value_detected_within_cohort,
    workers_report_verdicts,
};
pub use failure::Failure;
pub use probe::{
    export_name, probe_bytecode, probe_bytecode_spec, registry_key, CALL_ARGUMENT, EXPECTED_RESULT,
};
