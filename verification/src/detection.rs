//! The harness's fault-injection guarantees, cycle and cohort composed: what
//! a whole cohort reports when a substituted backend misbehaves in one of its
//! stress cycles. One hypothesis stands in for the join loop, which runs
//! outside the verified library: that every worker completed and reported its
//! own cycle's verdict on the backend outcomes it recorded.

use vstd::prelude::*;

use crate::cohort::{
    cohort_verdict_of, lemma_cohort_verdict_faithful, lemma_cohort_verdict_ok,
    lemma_single_failure_decides, worker_verdict, CohortError, WorkerOutcome,
};
use crate::cycle::{cycle_verdict, CycleEvents};
use crate::failure::Failure;
use crate::probe::EXPECTED_RESULT;

verus! {

/// Every worker of the cohort completed its stress cycle and reported that
/// cycle's verdict on the backend outcomes it recorded. This is what the
/// join loop hands the cohort verdict; it runs outside the verified library,
/// so the lemmas below take it as a hypothesis.
pub open spec fn workers_report_verdicts<E>(
    events: Seq<CycleEvents<E>>,
    outcomes: Seq<WorkerOutcome>,
) -> bool {
    &&& outcomes.len() == events.len()
    &&& forall|i: int|
        0 <= i < events.len() ==> outcomes[i] == WorkerOutcome::Completed(cycle_verdict(events[i]))
}

/// A substituted backend that hands one stress cycle of a cohort a wrong
/// value is detected within that cohort: where every stage of every cycle
/// succeeds, every other call observes the expected result and one call
/// observes anything else, the cohort reports exactly an assertion
/// violation — never a normally completed cohort.
pub proof fn lemma_wrong_value_detected_within_cohort<E>(
    events: Seq<CycleEvents<E>>,
    outcomes: Seq<WorkerOutcome>,
    n: int,
)
    requires
        workers_report_verdicts(events, outcomes),
        0 <= n < events.len(),
        forall|i: int|
            0 <= i < events.len() ==> (#[trigger] events[i]).compile is Ok && events[i].lookup_hit
                && events[i].instantiate is Ok && events[i].export is Ok,
        forall|i: int|
            0 <= i < events.len() && i != n ==> (#[trigger] events[i]).call == Result::Ok::<
                Option<i32>,
                E,
            >(Some(EXPECTED_RESULT)),
        events[n].call matches Ok(observed) && observed != Some(EXPECTED_RESULT),
    ensures
        cohort_verdict_of(outcomes) == Result::Err::<(), CohortError>(
            CohortError::CycleFailed(Failure::AssertionViolated),
        ),
{
    assert(worker_verdict(outcomes[n]) == Result::Err::<(), CohortError>(
        CohortError::CycleFailed(Failure::AssertionViolated),
    ));
    lemma_single_failure_decides(outcomes, n);
}

/// A substituted backend whose instantiation step is racy is surfaced as one
/// of two failures, never as a normal completion: where compilation, the
/// registry and export resolution always succeed and every call comes back
/// with a value, a cycle in which the race manifested — its instantiation
/// failed, or its call observed something other than the expected result —
/// makes the cohort report an instantiation failure or an assertion
/// violation.
pub proof fn lemma_racy_instantiation_surfaced<E>(
    events: Seq<CycleEvents<E>>,
    outcomes: Seq<WorkerOutcome>,
    n: int,
)
    requires
        workers_report_verdicts(events, outcomes),
        0 <= n < events.len(),
        forall|i: int|
            0 <= i < events.len() ==> (#[trigger] events[i]).compile is Ok && events[i].lookup_hit
                && events[i].export is Ok && events[i].call is Ok,
        events[n].instantiate is Err || events[n].call != Result::Ok::<Option<i32>, E>(
            Some(EXPECTED_RESULT),
        ),
    ensures
        cohort_verdict_of(outcomes) == Result::Err::<(), CohortError>(
            CohortError::CycleFailed(Failure::InstantiationFailed),
        ) || cohort_verdict_of(outcomes) == Result::Err::<(), CohortError>(
            CohortError::CycleFailed(Failure::AssertionViolated),
        ),
{
    assert(worker_verdict(outcomes[n]) is Err);
    lemma_cohort_verdict_ok(outcomes);
    assert(cohort_verdict_of(outcomes) is Err);
    lemma_cohort_verdict_faithful(outcomes);
    match cohort_verdict_of(outcomes) {
        Result::Err(e) => {
            let j = choose|j: int|
                0 <= j < outcomes.len() && worker_verdict(outcomes[j]) == Result::Err::<(),
                CohortError,
                >(e);
            assert(e == CohortError::CycleFailed(Failure::InstantiationFailed) || e
                == CohortError::CycleFailed(Failure::AssertionViolated));
        },
        Result::Ok(_) => {},
    }
}

} // verus!
