//! The verdict of one cohort of concurrently run stress cycles. The harness
//! observes every worker's outcome — a completed cycle's result, or the bare
//! fact that the worker aborted before reporting one — and the cohort as a
//! whole fails if any worker did. No failure is ever silently dropped.

use vstd::prelude::*;

use crate::failure::Failure;

verus! {

/// What one worker of a cohort came to.
#[derive(Clone, Copy, Debug, PartialEq, Eq)]
pub enum WorkerOutcome {
    /// The worker ran its stress cycle to completion and reported this
    /// result.
    Completed(Result<(), Failure>),
    /// The worker aborted abnormally and could not report a result. A fatal
    /// harness-level condition, never to be swallowed.
    Aborted,
}

/// Why a cohort as a whole failed.
#[derive(Clone, Copy, Debug, PartialEq, Eq)]
pub enum CohortError {
    /// Some stress cycle of the cohort raised this failure.
    CycleFailed(Failure),
    /// Some worker of the cohort aborted without reporting a result.
    WorkerLost,
}

/// The verdict on one worker: success exactly when it completed its cycle
/// successfully; a raised failure and an abnormal abort each carry their own
/// classification.
pub open spec fn worker_verdict(outcome: WorkerOutcome) -> Result<(), CohortError> {
    match outcome {
        WorkerOutcome::Completed(Result::Ok(())) => Result::Ok(()),
        WorkerOutcome::Completed(Result::Err(f)) => Result::Err(CohortError::CycleFailed(f)),
        WorkerOutcome::Aborted => Result::Err(CohortError::WorkerLost),
    }
}

/// The verdict on a whole cohort from its workers' outcomes: success exactly
/// when every worker succeeded, and otherwise the verdict on the first
/// failing worker, in the order the workers were joined.
pub open spec fn cohort_verdict_of(outcomes: Seq<WorkerOutcome>) -> Result<(), CohortError>
    decreases outcomes.len(),
{
    if outcomes.len() == 0 {
        Result::Ok(())
    } else if worker_verdict(outcomes[0]) is Err {
        worker_verdict(outcomes[0])
    } else {
        cohort_verdict_of(outcomes.drop_first())
    }
}

/// The cohort verdict is a success exactly when every worker completed its
/// stress cycle successfully.
pub proof fn lemma_cohort_verdict_ok(outcomes: Seq<WorkerOutcome>)
    ensures
        cohort_verdict_of(outcomes) is Ok <==> (forall|i: int|
            0 <= i < outcomes.len() ==> outcomes[i] == WorkerOutcome::Completed(
                Result::Ok::<(), Failure>(()),
            )),
    decreases outcomes.len(),
{
    if outcomes.len() > 0 {
        lemma_cohort_verdict_ok(outcomes.drop_first());
        assert(forall|i: int|
            1 <= i < outcomes.len() ==> outcomes[i] == outcomes.drop_first()[i - 1]);
        match outcomes[0] {
            WorkerOutcome::Completed(r) => {
                match r {
                    Result::Ok(u) => {
                        assert(outcomes[0] == WorkerOutcome::Completed(
                            Result::Ok::<(), Failure>(()),
                        ));
                    },
                    Result::Err(f) => {},
                }
            },
            WorkerOutcome::Aborted => {},
        }
    }
}

/// The cohort verdict never invents a failure: an error reported for the
/// cohort is the verdict on one of its own workers.
pub proof fn lemma_cohort_verdict_faithful(outcomes: Seq<WorkerOutcome>)
    ensures
        cohort_verdict_of(outcomes) matches Err(e) ==> exists|i: int|
            0 <= i < outcomes.len() && worker_verdict(outcomes[i]) == Result::Err::<(),
            CohortError,
            >(e),
    decreases outcomes.len(),
{
    if outcomes.len() > 0 {
        if worker_verdict(outcomes[0]) is Err {
        } else {
            lemma_cohort_verdict_faithful(outcomes.drop_first());
            match cohort_verdict_of(outcomes) {
                Result::Err(e) => {
                    let j = choose|j: int|
                        0 <= j < outcomes.drop_first().len() && worker_verdict(
                            outcomes.drop_first()[j],
                        ) == Result::Err::<(), CohortError>(e);
                    assert(outcomes.drop_first()[j] == outcomes[j + 1]);
                },
                Result::Ok(_) => {},
            }
        }
    }
}

/// Where exactly one worker of a cohort fails, that worker decides: every
/// other worker succeeded, so the cohort's verdict is the failing worker's.
pub proof fn lemma_single_failure_decides(outcomes: Seq<WorkerOutcome>, n: int)
    requires
        0 <= n < outcomes.len(),
        forall|i: int|
            0 <= i < outcomes.len() && i != n ==> worker_verdict(outcomes[i]) == Result::Ok::<(),
            CohortError,
            >(()),
        worker_verdict(outcomes[n]) is Err,
    ensures
        cohort_verdict_of(outcomes) == worker_verdict(outcomes[n]),
    decreases outcomes.len(),
{
    if n == 0 {
    } else {
        assert(forall|i: int|
            1 <= i < outcomes.len() ==> outcomes[i] == outcomes.drop_first()[i - 1]);
        lemma_single_failure_decides(outcomes.drop_first(), n - 1);
    }
}

/// For every cohort width of at least one worker, a cohort in which every
/// stress cycle completed with the expected result completes and is reported
/// as a success.
pub proof fn lemma_all_successful_cohort_succeeds(outcomes: Seq<WorkerOutcome>)
    requires
        outcomes.len() >= 1,
        forall|i: int|
            0 <= i < outcomes.len() ==> outcomes[i] == WorkerOutcome::Completed(
                Result::Ok::<(), Failure>(()),
            ),
    ensures
        cohort_verdict_of(outcomes) == Result::Ok::<(), CohortError>(()),
{
    lemma_cohort_verdict_ok(outcomes);
    match cohort_verdict_of(outcomes) {
        Result::Ok(u) => {
            assert(u == ());
        },
        Result::Err(_) => {},
    }
}

/// For every cohort width, if any one stress cycle raised any failure, the
/// cohort's verdict reports an error: the failure is never silently dropped.
pub proof fn lemma_cohort_reports_failure(outcomes: Seq<WorkerOutcome>, i: int, f: Failure)
    requires
        0 <= i < outcomes.len(),
        outcomes[i] == WorkerOutcome::Completed(Result::Err::<(), Failure>(f)),
    ensures
        cohort_verdict_of(outcomes) is Err,
{
    lemma_cohort_verdict_ok(outcomes);
}

/// Computes the verdict on a whole cohort from its workers' outcomes,
/// exactly as `cohort_verdict_of` says: success if and only if every worker
/// completed its stress cycle successfully, and otherwise the verdict on the
/// first failing worker in join order.
pub fn cohort_verdict(outcomes: &Vec<WorkerOutcome>) -> (r: Result<(), CohortError>)
    ensures
        r == cohort_verdict_of(outcomes@),
        r is Ok <==> (forall|i: int|
            0 <= i < outcomes@.len() ==> outcomes@[i] == WorkerOutcome::Completed(
                Result::Ok::<(), Failure>(()),
            )),
{
    proof {
        lemma_cohort_verdict_ok(outcomes@);
        assert(outcomes@.skip(0) =~= outcomes@);
    }
    let mut index: usize = 0;
    while index < outcomes.len()
        invariant
            0 <= index <= outcomes@.len(),
            cohort_verdict_of(outcomes@) == cohort_verdict_of(outcomes@.skip(index as int)),
            forall|i: int|
                0 <= i < index ==> worker_verdict(outcomes@[i]) == Result::Ok::<(),
                CohortError,
                >(()),
        decreases outcomes@.len() - index,
    {
        let verdict = match outcomes[index] {
            WorkerOutcome::Completed(Ok(())) => Ok(()),
            WorkerOutcome::Completed(Err(f)) => Err(CohortError::CycleFailed(f)),
            WorkerOutcome::Aborted => Err(CohortError::WorkerLost),
        };
        proof {
            assert(outcomes@.skip(index as int)[0] == outcomes@[index as int]);
            assert(outcomes@.skip(index as int).drop_first() =~= outcomes@.skip(index as int + 1));
        }
        if let Err(e) = verdict {
            return Err(e);
        }
        index = index + 1;
    }
    proof {
        assert(outcomes@.skip(outcomes@.len() as int).len() == 0);
    }
    Ok(())
}

} // verus!
