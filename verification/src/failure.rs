//! The failure taxonomy of the harness: which stage of a stress cycle went
//! wrong, and how a cohort of cycles reports the outcomes of its workers.

use vstd::prelude::*;

verus! {

/// Everything that can go wrong in one stress cycle, by stage.
///
/// None of these is ever recovered from: each one terminates the owning
/// cycle at once and is surfaced to the cohort unmodified.
#[derive(Clone, Copy, Debug, PartialEq, Eq, Structural)]
pub enum Failure {
    /// The artifact registry did not return an entry that was just inserted.
    /// An internal inconsistency of the harness itself, never a backend
    /// finding; the verified registry makes this unreachable.
    HarnessBug,
    /// The backend rejected the source bytecode.
    CompilationFailed,
    /// The backend could not instantiate the compiled module.
    InstantiationFailed,
    /// The single exported function was not found in the instance.
    ExportMissing,
    /// The exported function could not be invoked.
    CallFailed,
    /// The call returned, but not the expected result.
    AssertionViolated,
}

} // verus!
