//! One stress cycle: compile the source bytecode, store the artifact in a
//! local registry, read it straight back, instantiate the module, call its
//! single exported function, and check the returned value against the
//! expected result. Any failure at any stage is authoritative and propagates
//! out unmodified; nothing is retried.

use vstd::prelude::*;
use vstd::hash_map::StringHashMap;

use crate::backend;
use crate::backend::CompiledArtifact;
use crate::failure::Failure;
use crate::probe::{CALL_ARGUMENT, EXPECTED_RESULT, export_name, registry_key};

verus! {

/// The meaning of a stage outcome reported by the backend: the stage's value
/// on success, and the given failure on any backend error.
pub open spec fn stage_verdict<T, E>(outcome: Result<T, E>, failure: Failure) -> Result<T, Failure> {
    match outcome {
        Result::Ok(value) => Result::Ok(value),
        Result::Err(_) => Result::Err(failure),
    }
}

/// Classifies one stage outcome reported by the backend: the stage's value
/// passes through untouched, and any backend error becomes the given
/// failure, exactly as `stage_verdict` says.
pub fn classify_stage<T, E>(outcome: Result<T, E>, failure: Failure) -> (r: Result<T, Failure>)
    ensures
        r == stage_verdict(outcome, failure),
{
    match outcome {
        Ok(value) => Ok(value),
        Err(_) => Err(failure),
    }
}

/// The meaning of a completed call: success exactly when the backend
/// returned a 32-bit integer equal to the expected result; any runtime error
/// is a call failure, and any other returned value violates the assertion.
pub open spec fn observed_verdict<E>(outcome: Result<Option<i32>, E>) -> Result<(), Failure> {
    match outcome {
        Result::Ok(observed) => if observed == Some(EXPECTED_RESULT) {
            Result::Ok(())
        } else {
            Result::Err(Failure::AssertionViolated)
        },
        Result::Err(_) => Result::Err(Failure::CallFailed),
    }
}

/// Compares what the call returned against the expected result, exactly as
/// `observed_verdict` says: `Ok` if and only if the backend returned a
/// 32-bit integer equal to the expected result.
pub fn check_observed<E>(outcome: Result<Option<i32>, E>) -> (r: Result<(), Failure>)
    ensures
        r == observed_verdict(outcome),
{
    match outcome {
        Ok(Some(value)) => if value == EXPECTED_RESULT {
            Ok(())
        } else {
            Err(Failure::AssertionViolated)
        },
        Ok(None) => Err(Failure::AssertionViolated),
        Err(_) => Err(Failure::CallFailed),
    }
}

/// The outcome of every backend interaction of one stress cycle, as plain
/// values. A stub backend for the fail-fast protocol: tests drive
/// `decide_cycle` with these where the real cycle asks the real backend.
pub struct CycleEvents<E> {
    /// What compiling the source bytecode reported.
    pub compile: Result<(), E>,
    /// Whether the registry lookup returned the entry just inserted.
    pub lookup_hit: bool,
    /// What instantiating the compiled module reported.
    pub instantiate: Result<(), E>,
    /// What resolving the exported function reported.
    pub export: Result<(), E>,
    /// What the call reported: the first returned value where it was a
    /// 32-bit integer.
    pub call: Result<Option<i32>, E>,
}

/// The fail-fast verdict of one stress cycle over the outcomes of its
/// stages: the first failing stage decides, in pipeline order, and each
/// stage's failure carries its own classification.
pub open spec fn cycle_verdict<E>(events: CycleEvents<E>) -> Result<(), Failure> {
    if events.compile is Err {
        Result::Err(Failure::CompilationFailed)
    } else if !events.lookup_hit {
        Result::Err(Failure::HarnessBug)
    } else if events.instantiate is Err {
        Result::Err(Failure::InstantiationFailed)
    } else if events.export is Err {
        Result::Err(Failure::ExportMissing)
    } else {
        observed_verdict(events.call)
    }
}

/// Decides one stress cycle from the outcomes of its stages, exactly as
/// `cycle_verdict` says: the first failing stage decides, in pipeline order.
/// This is the cycle's whole verification discipline on a substituted
/// backend; `run_cycle` applies the same classification to the real one.
pub fn decide_cycle<E>(events: CycleEvents<E>) -> (r: Result<(), Failure>)
    ensures
        r == cycle_verdict(events),
{
    if events.compile.is_err() {
        Err(Failure::CompilationFailed)
    } else if !events.lookup_hit {
        Err(Failure::HarnessBug)
    } else if events.instantiate.is_err() {
        Err(Failure::InstantiationFailed)
    } else if events.export.is_err() {
        Err(Failure::ExportMissing)
    } else {
        check_observed(events.call)
    }
}

/// Compiles the source bytecode into a fresh compiled artifact with a fresh
/// single-pass engine. The only failure it can report is a compilation
/// failure.
pub fn compile(code: &[u8]) -> (r: Result<CompiledArtifact, Failure>)
    ensures
        r matches Err(f) ==> f == Failure::CompilationFailed,
{
    let engine = backend::singlepass_engine();
    match classify_stage(backend::compile_module(&engine, code), Failure::CompilationFailed) {
        Ok(module) => Ok(CompiledArtifact { engine, module }),
        Err(f) => Err(f),
    }
}

/// Runs one full stress cycle on the given source bytecode: compile, store
/// the artifact in a fresh local registry, read it back, instantiate, call
/// the exported function with the fixed argument, and check the result.
///
/// Callable concurrently from any number of threads: nothing mutable is
/// shared between calls. Every backend failure propagates out with its
/// stage's classification, and the registry step is verified, so the
/// distinct harness-bug signal — the registry not returning what was just
/// inserted — can never be raised.
pub fn run_cycle(code: &[u8]) -> (r: Result<(), Failure>)
    ensures
        r matches Err(f) ==> f != Failure::HarnessBug,
{
    let artifact = match compile(code) {
        Ok(artifact) => artifact,
        Err(f) => {
            return Err(f);
        },
    };

    let mut registry: StringHashMap<CompiledArtifact> = StringHashMap::new();
    registry.insert(registry_key(), artifact);
    let cached = match registry.get(registry_key().as_str()) {
        Some(cached) => cached,
        None => {
            return Err(Failure::HarnessBug);
        },
    };

    let store = backend::new_store(backend::clone_engine(&cached.engine));

    let session = match classify_stage(
        backend::instantiate_session(store, &cached.module),
        Failure::InstantiationFailed,
    ) {
        Ok(session) => session,
        Err(f) => {
            return Err(f);
        },
    };

    let mut frame = match classify_stage(
        backend::resolve_export(session, export_name()),
        Failure::ExportMissing,
    ) {
        Ok(frame) => frame,
        Err(f) => {
            return Err(f);
        },
    };

    check_observed(backend::call_with_i32(&mut frame, CALL_ARGUMENT))
}

} // verus!
