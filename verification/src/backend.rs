//! The trusted boundary to the compute backend (the `wasmer` crate).
//!
//! The backend compiles bytecode, instantiates compiled modules and calls
//! their exported functions. It is exactly the component under stress, so
//! nothing is promised of whether any of its operations succeeds: every
//! wrapper here hands the raw outcome back, and the verified cycle logic
//! decides what each outcome means.

use vstd::prelude::*;

verus! {

#[verifier::external_type_specification]
#[verifier::external_body]
pub struct ExEngine(wasmer::Engine);

#[verifier::external_type_specification]
#[verifier::external_body]
pub struct ExModule(wasmer::Module);

#[verifier::external_type_specification]
#[verifier::external_body]
pub struct ExStore(wasmer::Store);

#[verifier::external_type_specification]
#[verifier::external_body]
pub struct ExInstance(wasmer::Instance);

#[verifier::external_type_specification]
#[verifier::external_body]
pub struct ExFunction(wasmer::Function);

#[verifier::external_type_specification]
#[verifier::external_body]
pub struct ExCompileError(wasmer::CompileError);

#[verifier::external_type_specification]
#[verifier::external_body]
pub struct ExInstantiationError(wasmer::InstantiationError);

#[verifier::external_type_specification]
#[verifier::external_body]
pub struct ExExportError(wasmer::ExportError);

#[verifier::external_type_specification]
#[verifier::external_body]
pub struct ExRuntimeError(wasmer::RuntimeError);

/// A compilation context paired with the module it compiled: what one stress
/// cycle produces fresh from the source bytecode, stores in its local
/// registry, and reads straight back. Owned by a single cycle; never shared.
pub struct CompiledArtifact {
    /// The engine that compiled the module.
    pub engine: wasmer::Engine,
    /// The compiled module itself.
    pub module: wasmer::Module,
}

/// Relies on `wasmer::sys::Singlepass::default` and wasmer's `From`
/// conversion into `wasmer::Engine`: builds a fresh engine that compiles
/// ahead of time in a single pass, the strategy wasmer documents as safe for
/// concurrent independent compilation.
#[verifier::external_body]
pub(crate) fn singlepass_engine() -> wasmer::Engine {
    wasmer::Engine::from(wasmer::sys::Singlepass::default())
}

/// Relies on `wasmer::Module::new`: compiles the given bytecode with the
/// given engine, returning the compiled module or the backend's compile
/// error.
#[verifier::external_body]
pub(crate) fn compile_module(
    engine: &wasmer::Engine,
    code: &[u8],
) -> Result<wasmer::Module, wasmer::CompileError> {
    wasmer::Module::new(engine, code)
}

/// Relies on the derived `Clone` of `wasmer::Engine`: clones the compilation
/// context so a fresh execution context can be built from the clone.
#[verifier::external_body]
pub(crate) fn clone_engine(engine: &wasmer::Engine) -> wasmer::Engine {
    engine.clone()
}

/// Relies on `wasmer::Store::new`: builds a fresh execution context owning
/// the given engine.
#[verifier::external_body]
pub(crate) fn new_store(engine: wasmer::Engine) -> wasmer::Store {
    wasmer::Store::new(engine)
}

/// An execution context bound to the instance created in it. The store and
/// the instance enter together through `instantiate_session` and never part:
/// the fields are private, so no caller can pair the instance's exports with
/// a foreign store.
pub(crate) struct ExecutionSession {
    store: wasmer::Store,
    instance: wasmer::Instance,
}

/// A call frame for a single exported function invocation: the resolved
/// function together with the one store it was resolved in. Built only from
/// an `ExecutionSession` by `resolve_export`, so the function/store pairing
/// wasmer requires at call time holds by construction.
pub(crate) struct CallFrame {
    store: wasmer::Store,
    function: wasmer::Function,
}

/// Relies on `wasmer::Instance::new`: instantiates the compiled module in
/// the given execution context with an empty import set. The store and the
/// new instance are handed back as one session, keeping them paired; every
/// failure — missing or foreign imports, an artifact for the wrong
/// architecture, a trapping start function — returns the backend's
/// instantiation error.
#[verifier::external_body]
pub(crate) fn instantiate_session(
    store: wasmer::Store,
    module: &wasmer::Module,
) -> Result<ExecutionSession, wasmer::InstantiationError> {
    let mut store = store;
    match wasmer::Instance::new(&mut store, module, &wasmer::Imports::new()) {
        Ok(instance) => Ok(ExecutionSession { store, instance }),
        Err(e) => Err(e),
    }
}

/// Relies on `wasmer::Exports::get_function`: resolves the named export of
/// the session's instance, handing back a call frame that holds the resolved
/// function (a cheap reference-counted clone) together with the session's
/// own store — the store the instance lives in, and so the only one the
/// function may later be called in. Failure returns the backend's export
/// error.
#[verifier::external_body]
pub(crate) fn resolve_export(
    session: ExecutionSession,
    name: &str,
) -> Result<CallFrame, wasmer::ExportError> {
    match session.instance.exports.get_function(name) {
        Ok(function) => Ok(CallFrame { store: session.store, function: function.clone() }),
        Err(e) => Err(e),
    }
}

/// Relies on `wasmer::Function::call` and `wasmer::Value::i32`: invokes the
/// frame's function, in the frame's own store, with one 32-bit integer
/// argument. The frame pairs the function with the store it was resolved in,
/// which rules out the store-mismatch abort wasmer reserves for foreign
/// handles, so the call comes back: on success with the first returned value
/// where that value is a 32-bit integer, and `None` where the call returned
/// nothing of that shape; on failure with the backend's runtime error.
#[verifier::external_body]
pub(crate) fn call_with_i32(
    frame: &mut CallFrame,
    argument: i32,
) -> Result<Option<i32>, wasmer::RuntimeError> {
    match frame.function.call(&mut frame.store, &[wasmer::Value::I32(argument)]) {
        Ok(values) => match values.first() {
            Some(value) => Ok(value.i32()),
            None => Ok(None),
        },
        Err(e) => Err(e),
    }
}

} // verus!
