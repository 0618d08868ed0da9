use wasm_stress::{
    check_observed, classify_stage, compile, decide_cycle, export_name, probe_bytecode,
    registry_key, run_cycle, CycleEvents, Failure, CALL_ARGUMENT, EXPECTED_RESULT,
};

fn all_ok_events(call: Result<Option<i32>, ()>) -> CycleEvents<()> {
    CycleEvents {
        compile: Ok(()),
        lookup_hit: true,
        instantiate: Ok(()),
        export: Ok(()),
        call,
    }
}

#[test]
fn probe_constants_are_fixed() {
    assert_eq!(CALL_ARGUMENT, 0);
    assert_eq!(EXPECTED_RESULT, 0);
    assert_eq!(export_name(), "test");
    assert_eq!(registry_key(), "artifact");
}

#[test]
fn probe_bytecode_is_a_wasm_module() {
    let code = probe_bytecode();
    assert_eq!(code.len(), 38);
    assert_eq!(&code[0..8], &[0x00, 0x61, 0x73, 0x6d, 0x01, 0x00, 0x00, 0x00]);
}

#[test]
fn probe_bytecode_compiles() {
    let code = probe_bytecode();
    assert!(compile(&code).is_ok());
}

#[test]
fn garbage_bytecode_fails_compilation() {
    let r = compile(&[0x01, 0x02, 0x03]);
    assert_eq!(r.err(), Some(Failure::CompilationFailed));
}

#[test]
fn sequential_cycle_observes_expected_result() {
    let code = probe_bytecode();
    assert_eq!(run_cycle(&code), Ok(()));
}

#[test]
fn sequential_cycle_is_idempotent() {
    let code = probe_bytecode();
    for _ in 0..20 {
        assert_eq!(run_cycle(&code), Ok(()));
    }
}

#[test]
fn cycle_reports_compilation_failure() {
    assert_eq!(
        run_cycle(&[0xff, 0xff, 0xff, 0xff]),
        Err(Failure::CompilationFailed)
    );
}

#[test]
fn cycle_reports_missing_export() {
    let mut code = probe_bytecode();
    // rename the export to "exam": the fixed export name resolves nothing
    code[24] = 0x65;
    code[25] = 0x78;
    code[26] = 0x61;
    code[27] = 0x6d;
    assert_eq!(run_cycle(&code), Err(Failure::ExportMissing));
}

#[test]
fn cycle_reports_assertion_violation_on_wrong_return() {
    let mut code = probe_bytecode();
    // the exported function now returns the constant 1 instead of 0
    code[36] = 0x01;
    assert_eq!(run_cycle(&code), Err(Failure::AssertionViolated));
}

#[test]
fn cycle_reports_call_failure_on_trap() {
    // same module, but the function body is a single unreachable instruction
    let code: Vec<u8> = vec![
        0x00, 0x61, 0x73, 0x6d, 0x01, 0x00, 0x00, 0x00, // magic, version
        0x01, 0x06, 0x01, 0x60, 0x01, 0x7f, 0x01, 0x7f, // type (i32) -> i32
        0x03, 0x02, 0x01, 0x00, // one function
        0x07, 0x08, 0x01, 0x04, 0x74, 0x65, 0x73, 0x74, 0x00, 0x00, // export "test"
        0x0a, 0x05, 0x01, 0x03, 0x00, 0x00, 0x0b, // body: unreachable
    ];
    assert_eq!(run_cycle(&code), Err(Failure::CallFailed));
}

#[test]
fn cycle_reports_instantiation_failure_on_trapping_start() {
    // a module whose start function traps: instantiation itself fails
    let code: Vec<u8> = vec![
        0x00, 0x61, 0x73, 0x6d, 0x01, 0x00, 0x00, 0x00, // magic, version
        0x01, 0x04, 0x01, 0x60, 0x00, 0x00, // type () -> ()
        0x03, 0x02, 0x01, 0x00, // one function
        0x08, 0x01, 0x00, // start: function 0
        0x0a, 0x05, 0x01, 0x03, 0x00, 0x00, 0x0b, // body: unreachable
    ];
    assert_eq!(run_cycle(&code), Err(Failure::InstantiationFailed));
}

#[test]
fn decide_cycle_succeeds_on_expected_result() {
    assert_eq!(decide_cycle(all_ok_events(Ok(Some(0)))), Ok(()));
}

#[test]
fn decide_cycle_rejects_wrong_value() {
    assert_eq!(
        decide_cycle(all_ok_events(Ok(Some(1)))),
        Err(Failure::AssertionViolated)
    );
}

#[test]
fn decide_cycle_rejects_missing_value() {
    assert_eq!(
        decide_cycle(all_ok_events(Ok(None))),
        Err(Failure::AssertionViolated)
    );
}

#[test]
fn decide_cycle_classifies_each_stage() {
    let mut events = all_ok_events(Ok(Some(0)));
    events.compile = Err(());
    assert_eq!(decide_cycle(events), Err(Failure::CompilationFailed));

    let mut events = all_ok_events(Ok(Some(0)));
    events.lookup_hit = false;
    assert_eq!(decide_cycle(events), Err(Failure::HarnessBug));

    let mut events = all_ok_events(Ok(Some(0)));
    events.instantiate = Err(());
    assert_eq!(decide_cycle(events), Err(Failure::InstantiationFailed));

    let mut events = all_ok_events(Ok(Some(0)));
    events.export = Err(());
    assert_eq!(decide_cycle(events), Err(Failure::ExportMissing));

    let mut events = all_ok_events(Err(()));
    assert_eq!(decide_cycle(events), Err(Failure::CallFailed));
}

#[test]
fn decide_cycle_fails_fast_in_pipeline_order() {
    let events: CycleEvents<()> = CycleEvents {
        compile: Err(()),
        lookup_hit: false,
        instantiate: Err(()),
        export: Err(()),
        call: Err(()),
    };
    assert_eq!(decide_cycle(events), Err(Failure::CompilationFailed));
}

#[test]
fn classify_stage_passes_values_and_maps_errors() {
    let ok: Result<u32, ()> = Ok(7);
    assert_eq!(classify_stage(ok, Failure::InstantiationFailed), Ok(7));
    let err: Result<u32, ()> = Err(());
    assert_eq!(
        classify_stage(err, Failure::InstantiationFailed),
        Err(Failure::InstantiationFailed)
    );
}

#[test]
fn check_observed_compares_against_expected_result() {
    let ok: Result<Option<i32>, ()> = Ok(Some(0));
    assert_eq!(check_observed(ok), Ok(()));
    let wrong: Result<Option<i32>, ()> = Ok(Some(-1));
    assert_eq!(check_observed(wrong), Err(Failure::AssertionViolated));
    let none: Result<Option<i32>, ()> = Ok(None);
    assert_eq!(check_observed(none), Err(Failure::AssertionViolated));
    let failed: Result<Option<i32>, ()> = Err(());
    assert_eq!(check_observed(failed), Err(Failure::CallFailed));
}
