use wasm_harness::engine::{
    check_entry, load, run, Execution, ExportKind, LoadedModule, SetupError, FUEL_BUDGET,
};
use wasm_harness::outcome::{CallFault, ExecutionOutcome};

fn module(text: &str) -> LoadedModule {
    let bytes = wat::parse_str(text).unwrap();
    match load(&bytes) {
        Ok(loaded) => loaded,
        Err(error) => panic!("module did not load: {:?}", error),
    }
}

const COUNTED_LOOP: &str = r#"(module
    (func (export "count") (local i32)
        (loop
            local.get 0
            i32.const 1
            i32.add
            local.tee 0
            i32.const 100
            i32.lt_u
            br_if 0)))"#;

#[test]
fn fuel_budget_is_ten_thousand() {
    assert_eq!(FUEL_BUDGET, 10_000);
}

#[test]
fn normal_return_is_success() {
    let loaded = module(r#"(module (func (export "run") i32.const 1 drop))"#);
    let execution = run(&loaded, "run", FUEL_BUDGET).unwrap();
    assert_eq!(execution.outcome, ExecutionOutcome::Success);
}

#[test]
fn unbounded_loop_exhausts_the_fuel() {
    let loaded = module(r#"(module (func (export "spin") (loop br 0)))"#);
    let execution = run(&loaded, "spin", FUEL_BUDGET).unwrap();
    assert_eq!(execution.outcome, ExecutionOutcome::ResourceExhausted);
}

#[test]
fn unbounded_loop_exhausts_any_smaller_budget() {
    let loaded = module(r#"(module (func (export "spin") (loop br 0)))"#);
    for fuel in [0u64, 1, 10, 100, 1_000, 9_999] {
        let execution = run(&loaded, "spin", fuel).unwrap();
        assert_eq!(execution.outcome, ExecutionOutcome::ResourceExhausted);
    }
}

#[test]
fn smaller_budget_never_outlasts_a_larger_one() {
    let loaded = module(COUNTED_LOOP);
    let mut exhausted_before = true;
    for fuel in [0u64, 1, 10, 100, 500, 1_000, 5_000, FUEL_BUDGET] {
        let execution = run(&loaded, "count", fuel).unwrap();
        let exhausted = execution.outcome == ExecutionOutcome::ResourceExhausted;
        if !exhausted {
            assert_eq!(execution.outcome, ExecutionOutcome::Success);
        }
        // Once a budget suffices, every larger one does.
        assert!(exhausted_before || !exhausted);
        exhausted_before = exhausted;
    }
    assert!(!exhausted_before);
    let execution = run(&loaded, "count", 0).unwrap();
    assert_eq!(execution.outcome, ExecutionOutcome::ResourceExhausted);
}

#[test]
fn unreachable_is_a_trap() {
    let loaded = module(r#"(module (func (export "boom") unreachable))"#);
    let execution = run(&loaded, "boom", FUEL_BUDGET).unwrap();
    assert_eq!(
        execution.outcome,
        ExecutionOutcome::Trapped("wasm trap: wasm `unreachable` instruction executed".to_string())
    );
}

#[test]
fn division_by_zero_is_a_trap() {
    let loaded = module(
        r#"(module (func (export "div") i32.const 1 i32.const 0 i32.div_u drop))"#,
    );
    let execution = run(&loaded, "div", FUEL_BUDGET).unwrap();
    assert_eq!(
        execution.outcome,
        ExecutionOutcome::Trapped("wasm trap: integer divide by zero".to_string())
    );
}

#[test]
fn missing_export_is_function_not_found() {
    let loaded = module(r#"(module (func (export "run")))"#);
    assert_eq!(run(&loaded, "walk", FUEL_BUDGET), Err(SetupError::FunctionNotFound));
    assert_eq!(loaded.find("walk"), None);
}

#[test]
fn export_that_is_no_function_is_function_not_found() {
    let loaded = module(r#"(module (memory (export "mem") 1))"#);
    assert_eq!(loaded.find("mem"), Some(ExportKind::Other));
    assert_eq!(run(&loaded, "mem", FUEL_BUDGET), Err(SetupError::FunctionNotFound));
}

#[test]
fn function_with_parameters_is_a_signature_mismatch() {
    let loaded = module(
        r#"(module (func (export "add") (param i32 i32) (result i32)
            local.get 0 local.get 1 i32.add))"#,
    );
    assert_eq!(loaded.find("add"), Some(ExportKind::Function { params: 2, results: 1 }));
    assert_eq!(run(&loaded, "add", FUEL_BUDGET), Err(SetupError::SignatureMismatch));
}

#[test]
fn function_with_a_result_is_a_signature_mismatch() {
    let loaded = module(r#"(module (func (export "one") (result i32) i32.const 1))"#);
    assert_eq!(run(&loaded, "one", FUEL_BUDGET), Err(SetupError::SignatureMismatch));
}

#[test]
fn check_entry_covers_every_kind_of_export() {
    assert_eq!(check_entry(None), Err(SetupError::FunctionNotFound));
    assert_eq!(check_entry(Some(ExportKind::Other)), Err(SetupError::FunctionNotFound));
    assert_eq!(check_entry(Some(ExportKind::Function { params: 0, results: 0 })), Ok(()));
    assert_eq!(
        check_entry(Some(ExportKind::Function { params: 1, results: 0 })),
        Err(SetupError::SignatureMismatch)
    );
    assert_eq!(
        check_entry(Some(ExportKind::Function { params: 0, results: 1 })),
        Err(SetupError::SignatureMismatch)
    );
}

#[test]
fn truncated_module_is_a_validation_error() {
    let bytes = wat::parse_str(r#"(module (func (export "run") i32.const 1 drop))"#).unwrap();
    let truncated = &bytes[..bytes.len() - 3];
    match load(truncated) {
        Err(SetupError::Validation(message)) => assert!(!message.is_empty()),
        Err(other) => panic!("unexpected error: {:?}", other),
        Ok(_) => panic!("a truncated module loaded"),
    }
}

#[test]
fn bytes_that_are_no_module_are_a_validation_error() {
    assert!(matches!(load(b"not a module"), Err(SetupError::Validation(_))));
    assert!(matches!(load(b""), Err(SetupError::Validation(_))));
}

#[test]
fn unmet_import_is_an_other_failure() {
    let loaded = module(
        r#"(module (import "env" "f" (func)) (func (export "run")))"#,
    );
    let execution = run(&loaded, "run", FUEL_BUDGET).unwrap();
    assert!(matches!(execution.outcome, ExecutionOutcome::OtherFailure(_)));
    assert_eq!(execution.duration_ms, 0);
}

#[test]
fn missing_export_wins_over_an_unmet_import() {
    let loaded = module(
        r#"(module (import "env" "f" (func)) (func (export "run")))"#,
    );
    assert_eq!(run(&loaded, "walk", FUEL_BUDGET), Err(SetupError::FunctionNotFound));
}

#[test]
fn setup_errors_say_what_went_wrong() {
    assert_eq!(SetupError::FunctionNotFound.message(), "Function not found");
    assert_eq!(
        SetupError::SignatureMismatch.message(),
        "Function takes parameters or returns results"
    );
    assert_eq!(SetupError::Validation("bad magic".to_string()).message(), "bad magic");
}

#[test]
fn execution_of_a_call_is_classified() {
    assert_eq!(
        Execution::called(Ok(()), 7),
        Execution { outcome: ExecutionOutcome::Success, duration_ms: 7 }
    );
    assert_eq!(
        Execution::called(Err(CallFault::OutOfFuel), 8),
        Execution { outcome: ExecutionOutcome::ResourceExhausted, duration_ms: 8 }
    );
    assert_eq!(
        Execution::called(Err(CallFault::Trap("t".to_string())), 9),
        Execution { outcome: ExecutionOutcome::Trapped("t".to_string()), duration_ms: 9 }
    );
    assert_eq!(
        Execution::called(Err(CallFault::Other("o".to_string())), 0),
        Execution { outcome: ExecutionOutcome::OtherFailure("o".to_string()), duration_ms: 0 }
    );
}

#[test]
fn execution_without_a_call_keeps_the_message() {
    assert_eq!(
        Execution::not_called("unknown import".to_string()),
        Execution {
            outcome: ExecutionOutcome::OtherFailure("unknown import".to_string()),
            duration_ms: 0
        }
    );
}

#[test]
fn start_function_that_traps_is_an_other_failure() {
    let loaded = module(
        r#"(module (func $s unreachable) (start $s) (func (export "run")))"#,
    );
    let execution = run(&loaded, "run", FUEL_BUDGET).unwrap();
    assert!(matches!(execution.outcome, ExecutionOutcome::OtherFailure(_)));
}

#[test]
fn each_run_starts_with_the_whole_budget() {
    let loaded = module(COUNTED_LOOP);
    for _ in 0..3 {
        let execution = run(&loaded, "count", FUEL_BUDGET).unwrap();
        assert_eq!(execution.outcome, ExecutionOutcome::Success);
    }
}
