use serde_json::Value;
use wasm_harness::engine::{Execution, SetupError, FUEL_BUDGET};
use wasm_harness::opcode::OpcodeVector;
use wasm_harness::outcome::ExecutionOutcome;
use wasm_harness::pipeline::{analyze, execute, profile_of, report_execution, Failure};
use wasm_harness::report::ReportError;

fn wasm(text: &str) -> Vec<u8> {
    wat::parse_str(text).unwrap()
}

fn field(json: &str, name: &str) -> Value {
    let value: Value = serde_json::from_str(json).unwrap();
    value.get(name).unwrap().clone()
}

#[test]
fn successful_run_is_logged_as_a_success() {
    let data = wasm(r#"(module (func (export "run") i32.const 1 drop))"#);
    let report = execute("plugin.wasm", "run", &data, FUEL_BUDGET).unwrap();
    assert!(report.log.success);
    assert_eq!(report.log.error_message, None);
    assert_eq!(report.log.file, "plugin.wasm");
    assert_eq!(report.log.function, "run");
    assert_eq!(field(&report.json, "success"), Value::Bool(true));
    assert_eq!(field(&report.json, "error_message"), Value::Null);
    assert_eq!(field(&report.json, "file"), Value::String("plugin.wasm".to_string()));
    assert_eq!(field(&report.json, "function"), Value::String("run".to_string()));
    assert_eq!(
        report.summary,
        format!("Plugin executed successfully in {} ms", report.log.duration_ms)
    );
}

#[test]
fn exhausted_run_is_logged_and_is_no_failure_of_the_stage() {
    let data = wasm(r#"(module (func (export "spin") (loop br 0)))"#);
    let report = execute("spin.wasm", "spin", &data, FUEL_BUDGET).unwrap();
    assert!(!report.log.success);
    assert_eq!(
        report.log.error_message,
        Some("execution failed: all fuel consumed".to_string())
    );
    assert_eq!(field(&report.json, "success"), Value::Bool(false));
    assert_eq!(
        field(&report.json, "error_message"),
        Value::String("execution failed: all fuel consumed".to_string())
    );
    assert_eq!(
        report.summary,
        format!(
            "Plugin execution failed in {} ms: execution failed: all fuel consumed",
            report.log.duration_ms
        )
    );
}

#[test]
fn trapped_run_is_logged_and_is_no_failure_of_the_stage() {
    let data = wasm(r#"(module (func (export "boom") unreachable))"#);
    let report = execute("boom.wasm", "boom", &data, FUEL_BUDGET).unwrap();
    assert!(!report.log.success);
    assert_eq!(
        report.log.error_message,
        Some("Trap: wasm trap: wasm `unreachable` instruction executed".to_string())
    );
}

#[test]
fn missing_function_fails_the_execution_stage() {
    let data = wasm(r#"(module (func (export "run")))"#);
    assert_eq!(
        execute("plugin.wasm", "walk", &data, FUEL_BUDGET),
        Err(Failure::Setup(SetupError::FunctionNotFound))
    );
    assert_eq!(
        execute("plugin.wasm", "", &data, FUEL_BUDGET),
        Err(Failure::Setup(SetupError::FunctionNotFound))
    );
}

#[test]
fn wrong_signature_fails_the_execution_stage() {
    let data = wasm(r#"(module (func (export "id") (param i32) (result i32) local.get 0))"#);
    assert_eq!(
        execute("plugin.wasm", "id", &data, FUEL_BUDGET),
        Err(Failure::Setup(SetupError::SignatureMismatch))
    );
}

#[test]
fn truncated_file_fails_the_execution_stage_with_a_validation_error() {
    let data = wasm(r#"(module (func (export "run") i32.const 1 drop))"#);
    let result = execute("plugin.wasm", "run", &data[..data.len() / 2], FUEL_BUDGET);
    assert!(matches!(result, Err(Failure::Setup(SetupError::Validation(_)))));
}

#[test]
fn report_execution_of_each_outcome() {
    let success = Execution { outcome: ExecutionOutcome::Success, duration_ms: 4 };
    let report = report_execution("a.wasm", "run", &success).unwrap();
    assert_eq!(report.summary, "Plugin executed successfully in 4 ms");
    assert_eq!(
        report.json,
        "{\n  \"file\": \"a.wasm\",\n  \"function\": \"run\",\n  \"success\": true,\n  \"duration_ms\": 4,\n  \"error_message\": null\n}"
    );
    let other = Execution {
        outcome: ExecutionOutcome::OtherFailure("unknown import".to_string()),
        duration_ms: 0,
    };
    let report = report_execution("a.wasm", "run", &other).unwrap();
    assert_eq!(report.summary, "Plugin execution failed in 0 ms: unknown import");
    assert_eq!(report.log.error_message, Some("unknown import".to_string()));
}

#[test]
fn analysis_of_a_module() {
    let data = wasm(r#"(module (func i32.const 1 i32.const 2 i32.add drop))"#);
    let analysis = analyze("sum.wasm", &data);
    assert_eq!(
        analysis.trace,
        vec![
            "Disassembling sum.wasm...",
            "WASM Version: 1",
            "Type Section: 1 types",
            "Function Section: 1 functions",
            "Code Section: 1 functions",
            "  Function:",
            "    \u{25b8} I32Const { value: 1 }",
            "    \u{25b8} I32Const { value: 2 }",
            "    \u{25b8} I32Add",
            "    \u{25b8} Drop",
            "    \u{25b8} End",
        ]
    );
    let profile = match analysis.profile {
        Ok(profile) => profile,
        Err(error) => panic!("no profile: {:?}", error),
    };
    assert_eq!(profile.vector.total(), 5);
    assert_eq!(
        profile.tally,
        vec![
            "\nOpcode Frequency Vector:",
            "  I32Const: 2",
            "  I32Add: 1",
            "  Drop: 1",
            "  End: 1",
        ]
    );
    assert_eq!(
        profile.json,
        Ok("{\n  \"I32Const\": 2,\n  \"I32Add\": 1,\n  \"Drop\": 1,\n  \"End\": 1\n}".to_string())
    );
}

#[test]
fn analysis_of_a_malformed_module_has_a_trace_and_no_profile() {
    let mut data = b"\0asm\x01\0\0\0".to_vec();
    data.extend_from_slice(&[0x01, 0x04, 0x01, 0x60, 0x00, 0x00]);
    data.extend_from_slice(&[0x03, 0x02, 0x01, 0x00]);
    data.extend_from_slice(&[0x0a, 0x06, 0x01, 0x04, 0x00, 0x01, 0xff, 0x0b]);
    let analysis = analyze("bad.wasm", &data);
    assert_eq!(analysis.trace.len(), 7);
    match analysis.profile {
        Err(error) => assert!(error.message.contains("illegal opcode"), "{}", error.message),
        Ok(_) => panic!("a malformed module was profiled"),
    }
}

#[test]
fn both_stages_work_on_the_same_bytes() {
    let data = wasm(r#"(module (func (export "run")))"#);
    let report = execute("plugin.wasm", "run", &data, FUEL_BUDGET).unwrap();
    assert!(report.log.success);
    let analysis = analyze("plugin.wasm", &data);
    assert!(analysis.profile.is_ok());
}

#[test]
fn profile_of_a_vector() {
    let mut vector = OpcodeVector::new();
    vector.record("Nop".to_string());
    vector.record("End".to_string());
    vector.record("Nop".to_string());
    let profile = profile_of(vector);
    assert_eq!(profile.vector.count(&"Nop".to_string()), 2);
    assert_eq!(profile.tally, vec!["\nOpcode Frequency Vector:", "  Nop: 2", "  End: 1"]);
    assert_eq!(profile.json, Ok("{\n  \"Nop\": 2,\n  \"End\": 1\n}".to_string()));
}

#[test]
fn failures_say_what_went_wrong() {
    assert_eq!(Failure::Setup(SetupError::FunctionNotFound).message(), "Function not found");
    assert_eq!(
        Failure::Setup(SetupError::Validation("bad magic number".to_string())).message(),
        "bad magic number"
    );
    assert_eq!(
        Failure::Report(ReportError { message: "key must be a string".to_string() }).message(),
        "key must be a string"
    );
}
