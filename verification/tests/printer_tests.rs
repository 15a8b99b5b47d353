use wasm_harness::decode::Item;
use wasm_harness::printer::{disassemble_wasm, render_item, render_trace};

#[test]
fn each_item_has_its_line() {
    assert_eq!(render_item(&Item::Version(1)), Some("WASM Version: 1".to_string()));
    assert_eq!(render_item(&Item::TypeSection(3)), Some("Type Section: 3 types".to_string()));
    assert_eq!(render_item(&Item::ImportSection(0)), Some("Imports: 0 entries".to_string()));
    assert_eq!(
        render_item(&Item::FunctionSection(12)),
        Some("Function Section: 12 functions".to_string())
    );
    assert_eq!(render_item(&Item::ExportSection(2)), Some("Exports: 2 entries".to_string()));
    assert_eq!(
        render_item(&Item::CodeSection(4294967295)),
        Some("Code Section: 4294967295 functions".to_string())
    );
    assert_eq!(render_item(&Item::Function), Some("  Function:".to_string()));
    assert_eq!(
        render_item(&Item::Instruction("I32Const { value: 5 }".to_string())),
        Some("    \u{25b8} I32Const { value: 5 }".to_string())
    );
    assert_eq!(render_item(&Item::Other), None);
}

#[test]
fn trace_starts_with_a_heading() {
    assert_eq!(render_trace("a.wasm", &vec![]), vec!["Disassembling a.wasm...".to_string()]);
    assert_eq!(
        render_trace("", &vec![Item::Other, Item::Other]),
        vec!["Disassembling ...".to_string()]
    );
}

#[test]
fn trace_of_a_module() {
    let bytes = wat::parse_str(
        r#"(module
            (import "env" "f" (func))
            (func (export "run") i32.const 1 drop)
            (func nop))"#,
    )
    .unwrap();
    let trace = disassemble_wasm("demo.wasm", &bytes);
    assert_eq!(trace.failure, None);
    assert_eq!(
        trace.lines,
        vec![
            "Disassembling demo.wasm...",
            "WASM Version: 1",
            "Type Section: 1 types",
            "Imports: 1 entries",
            "Function Section: 2 functions",
            "Exports: 1 entries",
            "Code Section: 2 functions",
            "  Function:",
            "    \u{25b8} I32Const { value: 1 }",
            "    \u{25b8} Drop",
            "    \u{25b8} End",
            "  Function:",
            "    \u{25b8} Nop",
            "    \u{25b8} End",
        ]
    );
}

#[test]
fn trace_keeps_what_came_before_a_failure() {
    let mut bytes = b"\0asm\x01\0\0\0".to_vec();
    bytes.extend_from_slice(&[0x01, 0x04, 0x01, 0x60, 0x00, 0x00]);
    bytes.extend_from_slice(&[0x03, 0x02, 0x01, 0x00]);
    bytes.extend_from_slice(&[0x0a, 0x06, 0x01, 0x04, 0x00, 0x01, 0xff, 0x0b]);
    let trace = disassemble_wasm("bad.wasm", &bytes);
    assert_eq!(
        trace.lines,
        vec![
            "Disassembling bad.wasm...",
            "WASM Version: 1",
            "Type Section: 1 types",
            "Function Section: 1 functions",
            "Code Section: 1 functions",
            "  Function:",
            "    \u{25b8} Nop",
        ]
    );
    assert!(trace.failure.is_some());
}
