use wasm_harness::opcode::OpcodeVector;

fn recorded(labels: &[&str]) -> OpcodeVector {
    let mut vector = OpcodeVector::new();
    for label in labels {
        vector.record(label.to_string());
    }
    vector
}

#[test]
fn new_vector_is_empty() {
    let vector = OpcodeVector::new();
    assert_eq!(vector.total(), 0);
    assert!(vector.entries().is_empty());
    assert_eq!(vector.count(&"I32Add".to_string()), 0);
}

#[test]
fn record_counts_each_label() {
    let vector = recorded(&["I32Const", "I32Add", "I32Const", "End"]);
    assert_eq!(vector.count(&"I32Const".to_string()), 2);
    assert_eq!(vector.count(&"I32Add".to_string()), 1);
    assert_eq!(vector.count(&"End".to_string()), 1);
    assert_eq!(vector.count(&"I32Mul".to_string()), 0);
    assert_eq!(vector.total(), 4);
}

#[test]
fn entries_hold_each_label_once() {
    let vector = recorded(&["B", "A", "B", "C", "A", "B"]);
    let entries = vector.entries();
    let listed: Vec<(&str, usize)> =
        entries.iter().map(|entry| (entry.label.as_str(), entry.count)).collect();
    assert_eq!(listed, vec![("B", 3), ("A", 2), ("C", 1)]);
}

#[test]
fn entry_counts_add_up_to_the_total() {
    let vector = recorded(&["x", "y", "x", "z", "x", "y", "w"]);
    let sum: usize = vector.entries().iter().map(|entry| entry.count).sum();
    assert_eq!(sum, 7);
    assert_eq!(vector.total(), 7);
}

#[test]
fn labels_are_told_apart_exactly() {
    let vector = recorded(&["i32add", "I32Add", "I32Add ", ""]);
    assert_eq!(vector.entries().len(), 4);
    assert_eq!(vector.count(&"I32Add".to_string()), 1);
    assert_eq!(vector.count(&"".to_string()), 1);
}
