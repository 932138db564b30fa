use state_bridge::inspector::{rust_inspect_state, rust_process_data, Report, SeqEntry, StateInspector};
use state_bridge::memory_state::{MapSlot, MemoryState};
use state_bridge::access::StateAccess;

fn entry(name: &str, value: i32) -> SeqEntry {
    SeqEntry { name: name.to_string(), value }
}

fn slot(key: &str, values: Option<Vec<i32>>) -> MapSlot {
    MapSlot { key: key.to_string(), values }
}

fn sequence_pairs(report: &Report) -> Vec<(String, i32)> {
    report.sequence.iter().map(|e| (e.name.clone(), e.value)).collect()
}

fn map_pairs(report: &Report) -> Vec<(String, Vec<i32>)> {
    report.mapping.iter().map(|e| (e.key.clone(), e.values.clone())).collect()
}

#[test]
fn sequence_pass_emits_all_indices_in_order() {
    let state = MemoryState {
        sequence: vec![entry("a", 7), entry("b", -2), entry("c", 0), entry("d", 41)],
        slots: vec![],
        probe_excess: 0,
    };
    let inspector = StateInspector::new(&state);
    let entries = inspector.inspect_vector();
    let emitted: Vec<(String, i32)> =
        entries.iter().map(|e| (e.name.clone(), e.value)).collect();
    assert_eq!(
        emitted,
        vec![
            ("a".to_string(), 7),
            ("b".to_string(), -2),
            ("c".to_string(), 0),
            ("d".to_string(), 41),
        ]
    );
}

#[test]
fn scenario_two_names_two_keys() {
    let state = MemoryState {
        sequence: vec![entry("alpha", 1), entry("beta", 2)],
        slots: vec![slot("x", Some(vec![10, 20])), slot("y", Some(vec![]))],
        probe_excess: 0,
    };
    let report = rust_process_data(&state);
    assert_eq!(
        sequence_pairs(&report),
        vec![("alpha".to_string(), 1), ("beta".to_string(), 2)]
    );
    assert_eq!(
        map_pairs(&report),
        vec![("x".to_string(), vec![10, 20]), ("y".to_string(), vec![])]
    );
}

#[test]
fn null_value_pointer_emits_key_with_zero_values() {
    let state = MemoryState {
        sequence: vec![],
        slots: vec![slot("present", Some(vec![5])), slot("nulled", None)],
        probe_excess: 0,
    };
    let report = rust_process_data(&state);
    assert_eq!(
        map_pairs(&report),
        vec![("present".to_string(), vec![5]), ("nulled".to_string(), vec![])]
    );
}

#[test]
fn empty_map_yields_zero_entries() {
    let state = MemoryState { sequence: vec![], slots: vec![], probe_excess: 0 };
    let report = rust_process_data(&state);
    assert_eq!(report.sequence.len(), 0);
    assert_eq!(report.mapping.len(), 0);
}

#[test]
fn probe_shrink_emits_only_actual_count() {
    // The size probe reports 5 keys, the bulk fetch returns 3: the pass must
    // emit exactly the 3 fetched entries and never touch the other 2 slots.
    let state = MemoryState {
        sequence: vec![],
        slots: vec![
            slot("k1", Some(vec![1])),
            slot("k2", Some(vec![2])),
            slot("k3", Some(vec![3])),
        ],
        probe_excess: 2,
    };
    assert_eq!(state.map_size(), 5);
    let report = rust_process_data(&state);
    assert_eq!(
        map_pairs(&report),
        vec![
            ("k1".to_string(), vec![1]),
            ("k2".to_string(), vec![2]),
            ("k3".to_string(), vec![3]),
        ]
    );
}

#[test]
fn two_passes_over_unmutated_handle_agree() {
    let state = MemoryState {
        sequence: vec![entry("alpha", 1), entry("beta", 2)],
        slots: vec![slot("x", Some(vec![10, 20])), slot("y", None)],
        probe_excess: 1,
    };
    let first = rust_process_data(&state);
    let second = rust_process_data(&state);
    assert_eq!(sequence_pairs(&first), sequence_pairs(&second));
    assert_eq!(map_pairs(&first), map_pairs(&second));
}

#[test]
fn both_entry_points_agree() {
    let state = MemoryState {
        sequence: vec![entry("n", 9)],
        slots: vec![slot("k", Some(vec![4, 5, 6]))],
        probe_excess: 0,
    };
    let processed = rust_process_data(&state);
    let inspected = rust_inspect_state(&state);
    assert_eq!(sequence_pairs(&processed), sequence_pairs(&inspected));
    assert_eq!(map_pairs(&processed), map_pairs(&inspected));
}
