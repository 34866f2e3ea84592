use js_ts_runner::types::AppState;
use js_ts_runner::utils::first_missing_in_sequence;

#[test]
fn empty_set_allocates_one() {
    let v: Vec<i32> = vec![];
    assert_eq!(first_missing_in_sequence(&v), 1);
}

#[test]
fn full_prefix_allocates_next() {
    let v: Vec<i32> = vec![1, 2, 3];
    assert_eq!(first_missing_in_sequence(&v), 4);
}

#[test]
fn gap_at_start_is_reused() {
    let v: Vec<i32> = vec![2, 3];
    assert_eq!(first_missing_in_sequence(&v), 1);
}

#[test]
fn gap_in_middle_is_reused() {
    let v: Vec<i32> = vec![1, 3, 4];
    assert_eq!(first_missing_in_sequence(&v), 2);
}

#[test]
fn duplicates_and_negatives_are_harmless() {
    let v: Vec<i32> = vec![1, 1, -5, 0];
    assert_eq!(first_missing_in_sequence(&v), 2);
}

#[test]
fn order_does_not_matter() {
    let v: Vec<i32> = vec![3, 1, 2];
    assert_eq!(first_missing_in_sequence(&v), 4);
}

#[test]
fn registry_allocates_first_fit() {
    let mut state = AppState::default();
    state.file_ids = vec![1, 2, 3];
    assert_eq!(state.get_new_tab_id(), 4);
    // Closing tab 2 frees its id; the next allocation reuses it.
    state.file_ids = vec![1, 3];
    assert_eq!(state.get_new_tab_id(), 2);
}
