use js_ts_runner::fs_sync::FsProbe;
use js_ts_runner::types::AppState;
use js_ts_runner::types::FileTabData;

fn saved_tab(uid: i32) -> FileTabData {
    FileTabData {
        uid,
        path: Some(String::from("dir")),
        file_name: String::from("a.js"),
        file_name_path: Some(String::from("dir/a.js")),
        is_temporary: false,
        script_language: String::from("javascript"),
        content: Some(String::from("1+1")),
        modified_at: Some(100),
        modified_at_state: Some(100),
        evaluate_per_line: false,
    }
}

fn state_with(tab: FileTabData) -> AppState {
    let mut state = AppState::default();
    state.file_ids = vec![tab.uid];
    state.file_tabs = vec![tab];
    state
}

#[test]
fn equal_mtimes_report_no_change() {
    let mut state = state_with(saved_tab(1));
    let r = state.is_file_changed_in_fs(1, &FsProbe::Available(Some(100)));
    assert_eq!(r, Ok(false));
    assert_eq!(state.file_tabs[0].modified_at, Some(100));
}

#[test]
fn differing_mtimes_report_change_and_self_heal() {
    let mut state = state_with(saved_tab(1));
    let r = state.is_file_changed_in_fs(1, &FsProbe::Available(Some(250)));
    assert_eq!(r, Ok(true));
    // The recorded time took the live value, so a second inspection is
    // quiet again.
    assert_eq!(state.file_tabs[0].modified_at, Some(250));
    let r2 = state.is_file_changed_in_fs(1, &FsProbe::Available(Some(250)));
    assert_eq!(r2, Ok(false));
}

#[test]
fn tab_without_recorded_time_is_never_changed() {
    let mut tab = saved_tab(1);
    tab.modified_at = None;
    let mut state = state_with(tab);
    let r = state.is_file_changed_in_fs(1, &FsProbe::Available(Some(250)));
    assert_eq!(r, Ok(false));
    assert_eq!(state.file_tabs[0].modified_at, None);
}

#[test]
fn missing_file_is_not_this_operations_report() {
    let mut state = state_with(saved_tab(1));
    let r = state.is_file_changed_in_fs(1, &FsProbe::Missing);
    assert_eq!(r, Ok(false));
    assert_eq!(state.file_tabs[0].modified_at, Some(100));
}

#[test]
fn failed_stat_surfaces_its_error() {
    let mut state = state_with(saved_tab(1));
    let r = state.is_file_changed_in_fs(1, &FsProbe::StatFailed(String::from("denied")));
    assert_eq!(r, Err(String::from("denied")));
}

#[test]
fn unknown_tab_is_a_distinct_error() {
    let mut state = AppState::default();
    let r = state.is_file_changed_in_fs(42, &FsProbe::Missing);
    assert_eq!(
        r,
        Err(String::from("Failed to find the file in application state."))
    );
}

#[test]
fn missing_detection_needs_a_real_absent_file() {
    let state = state_with(saved_tab(1));
    assert_eq!(state.is_existing_file_missing_in_fs(1, false), Ok(true));
    assert_eq!(state.is_existing_file_missing_in_fs(1, true), Ok(false));

    let mut temp = saved_tab(2);
    temp.is_temporary = true;
    let state2 = state_with(temp);
    assert_eq!(state2.is_existing_file_missing_in_fs(2, false), Ok(false));

    let mut pathless = saved_tab(3);
    pathless.file_name_path = None;
    let state3 = state_with(pathless);
    assert_eq!(state3.is_existing_file_missing_in_fs(3, false), Ok(false));
}

#[test]
fn save_refuses_to_recreate_a_deleted_file() {
    // The tab was saved before, but its file is gone: without an explicit
    // target the save must fail rather than silently recreate the file.
    let state = state_with(saved_tab(1));
    let r = state.save_file_check(1, &Some(String::from("body")), &None, false);
    assert_eq!(r, Err(String::from("The file does not exist.")));
}

#[test]
fn explicit_target_bypasses_the_existence_check() {
    let state = state_with(saved_tab(1));
    let r = state.save_file_check(
        1,
        &Some(String::from("body")),
        &Some(String::from("other/b.ts")),
        false,
    );
    assert_eq!(r, Ok(String::from("other/b.ts")));
}

#[test]
fn save_without_any_path_is_refused() {
    let mut tab = saved_tab(1);
    tab.file_name_path = None;
    let state = state_with(tab);
    let r = state.save_file_check(1, &Some(String::from("body")), &None, true);
    assert_eq!(r, Err(String::from("The file name and path is not specified.")));
}

#[test]
fn save_without_content_is_refused() {
    let state = state_with(saved_tab(1));
    let r = state.save_file_check(1, &None, &None, true);
    assert_eq!(r, Err(String::from("The file content is not specified.")));
}

#[test]
fn save_defaults_to_the_tabs_own_path() {
    let state = state_with(saved_tab(1));
    let r = state.save_file_check(1, &Some(String::from("body")), &None, true);
    assert_eq!(r, Ok(String::from("dir/a.js")));
}

#[test]
fn recording_a_save_updates_the_whole_tab() {
    let mut tab = saved_tab(1);
    tab.is_temporary = true;
    let mut state = state_with(tab);
    let r = state.save_file_contents(
        1,
        String::from("new body"),
        String::from("elsewhere/b.ts"),
        Some(900),
    );
    assert_eq!(r, Ok(true));
    let tab = &state.file_tabs[0];
    assert_eq!(tab.content, Some(String::from("new body")));
    assert!(!tab.is_temporary);
    assert_eq!(tab.file_name_path, Some(String::from("elsewhere/b.ts")));
    assert_eq!(tab.file_name, "b.ts");
    assert_eq!(tab.path, Some(String::from("elsewhere")));
    assert_eq!(tab.script_language, "typescript");
    assert_eq!(tab.modified_at, Some(900));
    assert_eq!(tab.modified_at_state, Some(900));
}

#[test]
fn opening_a_file_builds_a_saved_tab() {
    let mut state = AppState::default();
    let r = state.open_existing_file(
        String::from("proj/src/run.js"),
        String::from("console.log(1)"),
        Some(400),
        20,
    );
    assert_eq!(r, Ok(true));
    assert_eq!(state.file_ids, vec![1]);
    let tab = &state.file_tabs[0];
    assert_eq!(tab.uid, 1);
    assert_eq!(tab.path, Some(String::from("proj/src")));
    assert_eq!(tab.file_name, "run.js");
    assert_eq!(tab.file_name_path, Some(String::from("proj/src/run.js")));
    assert!(!tab.is_temporary);
    assert_eq!(tab.script_language, "javascript");
    assert_eq!(tab.content, Some(String::from("console.log(1)")));
    assert_eq!(tab.modified_at, Some(400));
    assert_eq!(tab.modified_at_state, Some(400));
    assert!(!tab.evaluate_per_line);
}

#[test]
fn non_js_extensions_select_typescript() {
    let mut state = AppState::default();
    state
        .open_existing_file(String::from("notes.txt"), String::new(), None, 0)
        .unwrap();
    assert_eq!(state.file_tabs[0].script_language, "typescript");
    assert_eq!(state.file_tabs[0].path, Some(String::new()));
}

#[test]
fn oversized_file_is_a_recoverable_error() {
    let mut state = AppState::default();
    let r = state.open_existing_file(
        String::from("big.js"),
        String::new(),
        Some(1),
        10_000_001,
    );
    assert_eq!(
        r,
        Err(String::from("The file is too large. The limit is 10 MB."))
    );
    assert!(state.file_tabs.is_empty());
    assert!(state.file_ids.is_empty());
    // Exactly at the ceiling is still accepted.
    let r2 = state.open_existing_file(String::from("big.js"), String::new(), Some(1), 10_000_000);
    assert_eq!(r2, Ok(true));
}

#[test]
fn temporary_tabs_have_nothing_to_reload() {
    let mut tab = saved_tab(1);
    tab.is_temporary = true;
    let state = state_with(tab);
    assert_eq!(state.reload_target(1), Ok(None));
}

#[test]
fn reload_reads_from_the_recorded_path() {
    let state = state_with(saved_tab(1));
    assert_eq!(state.reload_target(1), Ok(Some(String::from("dir/a.js"))));

    let mut pathless = saved_tab(2);
    pathless.file_name_path = None;
    let state2 = state_with(pathless);
    assert_eq!(
        state2.reload_target(2),
        Err(String::from("The file name and path is not specified."))
    );
}

#[test]
fn reload_installs_content_and_times() {
    let mut state = state_with(saved_tab(1));
    let r = state.reload_file_contents(1, String::from("fresh"), Some(555));
    assert_eq!(r, Ok(true));
    let tab = &state.file_tabs[0];
    assert_eq!(tab.content, Some(String::from("fresh")));
    assert_eq!(tab.modified_at, Some(555));
    assert_eq!(tab.modified_at_state, Some(555));
    // Everything else stays.
    assert_eq!(tab.file_name_path, Some(String::from("dir/a.js")));
    assert!(!tab.is_temporary);
}

#[test]
fn keeping_a_file_in_the_editor_detaches_it() {
    let mut state = state_with(saved_tab(1));
    let r = state.set_current_file_keep_in_editor(1);
    assert_eq!(r, Ok(true));
    let tab = &state.file_tabs[0];
    assert!(tab.is_temporary);
    assert_eq!(tab.modified_at, None);
    assert!(tab.modified_at_state.is_some());
    // The path is kept: the tab still shows where it came from.
    assert_eq!(tab.file_name_path, Some(String::from("dir/a.js")));
}

#[test]
fn tab_file_path_reports_the_recorded_path() {
    let state = state_with(saved_tab(1));
    assert_eq!(state.tab_file_path(1), Ok(Some(String::from("dir/a.js"))));
    let mut pathless = saved_tab(2);
    pathless.file_name_path = None;
    let state2 = state_with(pathless);
    assert_eq!(state2.tab_file_path(2), Ok(None));
    assert_eq!(
        state2.tab_file_path(9),
        Err(String::from("Failed to find the file in application state."))
    );
}
