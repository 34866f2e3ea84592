use js_ts_runner::paths::ParsedPath;
use js_ts_runner::paths::parse_file_path;
use js_ts_runner::paths::str_eq;

fn parts(p: &str) -> (String, String, String) {
    let ParsedPath { directory, file_name, script_language } = parse_file_path(p);
    (directory, file_name, script_language)
}

#[test]
fn a_js_extension_selects_javascript() {
    let (dir, name, lang) = parts("proj/src/run.js");
    assert_eq!(dir, "proj/src");
    assert_eq!(name, "run.js");
    assert_eq!(lang, "javascript");
}

#[test]
fn any_other_extension_selects_typescript() {
    let (dir, name, lang) = parts("dir/sub/x.ts");
    assert_eq!(dir, "dir/sub");
    assert_eq!(name, "x.ts");
    assert_eq!(lang, "typescript");
}

#[test]
fn only_the_last_dot_counts() {
    let (_, name, lang) = parts("a.b.js");
    assert_eq!(name, "a.b.js");
    assert_eq!(lang, "javascript");
}

#[test]
fn a_bare_file_name_has_an_empty_directory() {
    let (dir, name, _) = parts("solo.js");
    assert_eq!(dir, "");
    assert_eq!(name, "solo.js");
}

#[test]
fn a_trailing_dot_is_an_empty_extension() {
    let (_, name, lang) = parts("odd.");
    assert_eq!(name, "odd.");
    assert_eq!(lang, "typescript");
}

#[test]
fn string_slices_compare_by_characters() {
    assert!(str_eq("js", "js"));
    assert!(!str_eq("js", "ts"));
    assert!(!str_eq("js", "jsx"));
    assert!(str_eq("", ""));
}
