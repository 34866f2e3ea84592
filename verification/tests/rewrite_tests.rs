use js_ts_runner::rewrite::line_is_blank;
use js_ts_runner::rewrite::replace_all;
use js_ts_runner::rewrite::rewrite_console_calls;
use js_ts_runner::rewrite::rewrite_lines;

#[test]
fn log_call_is_rewritten() {
    let r = rewrite_console_calls("console.log('a'); 1+1");
    assert_eq!(r, "console_log('a'); 1+1");
}

#[test]
fn warn_and_error_calls_are_rewritten() {
    let r = rewrite_console_calls("console.warn(x); console.error(y);");
    assert_eq!(r, "console_warn(x); console_error(y);");
}

#[test]
fn every_occurrence_is_rewritten() {
    let r = rewrite_console_calls("console.log(1);\nconsole.log(2);");
    assert_eq!(r, "console_log(1);\nconsole_log(2);");
}

#[test]
fn unrelated_text_is_untouched() {
    let r = rewrite_console_calls("let console_like = 1; log(console)");
    assert_eq!(r, "let console_like = 1; log(console)");
}

#[test]
fn call_spelled_differently_is_not_intercepted() {
    // The rewrite is textual, not a parse: a call without the exact
    // `console.log(` spelling stays as it is.
    let r = rewrite_console_calls("console . log(1)");
    assert_eq!(r, "console . log(1)");
}

#[test]
fn call_text_inside_string_literal_is_rewritten_too() {
    // The documented limitation of a textual substitution: the call text
    // is replaced even inside a string literal.
    let r = rewrite_console_calls("let s = \"console.log(\";");
    assert_eq!(r, "let s = \"console_log(\";");
}

#[test]
fn replace_all_scans_left_to_right() {
    assert_eq!(replace_all("aaa", "aa", "b"), "ba");
    assert_eq!(replace_all("abcabc", "b", "xy"), "axycaxyc");
    assert_eq!(replace_all("abc", "z", "y"), "abc");
}

#[test]
fn replacement_is_not_rescanned() {
    assert_eq!(replace_all("ab", "ab", "ab ab"), "ab ab");
}

#[test]
fn blank_lines_are_recognized() {
    assert!(line_is_blank(""));
    assert!(line_is_blank("   "));
    assert!(line_is_blank("\t \r\n"));
    assert!(!line_is_blank(" x "));
}

#[test]
fn lines_are_rewritten_independently() {
    let code = vec![String::from("console.log(1)"), String::from(""), String::from("2+2")];
    let r = rewrite_lines(&code);
    assert_eq!(r, vec![
        String::from("console_log(1)"),
        String::from(""),
        String::from("2+2"),
    ]);
}
