use js_ts_runner::js_helpers::OutputCapture;
use js_ts_runner::rewrite::line_is_blank;
use js_ts_runner::rewrite::rewrite_console_calls;
use js_ts_runner::rewrite::rewrite_lines;
use js_ts_runner::types::AppState;
use js_ts_runner::types::RunOutcome;

/// The host side of one single-shot run, with the engine's behaviour
/// simulated: the capture receives what the script-side console calls
/// would have fed it, and the outcome is what the engine would report.
fn finish_single_run(
    state: &mut AppState,
    logs: Vec<Vec<String>>,
    outcome: RunOutcome,
) -> Result<String, String> {
    let mut capture = OutputCapture::new();
    capture.clear_log_stack();
    for args in &logs {
        capture.js_console_log_capture(args);
    }
    state.run_script(&outcome, capture)
}

#[test]
fn run_yields_result_and_flat_log() {
    // Running "console.log('a'); 1+1": the rewrite redirects the console
    // call to the host's capture, the engine reports the display string
    // "2", and the console call fed the capture one entry "a".
    let rewritten = rewrite_console_calls("console.log('a'); 1+1");
    assert_eq!(rewritten, "console_log('a'); 1+1");

    let mut state = AppState::default();
    let r = finish_single_run(
        &mut state,
        vec![vec![String::from("a")]],
        RunOutcome::Value(String::from("2")),
    );
    assert_eq!(r, Ok(String::from("2")));
    assert_eq!(state.log_stack, vec![String::from("LOG: a")]);
}

#[test]
fn flat_log_is_snapshotted_on_failure_too() {
    let mut state = AppState::default();
    state.log_stack = vec![String::from("stale")];
    let r = finish_single_run(
        &mut state,
        vec![vec![String::from("before the throw")]],
        RunOutcome::RuntimeError,
    );
    assert_eq!(r, Err(String::from("Failed to run the script.")));
    assert_eq!(state.log_stack, vec![String::from("LOG: before the throw")]);
}

#[test]
fn compile_error_is_a_descriptive_error() {
    let mut state = AppState::default();
    let r = finish_single_run(&mut state, vec![], RunOutcome::CompileError);
    assert_eq!(r, Err(String::from("Failed to compile the script.")));
    assert!(state.log_stack.is_empty());
}

#[test]
fn rejected_source_is_a_descriptive_error() {
    let mut state = AppState::default();
    let r = finish_single_run(&mut state, vec![], RunOutcome::SourceRejected);
    assert_eq!(r, Err(String::from("Failed to create the script.")));
}

#[test]
fn stringify_failure_degrades_instead_of_failing() {
    let mut state = AppState::default();
    let r = finish_single_run(&mut state, vec![], RunOutcome::StringifyError);
    assert_eq!(
        r,
        Ok(String::from("Failed to convert the script result to a string."))
    );
}

#[test]
fn per_line_run_correlates_logs_to_lines() {
    // Running ["console.log(1)", "", "2+2"] line by line: line 0 logs
    // "1" and displays as "1", line 1 is blank and skipped, line 2
    // displays as "4".
    let code = vec![
        String::from("console.log(1)"),
        String::from(""),
        String::from("2+2"),
    ];
    let prepared = rewrite_lines(&code);
    assert_eq!(prepared[0], "console_log(1)");

    let mut capture = OutputCapture::new();
    let mut outcomes: Vec<RunOutcome> = Vec::new();
    for (i, line) in prepared.iter().enumerate() {
        if line_is_blank(line.as_str()) {
            continue;
        }
        // What the engine would do for each non-blank line.
        match i {
            0 => {
                capture.js_console_log_capture_lines(0, &vec![String::from("1")]);
                outcomes.push(RunOutcome::Value(String::from("1")));
            }
            2 => {
                outcomes.push(RunOutcome::Value(String::from("4")));
            }
            _ => unreachable!(),
        }
    }

    let mut state = AppState::default();
    let results = state.run_script_line_by_line(&prepared, &outcomes, capture);
    assert_eq!(
        results,
        vec![String::from("1"), String::from(""), String::from("4")]
    );
    assert_eq!(state.log_stack_lines.len(), 1);
    assert_eq!(state.log_stack_lines[0].line_number, 0);
    assert_eq!(state.log_stack_lines[0].lines, vec![String::from("LOG: 1")]);
}

#[test]
fn one_broken_line_does_not_block_the_others() {
    // A compile error on line 1 yields an error string at that position
    // only; the other lines evaluate normally and the output has exactly
    // one entry per input line.
    let code = vec![
        String::from("1+1"),
        String::from("oops("),
        String::from("   "),
        String::from("2+3"),
    ];
    let outcomes = vec![
        RunOutcome::Value(String::from("2")),
        RunOutcome::CompileError,
        RunOutcome::Value(String::from("5")),
    ];
    let mut state = AppState::default();
    let results = state.run_script_line_by_line(&code, &outcomes, OutputCapture::new());
    assert_eq!(results.len(), code.len());
    assert_eq!(results[0], "2");
    assert_eq!(results[1], "Failed to compile the script.");
    assert_eq!(results[2], "");
    assert_eq!(results[3], "5");
}

#[test]
fn per_line_faults_render_their_own_messages() {
    let code = vec![
        String::from("a"),
        String::from("b"),
        String::from("c"),
        String::from("d"),
    ];
    let outcomes = vec![
        RunOutcome::SourceRejected,
        RunOutcome::RuntimeError,
        RunOutcome::StringifyError,
        RunOutcome::Value(String::from("ok")),
    ];
    let mut state = AppState::default();
    let results = state.run_script_line_by_line(&code, &outcomes, OutputCapture::new());
    assert_eq!(results[0], "Failed to create the script.");
    assert_eq!(results[1], "Failed to run the script.");
    assert_eq!(results[2], "Failed to convert the script result to a string.");
    assert_eq!(results[3], "ok");
}

#[test]
fn per_line_run_replaces_the_previous_line_log() {
    let mut state = AppState::default();
    let mut first = OutputCapture::new();
    first.js_console_log_capture_lines(5, &vec![String::from("old")]);
    let code = vec![String::from("x")];
    let outcomes = vec![RunOutcome::Value(String::from("1"))];
    state.run_script_line_by_line(&code, &outcomes, first);
    assert_eq!(state.log_stack_lines.len(), 1);
    assert_eq!(state.log_stack_lines[0].line_number, 5);

    // A later run's snapshot replaces the earlier one wholesale.
    let empty = OutputCapture::new();
    state.run_script_line_by_line(&code, &outcomes, empty);
    assert!(state.log_stack_lines.is_empty());
}
