//! Applying the outcome of engine invocations to the session state. The
//! embedded engine itself is an external capability: a host rewrites the
//! source with [`crate::rewrite::rewrite_console_calls`], runs it in one
//! throwaway engine context while feeding an [`OutputCapture`], and hands
//! the outcome back here. These functions turn outcomes into the caller's
//! result strings and snapshot the capture into the session, identically
//! for every outcome the engine may report.

use vstd::prelude::*;
use vstd::string::StringExecFns;

use crate::js_helpers::OutputCapture;
use crate::rewrite::is_blank;
use crate::types::AppState;
use crate::types::RunOutcome;
use crate::types::string_views;

verus! {

/// The message reported when source text cannot be handed to the engine.
pub open spec fn create_script_failed_msg() -> Seq<char> {
    "Failed to create the script."@
}

/// The message reported when source text does not compile.
pub open spec fn compile_script_failed_msg() -> Seq<char> {
    "Failed to compile the script."@
}

/// The message reported when a compiled script throws or aborts.
pub open spec fn run_script_failed_msg() -> Seq<char> {
    "Failed to run the script."@
}

/// The message reported when a run succeeded but its result could not be
/// rendered as a string. Degraded output, not an abort.
pub open spec fn stringify_failed_msg() -> Seq<char> {
    "Failed to convert the script result to a string."@
}

/// The result string a single line of a per-line run comes to: the value's
/// display string on success, a line-specific error message otherwise.
pub open spec fn line_result_view(outcome: RunOutcome) -> Seq<char> {
    match outcome {
        RunOutcome::SourceRejected => create_script_failed_msg(),
        RunOutcome::CompileError => compile_script_failed_msg(),
        RunOutcome::RuntimeError => run_script_failed_msg(),
        RunOutcome::Value(s) => s@,
        RunOutcome::StringifyError => stringify_failed_msg(),
    }
}

/// Renders the outcome of one line's evaluation as that line's result
/// string.
pub fn line_result(outcome: &RunOutcome) -> (r: String)
    ensures
        r@ == line_result_view(*outcome),
{
    match outcome {
        RunOutcome::SourceRejected => String::from_str("Failed to create the script."),
        RunOutcome::CompileError => String::from_str("Failed to compile the script."),
        RunOutcome::RuntimeError => String::from_str("Failed to run the script."),
        RunOutcome::Value(s) => s.clone(),
        RunOutcome::StringifyError => String::from_str(
            "Failed to convert the script result to a string.",
        ),
    }
}

/// How many of the given lines a per-line run hands to the engine: the
/// lines that are not blank.
pub open spec fn eval_count(lines: Seq<Seq<char>>) -> nat
    decreases lines.len(),
{
    if lines.len() == 0 {
        0
    } else {
        eval_count(lines.drop_last()) + if is_blank(lines.last()) {
            0nat
        } else {
            1nat
        }
    }
}

/// Taking more lines never lowers the number that is evaluated.
pub proof fn lemma_eval_count_mono(lines: Seq<Seq<char>>, a: int, b: int)
    requires
        0 <= a <= b <= lines.len(),
    ensures
        eval_count(lines.take(a)) <= eval_count(lines.take(b)),
    decreases b - a,
{
    if a < b {
        lemma_eval_count_mono(lines, a, b - 1);
        assert(lines.take(b).drop_last() =~= lines.take(b - 1));
    }
}

/// The result string owed at position `i` of a per-line run: the empty
/// string for a blank line, otherwise the rendering of the outcome of that
/// line's evaluation. `outcomes` holds one outcome per non-blank line, in
/// line order, so the outcome of line `i` sits at the index given by the
/// number of non-blank lines before `i`.
pub open spec fn expected_line_result(
    lines: Seq<Seq<char>>,
    outcomes: Seq<RunOutcome>,
    i: int,
) -> Seq<char> {
    if is_blank(lines[i]) {
        Seq::empty()
    } else {
        line_result_view(outcomes[eval_count(lines.take(i)) as int])
    }
}

impl AppState {
    /// Finishes a single-shot script run: snapshots the run's capture into
    /// the session's flat log — on success and on failure alike — and maps
    /// the engine's outcome to the caller's result. A successful run
    /// returns its value's display string; a run whose result could not be
    /// rendered returns the degraded message as its result; every fault is
    /// returned as a descriptive error string.
    pub fn run_script(&mut self, outcome: &RunOutcome, capture: OutputCapture) -> (r: Result<
        String,
        String,
    >)
        ensures
            final(self).log_stack@ == capture.log_stack@,
            final(self).log_stack_lines == old(self).log_stack_lines,
            final(self).file_ids == old(self).file_ids,
            final(self).file_tabs == old(self).file_tabs,
            final(self).active_tab_id == old(self).active_tab_id,
            (outcome matches RunOutcome::Value(s) ==> r == Ok::<String, String>(*s)),
            (outcome is StringifyError ==> r is Ok && r->Ok_0@ == stringify_failed_msg()),
            (outcome is SourceRejected ==> r is Err && r->Err_0@ == create_script_failed_msg()),
            (outcome is CompileError ==> r is Err && r->Err_0@ == compile_script_failed_msg()),
            (outcome is RuntimeError ==> r is Err && r->Err_0@ == run_script_failed_msg()),
            (r is Ok <==> (outcome is Value || outcome is StringifyError)),
    {
        self.log_stack = capture.log_stack;
        match outcome {
            RunOutcome::Value(s) => Ok(s.clone()),
            RunOutcome::StringifyError => Ok(
                String::from_str("Failed to convert the script result to a string."),
            ),
            RunOutcome::SourceRejected => Err(String::from_str("Failed to create the script.")),
            RunOutcome::CompileError => Err(String::from_str("Failed to compile the script.")),
            RunOutcome::RuntimeError => Err(String::from_str("Failed to run the script.")),
        }
    }

    /// Finishes a per-line script run: turns the per-line outcomes into
    /// one result string per input line — the same length and order as the
    /// input — and snapshots the run's line-correlated capture into the
    /// session. A blank line is pushed through as an empty result without
    /// an outcome; a failed line yields its error message at that line's
    /// position only, and every other line is still rendered.
    pub fn run_script_line_by_line(
        &mut self,
        code: &Vec<String>,
        outcomes: &Vec<RunOutcome>,
        capture: OutputCapture,
    ) -> (r: Vec<String>)
        requires
            outcomes@.len() == eval_count(string_views(code@)),
        ensures
            r@.len() == code@.len(),
            forall|i: int|
                0 <= i < code@.len() ==> r@[i]@ == expected_line_result(
                    string_views(code@),
                    outcomes@,
                    i,
                ),
            final(self).log_stack_lines@ == capture.log_stack_lines@,
            final(self).log_stack == old(self).log_stack,
            final(self).file_ids == old(self).file_ids,
            final(self).file_tabs == old(self).file_tabs,
            final(self).active_tab_id == old(self).active_tab_id,
    {
        let ghost views = string_views(code@);
        let n_out: usize = outcomes.len();
        let mut results: Vec<String> = Vec::new();
        let mut k: usize = 0;
        let mut i: usize = 0;
        proof {
            assert(views.take(0) =~= Seq::<Seq<char>>::empty());
        }
        while i < code.len()
            invariant
                i <= code@.len(),
                views == string_views(code@),
                views.len() == code@.len(),
                outcomes@.len() == eval_count(views),
                n_out == outcomes@.len(),
                k == eval_count(views.take(i as int)),
                results@.len() == i,
                forall|m: int|
                    0 <= m < i ==> results@[m]@ == expected_line_result(views, outcomes@, m),
                self.log_stack == old(self).log_stack,
                self.log_stack_lines == old(self).log_stack_lines,
                self.file_ids == old(self).file_ids,
                self.file_tabs == old(self).file_tabs,
                self.active_tab_id == old(self).active_tab_id,
            decreases code@.len() - i,
        {
            proof {
                assert(views.take(i + 1).drop_last() =~= views.take(i as int));
                assert(views.take(i + 1).last() == views[i as int]);
            }
            if crate::rewrite::line_is_blank(code[i].as_str()) {
                // A blank line is skipped, not evaluated: an explicit
                // policy, so the result list keeps one entry per line.
                results.push(String::new());
            } else {
                proof {
                    lemma_eval_count_mono(views, i + 1, views.len() as int);
                    assert(views.take(views.len() as int) =~= views);
                }
                results.push(line_result(&outcomes[k]));
                k = k + 1;
            }
            i = i + 1;
        }
        self.log_stack_lines = capture.log_stack_lines;
        results
    }
}

} // verus!
