//! Capture of script console output. One `OutputCapture` is owned by one
//! run invocation: the host binds the rewritten console identifiers to
//! callbacks that feed this capture, so no state can leak from one run
//! into the next. Output is addressed two ways: a flat sequence for
//! single-shot runs, and line-correlated buckets for per-line runs.

use vstd::prelude::*;
use vstd::string::StringExecFns;

use crate::types::LineByLineLog;
use crate::types::string_views;

verus! {

/// The arguments of one console call, joined with single spaces.
pub open spec fn joined(args: Seq<Seq<char>>) -> Seq<char>
    decreases args.len(),
{
    if args.len() == 0 {
        Seq::empty()
    } else if args.len() == 1 {
        args[0]
    } else {
        joined(args.drop_last()) + seq![' '] + args.last()
    }
}

/// Formats the arguments of one console call as a single space-joined
/// string.
#[verifier::loop_isolation(false)]
pub fn format_js_log(args: &Vec<String>) -> (r: String)
    ensures
        r@ == joined(string_views(args@)),
{
    proof {
        reveal_strlit(" ");
    }
    let mut r: String = String::new();
    let mut k: usize = 0;
    proof {
        assert(string_views(args@).take(0) =~= Seq::<Seq<char>>::empty());
    }
    while k < args.len()
        invariant
            k <= args@.len(),
            r@ == joined(string_views(args@).take(k as int)),
        decreases args@.len() - k,
    {
        if k > 0 {
            r.append(" ");
        }
        r.append(args[k].as_str());
        proof {
            let views = string_views(args@);
            assert(views.take(k + 1).drop_last() =~= views.take(k as int));
            assert(views.take(k + 1).last() == views[k as int]);
            if k == 0 {
                assert(joined(views.take(1)) == views[0]);
                assert(Seq::<char>::empty() + views[0] =~= views[0]);
            }
        }
        k = k + 1;
    }
    proof {
        assert(string_views(args@).take(args@.len() as int) =~= string_views(args@));
    }
    r
}

/// One formatted log entry: the given prefix followed by the space-joined
/// arguments.
fn entry_with_prefix(prefix: &str, args: &Vec<String>) -> (r: String)
    ensures
        r@ == prefix@ + joined(string_views(args@)),
{
    let mut r = String::from_str(prefix);
    let joined_args = format_js_log(args);
    r.append(joined_args.as_str());
    r
}

/// The first index in `buckets` whose bucket belongs to `line`, or
/// `buckets.len()` when no bucket does.
pub open spec fn bucket_index_of(buckets: Seq<LineByLineLog>, line: i32) -> int
    decreases buckets.len(),
{
    if buckets.len() == 0 {
        0
    } else if buckets[0].line_number == line {
        0
    } else {
        1 + bucket_index_of(buckets.drop_first(), line)
    }
}

/// `bucket_index_of` is sound: it stays within bounds, points at a bucket
/// of the line whenever one exists, and nothing before it matches.
pub proof fn lemma_bucket_index_of(buckets: Seq<LineByLineLog>, line: i32)
    ensures
        0 <= bucket_index_of(buckets, line) <= buckets.len(),
        bucket_index_of(buckets, line) < buckets.len() ==> buckets[bucket_index_of(
            buckets,
            line,
        )].line_number == line,
        forall|m: int| 0 <= m < bucket_index_of(buckets, line) ==> buckets[m].line_number != line,
    decreases buckets.len(),
{
    if buckets.len() > 0 && buckets[0].line_number != line {
        let rest = buckets.drop_first();
        lemma_bucket_index_of(rest, line);
        assert forall|m: int| 0 <= m < bucket_index_of(buckets, line) implies buckets[
            m
        ].line_number != line by {
            if m > 0 {
                assert(buckets[m] == rest[m - 1]);
            }
        }
    }
}

/// The capture of one run invocation: a flat log and a line-bucketed log,
/// both append-only until cleared.
pub struct OutputCapture {
    /// Every formatted entry of the run, in emission order.
    pub log_stack: Vec<String>,
    /// The formatted entries grouped by the source line they came from.
    pub log_stack_lines: Vec<LineByLineLog>,
}

impl OutputCapture {
    /// A fresh, empty capture; every run starts from one.
    pub fn new() -> (r: OutputCapture)
        ensures
            r.log_stack@ =~= Seq::<String>::empty(),
            r.log_stack_lines@ =~= Seq::<LineByLineLog>::empty(),
    {
        OutputCapture { log_stack: Vec::new(), log_stack_lines: Vec::new() }
    }

    /// Empties both logs; output captured earlier cannot leak into the
    /// next run.
    pub fn clear_log_stack(&mut self)
        ensures
            final(self).log_stack@ =~= Seq::<String>::empty(),
            final(self).log_stack_lines@ =~= Seq::<LineByLineLog>::empty(),
    {
        self.log_stack.clear();
        self.log_stack_lines.clear();
    }

    /// Appends one already-formatted entry to the flat log.
    pub fn push_log_stack(&mut self, value: String)
        ensures
            final(self).log_stack@ == old(self).log_stack@.push(value),
            final(self).log_stack_lines == old(self).log_stack_lines,
    {
        self.log_stack.push(value);
    }

    /// Appends one already-formatted entry to the bucket of `line`,
    /// starting the bucket if this is the line's first entry.
    #[verifier::loop_isolation(false)]
    pub fn push_log_stack_file_line(&mut self, line: i32, value: String)
        ensures
            final(self).log_stack == old(self).log_stack,
            bucket_push_shape(
                old(self).log_stack_lines@,
                final(self).log_stack_lines@,
                line,
                value@,
            ),
            ({
                let buckets = old(self).log_stack_lines@;
                let idx = bucket_index_of(buckets, line);
                if idx < buckets.len() {
                    final(self).log_stack_lines@[idx].lines@.last() == value
                } else {
                    final(self).log_stack_lines@.last().lines@[0] == value
                }
            }),
    {
        proof {
            lemma_bucket_index_of(self.log_stack_lines@, line);
        }
        let ghost buckets = self.log_stack_lines@;
        let mut k: usize = 0;
        let n: usize = self.log_stack_lines.len();
        while k < n
            invariant
                k <= n,
                n == buckets.len(),
                self.log_stack == old(self).log_stack,
                self.log_stack_lines@ == buckets,
                forall|m: int| 0 <= m < k ==> buckets[m].line_number != line,
                0 <= bucket_index_of(buckets, line) <= buckets.len(),
                bucket_index_of(buckets, line) < buckets.len() ==> buckets[bucket_index_of(
                    buckets,
                    line,
                )].line_number == line,
                forall|m: int|
                    0 <= m < bucket_index_of(buckets, line) ==> buckets[m].line_number != line,
            decreases n - k,
        {
            if self.log_stack_lines[k].line_number == line {
                proof {
                    if bucket_index_of(buckets, line) < k {
                        assert(buckets[bucket_index_of(buckets, line)].line_number != line);
                    }
                    assert(k == bucket_index_of(buckets, line));
                }
                self.log_stack_lines[k].lines.push(value);
                proof {
                    assert(self.log_stack_lines@[k as int].lines@ == buckets[k as int].lines@.push(
                        value,
                    ));
                    assert(self.log_stack_lines@[k as int].lines@.drop_last() =~= buckets[
                        k as int
                    ].lines@);
                }
                return ;
            }
            proof {
                assert(buckets[k as int].line_number != line);
            }
            k = k + 1;
        }
        let mut lines: Vec<String> = Vec::new();
        lines.push(value);
        proof {
            assert(lines@ =~= seq![value]);
        }
        self.log_stack_lines.push(LineByLineLog { line_number: line, lines });
        proof {
            assert(self.log_stack_lines@.drop_last() =~= buckets);
        }
    }

    /// An immutable copy of the flat log — never a live reference, so
    /// later capture cannot retroactively change what was returned.
    pub fn get_log_stack(&self) -> (r: Vec<String>)
        ensures
            r@ == self.log_stack@,
    {
        crate::types::clone_string_vec(&self.log_stack)
    }

    /// An immutable copy of the line-bucketed log — never a live
    /// reference, so later capture cannot retroactively change what was
    /// returned.
    pub fn get_log_stack_by_file_line(&self) -> (r: Vec<LineByLineLog>)
        ensures
            r@.len() == self.log_stack_lines@.len(),
            forall|m: int|
                0 <= m < self.log_stack_lines@.len() ==> r@[m].line_number
                    == self.log_stack_lines@[m].line_number && r@[m].lines@
                    == self.log_stack_lines@[m].lines@,
    {
        crate::types::clone_line_log_vec(&self.log_stack_lines)
    }

    /// Captures one `console.log` call of a single-shot run.
    pub fn js_console_log_capture(&mut self, args: &Vec<String>)
        ensures
            final(self).log_stack@.len() == old(self).log_stack@.len() + 1,
            final(self).log_stack@.drop_last() == old(self).log_stack@,
            final(self).log_stack@.last()@ == "LOG: "@ + joined(string_views(args@)),
            final(self).log_stack_lines == old(self).log_stack_lines,
    {
        let entry = entry_with_prefix("LOG: ", args);
        self.push_log_stack(entry);
        proof {
            assert(self.log_stack@.drop_last() =~= old(self).log_stack@);
        }
    }

    /// Captures one `console.warn` call of a single-shot run.
    pub fn js_console_warn_capture(&mut self, args: &Vec<String>)
        ensures
            final(self).log_stack@.len() == old(self).log_stack@.len() + 1,
            final(self).log_stack@.drop_last() == old(self).log_stack@,
            final(self).log_stack@.last()@ == "WARN: "@ + joined(string_views(args@)),
            final(self).log_stack_lines == old(self).log_stack_lines,
    {
        let entry = entry_with_prefix("WARN: ", args);
        self.push_log_stack(entry);
        proof {
            assert(self.log_stack@.drop_last() =~= old(self).log_stack@);
        }
    }

    /// Captures one `console.error` call of a single-shot run.
    pub fn js_console_error_capture(&mut self, args: &Vec<String>)
        ensures
            final(self).log_stack@.len() == old(self).log_stack@.len() + 1,
            final(self).log_stack@.drop_last() == old(self).log_stack@,
            final(self).log_stack@.last()@ == "ERROR: "@ + joined(string_views(args@)),
            final(self).log_stack_lines == old(self).log_stack_lines,
    {
        let entry = entry_with_prefix("ERROR: ", args);
        self.push_log_stack(entry);
        proof {
            assert(self.log_stack@.drop_last() =~= old(self).log_stack@);
        }
    }

    /// Captures one `console.log` call of a per-line run, into the bucket
    /// of the line being evaluated.
    pub fn js_console_log_capture_lines(&mut self, line: i32, args: &Vec<String>)
        ensures
            final(self).log_stack == old(self).log_stack,
            bucket_push_shape(
                old(self).log_stack_lines@,
                final(self).log_stack_lines@,
                line,
                "LOG: "@ + joined(string_views(args@)),
            ),
    {
        let entry = entry_with_prefix("LOG: ", args);
        self.push_log_stack_file_line(line, entry);
    }

    /// Captures one `console.warn` call of a per-line run, into the bucket
    /// of the line being evaluated.
    pub fn js_console_warn_capture_lines(&mut self, line: i32, args: &Vec<String>)
        ensures
            final(self).log_stack == old(self).log_stack,
            bucket_push_shape(
                old(self).log_stack_lines@,
                final(self).log_stack_lines@,
                line,
                "WARN: "@ + joined(string_views(args@)),
            ),
    {
        let entry = entry_with_prefix("WARN: ", args);
        self.push_log_stack_file_line(line, entry);
    }

    /// Captures one `console.error` call of a per-line run, into the
    /// bucket of the line being evaluated.
    pub fn js_console_error_capture_lines(&mut self, line: i32, args: &Vec<String>)
        ensures
            final(self).log_stack == old(self).log_stack,
            bucket_push_shape(
                old(self).log_stack_lines@,
                final(self).log_stack_lines@,
                line,
                "ERROR: "@ + joined(string_views(args@)),
            ),
    {
        let entry = entry_with_prefix("ERROR: ", args);
        self.push_log_stack_file_line(line, entry);
    }
}

/// How one bucketed push relates the line log after the push to the one
/// before it: either the existing bucket of `line` grew by one entry whose
/// view is `entry`, or a fresh one-entry bucket for `line` was appended.
pub open spec fn bucket_push_shape(
    before: Seq<LineByLineLog>,
    after: Seq<LineByLineLog>,
    line: i32,
    entry: Seq<char>,
) -> bool {
    let idx = bucket_index_of(before, line);
    if idx < before.len() {
        &&& after.len() == before.len()
        &&& (forall|m: int| 0 <= m < before.len() && m != idx ==> after[m] == before[m])
        &&& after[idx].line_number == line
        &&& after[idx].lines@.len() == before[idx].lines@.len() + 1
        &&& after[idx].lines@.drop_last() == before[idx].lines@
        &&& after[idx].lines@.last()@ == entry
    } else {
        &&& after.len() == before.len() + 1
        &&& after.drop_last() == before
        &&& after.last().line_number == line
        &&& after.last().lines@.len() == 1
        &&& after.last().lines@[0]@ == entry
    }
}

} // verus!
