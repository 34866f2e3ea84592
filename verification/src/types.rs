//! The session's data model: one open editor tab, the aggregate session
//! state, its serializable snapshot, and the outcome of one engine
//! invocation.

use vstd::prelude::*;

verus! {

/// The data of a single open file tab.
///
/// `file_name_path` is `None` exactly as long as the tab has never been
/// saved to disk. Modification times are kept as milliseconds since the
/// Unix epoch; `modified_at` is the filesystem time as of the last
/// successful sync and `modified_at_state` the time as of the last state
/// snapshot handed to the caller.
pub struct FileTabData {
    /// The unique id of the file tab.
    pub uid: i32,
    /// The directory of the file, if any.
    pub path: Option<String>,
    /// The name of the file without its directory.
    pub file_name: String,
    /// The full name and path of the file.
    pub file_name_path: Option<String>,
    /// Whether the tab is an in-memory scratch tab with no required
    /// on-disk counterpart.
    pub is_temporary: bool,
    /// The language of the script, derived from the file extension.
    pub script_language: String,
    /// The content of the tab; withheld in lightweight copies.
    pub content: Option<String>,
    /// The filesystem modification time as of the last successful sync.
    pub modified_at: Option<i64>,
    /// The modification time as of the last state snapshot.
    pub modified_at_state: Option<i64>,
    /// Whether the tab is evaluated line by line instead of in one shot.
    pub evaluate_per_line: bool,
}

/// One line-correlated log bucket: the output emitted while the marked
/// source line was being evaluated, in emission order.
pub struct LineByLineLog {
    /// The zero-based source line the entries belong to.
    pub line_number: i32,
    /// The formatted log entries of that line.
    pub lines: Vec<String>,
}

/// The aggregate session state: one composite value, so that a host can
/// guard all of it with a single lock.
pub struct AppState {
    /// The flat log of the latest single-shot script run.
    pub log_stack: Vec<String>,
    /// The line-correlated log of the latest per-line run.
    pub log_stack_lines: Vec<LineByLineLog>,
    /// The identifiers currently allocated to tabs.
    pub file_ids: Vec<i32>,
    /// The open file tabs, in display order.
    pub file_tabs: Vec<FileTabData>,
    /// The id of the tab that is currently active.
    pub active_tab_id: i32,
}

impl Default for AppState {
    /// An empty session: no logs, no tabs, no allocated ids.
    fn default() -> (r: AppState)
        ensures
            r.log_stack@ =~= Seq::<String>::empty(),
            r.log_stack_lines@ =~= Seq::<LineByLineLog>::empty(),
            r.file_ids@ =~= Seq::<i32>::empty(),
            r.file_tabs@ =~= Seq::<FileTabData>::empty(),
            r.active_tab_id == 0,
    {
        AppState {
            log_stack: Vec::new(),
            log_stack_lines: Vec::new(),
            file_ids: Vec::new(),
            file_tabs: Vec::new(),
            active_tab_id: 0,
        }
    }
}

/// A consistent copy of the session state, fit to hand out to a caller:
/// later mutation of the session cannot change it retroactively.
pub struct AppStateResult {
    /// The flat log of the latest single-shot script run.
    pub log_stack: Vec<String>,
    /// The line-correlated log of the latest per-line run.
    pub log_stack_lines: Vec<LineByLineLog>,
    /// The identifiers currently allocated to tabs.
    pub file_ids: Vec<i32>,
    /// The open file tabs, in display order.
    pub file_tabs: Vec<FileTabData>,
    /// The id of the tab that is currently active.
    pub active_tab_id: i32,
}

/// What one engine invocation came to. The host's engine binding reports
/// exactly one of these per compiled-and-run source text.
pub enum RunOutcome {
    /// The source text could not even be handed to the engine.
    SourceRejected,
    /// The source text did not compile.
    CompileError,
    /// The compiled script threw or aborted.
    RuntimeError,
    /// The run succeeded and the result rendered as this display string.
    Value(String),
    /// The run succeeded but the result could not be rendered.
    StringifyError,
}

/// The views of a list of strings.
pub open spec fn string_views(ss: Seq<String>) -> Seq<Seq<char>> {
    ss.map_values(|s: String| s@)
}

/// The first index in `tabs` whose tab carries `uid`, or `tabs.len()`
/// when no tab does.
pub open spec fn tab_index_of(tabs: Seq<FileTabData>, uid: i32) -> int
    decreases tabs.len(),
{
    if tabs.len() == 0 {
        0
    } else if tabs[0].uid == uid {
        0
    } else {
        1 + tab_index_of(tabs.drop_first(), uid)
    }
}

/// Whether some tab in `tabs` carries `uid`.
pub open spec fn has_tab(tabs: Seq<FileTabData>, uid: i32) -> bool {
    tab_index_of(tabs, uid) < tabs.len()
}

/// `tab_index_of` is sound: it stays within bounds, points at a matching
/// tab whenever one exists, and nothing before it matches.
pub proof fn lemma_tab_index_of(tabs: Seq<FileTabData>, uid: i32)
    ensures
        0 <= tab_index_of(tabs, uid) <= tabs.len(),
        tab_index_of(tabs, uid) < tabs.len() ==> tabs[tab_index_of(tabs, uid)].uid == uid,
        forall|m: int| 0 <= m < tab_index_of(tabs, uid) ==> tabs[m].uid != uid,
    decreases tabs.len(),
{
    if tabs.len() > 0 && tabs[0].uid != uid {
        let rest = tabs.drop_first();
        lemma_tab_index_of(rest, uid);
        assert forall|m: int| 0 <= m < tab_index_of(tabs, uid) implies tabs[m].uid != uid by {
            if m > 0 {
                assert(tabs[m] == rest[m - 1]);
            }
        }
    }
}

/// Finds the first tab carrying `uid` and returns its index.
pub fn find_tab(tabs: &Vec<FileTabData>, uid: i32) -> (r: Option<usize>)
    ensures
        match r {
            Some(k) => k == tab_index_of(tabs@, uid) && k < tabs@.len() && tabs@[k as int].uid
                == uid,
            None => !has_tab(tabs@, uid),
        },
{
    proof {
        lemma_tab_index_of(tabs@, uid);
    }
    let mut k: usize = 0;
    while k < tabs.len()
        invariant
            k <= tabs@.len(),
            forall|m: int| 0 <= m < k ==> tabs@[m].uid != uid,
            0 <= tab_index_of(tabs@, uid) <= tabs@.len(),
            tab_index_of(tabs@, uid) < tabs@.len() ==> tabs@[tab_index_of(tabs@, uid)].uid
                == uid,
            forall|m: int| 0 <= m < tab_index_of(tabs@, uid) ==> tabs@[m].uid != uid,
        decreases tabs@.len() - k,
    {
        if tabs[k].uid == uid {
            proof {
                if tab_index_of(tabs@, uid) < k {
                    assert(tabs@[tab_index_of(tabs@, uid)].uid != uid);
                }
            }
            return Some(k);
        }
        k = k + 1;
    }
    None
}

/// Copies an optional string by value.
pub fn clone_opt_string(o: &Option<String>) -> (r: Option<String>)
    ensures
        r == *o,
{
    match o {
        Option::Some(s) => Option::Some(s.clone()),
        Option::None => Option::None,
    }
}

/// Copies a list of strings by value.
pub fn clone_string_vec(v: &Vec<String>) -> (r: Vec<String>)
    ensures
        r@ =~= v@,
{
    let mut r: Vec<String> = Vec::new();
    let mut k: usize = 0;
    while k < v.len()
        invariant
            k <= v@.len(),
            r@.len() == k,
            forall|m: int| 0 <= m < k ==> r@[m] == v@[m],
        decreases v@.len() - k,
    {
        r.push(v[k].clone());
        k = k + 1;
    }
    r
}

/// Copies one tab by value.
pub fn clone_tab(t: &FileTabData) -> (r: FileTabData)
    ensures
        r == *t,
{
    FileTabData {
        uid: t.uid,
        path: clone_opt_string(&t.path),
        file_name: t.file_name.clone(),
        file_name_path: clone_opt_string(&t.file_name_path),
        is_temporary: t.is_temporary,
        script_language: t.script_language.clone(),
        content: clone_opt_string(&t.content),
        modified_at: t.modified_at,
        modified_at_state: t.modified_at_state,
        evaluate_per_line: t.evaluate_per_line,
    }
}

/// Copies a tab but withholds its content: a lightweight copy for
/// inspection, so that a large buffer is not duplicated needlessly.
pub fn clone_tab_without_content(t: &FileTabData) -> (r: FileTabData)
    ensures
        r == (FileTabData { content: Option::None, ..*t }),
{
    FileTabData {
        uid: t.uid,
        path: clone_opt_string(&t.path),
        file_name: t.file_name.clone(),
        file_name_path: clone_opt_string(&t.file_name_path),
        is_temporary: t.is_temporary,
        script_language: t.script_language.clone(),
        content: Option::None,
        modified_at: t.modified_at,
        modified_at_state: t.modified_at_state,
        evaluate_per_line: t.evaluate_per_line,
    }
}

/// Copies a list of tabs by value.
pub fn clone_tab_vec(v: &Vec<FileTabData>) -> (r: Vec<FileTabData>)
    ensures
        r@ =~= v@,
{
    let mut r: Vec<FileTabData> = Vec::new();
    let mut k: usize = 0;
    while k < v.len()
        invariant
            k <= v@.len(),
            r@.len() == k,
            forall|m: int| 0 <= m < k ==> r@[m] == v@[m],
        decreases v@.len() - k,
    {
        r.push(clone_tab(&v[k]));
        k = k + 1;
    }
    r
}

/// Copies one line-correlated log bucket by value.
pub fn clone_line_log(l: &LineByLineLog) -> (r: LineByLineLog)
    ensures
        r.line_number == l.line_number,
        r.lines@ =~= l.lines@,
{
    LineByLineLog { line_number: l.line_number, lines: clone_string_vec(&l.lines) }
}

/// Copies a line-correlated log by value.
pub fn clone_line_log_vec(v: &Vec<LineByLineLog>) -> (r: Vec<LineByLineLog>)
    ensures
        r@.len() == v@.len(),
        forall|m: int|
            0 <= m < v@.len() ==> r@[m].line_number == v@[m].line_number && r@[m].lines@
                =~= v@[m].lines@,
{
    let mut r: Vec<LineByLineLog> = Vec::new();
    let mut k: usize = 0;
    while k < v.len()
        invariant
            k <= v@.len(),
            r@.len() == k,
            forall|m: int|
                0 <= m < k ==> r@[m].line_number == v@[m].line_number && r@[m].lines@
                    =~= v@[m].lines@,
        decreases v@.len() - k,
    {
        r.push(clone_line_log(&v[k]));
        k = k + 1;
    }
    r
}

/// Copies a list of identifiers by value.
pub fn clone_id_vec(v: &Vec<i32>) -> (r: Vec<i32>)
    ensures
        r@ =~= v@,
{
    let mut r: Vec<i32> = Vec::new();
    let mut k: usize = 0;
    while k < v.len()
        invariant
            k <= v@.len(),
            r@.len() == k,
            forall|m: int| 0 <= m < k ==> r@[m] == v@[m],
        decreases v@.len() - k,
    {
        r.push(v[k]);
        k = k + 1;
    }
    r
}

} // verus!
