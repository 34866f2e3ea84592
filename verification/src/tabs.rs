//! The tab registry: identifier allocation, adding tabs, wholesale
//! replacement of the open-tab list, and consistent snapshots of the
//! session state.

use vstd::prelude::*;
use vstd::string::StringExecFns;

use crate::config::FileState;
use crate::types::AppState;
use crate::types::AppStateResult;
use crate::types::FileTabData;
use crate::types::clone_id_vec;
use crate::types::clone_line_log_vec;
use crate::types::clone_string_vec;
use crate::types::clone_tab_vec;
use crate::utils::first_missing_in_sequence;

verus! {

/// Whether `r` is the smallest strictly positive integer that does not
/// occur in `ids`.
pub open spec fn is_first_missing(ids: Seq<i32>, r: i32) -> bool {
    &&& r >= 1
    &&& !ids.contains(r)
    &&& (forall|j: i32| 1 <= j < r ==> ids.contains(j))
}

/// The allocator's answer is well-defined: for one set of allocated
/// identifiers, only one value can be at once positive, free, and
/// preceded by no free positive value — so "the smallest positive integer
/// not in the set" names exactly one identifier.
pub proof fn lemma_first_missing_unique(ids: Seq<i32>, r1: i32, r2: i32)
    requires
        is_first_missing(ids, r1),
        is_first_missing(ids, r2),
    ensures
        r1 == r2,
{
    if r1 < r2 {
        assert(ids.contains(r1));
    }
    if r2 < r1 {
        assert(ids.contains(r2));
    }
}

impl AppState {
    /// The identifier the next new tab would get: the smallest strictly
    /// positive integer not yet allocated. Does not allocate.
    pub fn get_new_tab_id(&self) -> (r: i32)
        requires
            self.file_ids@.len() < i32::MAX,
        ensures
            is_first_missing(self.file_ids@, r),
    {
        first_missing_in_sequence(&self.file_ids)
    }

    /// Adds a new tab, forcing it to the unsaved scratch shape: whatever
    /// the caller supplied, the new tab starts temporary, with empty
    /// content and no path — a new tab is never trusted to arrive
    /// pre-populated. Returns the identifier allocated to it.
    pub fn add_new_tab(&mut self, tab_data: FileTabData) -> (r: i32)
        requires
            old(self).file_ids@.len() < i32::MAX,
        ensures
            is_first_missing(old(self).file_ids@, r),
            final(self).file_ids@ == old(self).file_ids@.push(r),
            final(self).file_tabs@.len() == old(self).file_tabs@.len() + 1,
            final(self).file_tabs@.drop_last() == old(self).file_tabs@,
            ({
                let tab = final(self).file_tabs@.last();
                &&& tab.uid == r
                &&& tab.is_temporary
                &&& tab.content matches Some(c) && c@ == Seq::<char>::empty()
                &&& tab.file_name_path is None
                &&& tab.path is None
                &&& tab.file_name == tab_data.file_name
                &&& tab.script_language == tab_data.script_language
                &&& tab.modified_at == tab_data.modified_at
                &&& tab.modified_at_state == tab_data.modified_at_state
                &&& tab.evaluate_per_line == tab_data.evaluate_per_line
            }),
            final(self).log_stack == old(self).log_stack,
            final(self).log_stack_lines == old(self).log_stack_lines,
            final(self).active_tab_id == old(self).active_tab_id,
    {
        let new_id = first_missing_in_sequence(&self.file_ids);
        self.file_ids.push(new_id);
        let tab = FileTabData {
            uid: new_id,
            content: Some(String::new()),
            path: None,
            file_name_path: None,
            is_temporary: true,
            ..tab_data
        };
        self.file_tabs.push(tab);
        proof {
            assert(final(self).file_tabs@.drop_last() =~= old(self).file_tabs@);
        }
        new_id
    }

    /// Replaces the open-tab list wholesale with the caller's
    /// authoritative list, re-deriving the allocated identifiers from the
    /// replacement tabs' own ids.
    pub fn update_open_tabs(&mut self, tab_data: Vec<FileTabData>)
        ensures
            final(self).file_tabs@ == tab_data@,
            final(self).file_ids@ == tab_data@.map_values(|t: FileTabData| t.uid),
            final(self).log_stack == old(self).log_stack,
            final(self).log_stack_lines == old(self).log_stack_lines,
            final(self).active_tab_id == old(self).active_tab_id,
    {
        let mut new_ids: Vec<i32> = Vec::new();
        let mut k: usize = 0;
        while k < tab_data.len()
            invariant
                k <= tab_data@.len(),
                new_ids@.len() == k,
                forall|m: int| 0 <= m < k ==> new_ids@[m] == tab_data@[m].uid,
            decreases tab_data@.len() - k,
        {
            new_ids.push(tab_data[k].uid);
            k = k + 1;
        }
        proof {
            assert(new_ids@ =~= tab_data@.map_values(|t: FileTabData| t.uid));
        }
        self.file_tabs = tab_data;
        self.file_ids = new_ids;
    }

    /// Marks the given tab as the active one.
    pub fn set_active_tab_id(&mut self, tab_id: i32)
        ensures
            final(self).active_tab_id == tab_id,
            final(self).log_stack == old(self).log_stack,
            final(self).log_stack_lines == old(self).log_stack_lines,
            final(self).file_ids == old(self).file_ids,
            final(self).file_tabs == old(self).file_tabs,
    {
        self.active_tab_id = tab_id;
    }

    /// A consistent snapshot of the whole session state: every part is
    /// copied by value, so later mutation cannot change what was returned.
    pub fn get_app_state(&self) -> (r: AppStateResult)
        ensures
            r.log_stack@ == self.log_stack@,
            r.file_ids@ == self.file_ids@,
            r.file_tabs@ == self.file_tabs@,
            r.active_tab_id == self.active_tab_id,
            r.log_stack_lines@.len() == self.log_stack_lines@.len(),
            forall|m: int|
                0 <= m < self.log_stack_lines@.len() ==> r.log_stack_lines@[m].line_number
                    == self.log_stack_lines@[m].line_number && r.log_stack_lines@[m].lines@
                    == self.log_stack_lines@[m].lines@,
    {
        AppStateResult {
            log_stack: clone_string_vec(&self.log_stack),
            log_stack_lines: clone_line_log_vec(&self.log_stack_lines),
            file_ids: clone_id_vec(&self.file_ids),
            file_tabs: clone_tab_vec(&self.file_tabs),
            active_tab_id: self.active_tab_id,
        }
    }

    /// The persistable snapshot of the open tabs: the tab list, the
    /// allocated identifiers and the active tab id, ready to be handed to
    /// whatever settings store the host uses.
    pub fn save_open_tabs(&self) -> (r: FileState)
        ensures
            r.files@ == self.file_tabs@,
            r.file_ids@ == self.file_ids@,
            r.active_tab_id == self.active_tab_id,
    {
        FileState {
            files: clone_tab_vec(&self.file_tabs),
            file_ids: clone_id_vec(&self.file_ids),
            active_tab_id: self.active_tab_id,
        }
    }

    /// Installs a previously persisted tab state into the session. The
    /// host stats every file beforehand and passes the live modification
    /// times, one per file: a file that carries a recorded path has its
    /// modification time refreshed to the live value, a pathless one is
    /// installed as it was saved.
    pub fn load_file_state(&mut self, state: FileState, live_mtimes: Vec<Option<i64>>)
        requires
            live_mtimes@.len() == state.files@.len(),
        ensures
            final(self).active_tab_id == state.active_tab_id,
            final(self).file_ids@ == state.file_ids@,
            final(self).file_tabs@.len() == state.files@.len(),
            forall|m: int|
                0 <= m < state.files@.len() ==> final(self).file_tabs@[m] == (if state.files@[
                    m
                ].file_name_path is Some {
                    FileTabData { modified_at: live_mtimes@[m], ..state.files@[m] }
                } else {
                    state.files@[m]
                }),
            final(self).log_stack == old(self).log_stack,
            final(self).log_stack_lines == old(self).log_stack_lines,
    {
        let FileState { mut files, file_ids, active_tab_id } = state;
        let ghost files0 = files@;
        let mut k: usize = 0;
        let n: usize = files.len();
        while k < n
            invariant
                k <= n,
                n == files0.len(),
                live_mtimes@.len() == files0.len(),
                files@.len() == files0.len(),
                forall|m: int|
                    0 <= m < k ==> files@[m] == (if files0[m].file_name_path is Some {
                        FileTabData { modified_at: live_mtimes@[m], ..files0[m] }
                    } else {
                        files0[m]
                    }),
                forall|m: int| k <= m < n ==> files@[m] == files0[m],
            decreases n - k,
        {
            if files[k].file_name_path.is_some() {
                files[k].modified_at = match live_mtimes[k] {
                    Some(t) => Some(t),
                    None => None,
                };
            }
            k = k + 1;
        }
        self.active_tab_id = active_tab_id;
        self.file_ids = file_ids;
        self.file_tabs = files;
    }
}

} // verus!
