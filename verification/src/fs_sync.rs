//! Reconciling tabs against the filesystem. Reads, writes and stats are
//! the host's: it stats or reads the tab's recorded path and hands the
//! outcome in as plain values; every decision about what that outcome
//! means for the tab — changed, missing, reloaded, saved — is made and
//! proved here.

use vstd::prelude::*;
use vstd::string::StringExecFns;

use crate::paths::dir_of;
use crate::paths::file_name_of;
use crate::paths::language_of;
use crate::paths::parse_file_path;
use crate::paths::path_parseable;
use crate::types::AppState;
use crate::types::FileTabData;
use crate::types::find_tab;
use crate::types::has_tab;
use crate::types::tab_index_of;
use crate::utils::first_missing_in_sequence;

verus! {

/// The error reported when no open tab carries the requested id; distinct
/// from any filesystem error.
pub open spec fn tab_not_found_msg() -> Seq<char> {
    "Failed to find the file in application state."@
}

/// The error reported when a save would overwrite a file that no longer
/// exists.
pub open spec fn file_not_exists_msg() -> Seq<char> {
    "The file does not exist."@
}

/// The error reported when neither the tab nor the caller names a path to
/// save to, or a reload target has no recorded path.
pub open spec fn no_file_name_msg() -> Seq<char> {
    "The file name and path is not specified."@
}

/// The error reported when a save is asked for without content.
pub open spec fn no_content_msg() -> Seq<char> {
    "The file content is not specified."@
}

/// The error reported when a file exceeds the fixed size ceiling; a
/// recoverable fault, not an abort.
pub open spec fn oversized_msg() -> Seq<char> {
    "The file is too large. The limit is 10 MB."@
}

/// The fixed ceiling on the size of a file that may be opened, in bytes.
pub const FILE_SIZE_LIMIT: u64 = 10000000;

/// Builds the tab-not-found error.
fn tab_not_found() -> (r: String)
    ensures
        r@ == tab_not_found_msg(),
{
    String::from_str("Failed to find the file in application state.")
}

/// What the host found when it stat'ed a tab's recorded path.
pub enum FsProbe {
    /// The path does not exist, or its existence could not be confirmed.
    Missing,
    /// The path exists but the stat itself failed; carries the error text.
    StatFailed(String),
    /// The stat succeeded; the modification time in milliseconds since the
    /// Unix epoch, or `None` when the platform reports none.
    Available(Option<i64>),
}

/// Relies on chrono's `Utc::now`: the current wall-clock time as
/// milliseconds since the Unix epoch. Nothing is assumed of its value.
#[verifier::external_body]
fn current_time_millis() -> i64 {
    chrono::Utc::now().timestamp_millis()
}

/// Everything of the session but the tab list is the same in `post` as in
/// `pre`.
pub open spec fn rest_unchanged(pre: AppState, post: AppState) -> bool {
    &&& post.log_stack == pre.log_stack
    &&& post.log_stack_lines == pre.log_stack_lines
    &&& post.file_ids == pre.file_ids
    &&& post.active_tab_id == pre.active_tab_id
}

/// The tab list is the same in `post` as in `pre`.
pub open spec fn tabs_unchanged(pre: AppState, post: AppState) -> bool {
    post.file_tabs == pre.file_tabs
}

impl AppState {
    /// The recorded path of the given tab, for the host to stat or read:
    /// `None` when the tab has never been saved to disk.
    pub fn tab_file_path(&self, uid: i32) -> (r: Result<Option<String>, String>)
        ensures
            !has_tab(self.file_tabs@, uid) ==> r is Err && r->Err_0@ == tab_not_found_msg(),
            has_tab(self.file_tabs@, uid) ==> r == Ok::<Option<String>, String>(
                self.file_tabs@[tab_index_of(self.file_tabs@, uid)].file_name_path,
            ),
    {
        match find_tab(&self.file_tabs, uid) {
            Some(k) => Ok(crate::types::clone_opt_string(&self.file_tabs[k].file_name_path)),
            None => Err(tab_not_found()),
        }
    }

    /// Whether the given tab's file changed on disk behind the session's
    /// back. Nothing is compared when the tab has no recorded time or
    /// path, and a missing or unreadable file is not this operation's
    /// report: all of those come back `false`. Once a live stat succeeded,
    /// the recorded time is updated to the live value — whatever the
    /// boolean answer — so one inspection heals the tab.
    pub fn is_file_changed_in_fs(&mut self, uid: i32, probe: &FsProbe) -> (r: Result<
        bool,
        String,
    >)
        ensures
            rest_unchanged(*old(self), *final(self)),
            !has_tab(old(self).file_tabs@, uid) ==> r is Err && r->Err_0@ == tab_not_found_msg()
                && tabs_unchanged(*old(self), *final(self)),
            has_tab(old(self).file_tabs@, uid) ==> ({
                let idx = tab_index_of(old(self).file_tabs@, uid);
                let tab = old(self).file_tabs@[idx];
                if tab.modified_at is None || tab.file_name_path is None {
                    r == Ok::<bool, String>(false) && tabs_unchanged(*old(self), *final(self))
                } else {
                    match probe {
                        FsProbe::Missing => r == Ok::<bool, String>(false) && tabs_unchanged(
                            *old(self),
                            *final(self),
                        ),
                        FsProbe::StatFailed(e) => r is Err && r->Err_0 == e && tabs_unchanged(
                            *old(self),
                            *final(self),
                        ),
                        FsProbe::Available(live) => {
                            if live is None {
                                r == Ok::<bool, String>(false) && tabs_unchanged(
                                    *old(self),
                                    *final(self),
                                )
                            } else {
                                &&& final(self).file_tabs@ == old(self).file_tabs@.update(
                                    idx,
                                    (FileTabData { modified_at: *live, ..tab }),
                                )
                                &&& r == Ok::<bool, String>(tab.modified_at != *live)
                            }
                        },
                    }
                }
            }),
    {
        let idx = match find_tab(&self.file_tabs, uid) {
            Some(k) => k,
            None => {
                return Err(tab_not_found());
            },
        };

        // Abort the check here if the tab has no recorded time or path.
        if self.file_tabs[idx].modified_at.is_none() || self.file_tabs[idx].file_name_path.is_none() {
            return Ok(false);
        }

        match probe {
            FsProbe::Missing => Ok(false),
            FsProbe::StatFailed(e) => Err(e.clone()),
            FsProbe::Available(live) => {
                match live {
                    None => Ok(false),
                    Some(t) => {
                        let changed = match self.file_tabs[idx].modified_at {
                            Some(m) => m != *t,
                            None => true,
                        };
                        // Whatever the answer, the recorded time is
                        // refreshed once a live stat succeeded.
                        self.file_tabs[idx].modified_at = Some(*t);
                        Ok(changed)
                    },
                }
            },
        }
    }

    /// Whether a tab that is supposed to have an on-disk counterpart has
    /// lost it: true exactly when the tab is not temporary, records a
    /// path, and the host found that path absent.
    pub fn is_existing_file_missing_in_fs(&self, uid: i32, exists: bool) -> (r: Result<
        bool,
        String,
    >)
        ensures
            !has_tab(self.file_tabs@, uid) ==> r is Err && r->Err_0@ == tab_not_found_msg(),
            has_tab(self.file_tabs@, uid) ==> ({
                let tab = self.file_tabs@[tab_index_of(self.file_tabs@, uid)];
                r == Ok::<bool, String>(
                    !tab.is_temporary && tab.file_name_path is Some && !exists,
                )
            }),
    {
        match find_tab(&self.file_tabs, uid) {
            Some(k) => {
                let tab = &self.file_tabs[k];
                Ok(!tab.is_temporary && tab.file_name_path.is_some() && !exists)
            },
            None => Err(tab_not_found()),
        }
    }

    /// Opens a file the host has read from disk as a new non-temporary
    /// tab: derives name, directory and language from the path, allocates
    /// an identifier, and records the read's modification time in both
    /// time fields. A file above the fixed size ceiling is refused with a
    /// recoverable error, never a crash.
    pub fn open_existing_file(
        &mut self,
        file_name: String,
        content: String,
        modified_at: Option<i64>,
        file_size: u64,
    ) -> (r: Result<bool, String>)
        requires
            path_parseable(file_name@),
            old(self).file_ids@.len() < i32::MAX,
        ensures
            file_size > FILE_SIZE_LIMIT ==> r is Err && r->Err_0@ == oversized_msg()
                && tabs_unchanged(*old(self), *final(self)) && rest_unchanged(
                *old(self),
                *final(self),
            ),
            file_size <= FILE_SIZE_LIMIT ==> ({
                let tab = final(self).file_tabs@.last();
                &&& r == Ok::<bool, String>(true)
                &&& final(self).file_tabs@.len() == old(self).file_tabs@.len() + 1
                &&& final(self).file_tabs@.drop_last() == old(self).file_tabs@
                &&& crate::tabs::is_first_missing(old(self).file_ids@, tab.uid)
                &&& final(self).file_ids@ == old(self).file_ids@.push(tab.uid)
                &&& tab.path matches Some(d) && d@ == dir_of(file_name@)
                &&& tab.file_name@ == file_name_of(file_name@)
                &&& !tab.is_temporary
                &&& tab.script_language@ == language_of(file_name@)
                &&& tab.content == Some(content)
                &&& tab.modified_at == modified_at
                &&& tab.file_name_path == Some(file_name)
                &&& tab.modified_at_state == modified_at
                &&& !tab.evaluate_per_line
                &&& final(self).log_stack == old(self).log_stack
                &&& final(self).log_stack_lines == old(self).log_stack_lines
                &&& final(self).active_tab_id == old(self).active_tab_id
            }),
    {
        if file_size > FILE_SIZE_LIMIT {
            return Err(String::from_str("The file is too large. The limit is 10 MB."));
        }
        let parsed = parse_file_path(file_name.as_str());
        let new_id = first_missing_in_sequence(&self.file_ids);
        self.file_ids.push(new_id);
        let tab = FileTabData {
            uid: new_id,
            path: Some(parsed.directory),
            file_name: parsed.file_name,
            is_temporary: false,
            script_language: parsed.script_language,
            content: Some(content),
            modified_at,
            file_name_path: Some(file_name),
            modified_at_state: modified_at,
            evaluate_per_line: false,
        };
        self.file_tabs.push(tab);
        proof {
            assert(final(self).file_tabs@.drop_last() =~= old(self).file_tabs@);
        }
        Ok(true)
    }

    /// The path a reload would read from: `None` when the tab is
    /// temporary — a temporary tab has nothing on disk to reload from, a
    /// no-op rather than an error — and an error when a non-temporary tab
    /// records no path.
    pub fn reload_target(&self, uid: i32) -> (r: Result<Option<String>, String>)
        ensures
            !has_tab(self.file_tabs@, uid) ==> r is Err && r->Err_0@ == tab_not_found_msg(),
            has_tab(self.file_tabs@, uid) ==> ({
                let tab = self.file_tabs@[tab_index_of(self.file_tabs@, uid)];
                if tab.is_temporary {
                    r == Ok::<Option<String>, String>(None)
                } else if tab.file_name_path is None {
                    r is Err && r->Err_0@ == no_file_name_msg()
                } else {
                    r == Ok::<Option<String>, String>(tab.file_name_path)
                }
            }),
    {
        let k = match find_tab(&self.file_tabs, uid) {
            Some(k) => k,
            None => {
                return Err(tab_not_found());
            },
        };
        if self.file_tabs[k].is_temporary {
            return Ok(None);
        }
        match &self.file_tabs[k].file_name_path {
            Some(p) => Ok(Some(p.clone())),
            None => Err(String::from_str("The file name and path is not specified.")),
        }
    }

    /// Installs freshly re-read content and modification time into an
    /// existing tab, setting both time fields to the read's value.
    pub fn reload_file_contents(
        &mut self,
        uid: i32,
        content: String,
        modified_at: Option<i64>,
    ) -> (r: Result<bool, String>)
        ensures
            rest_unchanged(*old(self), *final(self)),
            !has_tab(old(self).file_tabs@, uid) ==> r is Err && r->Err_0@ == tab_not_found_msg()
                && tabs_unchanged(*old(self), *final(self)),
            has_tab(old(self).file_tabs@, uid) ==> ({
                let idx = tab_index_of(old(self).file_tabs@, uid);
                let tab = old(self).file_tabs@[idx];
                &&& r == Ok::<bool, String>(true)
                &&& final(self).file_tabs@ == old(self).file_tabs@.update(
                    idx,
                    (FileTabData {
                        content: Some(content),
                        modified_at,
                        modified_at_state: modified_at,
                        ..tab
                    }),
                )
            }),
    {
        let idx = match find_tab(&self.file_tabs, uid) {
            Some(k) => k,
            None => {
                return Err(tab_not_found());
            },
        };
        self.file_tabs[idx].content = Some(content);
        self.file_tabs[idx].modified_at = match modified_at {
            Some(t) => Some(t),
            None => None,
        };
        self.file_tabs[idx].modified_at_state = match modified_at {
            Some(t) => Some(t),
            None => None,
        };
        Ok(true)
    }

    /// Detaches a tab from its file while keeping it open in the editor:
    /// the tab becomes temporary, forgets its recorded modification time,
    /// and notes the present moment as the time its state was last shown.
    pub fn set_current_file_keep_in_editor(&mut self, uid: i32) -> (r: Result<bool, String>)
        ensures
            rest_unchanged(*old(self), *final(self)),
            !has_tab(old(self).file_tabs@, uid) ==> r is Err && r->Err_0@ == tab_not_found_msg()
                && tabs_unchanged(*old(self), *final(self)),
            has_tab(old(self).file_tabs@, uid) ==> ({
                let idx = tab_index_of(old(self).file_tabs@, uid);
                let tab = old(self).file_tabs@[idx];
                let post = final(self).file_tabs@[idx];
                &&& r == Ok::<bool, String>(true)
                &&& final(self).file_tabs@.len() == old(self).file_tabs@.len()
                &&& (forall|m: int|
                    0 <= m < old(self).file_tabs@.len() && m != idx ==> final(self).file_tabs@[m]
                        == old(self).file_tabs@[m])
                &&& post.is_temporary
                &&& post.modified_at is None
                &&& post.modified_at_state is Some
                &&& post == (FileTabData {
                    is_temporary: true,
                    modified_at: None,
                    modified_at_state: post.modified_at_state,
                    ..tab
                })
            }),
    {
        let idx = match find_tab(&self.file_tabs, uid) {
            Some(k) => k,
            None => {
                return Err(tab_not_found());
            },
        };
        let now = current_time_millis();
        self.file_tabs[idx].is_temporary = true;
        self.file_tabs[idx].modified_at = None;
        self.file_tabs[idx].modified_at_state = Some(now);
        Ok(true)
    }

    /// Decides where a save must write, and whether it may: when the tab
    /// already points at a real, non-temporary path and no explicit target
    /// overrides it, that path must still exist — a save never silently
    /// recreates a file an edit assumed it was updating. The target is the
    /// explicit path when one is supplied, the tab's recorded path
    /// otherwise; a save without content, or without any path at all, is
    /// refused.
    pub fn save_file_check(
        &self,
        uid: i32,
        content: &Option<String>,
        file_name_path: &Option<String>,
        current_path_exists: bool,
    ) -> (r: Result<String, String>)
        ensures
            !has_tab(self.file_tabs@, uid) ==> r is Err && r->Err_0@ == tab_not_found_msg(),
            has_tab(self.file_tabs@, uid) ==> ({
                let tab = self.file_tabs@[tab_index_of(self.file_tabs@, uid)];
                if file_name_path is None && tab.file_name_path is Some && !tab.is_temporary
                    && !current_path_exists {
                    r is Err && r->Err_0@ == file_not_exists_msg()
                } else if file_name_path is None && tab.file_name_path is None {
                    r is Err && r->Err_0@ == no_file_name_msg()
                } else if content is None {
                    r is Err && r->Err_0@ == no_content_msg()
                } else if file_name_path is Some {
                    r == Ok::<String, String>(file_name_path->0)
                } else {
                    r == Ok::<String, String>(tab.file_name_path->0)
                }
            }),
    {
        let k = match find_tab(&self.file_tabs, uid) {
            Some(k) => k,
            None => {
                return Err(tab_not_found());
            },
        };
        let tab = &self.file_tabs[k];
        // If saving an existing file without an explicit target, the file
        // must still exist before it is overwritten.
        if file_name_path.is_none() && tab.file_name_path.is_some() && !tab.is_temporary
            && !current_path_exists {
            return Err(String::from_str("The file does not exist."));
        }
        match file_name_path {
            Some(p) => {
                if content.is_none() {
                    return Err(String::from_str("The file content is not specified."));
                }
                Ok(p.clone())
            },
            None => {
                match &tab.file_name_path {
                    Some(p) => {
                        if content.is_none() {
                            return Err(String::from_str("The file content is not specified."));
                        }
                        Ok(p.clone())
                    },
                    None => Err(String::from_str("The file name and path is not specified.")),
                }
            },
        }
    }

    /// Records a completed save in the session: the tab takes the written
    /// content and target path, stops being temporary, re-derives name,
    /// directory and language from the target, and takes the written
    /// file's modification time in both time fields.
    pub fn save_file_contents(
        &mut self,
        uid: i32,
        content: String,
        file_name_path: String,
        modified_at: Option<i64>,
    ) -> (r: Result<bool, String>)
        requires
            path_parseable(file_name_path@),
        ensures
            rest_unchanged(*old(self), *final(self)),
            !has_tab(old(self).file_tabs@, uid) ==> r is Err && r->Err_0@ == tab_not_found_msg()
                && tabs_unchanged(*old(self), *final(self)),
            has_tab(old(self).file_tabs@, uid) ==> ({
                let idx = tab_index_of(old(self).file_tabs@, uid);
                let tab = old(self).file_tabs@[idx];
                let post = final(self).file_tabs@[idx];
                &&& r == Ok::<bool, String>(true)
                &&& final(self).file_tabs@.len() == old(self).file_tabs@.len()
                &&& (forall|m: int|
                    0 <= m < old(self).file_tabs@.len() && m != idx ==> final(self).file_tabs@[m]
                        == old(self).file_tabs@[m])
                &&& post.uid == tab.uid
                &&& post.content == Some(content)
                &&& !post.is_temporary
                &&& post.file_name_path == Some(file_name_path)
                &&& post.file_name@ == file_name_of(file_name_path@)
                &&& post.path matches Some(d) && d@ == dir_of(file_name_path@)
                &&& post.script_language@ == language_of(file_name_path@)
                &&& post.modified_at == modified_at
                &&& post.modified_at_state == modified_at
                &&& post.evaluate_per_line == tab.evaluate_per_line
            }),
    {
        let idx = match find_tab(&self.file_tabs, uid) {
            Some(k) => k,
            None => {
                return Err(tab_not_found());
            },
        };
        let parsed = parse_file_path(file_name_path.as_str());
        self.file_tabs[idx].content = Some(content);
        self.file_tabs[idx].is_temporary = false;
        self.file_tabs[idx].file_name_path = Some(file_name_path);
        self.file_tabs[idx].file_name = parsed.file_name;
        self.file_tabs[idx].path = Some(parsed.directory);
        self.file_tabs[idx].script_language = parsed.script_language;
        self.file_tabs[idx].modified_at = match modified_at {
            Some(t) => Some(t),
            None => None,
        };
        self.file_tabs[idx].modified_at_state = match modified_at {
            Some(t) => Some(t),
            None => None,
        };
        Ok(true)
    }
}

} // verus!
