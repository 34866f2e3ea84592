//! Application settings and the persisted tab state, as plain values. A
//! host persists them through whatever settings store it uses; only their
//! shape and construction are the session's own concern.

use vstd::prelude::*;
use vstd::string::StringExecFns;

use crate::types::FileTabData;

verus! {

/// The software settings.
pub struct AppConfig {
    /// The current application locale.
    pub locale: String,
    /// Whether the previous window state should be remembered.
    pub save_window_state: bool,
    /// Whether the application uses dark mode.
    pub dark_mode: bool,
    /// Whether a load error occurred.
    pub error: bool,
    /// The error message, if one occurred.
    pub error_message: String,
}

impl Default for AppConfig {
    /// The default configuration: English locale, nothing remembered, no
    /// error.
    fn default() -> (r: AppConfig)
        ensures
            r.locale@ == "en"@,
            !r.save_window_state,
            !r.dark_mode,
            !r.error,
            r.error_message@ =~= Seq::<char>::empty(),
    {
        AppConfig {
            locale: String::from_str("en"),
            save_window_state: false,
            dark_mode: false,
            error: false,
            error_message: String::new(),
        }
    }
}

impl AppConfig {
    /// A configuration that records a load error with the given message,
    /// with every other field at its default.
    pub fn error(error: String) -> (r: AppConfig)
        ensures
            r.error,
            r.error_message == error,
            r.locale@ == "en"@,
            !r.save_window_state,
            !r.dark_mode,
    {
        AppConfig { error: true, error_message: error, ..Default::default() }
    }
}

/// The persisted tab state: the open files, the allocated identifiers and
/// the active tab, as last saved.
pub struct FileState {
    /// The list of files that have been opened.
    pub files: Vec<FileTabData>,
    /// The identifiers allocated to the open files.
    pub file_ids: Vec<i32>,
    /// The id of the tab that was active when the state was saved.
    pub active_tab_id: i32,
}

impl Default for FileState {
    /// The empty tab state: no files, no identifiers, no active tab.
    fn default() -> (r: FileState)
        ensures
            r.files@ =~= Seq::<FileTabData>::empty(),
            r.file_ids@ =~= Seq::<i32>::empty(),
            r.active_tab_id == 0,
    {
        FileState { files: Vec::new(), file_ids: Vec::new(), active_tab_id: 0 }
    }
}

} // verus!
