//! Core of a small scripting notepad: a session holds open editor tabs with
//! stable integer identifiers, scripts are rewritten so that their console
//! calls become observable, and the output of a run is captured either as one
//! flat log or correlated line by line.

pub mod config;
pub mod fs_sync;
pub mod js_helpers;
pub mod paths;
pub mod rewrite;
pub mod script;
pub mod tabs;
pub mod types;
pub mod utils;
