//! The catalogued entity.

use vstd::prelude::*;

verus! {

/// A catalogued path with what was derived from it.
#[derive(Debug, Clone, PartialEq, Eq)]
pub struct Item {
    /// Assigned by the store, once.
    pub id: i64,
    /// The absolute path; no two items share one.
    pub path: String,
    /// What follows the last `.` of the file name, or empty.
    pub extension: String,
    /// The file name without its extension, until someone edits it.
    pub title: String,
    pub description: Option<String>,
    /// Where a preview image lies, once one was made.
    pub thumbnail: Option<String>,
    /// When the row was inserted, in seconds since the Unix epoch.
    pub added: i64,
    /// When the path was last seen on disk, in seconds since the Unix epoch.
    pub last_verified: i64,
}

} // verus!
