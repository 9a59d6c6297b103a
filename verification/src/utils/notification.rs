//! Correlation identifiers for backup-outcome notifications.

use crate::config::ConfigId;
use vstd::prelude::*;
use vstd::string::StringExecFns;

verus! {

/// Which note about a finished backup a notification carries. Its text is
/// the notification-correlation identifier: a later note about the same
/// configuration replaces the earlier one.
#[derive(Debug)]
pub enum BackupNote<'a> {
    Warnings(&'a ConfigId),
    Failed(&'a ConfigId),
}

/// The correlation identifier of a note.
pub open spec fn backup_note_text(note: BackupNote<'_>) -> Seq<char> {
    match note {
        BackupNote::Warnings(id) => "backup-warnings-"@ + id.0@,
        BackupNote::Failed(id) => "backup-failed-"@ + id.0@,
    }
}

impl<'a> BackupNote<'a> {
    /// The note rendered as its correlation identifier.
    pub fn to_text(&self) -> (r: String)
        ensures
            r@ == backup_note_text(*self),
    {
        match self {
            BackupNote::Warnings(id) => {
                let mut out = "backup-warnings-".to_owned();
                out.append(id.0.as_str());
                out
            },
            BackupNote::Failed(id) => {
                let mut out = "backup-failed-".to_owned();
                out.append(id.0.as_str());
                out
            },
        }
    }
}

} // verus!
