//! The ordered playlist that the controller advances through.

use vstd::prelude::*;

verus! {

/// One entry of the playlist: where the media lives and what to call it in
/// notifications.  The label may be empty (scanner fallback) or carry the
/// text resolved from a list-file entry.
#[derive(Debug, Clone, PartialEq)]
pub struct MediaItem {
    pub path: String,
    pub label: String,
}

impl MediaItem {
    /// The abstract value of an item: its path and label as character
    /// sequences.
    pub open spec fn view(&self) -> (Seq<char>, Seq<char>) {
        (self.path@, self.label@)
    }

    pub fn new(path: String, label: String) -> (item: MediaItem)
        ensures
            item.path@ == path@,
            item.label@ == label@,
    {
        MediaItem { path, label }
    }
}

} // verus!
