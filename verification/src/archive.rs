//! Archived notes.  An [`ArchiveEntry`] is a piece of long-lived text with
//! optional categories and a counter of how often it has been opened.  All
//! archive rows share the partition key `"Archive::Entry"`; the timestamp
//! sort key identifies each.

use vstd::prelude::*;

verus! {

/// One archived note.
#[derive(Debug, Clone)]
pub struct ArchiveEntry {
    pub pk: String,
    pub sk: String,
    pub content: String,
    pub categories: Option<Vec<String>>,
    pub read_times: u64,
}

/// The fields a caller supplies to archive a note.
#[derive(Debug, Clone)]
pub struct ArchiveEntryFC {
    pub content: String,
    pub categories: Option<Vec<String>>,
}

impl ArchiveEntry {
    /// Builds the row to persist for a note archived at `now`, never opened
    /// yet.
    pub fn new(fc: ArchiveEntryFC, now: String) -> (r: ArchiveEntry)
        ensures
            r.pk@ == "Archive::Entry"@,
            r.sk == now,
            r.content == fc.content,
            r.categories == fc.categories,
            r.read_times == 0,
    {
        ArchiveEntry {
            pk: "Archive::Entry".to_owned(),
            sk: now,
            content: fc.content,
            categories: fc.categories,
            read_times: 0,
        }
    }

    /// Counts one more opening of the note; everything else is unchanged.
    pub fn increment_read_times(&mut self)
        requires
            old(self).read_times < u64::MAX,
        ensures
            final(self).read_times == old(self).read_times + 1,
            final(self).pk == old(self).pk,
            final(self).sk == old(self).sk,
            final(self).content == old(self).content,
            final(self).categories == old(self).categories,
    {
        self.read_times += 1;
    }
}

} // verus!
