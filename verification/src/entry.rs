//! Journal entries.  An [`Entry`] is one dated piece of free text logged
//! under a journal kind (`"Entry::Dream"`); its definition counterpart lives
//! in [`crate::entryproto`].

use vstd::prelude::*;

use crate::entryproto::EntryProto;
use crate::text::{is_prefix_of, starts_with};

verus! {

/// One journal entry.  `pk` is the journal kind; `sk` is the calendar date it
/// was written on.
#[derive(Debug, Clone)]
pub struct Entry {
    pub pk: String,
    pub sk: String,
    pub title: String,
    pub content: String,
}

/// The fields a caller supplies to write a journal entry: the journal kind
/// and the text.
#[derive(Debug, Clone)]
pub struct EntryFC {
    pub pk: String,
    pub content: String,
}

/// Why writing a journal entry is refused.
#[derive(Debug, Clone, Copy, PartialEq, Eq, Structural)]
pub enum EntryError {
    /// No active definition exists for the requested journal kind.
    ProtoNotFound,
}

impl Entry {
    /// Assembles the entry to persist for a request to write under the
    /// journal kind of `entry_fc` today, given the kind's definition (as
    /// found in the store): without a definition the request is refused;
    /// otherwise the entry takes the definition's identifier and title, the
    /// supplied text, and today's date.
    pub fn new(proto: Option<&EntryProto>, entry_fc: EntryFC, today: String) -> (r: Result<
        Entry,
        EntryError,
    >)
        ensures
            r is Err <==> proto is None,
            r is Err ==> r == Err::<Entry, EntryError>(EntryError::ProtoNotFound),
            proto matches Some(p) ==> (r matches Ok(e) && e.pk == p.sk && e.sk == today && e.title
                == p.title && e.content == entry_fc.content),
    {
        let entry_proto = match proto {
            Some(p) => p,
            None => {
                return Err(EntryError::ProtoNotFound);
            },
        };
        Ok(
            Entry {
                pk: entry_proto.sk.clone(),
                sk: today,
                title: entry_proto.title.clone(),
                content: entry_fc.content,
            },
        )
    }

    /// The lookup keys for reading one day's entry of every given journal
    /// kind: each kind's identifier paired with the date.
    pub fn keys_for_date(protos: &Vec<EntryProto>, date: &String) -> (r: Vec<(String, String)>)
        ensures
            r@.len() == protos@.len(),
            forall|i: int|
                0 <= i < r@.len() ==> (#[trigger] r@[i]).0 == protos@[i].sk && r@[i].1 == *date,
    {
        let mut keys: Vec<(String, String)> = Vec::new();
        let mut i: usize = 0;
        while i < protos.len()
            invariant
                i <= protos@.len(),
                keys@.len() == i,
                forall|j: int|
                    0 <= j < i ==> (#[trigger] keys@[j]).0 == protos@[j].sk && keys@[j].1 == *date,
            decreases protos@.len() - i,
        {
            keys.push((protos[i].sk.clone(), date.clone()));
            i += 1;
        }
        keys
    }

    /// A valid journal entry partition key: a journal kind identifier.
    pub fn is_valid_pk(pk: &str) -> (r: bool)
        ensures
            r == is_prefix_of("Entry::"@, pk@),
    {
        starts_with(pk, "Entry::")
    }
}

/// An active journal kind paired with its entries of the trailing week.
pub struct ProtoWithEntries {
    pub proto: EntryProto,
    pub entries: Vec<Entry>,
}

} // verus!
