//! Journal kind definitions.  An [`EntryProto`] names one journal kind
//! (`"Entry::Dream"`) and its display title, and lives under one of two
//! partition keys, `"EntryProto::Active"` or `"EntryProto::Inactive"`.  The
//! functions here decide creation and state changes; the surrounding service
//! performs the store reads and writes they ask for.

use vstd::prelude::*;

use crate::text::{is_prefix_of, starts_with, str_eq};

verus! {

/// A journal kind definition.  `sk` is the identifier of the kind it
/// describes; `pk` is its activity state.
#[derive(Debug, Clone)]
pub struct EntryProto {
    pub pk: String,
    pub sk: String,
    pub title: String,
}

/// The fields a caller supplies to define a journal kind.
#[derive(Debug, Clone)]
pub struct EntryProtoFC {
    pub sk: String,
    pub title: String,
}

/// Why a create or state change of a journal kind definition is refused.
#[derive(Debug, Clone, Copy, PartialEq, Eq, Structural)]
pub enum EntryProtoError {
    /// The sort key is not a journal kind identifier.
    InvalidSortKey,
    /// The definition to move from was not found.
    SourceMissing,
    /// A definition already sits in the target state.
    TargetAlreadyExists,
}

impl EntryProto {
    /// Builds the active definition a newly supplied journal kind gets.
    pub fn new(entry_proto_fc: EntryProtoFC) -> (r: EntryProto)
        ensures
            r.pk@ == "EntryProto::Active"@,
            r.sk == entry_proto_fc.sk,
            r.title == entry_proto_fc.title,
    {
        EntryProto {
            pk: "EntryProto::Active".to_owned(),
            sk: entry_proto_fc.sk,
            title: entry_proto_fc.title,
        }
    }

    /// Decides a request to register a journal kind, given whether an
    /// inactive definition with the same sort key exists: a kind once moved
    /// to inactive may not be re-registered.
    pub fn put_item(inactive_exists: bool, entry_proto_fc: EntryProtoFC) -> (r: Result<
        EntryProto,
        EntryProtoError,
    >)
        ensures
            r is Err <==> inactive_exists,
            r is Err ==> r == Err::<EntryProto, EntryProtoError>(
                EntryProtoError::TargetAlreadyExists,
            ),
            r matches Ok(e) ==> e.pk@ == "EntryProto::Active"@ && e.sk == entry_proto_fc.sk
                && e.title == entry_proto_fc.title,
    {
        if inactive_exists {
            return Err(EntryProtoError::TargetAlreadyExists);
        }
        Ok(EntryProto::new(entry_proto_fc))
    }

    /// Decides a request to mark the journal kind `sk` inactive, given the
    /// active definition that was found (if any) and whether an inactive one
    /// already exists: yields the definition to persist under the inactive
    /// state; the caller then deletes the active one.
    pub fn set_as_inactive(sk: String, found_active: Option<&EntryProto>, inactive_exists: bool)
        -> (r: Result<EntryProto, EntryProtoError>)
        ensures
            r matches Err(EntryProtoError::InvalidSortKey) <==> !is_prefix_of("Entry::"@, sk@),
            is_prefix_of("Entry::"@, sk@) ==> ((r matches Err(EntryProtoError::SourceMissing))
                <==> found_active is None),
            is_prefix_of("Entry::"@, sk@) && found_active is Some ==> ((r matches Err(
                EntryProtoError::TargetAlreadyExists,
            )) <==> inactive_exists),
            r matches Ok(e) ==> (e.pk@ == "EntryProto::Inactive"@ && e.sk == sk
                && found_active is Some && e.title == found_active.unwrap().title),
            is_prefix_of("Entry::"@, sk@) && found_active is Some && !inactive_exists ==> r is Ok,
    {
        if !starts_with(sk.as_str(), "Entry::") {
            return Err(EntryProtoError::InvalidSortKey);
        }
        let active = match found_active {
            Some(p) => p,
            None => {
                return Err(EntryProtoError::SourceMissing);
            },
        };
        if inactive_exists {
            return Err(EntryProtoError::TargetAlreadyExists);
        }
        Ok(EntryProto { pk: "EntryProto::Inactive".to_owned(), sk, title: active.title.clone() })
    }

    /// Decides a request to mark the journal kind `sk` active; the mirror
    /// image of [`EntryProto::set_as_inactive`].
    pub fn set_as_active(sk: String, found_inactive: Option<&EntryProto>, active_exists: bool)
        -> (r: Result<EntryProto, EntryProtoError>)
        ensures
            r matches Err(EntryProtoError::InvalidSortKey) <==> !is_prefix_of("Entry::"@, sk@),
            is_prefix_of("Entry::"@, sk@) ==> ((r matches Err(
                EntryProtoError::TargetAlreadyExists,
            )) <==> active_exists),
            is_prefix_of("Entry::"@, sk@) && !active_exists ==> ((r matches Err(
                EntryProtoError::SourceMissing,
            )) <==> found_inactive is None),
            r matches Ok(e) ==> (e.pk@ == "EntryProto::Active"@ && e.sk == sk
                && found_inactive is Some && e.title == found_inactive.unwrap().title),
            is_prefix_of("Entry::"@, sk@) && !active_exists && found_inactive is Some ==> r is Ok,
    {
        if !starts_with(sk.as_str(), "Entry::") {
            return Err(EntryProtoError::InvalidSortKey);
        }
        if active_exists {
            return Err(EntryProtoError::TargetAlreadyExists);
        }
        let inactive = match found_inactive {
            Some(p) => p,
            None => {
                return Err(EntryProtoError::SourceMissing);
            },
        };
        Ok(EntryProto { pk: "EntryProto::Active".to_owned(), sk, title: inactive.title.clone() })
    }

    /// A valid definition partition key: one of the two activity states.
    pub fn is_valid_state_pk(pk: &str) -> (r: bool)
        ensures
            r == (pk@ == "EntryProto::Active"@ || pk@ == "EntryProto::Inactive"@),
    {
        str_eq(pk, "EntryProto::Active") || str_eq(pk, "EntryProto::Inactive")
    }

    /// A valid definition sort key: a journal kind identifier.
    pub fn is_valid_entry_sk(sk: &str) -> (r: bool)
        ensures
            r == is_prefix_of("Entry::"@, sk@),
    {
        starts_with(sk, "Entry::")
    }

    /// A deletable definition partition key: any definition state.
    pub fn is_valid_proto_pk_prefix(pk: &str) -> (r: bool)
        ensures
            r == is_prefix_of("EntryProto::"@, pk@),
    {
        starts_with(pk, "EntryProto::")
    }
}

} // verus!
