//! Change events and the raw notifications that they are made from.

use vstd::prelude::*;
use vstd::string::StringExecFns;
use crate::resource::Resource;

verus! {

/// What happened to a resource instance.
#[derive(Clone, Copy, Debug, PartialEq, Eq, Structural)]
pub enum EventKind {
    Added,
    Modified,
    Deleted,
    Error,
    BookmarkOrUnknown,
}

/// One change, as handed to the application: its kind and the instance at the
/// time of the change (for a deletion, its last known state).
#[derive(Clone, Debug, PartialEq, Eq)]
pub struct ChangeEvent<P> {
    pub kind: EventKind,
    pub payload: Resource<P>,
}

/// One record of the server's watch stream.
#[derive(Clone, Debug, PartialEq, Eq)]
pub struct RawNotification<P> {
    /// The type as the server wrote it, such as `ADDED`.
    pub kind: String,
    pub resource_version: u64,
    pub object: Resource<P>,
}

/// The kind that a server-reported type string stands for. Every string that
/// is not one of the four known types is a bookmark or unknown.
pub open spec fn kind_of(tag: Seq<char>) -> EventKind {
    if tag == "ADDED"@ {
        EventKind::Added
    } else if tag == "MODIFIED"@ {
        EventKind::Modified
    } else if tag == "DELETED"@ {
        EventKind::Deleted
    } else if tag == "ERROR"@ {
        EventKind::Error
    } else {
        EventKind::BookmarkOrUnknown
    }
}

/// The change event that a raw notification is normalized into.
pub open spec fn normalized<P>(raw: RawNotification<P>) -> ChangeEvent<P> {
    ChangeEvent { kind: kind_of(raw.kind@), payload: raw.object }
}

/// Whether the application gets to see an event of this kind.
pub open spec fn dispatchable(kind: EventKind) -> bool {
    kind != EventKind::BookmarkOrUnknown
}

impl EventKind {
    /// Maps a server-reported type string to its kind.
    pub fn from_tag(tag: &str) -> (kind: EventKind)
        ensures
            kind == kind_of(tag@),
    {
        let tag = String::from_str(tag);
        if tag == String::from_str("ADDED") {
            EventKind::Added
        } else if tag == String::from_str("MODIFIED") {
            EventKind::Modified
        } else if tag == String::from_str("DELETED") {
            EventKind::Deleted
        } else if tag == String::from_str("ERROR") {
            EventKind::Error
        } else {
            EventKind::BookmarkOrUnknown
        }
    }

    /// Whether the application gets to see an event of this kind.
    pub fn is_dispatchable(&self) -> (yes: bool)
        ensures
            yes == dispatchable(*self),
    {
        match self {
            EventKind::BookmarkOrUnknown => false,
            _ => true,
        }
    }
}

impl<P> RawNotification<P> {
    /// Turns the record into a typed change event, keeping the object as it is.
    pub fn normalize(self) -> (event: ChangeEvent<P>)
        ensures
            event == normalized(self),
    {
        let kind = EventKind::from_tag(self.kind.as_str());
        ChangeEvent { kind, payload: self.object }
    }
}

} // verus!
