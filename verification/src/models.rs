//! The enumerations shared by the store, the sharing rules and the API.

use vstd::prelude::*;

verus! {

/// The calendar owner's participation status in an event.
#[derive(Clone, Copy, Debug, PartialEq, Eq, Structural)]
pub enum Rsvp {
    Organizer,
    Accepted,
    Tentative,
    Declined,
    NeedsAction,
    Unknown,
}

/// The status an event's organizer gave it.
#[derive(Clone, Copy, Debug, PartialEq, Eq, Structural)]
pub enum EventStatus {
    Confirmed,
    Tentative,
    Cancelled,
}

/// Whether an event blocks time (opaque) or not (transparent, "free").
#[derive(Clone, Copy, Debug, PartialEq, Eq, Structural)]
pub enum Transparency {
    Opaque,
    Transparent,
}

/// Kind of an inbound calendar source.
#[derive(Clone, Copy, Debug, PartialEq, Eq, Structural)]
pub enum SourceKind {
    IcsUrl,
    Caldav,
    Google,
    Microsoft,
}

/// Outcome of the last sync or push of a source or target.
#[derive(Clone, Copy, Debug, PartialEq, Eq, Structural)]
pub enum SyncStatus {
    Never,
    Succeeded,
    Error,
    Running,
}

/// State of a friendship between two accounts.
#[derive(Clone, Copy, Debug, PartialEq, Eq, Structural)]
pub enum FriendshipStatus {
    Pending,
    Accepted,
    Declined,
}

/// Who a share is for: an accepted friend or whoever holds a secret link.
#[derive(Clone, Copy, Debug, PartialEq, Eq, Structural)]
pub enum AudienceKind {
    Friend,
    Link,
}

/// Kind of an outbound write-back target.
#[derive(Clone, Copy, Debug, PartialEq, Eq, Structural)]
pub enum TargetKind {
    Caldav,
    Google,
    Microsoft,
}

/// What we recorded of an event written to a target calendar: the
/// occurrence it mirrors, where it lives remotely and the hash of the text
/// we wrote.
#[derive(Debug)]
pub struct MirroredEvent {
    pub instance_id: u128,
    pub remote_href: String,
    pub content_hash: String,
}

} // verus!
