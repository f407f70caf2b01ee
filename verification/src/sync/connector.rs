//! The inbound connectors: which one serves a source kind, and what a fetch
//! returns.

use vstd::prelude::*;

use crate::models::SourceKind;

verus! {

/// A fetched calendar, ready for parsing.
#[derive(Debug, Clone)]
pub struct FetchedCalendar {
    /// Raw iCalendar text.
    pub ics: String,
    /// Opaque validator for conditional requests next time (ETag or similar).
    pub etag: Option<String>,
}

#[derive(Debug, Clone)]
pub enum FetchResult {
    /// The calendar changed (or we could not tell); here is the new content.
    Changed(FetchedCalendar),
    /// The remote confirmed nothing changed since `source.etag`.
    NotModified,
}

/// The connectors there are.
#[derive(Debug, Clone, Copy, PartialEq, Eq, Structural)]
pub enum Connector {
    /// Any calendar published at an iCalendar URL.
    IcsUrl,
    /// A CalDAV calendar.
    Caldav,
}

/// The connector for a source kind: iCalendar URLs and CalDAV have one;
/// Google and Microsoft not yet.
pub fn connector_for(kind: SourceKind) -> (r: Result<Connector, String>)
    ensures
        kind == SourceKind::IcsUrl ==> r == Ok::<Connector, String>(Connector::IcsUrl),
        kind == SourceKind::Caldav ==> r == Ok::<Connector, String>(Connector::Caldav),
        kind == SourceKind::Google ==> (r matches Err(m) && m@ == "connector Google is not implemented yet; see ROADMAP.md"@),
        kind == SourceKind::Microsoft ==> (r matches Err(m) && m@ == "connector Microsoft is not implemented yet; see ROADMAP.md"@),
{
    match kind {
        SourceKind::IcsUrl => Ok(Connector::IcsUrl),
        SourceKind::Caldav => Ok(Connector::Caldav),
        SourceKind::Google => Err(String::from_str("connector Google is not implemented yet; see ROADMAP.md")),
        SourceKind::Microsoft => Err(String::from_str("connector Microsoft is not implemented yet; see ROADMAP.md")),
    }
}

} // verus!
