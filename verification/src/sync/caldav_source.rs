//! Inbound connector for CalDAV calendars (iCloud, Fastmail, Nextcloud,
//! Radicale, Google via CalDAV, …).

use vstd::prelude::*;

use crate::sync::caldav::{checked_config, validate_config, CalDavConfig};
use crate::text::{trim, trim_seq};
use crate::urls::TextOrMessage;

verus! {

/// The CalDAV connector.
#[derive(Debug, Clone, Copy)]
pub struct CalDavConnector;

/// Each resource is its own VCALENDAR; the parser accepts a sequence. An
/// empty collection is an empty calendar.
pub open spec fn joined_objects(objects: Seq<(Seq<char>, Seq<char>)>) -> Seq<char> {
    if objects.len() == 0 {
        "BEGIN:VCALENDAR\r\nVERSION:2.0\r\nEND:VCALENDAR\r\n"@
    } else {
        concat_objects(objects)
    }
}

/// The resources' texts, trimmed, each followed by CRLF.
pub open spec fn concat_objects(objects: Seq<(Seq<char>, Seq<char>)>) -> Seq<char>
    decreases objects.len(),
{
    if objects.len() == 0 {
        Seq::empty()
    } else {
        concat_objects(objects.drop_last()) + trim_seq(objects.last().1) + "\r\n"@
    }
}

impl CalDavConnector {
    /// Validate a CalDAV configuration for a source: it must name a calendar.
    pub fn validate_config(&self, config: CalDavConfig) -> (r: Result<CalDavConfig, String>)
        ensures
            r matches Ok(c) ==> checked_config(config) == TextOrMessage::Ok(c.url@) && c.calendar_url is Some && c.username
                == config.username && c.password == config.password && c.calendar_url == config.calendar_url,
            r matches Err(e) ==> checked_config(config) == TextOrMessage::Err(e@) || (checked_config(config) is Ok
                && config.calendar_url is None && e@ == "pick a calendar first (calendar_url is missing)"@),
            checked_config(config) is Ok && config.calendar_url is Some ==> r is Ok,
    {
        let cfg = validate_config(config)?;
        if cfg.calendar_url.is_none() {
            return Err(String::from_str("pick a calendar first (calendar_url is missing)"));
        }
        Ok(cfg)
    }

    /// Whether the collection is unchanged: the server gave a change tag
    /// and it is the one stored.
    pub fn not_modified(ctag: &Option<String>, stored: &Option<String>) -> (r: bool)
        ensures
            r == (ctag is Some && ctag.deep_view() == stored.deep_view()),
    {
        match (ctag, stored) {
            (Some(a), Some(b)) => crate::text::str_equals(a.as_str(), b.as_str()),
            _ => false,
        }
    }

    /// The calendar text of the collection's resources.
    pub fn calendar_text(objects: &Vec<(String, String)>) -> (r: String)
        ensures
            r@ == joined_objects(objects.deep_view()),
    {
        let mut ics = String::new();
        let mut i: usize = 0;
        assert(objects.deep_view().take(0) =~= Seq::<(Seq<char>, Seq<char>)>::empty());
        while i < objects.len()
            invariant
                i <= objects.len(),
                ics@ == concat_objects(objects.deep_view().take(i as int)),
            decreases objects.len() - i,
        {
            assert(objects.deep_view().take(i + 1).drop_last() =~= objects.deep_view().take(i as int));
            assert(objects.deep_view().take(i + 1).last() == objects.deep_view()[i as int]);
            let t = trim(objects[i].1.as_str());
            ics.append(t.as_str());
            ics.append("\r\n");
            i = i + 1;
        }
        assert(objects.deep_view().take(objects.len() as int) =~= objects.deep_view());
        if objects.len() == 0 {
            return String::from_str("BEGIN:VCALENDAR\r\nVERSION:2.0\r\nEND:VCALENDAR\r\n");
        }
        ics
    }
}

} // verus!
