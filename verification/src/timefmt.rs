//! Calendar arithmetic that is delegated to `chrono` and `chrono-tz`:
//! rendering instants as iCalendar text, reading iCalendar date and
//! date-time text, and converting wall-clock times of a named zone.
//!
//! Instants are whole seconds since the Unix epoch, UTC. The results of the
//! calendar conversions are named, not spelled out: they are whatever the
//! proleptic Gregorian calendar and the IANA zone database say.

use chrono::TimeZone;
use vstd::prelude::*;

verus! {

/// The earliest instant `chrono` represents (-262143-01-01T00:00:00Z).
pub const EARLIEST_INSTANT: i64 = -8334601315200;

/// The latest instant `chrono` represents (+262142-12-31T23:59:59Z).
pub const LATEST_INSTANT: i64 = 8210266876799;

/// Whether an instant lies in the range `chrono` represents.
pub open spec fn representable(t: int) -> bool {
    EARLIEST_INSTANT <= t <= LATEST_INSTANT
}

/// The UTC date-time text `YYYYMMDDTHHMMSSZ` of an instant.
pub uninterp spec fn utc_stamp_text(secs: i64) -> Seq<char>;

/// The UTC date text `YYYYMMDD` of an instant.
pub uninterp spec fn utc_date_text(secs: i64) -> Seq<char>;

/// Formats an instant with `chrono`'s `%Y%m%dT%H%M%SZ`.
#[verifier::external_body]
pub(crate) fn format_utc_stamp(secs: i64) -> (s: String)
    requires
        representable(secs as int),
    ensures
        s@ == utc_stamp_text(secs),
{
    chrono::DateTime::from_timestamp(secs, 0).unwrap().format("%Y%m%dT%H%M%SZ").to_string()
}

/// The RFC 3339 text `chrono` gives an instant in UTC, such as
/// `2026-09-14T07:00:00+00:00`.
pub uninterp spec fn rfc3339_text(secs: i64) -> Seq<char>;

/// Formats an instant with `chrono::DateTime::<Utc>::to_rfc3339`.
#[verifier::external_body]
pub(crate) fn format_rfc3339(secs: i64) -> (s: String)
    requires
        representable(secs as int),
    ensures
        s@ == rfc3339_text(secs),
{
    chrono::DateTime::from_timestamp(secs, 0).unwrap().to_rfc3339()
}

/// Formats an instant with `chrono`'s `%Y%m%d`.
#[verifier::external_body]
pub(crate) fn format_utc_date(secs: i64) -> (s: String)
    requires
        representable(secs as int),
    ensures
        s@ == utc_date_text(secs),
{
    chrono::DateTime::from_timestamp(secs, 0).unwrap().format("%Y%m%d").to_string()
}

} // verus!

verus! {

/// An instant, or a message saying why there is none.
pub type InstantOrMessage = Result<i64, Seq<char>>;

/// The instant (UTC midnight) of an iCalendar DATE `YYYYMMDD`, or `chrono`'s
/// message on why the text is not one.
pub uninterp spec fn ical_date_value(text: Seq<char>) -> Result<i64, Seq<char>>;

/// The wall-clock time of an iCalendar DATE-TIME `YYYYMMDDTHHMMSS`, read as
/// if it were UTC, or `chrono`'s message on why the text is not one.
pub uninterp spec fn ical_wall_clock(text: Seq<char>) -> Result<i64, Seq<char>>;

/// Whether the IANA zone database of `chrono-tz` has a zone of this name.
pub uninterp spec fn known_zone(name: Seq<char>) -> bool;

/// The instant at which the wall clock of zone `zone` shows `wall` (a
/// wall-clock time read as if it were UTC); the earlier one when the clock
/// shows it twice, none when it skips it or the zone is unknown.
pub uninterp spec fn zone_instant(zone: Seq<char>, wall: i64) -> Option<i64>;

/// The wall-clock text `YYYYMMDDTHHMMSS` of an instant in zone `zone`.
pub uninterp spec fn zone_wall_text(zone: Seq<char>, secs: i64) -> Option<Seq<char>>;

/// Reads a DATE with `chrono::NaiveDate::parse_from_str(text, "%Y%m%d")`, at
/// midnight UTC.
#[verifier::external_body]
pub(crate) fn parse_ical_date(text: &str) -> (r: Result<i64, String>)
    ensures
        r matches Ok(t) ==> ical_date_value(text@) == InstantOrMessage::Ok(t) && representable(t as int),
        r matches Err(e) ==> ical_date_value(text@) == InstantOrMessage::Err(e@),
{
    match chrono::NaiveDate::parse_from_str(text, "%Y%m%d") {
        Ok(d) => Ok(d.and_hms_opt(0, 0, 0).unwrap().and_utc().timestamp()),
        Err(e) => Err(e.to_string()),
    }
}

/// Reads a DATE-TIME with `chrono::NaiveDateTime::parse_from_str(text,
/// "%Y%m%dT%H%M%S")`, as if it were UTC.
#[verifier::external_body]
pub(crate) fn parse_ical_wall_clock(text: &str) -> (r: Result<i64, String>)
    ensures
        r matches Ok(t) ==> ical_wall_clock(text@) == InstantOrMessage::Ok(t) && representable(t as int),
        r matches Err(e) ==> ical_wall_clock(text@) == InstantOrMessage::Err(e@),
{
    match chrono::NaiveDateTime::parse_from_str(text, "%Y%m%dT%H%M%S") {
        Ok(d) => Ok(d.and_utc().timestamp()),
        Err(e) => Err(e.to_string()),
    }
}

/// Looks a zone up by exact name (`<chrono_tz::Tz as FromStr>::from_str`).
#[verifier::external_body]
pub(crate) fn is_known_zone(name: &str) -> (r: bool)
    ensures
        r == known_zone(name@),
{
    name.parse::<chrono_tz::Tz>().is_ok()
}

/// Parses a zone name (`<chrono_tz::Tz as FromStr>::from_str`, an exact
/// lookup among the zone names) and gives that zone's `name()`, which is
/// the name looked up; none exactly when the name does not parse.
#[verifier::external_body]
pub(crate) fn canonical_zone(name: &str) -> (r: Option<String>)
    ensures
        r is Some <==> known_zone(name@),
        r matches Some(n) ==> n@ == name@,
{
    name.parse::<chrono_tz::Tz>().ok().map(|t| t.name().to_string())
}

/// The name of `chrono_tz::UTC`, a zone the database has.
#[verifier::external_body]
pub(crate) fn utc_zone_name() -> (r: String)
    ensures
        r@ == "UTC"@,
        known_zone(r@),
{
    chrono_tz::UTC.name().to_string()
}

/// Maps a wall-clock time of a zone to an instant with `chrono-tz`
/// (`TimeZone::from_local_datetime`, single result or else the earliest).
#[verifier::external_body]
pub(crate) fn zone_to_instant(zone: &str, wall: i64) -> (r: Option<i64>)
    ensures
        r == zone_instant(zone@, wall),
        r matches Some(t) ==> representable(t as int),
{
    let z = zone.parse::<chrono_tz::Tz>().ok()?;
    let naive = chrono::DateTime::from_timestamp(wall, 0)?.naive_utc();
    z.from_local_datetime(&naive).single().or_else(|| z.from_local_datetime(&naive).earliest()).map(|d| d.timestamp())
}

/// Formats an instant as wall-clock time of a zone with `chrono-tz`
/// (`with_timezone`, then `%Y%m%dT%H%M%S`).
#[verifier::external_body]
pub(crate) fn format_zone_wall(zone: &str, secs: i64) -> (r: Option<String>)
    ensures
        r.deep_view() == zone_wall_text(zone@, secs),
        known_zone(zone@) && representable(secs as int) ==> r is Some,
{
    let z = zone.parse::<chrono_tz::Tz>().ok()?;
    Some(chrono::DateTime::from_timestamp(secs, 0)?.with_timezone(&z).format("%Y%m%dT%H%M%S").to_string())
}

} // verus!
