//! When sources are synced again, and what one sync reports.

use vstd::prelude::*;

use crate::models::SyncStatus;
use crate::text::{decimal, decimal_text, lower_seq, to_ascii_lowercase};
use crate::timefmt::{is_known_zone, known_zone};

verus! {

/// A sync that has been "running" longer than this many seconds is
/// considered abandoned (for example the process crashed) and is claimed
/// again.
pub const STALE_RUN_SECS: i64 = 900;

/// Seconds until the next sync of a source: its interval (at least a
/// minute); after a failure, at least five minutes.
pub open spec fn next_sync_delay(interval_secs: i32, failed: bool) -> int {
    let i = if interval_secs < 60 { 60 } else { interval_secs as int };
    if failed && i < 300 { 300 } else { i }
}

/// Seconds until the next sync of a source.
pub fn sync_delay(interval_secs: i32, failed: bool) -> (r: i64)
    ensures
        r == next_sync_delay(interval_secs, failed),
{
    let i: i64 = if interval_secs < 60 { 60 } else { interval_secs as i64 };
    if failed && i < 300 { 300 } else { i }
}

/// How many sources one scheduler tick claims: the concurrency, at least one.
pub fn claim_limit(concurrency: usize) -> (r: usize)
    ensures
        r == if concurrency < 1 { 1 } else { concurrency },
{
    if concurrency < 1 { 1 } else { concurrency }
}

/// Seconds between scheduler ticks: at least five.
pub fn tick_secs(configured: u64) -> (r: u64)
    ensures
        r == if configured < 5 { 5 } else { configured },
{
    if configured < 5 { 5 } else { configured }
}

/// The addresses that identify a source's owner: the account's address and
/// any extra ones the source lists, lower-cased.
pub open spec fn owner_addresses(email: Seq<char>, extra: Seq<Seq<char>>) -> Seq<Seq<char>> {
    seq![lower_seq(email)] + Seq::new(extra.len(), |i: int| lower_seq(extra[i]))
}

/// The addresses that identify a source's owner.
pub fn owner_emails(email: &str, extra: &Vec<String>) -> (r: Vec<String>)
    ensures
        r.deep_view() == owner_addresses(email@, extra.deep_view()),
{
    let mut out: Vec<String> = Vec::new();
    out.push(to_ascii_lowercase(email));
    let mut i: usize = 0;
    while i < extra.len()
        invariant
            i <= extra.len(),
            out.deep_view() == seq![lower_seq(email@)] + Seq::new(i as nat, |k: int| lower_seq(extra.deep_view()[k])),
        decreases extra.len() - i,
    {
        let ghost before = out.deep_view();
        let l = to_ascii_lowercase(extra[i].as_str());
        out.push(l);
        assert(out.deep_view() =~= before.push(l@));
        assert(extra.deep_view()[i as int] == extra@[i as int]@);
        assert(out.deep_view() =~= seq![lower_seq(email@)] + Seq::new((i + 1) as nat, |k: int| lower_seq(extra.deep_view()[k])));
        i = i + 1;
    }
    assert(Seq::new(extra.len() as nat, |k: int| lower_seq(extra.deep_view()[k])) =~= Seq::new(
        extra.deep_view().len(),
        |k: int| lower_seq(extra.deep_view()[k]),
    ));
    out
}

/// The zone floating times of a source are read in: the owner's zone when
/// the database knows it, else UTC.
pub open spec fn owner_zone(name: Seq<char>) -> Seq<char> {
    if known_zone(name) { name } else { "UTC"@ }
}

/// The zone floating times of a source are read in.
pub fn zone_or_utc(name: &str) -> (r: String)
    ensures
        r@ == owner_zone(name@),
{
    if is_known_zone(name) { String::from_str(name) } else { String::from_str("UTC") }
}

/// The summary of a successful sync.
pub open spec fn sync_summary_text(events: nat, occurrences: nat, removed: nat, skipped: nat) -> Seq<char> {
    decimal_text(events) + " events, "@ + decimal_text(occurrences) + " occurrences, "@ + decimal_text(removed) + " removed, "@
        + decimal_text(skipped) + " skipped"@
}

/// "N events, N occurrences, N removed, N skipped".
pub fn sync_summary(events: usize, occurrences: usize, removed: usize, skipped: usize) -> (r: String)
    ensures
        r@ == sync_summary_text(events as nat, occurrences as nat, removed as nat, skipped as nat),
{
    let mut s = decimal(events as u64);
    s.append(" events, ");
    s.append(decimal(occurrences as u64).as_str());
    s.append(" occurrences, ");
    s.append(decimal(removed as u64).as_str());
    s.append(" removed, ");
    s.append(decimal(skipped as u64).as_str());
    s.append(" skipped");
    s
}


/// What is recorded of a sync or push run once it ended.
#[derive(Debug)]
pub struct RunRecord {
    /// The status the run leaves.
    pub status: SyncStatus,
    /// The error to show, cleared after a success.
    pub error: Option<String>,
    /// Seconds until the next run is due.
    pub next_in_secs: i64,
    /// Whether the time of the last success moves to now.
    pub succeeded: bool,
    /// Whether the owner's targets are pushed on the next tick.
    pub push_targets: bool,
}

/// What a run of a source (`is_source`) or target that ended with
/// `outcome` (a summary, or the error message) records: succeeded and next
/// due after the interval, with a source's fresh data pushed to its owner's
/// targets; or failed with the message and backed off to at least five
/// minutes.
pub open spec fn run_recorded(r: RunRecord, outcome: Result<Seq<char>, Seq<char>>, interval_secs: i32, is_source: bool) -> bool {
    match outcome {
        Ok(_) => {
            &&& r.status == SyncStatus::Succeeded
            &&& r.error is None
            &&& r.next_in_secs == next_sync_delay(interval_secs, false)
            &&& r.succeeded
            &&& r.push_targets == is_source
        },
        Err(e) => {
            &&& r.status == SyncStatus::Error
            &&& r.error.deep_view() == Some(e)
            &&& r.next_in_secs == next_sync_delay(interval_secs, true)
            &&& !r.succeeded
            &&& !r.push_targets
        },
    }
}

/// Decide what a finished run records.
pub fn run_record(outcome: Result<String, String>, interval_secs: i32, is_source: bool) -> (r: RunRecord)
    ensures
        run_recorded(
            r,
            match outcome {
                Ok(m) => Ok::<Seq<char>, Seq<char>>(m@),
                Err(e) => Err::<Seq<char>, Seq<char>>(e@),
            },
            interval_secs,
            is_source,
        ),
{
    match outcome {
        Ok(_) => RunRecord {
            status: SyncStatus::Succeeded,
            error: None,
            next_in_secs: sync_delay(interval_secs, false),
            succeeded: true,
            push_targets: is_source,
        },
        Err(e) => RunRecord {
            status: SyncStatus::Error,
            error: Some(e),
            next_in_secs: sync_delay(interval_secs, true),
            succeeded: false,
            push_targets: false,
        },
    }
}

} // verus!
