//! The decisions behind the HTTP API: what a request may do and what it is
//! answered. Routing, the database and serialization are the caller's.

use vstd::prelude::*;

use crate::error::{is_bad_request, AppError};
use crate::timefmt::representable;

pub mod auth;
pub mod friends;
pub mod public;
pub mod shares;
pub mod sources;
pub mod targets;

verus! {

/// Shared query parameters for time windows (seconds since the epoch).
#[derive(Debug, Clone, Copy)]
pub struct WindowQuery {
    pub from: Option<i64>,
    pub to: Option<i64>,
}

/// The longest window a request may ask for, in seconds (400 days).
pub const MAX_WINDOW_SECS: i64 = 34560000;

/// The window a request asks for: from `from` (default now) to `to`
/// (default two weeks after the start); or the message refusing it.
pub open spec fn requested_window(q: WindowQuery, now: i64) -> Result<(int, int), Seq<char>> {
    let from: int = match q.from {
        Some(f) => f as int,
        None => now as int,
    };
    let to: int = match q.to {
        Some(t) => t as int,
        None => from + 14 * 86400,
    };
    if to <= from {
        Err("'to' must be after 'from'"@)
    } else if to - from > MAX_WINDOW_SECS {
        Err("window may not exceed 400 days"@)
    } else {
        Ok((from, to))
    }
}

impl WindowQuery {
    /// Resolve to a concrete window; defaults to "now .. +14 days".
    pub fn resolve(&self, now: i64) -> (r: Result<(i64, i64), AppError>)
        requires
            representable(now as int),
            self.from matches Some(f) ==> representable(f as int),
            self.to matches Some(t) ==> representable(t as int),
            self.to is None ==> representable(
                match self.from {
                    Some(f) => f as int,
                    None => now as int,
                } + 14 * 86400,
            ),
        ensures
            r matches Ok(w) ==> requested_window(*self, now) == Ok::<(int, int), Seq<char>>((w.0 as int, w.1 as int)),
            r matches Err(e) ==> requested_window(*self, now) matches Err(m) && is_bad_request(e, m),
    {
        let from = match self.from {
            Some(f) => f,
            None => now,
        };
        let to = match self.to {
            Some(t) => t,
            None => from + 14 * 86400,
        };
        if to <= from {
            return Err(AppError::bad_request("'to' must be after 'from'"));
        }
        if to - from > MAX_WINDOW_SECS {
            return Err(AppError::bad_request("window may not exceed 400 days"));
        }
        Ok((from, to))
    }
}

} // verus!
